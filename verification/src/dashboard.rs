//! The dashboard page that the server hands out at `/`.
use vstd::prelude::*;

use crate::http::{ContentType, Reply, text_reply, ReplyView};
use crate::text::{decimal, push_decimal};

verus! {

/// The dashboard page up to the port in its header.
pub const INDEX_HTML_HEAD: &'static str = r##"<!DOCTYPE html>
<html lang="en">
<head>
  <meta charset="UTF-8" />
  <meta name="viewport" content="width=device-width, initial-scale=1.0" />
  <title>WSL-Cam-Bridge Dashboard</title>
  <style>
    :root {
      --bg: #0f172a;
      --card: #1e293b;
      --border: #334155;
      --accent: #38bdf8;
      --accent-hover: #0ea5e9;
      --text: #f8fafc;
      --text-muted: #94a3b8;
      --green: #22c55e;
      --red: #ef4444;
    }
    * { box-sizing: border-box; margin: 0; padding: 0; font-family: -apple-system, BlinkMacSystemFont, "Segoe UI", Roboto, sans-serif; }
    body { background: var(--bg); color: var(--text); padding: 24px; min-height: 100vh; }
    .container { max-width: 1000px; margin: 0 auto; display: flex; flex-direction: column; gap: 24px; }
    header { display: flex; justify-content: space-between; align-items: center; border-bottom: 1px solid var(--border); padding-bottom: 16px; }
    .title-group { display: flex; align-items: center; gap: 12px; }
    .badge { display: inline-flex; align-items: center; gap: 6px; padding: 4px 10px; border-radius: 9999px; font-size: 0.85rem; font-weight: 600; background: rgba(34,197,94,0.15); color: var(--green); }
    .badge.paused { background: rgba(239,68,68,0.15); color: var(--red); }
    .dot { width: 8px; height: 8px; border-radius: 50%; background: var(--green); animation: pulse 2s infinite; }
    .dot.paused { background: var(--red); animation: none; }
    @keyframes pulse { 0%, 100% { opacity: 1; } 50% { opacity: 0.4; } }
    .card { background: var(--card); border: 1px solid var(--border); border-radius: 12px; padding: 20px; box-shadow: 0 4px 20px rgba(0,0,0,0.3); }
    .video-container { width: 100%; border-radius: 8px; overflow: hidden; background: #000; position: relative; aspect-ratio: 16/9; display: flex; justify-content: center; align-items: center; }
    .video-container img { width: 100%; height: 100%; object-fit: contain; }
    .stats-row { display: grid; grid-template-columns: repeat(auto-fit, minmax(180px, 1fr)); gap: 16px; margin-top: 16px; }
    .stat-box { background: rgba(15,23,42,0.6); padding: 14px; border-radius: 8px; border: 1px solid var(--border); }
    .stat-label { font-size: 0.8rem; color: var(--text-muted); text-transform: uppercase; letter-spacing: 0.05em; }
    .stat-val { font-size: 1.25rem; font-weight: 700; margin-top: 4px; color: var(--accent); }
    .controls { display: flex; flex-wrap: wrap; gap: 10px; margin-top: 16px; }
    .ctrl-btn { background: var(--border); border: 1px solid rgba(255,255,255,0.1); color: var(--text); padding: 8px 16px; border-radius: 8px; cursor: pointer; font-size: 0.9rem; font-weight: 500; transition: background 0.15s, color 0.15s; }
    .ctrl-btn:hover { background: var(--accent); color: #000; }
    .ctrl-btn.active { background: var(--accent); color: #000; }
    .ctrl-btn.pause { background: rgba(239,68,68,0.2); border-color: var(--red); color: var(--red); }
    .ctrl-btn.pause:hover { background: var(--red); color: #fff; }
    .ctrl-btn.resume { background: rgba(34,197,94,0.2); border-color: var(--green); color: var(--green); }
    .ctrl-btn.resume:hover { background: var(--green); color: #fff; }
    .code-block { background: #020617; border: 1px solid var(--border); border-radius: 8px; padding: 14px; position: relative; margin-top: 12px; }
    pre { overflow-x: auto; font-family: "Cascadia Code", "Fira Code", monospace; font-size: 0.9rem; color: #e2e8f0; }
    .copy-btn { position: absolute; right: 10px; top: 10px; background: var(--border); border: none; color: var(--text); padding: 6px 12px; border-radius: 6px; cursor: pointer; font-size: 0.8rem; }
    .copy-btn:hover { background: var(--accent); color: #000; }
    .hint { color: var(--text-muted); font-size: 0.9rem; line-height: 1.5; margin-top: 8px; }
    .section-title { font-size: 1rem; font-weight: 600; margin-bottom: 10px; color: var(--text-muted); text-transform: uppercase; letter-spacing: 0.05em; }
  </style>
</head>
<body>
  <div class="container">
    <header>
      <div class="title-group">
        <h2>WSL-Cam-Bridge</h2>
        <span class="badge" id="status-badge"><span class="dot" id="status-dot"></span> <span id="status-text">LIVE</span></span>
      </div>
      <div style="color: var(--text-muted); font-size: 0.9rem;">
        Listening on port: <strong>"##;

/// The dashboard page from the header's port up to the port in the WSL hint.
pub const INDEX_HTML_AFTER_PORT: &'static str = r##"</strong>
      </div>
    </header>

    <div class="card">
      <div class="video-container">
        <img id="live-stream" src="/video" alt="Webcam Stream Loading..." />
      </div>
      <div class="stats-row">
        <div class="stat-box">
          <div class="stat-label">Camera</div>
          <div class="stat-val" id="stat-cam">Detecting...</div>
        </div>
        <div class="stat-box">
          <div class="stat-label">Resolution</div>
          <div class="stat-val" id="stat-res">-- x --</div>
        </div>
        <div class="stat-box">
          <div class="stat-label">Frame Rate</div>
          <div class="stat-val" id="stat-fps">-- FPS</div>
        </div>
        <div class="stat-box">
          <div class="stat-label">Frames Streamed</div>
          <div class="stat-val" id="stat-frames">0</div>
        </div>
      </div>
    </div>

    <div class="card">
      <div class="section-title">Controls</div>
      <div class="controls">
        <button class="ctrl-btn pause" id="btn-pause" onclick="togglePause()">Pause Stream</button>
        <button class="ctrl-btn" onclick="setResolution(640, 480)">480p</button>
        <button class="ctrl-btn active" onclick="setResolution(1280, 720)">720p</button>
        <button class="ctrl-btn" onclick="setResolution(1920, 1080)">1080p</button>
      </div>
    </div>

    <details class="card">
      <summary style="cursor: pointer; font-size: 1.15rem; font-weight: 600; display: flex; justify-content: space-between; align-items: center; user-select: none;">
        <span>Connecting from WSL2</span>
        <span style="font-size: 0.85rem; color: var(--text-muted); font-weight: normal;">Click to expand</span>
      </summary>

      <div style="margin-top: 16px;">
        <p class="hint">
          Inside WSL2, access this stream using <code>localhost:"##;

/// The dashboard page from the hint's port up to the port in the Python snippet.
pub const INDEX_HTML_AFTER_HINT: &'static str = r##"</code> (with Windows 11 Mirrored Networking) or your Windows host IP.
        </p>

        <div style="margin-top: 16px;">
          <strong>1. Python & OpenCV (Zero Kernel Setup)</strong>
          <div class="code-block">
            <button class="copy-btn" onclick="copyCode('py-code')">Copy</button>
            <pre id="py-code">import cv2

# Open stream from Windows Host
cap = cv2.VideoCapture("http://localhost:"##;

/// The dashboard page from the Python snippet's port up to the port in the ffmpeg line.
pub const INDEX_HTML_AFTER_PYTHON: &'static str = r##"/video")

while True:
    ret, frame = cap.read()
    if not ret:
        continue
    cv2.imshow("WSL2 Camera Feed", frame)
    if cv2.waitKey(1) & 0xFF == ord('q'):
        break

cap.release()
cv2.destroyAllWindows()</pre>
          </div>
        </div>

        <div style="margin-top: 16px;">
          <strong>2. Map to a real /dev/video0 (For ROS & Legacy Linux Apps)</strong>
          <div class="code-block">
            <button class="copy-btn" onclick="copyCode('sh-code')">Copy</button>
            <pre id="sh-code">sudo apt install -y v4l2loopback-dkms ffmpeg
sudo modprobe v4l2loopback video_nr=0 card_label="Virtual_Cam"
ffmpeg -re -i "http://localhost:"##;

/// The dashboard page from the ffmpeg line's port up to the stats function.
pub const INDEX_HTML_TAIL: &'static str = r##"/video" -f v4l2 /dev/video0</pre>
          </div>
        </div>
      </div>
    </details>
  </div>

  <script>
    let isPaused = false;
    let currentRes = '720p';

    "##;

/// The head of the script function that fetches `/status` and fills the stats.
pub const STATS_FUNCTION: &'static str = "function updateStats()";

/// The stats function's body, up to the pause function.
pub const INDEX_HTML_STATS_BODY: &'static str = r##" {
      fetch('/status')
        .then(res => res.json())
        .then(data => {
          document.getElementById('stat-cam').textContent = data.camera || 'Active';
          document.getElementById('stat-res').textContent = (data.width && data.height) ? `${data.width} x ${data.height}` : '--';
          document.getElementById('stat-fps').textContent = (data.fps || 0) + ' FPS';
          document.getElementById('stat-frames').textContent = data.frame_count || 0;

          isPaused = data.paused || false;
          updatePauseButton();
          updateStatusBadge();
        })
        .catch(() => {});
    }

    function updatePauseButton() {
      const btn = document.getElementById('btn-pause');
      if (isPaused) {
        btn.textContent = 'Resume Stream';
        btn.className = 'ctrl-btn resume';
      } else {
        btn.textContent = 'Pause Stream';
        btn.className = 'ctrl-btn pause';
      }
    }

    function updateStatusBadge() {
      const badge = document.getElementById('status-badge');
      const dot = document.getElementById('status-dot');
      const text = document.getElementById('status-text');
      if (isPaused) {
        badge.className = 'badge paused';
        dot.className = 'dot paused';
        text.textContent = 'PAUSED';
      } else {
        badge.className = 'badge';
        dot.className = 'dot';
        text.textContent = 'LIVE';
      }
    }

    "##;

/// The head of the script function behind the pause button.
pub const PAUSE_FUNCTION: &'static str = "function togglePause()";

/// The pause function's body, up to the resolution function.
pub const INDEX_HTML_PAUSE_BODY: &'static str = r##" {
      fetch('/api/pause', { method: 'POST' })
        .then(res => res.json())
        .then(data => {
          isPaused = data.paused;
          updatePauseButton();
          updateStatusBadge();
          if (!isPaused) {
            // Reconnect stream after resuming
            const img = document.getElementById('live-stream');
            img.src = '/video?' + Date.now();
          }
        })
        .catch(() => {});
    }

    "##;

/// The head of the script function behind the resolution buttons.
pub const RESOLUTION_FUNCTION: &'static str = "function setResolution(w, h)";

/// The resolution function's body, up to the timer that refreshes the stats.
pub const INDEX_HTML_RESOLUTION_BODY: &'static str = r##" {
      fetch(`/api/resolution?w=${w}&h=${h}`, { method: 'POST' })
        .then(res => res.json())
        .then(() => {
          // Highlight active button
          const buttons = document.querySelectorAll('.controls .ctrl-btn:not(#btn-pause)');
          buttons.forEach(btn => btn.classList.remove('active'));
          const label = h <= 480 ? '480p' : h <= 720 ? '720p' : '1080p';
          buttons.forEach(btn => {
            if (btn.textContent === label) btn.classList.add('active');
          });
        })
        .catch(() => {});
    }

    "##;

/// The script line that refreshes the stats every second.
pub const STATS_TIMER: &'static str = "setInterval(updateStats, 1000);";

/// The rest of the dashboard page, after the timer.
pub const INDEX_HTML_END: &'static str = r##"
    updateStats();

    function copyCode(id) {
      const text = document.getElementById(id).textContent;
      navigator.clipboard.writeText(text).then(() => {
        alert('Copied snippet to clipboard!');
      });
    }
  </script>
</body>
</html>"##;


/// The dashboard page for a server listening on `port`: the port appears in
/// the header, in the WSL hint and in both snippets that open the stream.
pub open spec fn index_page(port: u16) -> Seq<char> {
    let p = decimal(port as nat);
    INDEX_HTML_HEAD@ + p + INDEX_HTML_AFTER_PORT@ + p + INDEX_HTML_AFTER_HINT@ + p
        + INDEX_HTML_AFTER_PYTHON@ + p + INDEX_HTML_TAIL@ + STATS_FUNCTION@ + INDEX_HTML_STATS_BODY@
        + PAUSE_FUNCTION@ + INDEX_HTML_PAUSE_BODY@ + RESOLUTION_FUNCTION@
        + INDEX_HTML_RESOLUTION_BODY@ + STATS_TIMER@ + INDEX_HTML_END@
}

/// The reply to a request for the dashboard.
pub open spec fn index_reply_view(port: u16) -> ReplyView {
    text_reply(200, ContentType::Html, false, index_page(port))
}

/// The dashboard page for a server listening on `port`.
pub fn index_html(port: u16) -> (page: String)
    ensures
        page@ == index_page(port),
{
    let mut page = String::new();
    page.append(INDEX_HTML_HEAD);
    push_decimal(&mut page, port as u64);
    page.append(INDEX_HTML_AFTER_PORT);
    push_decimal(&mut page, port as u64);
    page.append(INDEX_HTML_AFTER_HINT);
    push_decimal(&mut page, port as u64);
    page.append(INDEX_HTML_AFTER_PYTHON);
    push_decimal(&mut page, port as u64);
    page.append(INDEX_HTML_TAIL);
    page.append(STATS_FUNCTION);
    page.append(INDEX_HTML_STATS_BODY);
    page.append(PAUSE_FUNCTION);
    page.append(INDEX_HTML_PAUSE_BODY);
    page.append(RESOLUTION_FUNCTION);
    page.append(INDEX_HTML_RESOLUTION_BODY);
    page.append(STATS_TIMER);
    page.append(INDEX_HTML_END);
    proof {
        assert(page@ =~= index_page(port));
    }
    page
}

/// The reply to a request for the dashboard: the page as HTML.
pub fn index_reply(port: u16) -> (reply: Reply)
    ensures
        reply@ == index_reply_view(port),
{
    Reply::text(200, ContentType::Html, false, index_html(port))
}

/// Whether `t` occurs in `s` at position `i`.
pub open spec fn occurs_at(s: Seq<char>, t: Seq<char>, i: int) -> bool {
    0 <= i && i + t.len() <= s.len() && s.subrange(i, i + t.len()) == t
}

/// Law: on every port the dashboard page carries its script: the function
/// that fetches the stats, then the functions behind the pause and the
/// resolution buttons, then the timer that refreshes the stats every second,
/// in this order.
pub proof fn lemma_dashboard_script(port: u16)
    ensures
        exists|a: int, b: int, c: int, d: int|
            a < b < c < d && occurs_at(index_page(port), "function updateStats()"@, a)
                && occurs_at(index_page(port), "function togglePause()"@, b) && occurs_at(
                index_page(port),
                "function setResolution(w, h)"@,
                c,
            ) && occurs_at(index_page(port), "setInterval(updateStats, 1000);"@, d),
{
    let p = decimal(port as nat);
    let pre = INDEX_HTML_HEAD@ + p + INDEX_HTML_AFTER_PORT@ + p + INDEX_HTML_AFTER_HINT@ + p
        + INDEX_HTML_AFTER_PYTHON@ + p + INDEX_HTML_TAIL@;
    let s1 = pre + STATS_FUNCTION@;
    let s2 = s1 + INDEX_HTML_STATS_BODY@ + PAUSE_FUNCTION@;
    let s3 = s2 + INDEX_HTML_PAUSE_BODY@ + RESOLUTION_FUNCTION@;
    let s4 = s3 + INDEX_HTML_RESOLUTION_BODY@ + STATS_TIMER@;
    let page = index_page(port);
    assert(page == s4 + INDEX_HTML_END@);
    let a = pre.len() as int;
    let b = (s2.len() - PAUSE_FUNCTION@.len()) as int;
    let c = (s3.len() - RESOLUTION_FUNCTION@.len()) as int;
    let d = (s4.len() - STATS_TIMER@.len()) as int;
    assert(page.subrange(a, a + STATS_FUNCTION@.len()) =~= STATS_FUNCTION@);
    assert(page.subrange(b, b + PAUSE_FUNCTION@.len()) =~= PAUSE_FUNCTION@);
    assert(page.subrange(c, c + RESOLUTION_FUNCTION@.len()) =~= RESOLUTION_FUNCTION@);
    assert(page.subrange(d, d + STATS_TIMER@.len()) =~= STATS_TIMER@);
    reveal_strlit("function updateStats()");
    reveal_strlit("function togglePause()");
    reveal_strlit("function setResolution(w, h)");
    reveal_strlit("setInterval(updateStats, 1000);");
    assert(STATS_FUNCTION@ == "function updateStats()"@);
    assert(PAUSE_FUNCTION@ == "function togglePause()"@);
    assert(RESOLUTION_FUNCTION@ == "function setResolution(w, h)"@);
    assert(STATS_TIMER@ == "setInterval(updateStats, 1000);"@);
    assert(occurs_at(page, "function updateStats()"@, a));
    assert(occurs_at(page, "function togglePause()"@, b));
    assert(occurs_at(page, "function setResolution(w, h)"@, c));
    assert(occurs_at(page, "setInterval(updateStats, 1000);"@, d));
}

} // verus!
