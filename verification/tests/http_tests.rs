use wsl_cam_bridge::dashboard::{index_html, index_reply};
use wsl_cam_bridge::http::{
    listen_address, mjpeg_stream_head, not_found_reply, parse_resolution_query, resolution_request, route,
    snapshot_reply, status_reply, status_report, toggle_pause, Body, ContentType, FrameFacts, MjpegFeed,
    Route, StreamState,
};

fn text(body: &Body) -> &str {
    match body {
        Body::Text(s) => s.as_str(),
        Body::Bytes(_) => panic!("expected text"),
    }
}

#[test]
fn routes_of_known_paths() {
    assert_eq!(route("/video"), Route::Stream);
    assert_eq!(route("/stream.mjpg"), Route::Stream);
    assert_eq!(route("/snapshot"), Route::Snapshot);
    assert_eq!(route("/frame.jpg"), Route::Snapshot);
    assert_eq!(route("/status"), Route::Status);
    assert_eq!(route("/"), Route::Index);
    assert_eq!(route("/index.html"), Route::Index);
    assert_eq!(route("/api/pause"), Route::Pause);
    assert_eq!(route("/api/resolution"), Route::Resolution);
    assert_eq!(route("/api/resolution?w=640&h=480"), Route::Resolution);
    assert_eq!(route("/api/resolutionXYZ"), Route::Resolution);
}

#[test]
fn stream_is_reached_with_a_query() {
    assert_eq!(route("/video?1700000000000"), Route::Stream);
    assert_eq!(route("/stream.mjpg?x=1"), Route::Stream);
    assert_eq!(route("/video?"), Route::Stream);
    assert_eq!(route("/video?a?b"), Route::Stream);
    assert_eq!(route("/videos?1"), Route::NotFound);
    assert_eq!(route("/vid?eo"), Route::NotFound);
}

#[test]
fn routes_are_matched_whole() {
    assert_eq!(route("/snapshot?123"), Route::NotFound);
    assert_eq!(route("/status/"), Route::NotFound);
    assert_eq!(route("/api/pause?x"), Route::NotFound);
    assert_eq!(route(""), Route::NotFound);
    assert_eq!(route("/api/resol"), Route::NotFound);
    assert_eq!(route("/VIDEO"), Route::NotFound);
}

#[test]
fn not_found_reply_text() {
    let r = not_found_reply();
    assert_eq!(r.status, 404);
    assert_eq!(r.content_type, ContentType::PlainText);
    assert!(!r.allow_any_origin);
    assert_eq!(text(&r.body), "Not Found");
}

#[test]
fn content_type_headers() {
    assert_eq!(ContentType::PlainText.header_value(), "text/plain; charset=UTF-8");
    assert_eq!(ContentType::Json.header_value(), "application/json");
    assert_eq!(ContentType::Jpeg.header_value(), "image/jpeg");
    assert_eq!(ContentType::Html.header_value(), "text/html; charset=utf-8");
}

#[test]
fn pause_toggles_and_reports() {
    let (now, r) = toggle_pause(false);
    assert!(now);
    assert_eq!(r.status, 200);
    assert_eq!(r.content_type, ContentType::Json);
    assert!(r.allow_any_origin);
    assert_eq!(text(&r.body), r#"{"paused":true}"#);
    let (again, r2) = toggle_pause(now);
    assert!(!again);
    assert_eq!(text(&r2.body), r#"{"paused":false}"#);
}

#[test]
fn resolution_query_cases() {
    assert_eq!(parse_resolution_query("/api/resolution?w=640&h=480"), Some((640, 480)));
    assert_eq!(parse_resolution_query("/api/resolution?h=1080&w=1920"), Some((1920, 1080)));
    assert_eq!(parse_resolution_query("/api/resolution?w=1&w=2&h=3"), Some((2, 3)));
    assert_eq!(parse_resolution_query("/api/resolution?w=1&w=x&h=3"), None);
    assert_eq!(parse_resolution_query("/api/resolution?w=1&h=2?w=3"), Some((1, 2)));
    assert_eq!(parse_resolution_query("/api/resolution?w=+5&h=007&x=9"), Some((5, 7)));
    assert_eq!(parse_resolution_query("/api/resolution?w&h=2"), None);
    assert_eq!(parse_resolution_query("/api/resolution?w=1&&h=2&"), Some((1, 2)));
    assert_eq!(parse_resolution_query("/api/resolution?w==1&h=2"), None);
    assert_eq!(parse_resolution_query("/api/resolution"), None);
    assert_eq!(parse_resolution_query("/api/resolution?"), None);
    assert_eq!(parse_resolution_query("/api/resolution?w=4294967296&h=1"), None);
    assert_eq!(parse_resolution_query("/api/resolution?w=-1&h=1"), None);
    assert_eq!(parse_resolution_query("/x?w=0&h=0"), Some((0, 0)));
}

#[test]
fn resolution_request_replies() {
    let (dims, r) = resolution_request("/api/resolution?w=1280&h=720");
    assert_eq!(dims, Some((1280, 720)));
    assert_eq!(r.status, 200);
    assert_eq!(r.content_type, ContentType::Json);
    assert!(r.allow_any_origin);
    assert_eq!(text(&r.body), r#"{"width":1280,"height":720}"#);

    let (dims, r) = resolution_request("/api/resolution?w=1280");
    assert_eq!(dims, None);
    assert_eq!(r.status, 400);
    assert_eq!(r.content_type, ContentType::Json);
    assert!(r.allow_any_origin);
    assert_eq!(text(&r.body), r#"{"error":"Missing w and h parameters"}"#);
}

#[test]
fn dashboard_requests_read_back() {
    for (w, h) in [(640u32, 480u32), (1280, 720), (1920, 1080)] {
        let path = format!("/api/resolution?w={w}&h={h}");
        assert_eq!(route(&path), Route::Resolution);
        assert_eq!(parse_resolution_query(&path), Some((w, h)));
    }
}

#[test]
fn snapshot_replies() {
    let r = snapshot_reply(None);
    assert_eq!((r.status, r.content_type, r.allow_any_origin), (503, ContentType::PlainText, false));
    assert_eq!(text(&r.body), "Unavailable");

    let r = snapshot_reply(Some(&[]));
    assert_eq!((r.status, r.content_type, r.allow_any_origin), (503, ContentType::PlainText, false));
    assert_eq!(text(&r.body), "Camera Warming Up");

    let jpeg = [0xFFu8, 0xD8, 1, 2, 0xFF, 0xD9];
    let r = snapshot_reply(Some(&jpeg));
    assert_eq!((r.status, r.content_type, r.allow_any_origin), (200, ContentType::Jpeg, true));
    match r.body {
        Body::Bytes(b) => assert_eq!(b, jpeg.to_vec()),
        Body::Text(_) => panic!("expected bytes"),
    }
}

#[test]
fn status_reports() {
    let facts = FrameFacts { camera_name: "Cam A".to_string(), width: 640, height: 480, frame_count: 12 };
    let r = status_report(Some(&facts), false);
    assert_eq!((r.camera.as_str(), r.width, r.height, r.frame_count, r.state, r.paused), ("Cam A", 640, 480, 12, StreamState::Streaming, false));
    assert_eq!(r.state.label(), "streaming");
    let r = status_report(Some(&facts), true);
    assert_eq!((r.state, r.paused), (StreamState::Paused, true));
    assert_eq!(r.state.label(), "paused");
    let idle = FrameFacts { frame_count: 0, ..facts };
    let r = status_report(Some(&idle), false);
    assert_eq!(r.state, StreamState::Idle);
    assert_eq!(r.state.label(), "idle");
    let r = status_report(None, true);
    assert_eq!((r.camera.as_str(), r.width, r.height, r.frame_count, r.state, r.paused), ("Unknown", 0, 0, 0, StreamState::Error, false));
    assert_eq!(r.state.label(), "error");
}

#[test]
fn mjpeg_framing() {
    assert_eq!(
        mjpeg_stream_head(),
        "HTTP/1.1 200 OK\r\nContent-Type: multipart/x-mixed-replace; boundary=frame\r\nAccess-Control-Allow-Origin: *\r\nCache-Control: no-cache\r\nConnection: close\r\n\r\n"
    );
    let mut feed = MjpegFeed::new();
    assert_eq!(feed.offer(0, 100), None); // frame 0 counts as already sent
    assert_eq!(feed.offer(1, 0), None); // nothing to send yet
    assert_eq!(
        feed.offer(1, 1234),
        Some("--frame\r\nContent-Type: image/jpeg\r\nContent-Length: 1234\r\n\r\n".to_string())
    );
    assert_eq!(feed.last_frame_id, 1);
    assert_eq!(feed.offer(1, 1234), None); // the same frame is not sent twice
    assert!(feed.offer(5, 7).is_some());
    assert_eq!(feed.last_frame_id, 5);
}

#[test]
fn dashboard_page() {
    let page = index_html(8080);
    assert!(page.starts_with("<!DOCTYPE html>"));
    assert!(page.ends_with("</html>"));
    assert_eq!(page.matches("8080").count(), 4);
    assert!(page.contains("Listening on port: <strong>8080</strong>"));
    assert!(page.contains("cv2.VideoCapture(\"http://localhost:8080/video\")"));
    assert!(page.contains("ffmpeg -re -i \"http://localhost:8080/video\" -f v4l2 /dev/video0"));
    assert!(page.contains(":root {"));
    assert!(!page.contains("{{"));
    let r = index_reply(80);
    assert_eq!((r.status, r.content_type, r.allow_any_origin), (200, ContentType::Html, false));
    assert!(text(&r.body).contains("<code>localhost:80</code>"));
}

#[test]
fn part_length_reads_back() {
    for len in [1usize, 9, 10, 65536, 4294967295] {
        let mut feed = MjpegFeed::new();
        let header = feed.offer(1, len).unwrap();
        let field = header
            .strip_prefix("--frame\r\nContent-Type: image/jpeg\r\nContent-Length: ")
            .and_then(|rest| rest.strip_suffix("\r\n\r\n"))
            .unwrap();
        assert_eq!(field.parse::<usize>().unwrap(), len);
    }
}

#[test]
fn listening_address() {
    assert_eq!(listen_address(8080), "0.0.0.0:8080");
    assert_eq!(listen_address(0), "0.0.0.0:0");
}

#[test]
fn status_json_reply() {
    let r = status_reply("{}".to_string());
    assert_eq!((r.status, r.content_type, r.allow_any_origin), (200, ContentType::Json, true));
    assert_eq!(text(&r.body), "{}");
}

#[test]
fn parameter_order_does_not_matter() {
    let (d1, r1) = resolution_request("/api/resolution?w=640&h=480&x=1");
    let (d2, r2) = resolution_request("/api/resolution?x=1&h=480&w=640");
    assert_eq!(d1, Some((640, 480)));
    assert_eq!(d1, d2);
    assert_eq!(r1.status, 200);
    assert_eq!((r1.status, text(&r1.body)), (r2.status, text(&r2.body)));
    assert_eq!(text(&r1.body), r#"{"width":640,"height":480}"#);
    let (d3, _) = resolution_request("/api/resolution?h=480&w=oops");
    let (d4, _) = resolution_request("/api/resolution?w=oops&h=480");
    assert_eq!((d3, d4), (None, None));
}
