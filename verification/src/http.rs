//! What the HTTP server decides: which handler a request path reaches, what
//! each handler answers, how the resolution request is read, what the status
//! endpoint reports, and how the MJPEG stream is framed.
use vstd::prelude::*;

use crate::text::{
    chars_eq, chars_of, chars_start_with, copy_range, decimal, find_char, find_from,
    is_digit, lemma_decimal, lemma_find_from, lemma_find_from_at, lemma_parse_decimal_roundtrip,
    parse_u32, parse_u32_spec, push_decimal, starts_with,
};

verus! {

// ---------------------------------------------------------------- listening

/// The address the server listens on: every interface, at `port`.
pub open spec fn listen_address_spec(port: u16) -> Seq<char> {
    "0.0.0.0:"@ + decimal(port as nat)
}

/// The address the server listens on: every interface, at `port`.
pub fn listen_address(port: u16) -> (addr: String)
    ensures
        addr@ == listen_address_spec(port),
{
    let mut addr = String::new();
    addr.append("0.0.0.0:");
    push_decimal(&mut addr, port as u64);
    proof {
        assert(addr@ =~= listen_address_spec(port));
    }
    addr
}

// ---------------------------------------------------------------- routing

/// The handler a request reaches.
#[derive(Clone, Copy, Debug, PartialEq, Eq, Structural)]
pub enum Route {
    /// The MJPEG stream (`/video`, `/stream.mjpg`, with or without a query
    /// string: the dashboard reconnects with `/video?<time>`).
    Stream,
    /// The latest frame as one JPEG (`/snapshot`, `/frame.jpg`).
    Snapshot,
    /// The JSON status (`/status`).
    Status,
    /// The dashboard page (`/`, `/index.html`).
    Index,
    /// Toggles the pause flag (`/api/pause`).
    Pause,
    /// Sets the capture resolution (any path that begins with `/api/resolution`).
    Resolution,
    /// Anything else.
    NotFound,
}

/// The part of a path before its first `?`.
pub open spec fn path_before_query(path: Seq<char>) -> Seq<char> {
    path.subrange(0, find_from(path, '?', 0) as int)
}

/// The handler that the request path `path` reaches. The stream is matched
/// on the part of the path before any query string, so that a reconnect
/// with a query (`/video?1700000000000`) still reaches it; the other
/// endpoints are matched on the whole path, except the resolution endpoint,
/// which is matched by prefix.
pub open spec fn route_of(path: Seq<char>) -> Route {
    let base = path_before_query(path);
    if base == "/video"@ || base == "/stream.mjpg"@ {
        Route::Stream
    } else if path == "/snapshot"@ || path == "/frame.jpg"@ {
        Route::Snapshot
    } else if path == "/status"@ {
        Route::Status
    } else if path == "/"@ || path == "/index.html"@ {
        Route::Index
    } else if path == "/api/pause"@ {
        Route::Pause
    } else if starts_with(path, "/api/resolution"@) {
        Route::Resolution
    } else {
        Route::NotFound
    }
}

/// Whether the characters `s` spell out `lit`.
fn is_text(s: &Vec<char>, lit: &str) -> (r: bool)
    ensures
        r == (s@ == lit@),
{
    let l = chars_of(lit);
    chars_eq(s.as_slice(), l.as_slice())
}

/// The handler that a request for `path` reaches.
pub fn route(path: &str) -> (r: Route)
    ensures
        r == route_of(path@),
{
    let p = chars_of(path);
    let q = find_char(p.as_slice(), '?', 0);
    proof {
        lemma_find_from(p@, '?', 0);
    }
    let base = copy_range(p.as_slice(), 0, q);
    if is_text(&base, "/video") || is_text(&base, "/stream.mjpg") {
        Route::Stream
    } else if is_text(&p, "/snapshot") || is_text(&p, "/frame.jpg") {
        Route::Snapshot
    } else if is_text(&p, "/status") {
        Route::Status
    } else if is_text(&p, "/") || is_text(&p, "/index.html") {
        Route::Index
    } else if is_text(&p, "/api/pause") {
        Route::Pause
    } else {
        let prefix = chars_of("/api/resolution");
        if chars_start_with(p.as_slice(), prefix.as_slice()) {
            Route::Resolution
        } else {
            Route::NotFound
        }
    }
}

// ---------------------------------------------------------------- replies

/// The media type of a reply body.
#[derive(Clone, Copy, Debug, PartialEq, Eq, Structural)]
pub enum ContentType {
    PlainText,
    Json,
    Jpeg,
    Html,
}

/// The `Content-Type` header value of each media type.
pub open spec fn content_type_text(c: ContentType) -> Seq<char> {
    match c {
        ContentType::PlainText => "text/plain; charset=UTF-8"@,
        ContentType::Json => "application/json"@,
        ContentType::Jpeg => "image/jpeg"@,
        ContentType::Html => "text/html; charset=utf-8"@,
    }
}

impl ContentType {
    /// The `Content-Type` header value of this media type.
    pub fn header_value(&self) -> (r: &'static str)
        ensures
            r@ == content_type_text(*self),
    {
        match self {
            ContentType::PlainText => "text/plain; charset=UTF-8",
            ContentType::Json => "application/json",
            ContentType::Jpeg => "image/jpeg",
            ContentType::Html => "text/html; charset=utf-8",
        }
    }
}

/// A reply body: text, or raw bytes.
pub enum Body {
    Text(String),
    Bytes(Vec<u8>),
}

/// The model of a reply body.
pub enum BodyView {
    Text(Seq<char>),
    Bytes(Seq<u8>),
}

impl View for Body {
    type V = BodyView;

    open spec fn view(&self) -> BodyView {
        match self {
            Body::Text(s) => BodyView::Text(s@),
            Body::Bytes(b) => BodyView::Bytes(b@),
        }
    }
}

/// An HTTP reply: status code, media type, whether any origin may read it
/// (`Access-Control-Allow-Origin: *`), and body.
pub struct Reply {
    pub status: u16,
    pub content_type: ContentType,
    pub allow_any_origin: bool,
    pub body: Body,
}

/// The model of a reply.
pub struct ReplyView {
    pub status: u16,
    pub content_type: ContentType,
    pub allow_any_origin: bool,
    pub body: BodyView,
}

impl View for Reply {
    type V = ReplyView;

    open spec fn view(&self) -> ReplyView {
        ReplyView {
            status: self.status,
            content_type: self.content_type,
            allow_any_origin: self.allow_any_origin,
            body: self.body@,
        }
    }
}

/// A reply with a text body.
pub open spec fn text_reply(
    status: u16,
    content_type: ContentType,
    allow_any_origin: bool,
    text: Seq<char>,
) -> ReplyView {
    ReplyView { status, content_type, allow_any_origin, body: BodyView::Text(text) }
}

impl Reply {
    /// A reply with a text body.
    pub fn text(status: u16, content_type: ContentType, allow_any_origin: bool, text: String) -> (r:
        Reply)
        ensures
            r@ == text_reply(status, content_type, allow_any_origin, text@),
    {
        Reply { status, content_type, allow_any_origin, body: Body::Text(text) }
    }
}

/// A string holding `lit`.
fn owned(lit: &str) -> (s: String)
    ensures
        s@ == lit@,
{
    let mut s = String::new();
    s.append(lit);
    proof {
        assert(s@ =~= lit@);
    }
    s
}

/// The reply to a path that no handler serves.
pub open spec fn not_found_view() -> ReplyView {
    text_reply(404, ContentType::PlainText, false, "Not Found"@)
}

/// The reply to a path that no handler serves: 404, "Not Found".
pub fn not_found_reply() -> (r: Reply)
    ensures
        r@ == not_found_view(),
{
    Reply::text(404, ContentType::PlainText, false, owned("Not Found"))
}

// ---------------------------------------------------------------- pause

/// The JSON that reports the pause flag.
pub open spec fn pause_json(paused: bool) -> Seq<char> {
    "{\"paused\":"@ + (if paused {
        "true"@
    } else {
        "false"@
    }) + "}"@
}

/// The pause flag after a pause request: it flips.
pub open spec fn pause_after(paused: bool) -> bool {
    !paused
}

/// The reply to a pause request, once the flag is `paused`.
pub open spec fn pause_reply_view(paused: bool) -> ReplyView {
    text_reply(200, ContentType::Json, true, pause_json(paused))
}

/// A pause request: the flag flips, and the reply reports its new value.
pub fn toggle_pause(paused: bool) -> (r: (bool, Reply))
    ensures
        r.0 == pause_after(paused),
        r.1@ == pause_reply_view(r.0),
{
    let now = !paused;
    let mut body = String::new();
    body.append("{\"paused\":");
    if now {
        body.append("true");
    } else {
        body.append("false");
    }
    body.append("}");
    proof {
        assert(body@ =~= pause_json(now));
    }
    (now, Reply::text(200, ContentType::Json, true, body))
}

// ---------------------------------------------------------------- resolution

/// The width and height read so far from a query string.
pub type Dimensions = (Option<u32>, Option<u32>);

/// Reads one `key=value` parameter: `w` and `h` set the width and height to
/// the value parsed as a number (to nothing where it does not parse); any
/// other key, and a parameter without `=`, leave them as they are. The value
/// is everything after the first `=`.
pub open spec fn apply_param(param: Seq<char>, dims: Dimensions) -> Dimensions {
    let eq = find_from(param, '=', 0);
    if eq >= param.len() {
        dims
    } else {
        let key = param.subrange(0, eq as int);
        let value = param.subrange(eq + 1 as int, param.len() as int);
        if key == "w"@ {
            (parse_u32_spec(value), dims.1)
        } else if key == "h"@ {
            (dims.0, parse_u32_spec(value))
        } else {
            dims
        }
    }
}

/// Reads the `&`-separated parameters of `query` from position `i` on, in
/// order, so that a later parameter overrides an earlier one.
pub open spec fn scan_params(query: Seq<char>, i: nat, dims: Dimensions) -> Dimensions
    decreases query.len() - i,
{
    if i > query.len() {
        dims
    } else {
        let amp = find_from(query, '&', i);
        let next = apply_param(query.subrange(i as int, amp as int), dims);
        if amp >= query.len() {
            next
        } else {
            proof {
                lemma_find_from(query, '&', i);
            }
            scan_params(query, amp + 1, next)
        }
    }
}

/// The query string of `path`: what follows the first `?`, up to a second
/// `?` if there is one.
pub open spec fn query_of(path: Seq<char>) -> Option<Seq<char>> {
    let q = find_from(path, '?', 0);
    if q >= path.len() {
        None
    } else {
        Some(path.subrange(q + 1 as int, find_from(path, '?', q + 1) as int))
    }
}

/// The resolution that a request for `path` asks for: both `w` and `h` must
/// be in its query string and parse as numbers.
pub open spec fn resolution_query(path: Seq<char>) -> Option<(u32, u32)> {
    match query_of(path) {
        None => None,
        Some(q) => match scan_params(q, 0, (None, None)) {
            (Some(w), Some(h)) => Some((w, h)),
            _ => None,
        },
    }
}

/// The JSON that confirms a new resolution.
pub open spec fn resolution_json(width: u32, height: u32) -> Seq<char> {
    "{\"width\":"@ + decimal(width as nat) + ",\"height\":"@ + decimal(height as nat) + "}"@
}

/// The JSON that refuses a resolution request.
pub open spec fn missing_dimensions_json() -> Seq<char> {
    "{\"error\":\"Missing w and h parameters\"}"@
}

/// The reply to a resolution request that asked for `dims`.
pub open spec fn resolution_reply_view(dims: Option<(u32, u32)>) -> ReplyView {
    match dims {
        Some((w, h)) => text_reply(200, ContentType::Json, true, resolution_json(w, h)),
        None => text_reply(400, ContentType::Json, true, missing_dimensions_json()),
    }
}

/// Reads one parameter, as `apply_param` says.
fn read_param(param: &Vec<char>, dims: Dimensions) -> (r: Dimensions)
    ensures
        r == apply_param(param@, dims),
{
    let eq = find_char(param.as_slice(), '=', 0);
    proof {
        lemma_find_from(param@, '=', 0);
    }
    if eq >= param.len() {
        return dims;
    }
    let key = copy_range(param.as_slice(), 0, eq);
    if is_text(&key, "w") {
        (parse_u32(param.as_slice(), eq + 1, param.len()), dims.1)
    } else if is_text(&key, "h") {
        (dims.0, parse_u32(param.as_slice(), eq + 1, param.len()))
    } else {
        dims
    }
}

/// Reads all parameters of a query string, as `scan_params` says.
fn read_params(query: &Vec<char>) -> (r: Dimensions)
    ensures
        r == scan_params(query@, 0, (None, None)),
{
    let mut dims: Dimensions = (None, None);
    let mut i: usize = 0;
    loop
        invariant
            i <= query.len(),
            scan_params(query@, 0, (None, None)) == scan_params(query@, i as nat, dims),
        decreases query.len() - i,
    {
        let amp = find_char(query.as_slice(), '&', i);
        proof {
            lemma_find_from(query@, '&', i as nat);
        }
        let param = copy_range(query.as_slice(), i, amp);
        dims = read_param(&param, dims);
        if amp >= query.len() {
            return dims;
        }
        i = amp + 1;
    }
}

/// The resolution that a request for `path` asks for.
pub fn parse_resolution_query(path: &str) -> (r: Option<(u32, u32)>)
    ensures
        r == resolution_query(path@),
{
    let p = chars_of(path);
    let q = find_char(p.as_slice(), '?', 0);
    if q >= p.len() {
        return None;
    }
    proof {
        lemma_find_from(p@, '?', 0);
    }
    let end = find_char(p.as_slice(), '?', q + 1);
    proof {
        lemma_find_from(p@, '?', (q + 1) as nat);
    }
    let query = copy_range(p.as_slice(), q + 1, end);
    match read_params(&query) {
        (Some(w), Some(h)) => Some((w, h)),
        _ => None,
    }
}

/// A resolution request for `path`: the resolution it asks for, if it names
/// one, and the reply (200 with the new resolution, or 400).
pub fn resolution_request(path: &str) -> (r: (Option<(u32, u32)>, Reply))
    ensures
        r.0 == resolution_query(path@),
        r.1@ == resolution_reply_view(r.0),
{
    let dims = parse_resolution_query(path);
    let reply = match dims {
        Some((w, h)) => {
            let mut body = String::new();
            body.append("{\"width\":");
            push_decimal(&mut body, w as u64);
            body.append(",\"height\":");
            push_decimal(&mut body, h as u64);
            body.append("}");
            proof {
                assert(body@ =~= resolution_json(w, h));
            }
            Reply::text(200, ContentType::Json, true, body)
        },
        None => Reply::text(
            400,
            ContentType::Json,
            true,
            owned("{\"error\":\"Missing w and h parameters\"}"),
        ),
    };
    (dims, reply)
}

/// The request that the dashboard sends to ask for `width` x `height`.
pub open spec fn dashboard_resolution_path(width: u32, height: u32) -> Seq<char> {
    "/api/resolution?w="@ + decimal(width as nat) + "&h="@ + decimal(height as nat)
}

/// The parameter `name=` followed by the decimal rendering of `n`.
spec fn param_text(name: char, n: u32) -> Seq<char> {
    seq![name, '='] + decimal(n as nat)
}

/// Reading a parameter `name=<digits of n>` sets the matching dimension to `n`.
proof fn lemma_read_param(name: char, n: u32, dims: Dimensions)
    requires
        name == 'w' || name == 'h',
    ensures
        apply_param(param_text(name, n), dims) == if name == 'w' {
            (Some(n), dims.1)
        } else {
            (dims.0, Some(n))
        },
{
    reveal_strlit("w");
    reveal_strlit("h");
    let p = param_text(name, n);
    lemma_find_from_at(p, '=', 0, 1);
    let key = p.subrange(0, 1);
    assert(key =~= seq![name]);
    assert("w"@ =~= seq!['w']);
    assert("h"@ =~= seq!['h']);
    if name == 'h' {
        assert(key[0] != "w"@[0]);
        assert(key != "w"@);
        assert(key == "h"@);
    } else {
        assert(key == "w"@);
    }
    assert(p.subrange(2, p.len() as int) =~= decimal(n as nat));
    lemma_parse_decimal_roundtrip(n);
}

/// No digit of a rendered number is `c` when `c` is not a digit.
proof fn lemma_decimal_avoids(n: nat, c: char)
    requires
        !is_digit(c),
    ensures
        forall|j: int| 0 <= j < decimal(n).len() ==> decimal(n)[j] != c,
{
    lemma_decimal(n);
    assert forall|j: int| 0 <= j < decimal(n).len() implies decimal(n)[j] != c by {
        assert(is_digit(decimal(n)[j]));
    }
}

/// Law: the request that the dashboard sends for a resolution reaches the
/// resolution handler and asks for exactly that resolution.
pub proof fn lemma_dashboard_resolution_request(width: u32, height: u32)
    ensures
        route_of(dashboard_resolution_path(width, height)) == Route::Resolution,
        resolution_query(dashboard_resolution_path(width, height)) == Some((width, height)),
{
    reveal_strlit("/api/resolution?w=");
    reveal_strlit("&h=");
    reveal_strlit("/api/resolution");
    reveal_strlit("/video");
    reveal_strlit("/stream.mjpg");
    reveal_strlit("/snapshot");
    reveal_strlit("/frame.jpg");
    reveal_strlit("/status");
    reveal_strlit("/");
    reveal_strlit("/index.html");
    reveal_strlit("/api/pause");
    let dw = decimal(width as nat);
    let dh = decimal(height as nat);
    lemma_decimal(width as nat);
    lemma_decimal(height as nat);
    let p = dashboard_resolution_path(width, height);
    let lw = dw.len();
    let lh = dh.len();
    assert(p.len() == 21 + lw + lh);
    // the path begins with the resolution endpoint, and is no other endpoint
    assert(p.subrange(0, 15) =~= "/api/resolution"@);
    assert(p[15] == '?');
    lemma_find_from_at(p, '?', 0, 15);
    assert(path_before_query(p) =~= "/api/resolution"@);
    assert(path_before_query(p) != "/video"@ && path_before_query(p) != "/stream.mjpg"@);
    assert(p != "/snapshot"@ && p != "/frame.jpg"@);
    assert(p != "/status"@ && p != "/"@ && p != "/index.html"@ && p != "/api/pause"@) by {
        assert(p.len() > 15);
    }
    // the query string is everything after the '?'
    lemma_decimal_avoids(width as nat, '?');
    lemma_decimal_avoids(height as nat, '?');
    lemma_decimal_avoids(width as nat, '&');
    lemma_decimal_avoids(height as nat, '&');
    lemma_find_from_at(p, '?', 0, 15);
    assert forall|j: int| 16 <= j < p.len() implies p[j] != '?' by {
        if j >= 18 && j < 18 + lw {
            assert(p[j] == dw[j - 18]);
        } else if j >= 21 + lw {
            assert(p[j] == dh[j - 21 - lw]);
        }
    }
    lemma_find_from_at(p, '?', 16, p.len());
    let q = p.subrange(16, p.len() as int);
    assert(query_of(p) == Some(q));
    // the query holds `w=<width>` and `h=<height>`, separated by one '&'
    assert(q =~= param_text('w', width) + seq!['&'] + param_text('h', height));
    let amp = 2 + lw;
    assert forall|j: int| 0 <= j < amp implies q[j] != '&' by {
        if j >= 2 {
            assert(q[j] == dw[j - 2]);
        }
    }
    lemma_find_from_at(q, '&', 0, amp);
    assert(q.subrange(0, amp as int) =~= param_text('w', width));
    lemma_read_param('w', width, (None, None));
    assert forall|j: int| amp + 1 <= j < q.len() implies q[j] != '&' by {
        if j >= amp + 3 {
            assert(q[j] == dh[j - amp - 3]);
        }
    }
    lemma_find_from_at(q, '&', amp + 1, q.len());
    assert(q.subrange(amp + 1 as int, q.len() as int) =~= param_text('h', height));
    lemma_read_param('h', height, (Some(width), None));
    assert(scan_params(q, amp + 1, (Some(width), None)) == (Some(width), Some(height)));
    assert(scan_params(q, 0, (None, None)) == scan_params(q, amp + 1, (Some(width), None)));
}

/// Law: the request by which the dashboard reconnects the stream after a
/// resume, `/video?` and a timestamp, reaches the stream.
pub proof fn lemma_stream_reconnect(timestamp: u64)
    ensures
        route_of("/video?"@ + decimal(timestamp as nat)) == Route::Stream,
{
    reveal_strlit("/video?");
    reveal_strlit("/video");
    let p = "/video?"@ + decimal(timestamp as nat);
    assert(p[6] == '?');
    lemma_find_from_at(p, '?', 0, 6);
    assert(path_before_query(p) =~= "/video"@);
}

/// Law: two pause requests leave the pause flag as it was.
pub proof fn lemma_pause_twice(paused: bool)
    ensures
        pause_after(pause_after(paused)) == paused,
{
}

// ------------------------------------------------ order of the parameters

/// The key of a parameter: what precedes its first `=`, or all of it.
pub open spec fn param_key(p: Seq<char>) -> Seq<char> {
    p.subrange(0, find_from(p, '=', 0) as int)
}

/// The value of a parameter: what follows its first `=`.
pub open spec fn param_value(p: Seq<char>) -> Seq<char> {
    p.subrange(find_from(p, '=', 0) + 1 as int, p.len() as int)
}

/// Whether parameter `p` sets the dimension with key `name`: it has an `=`,
/// and that key.
pub open spec fn sets(p: Seq<char>, name: Seq<char>) -> bool {
    find_from(p, '=', 0) < p.len() && param_key(p) == name
}

/// Whether `p` can stand as one parameter of a query string: it holds no
/// `&`, which would split it, and no `?`, which would end the query.
pub open spec fn plain_param(p: Seq<char>) -> bool {
    forall|k: int| 0 <= k < p.len() ==> p[k] != '&' && p[k] != '?'
}

/// Whether no two of the parameters have the same key.
pub open spec fn distinct_keys(ps: Seq<Seq<char>>) -> bool {
    forall|i: int, j: int| 0 <= i < j < ps.len() ==> param_key(ps[i]) != param_key(ps[j])
}

/// The parameters joined by `&`.
pub open spec fn join_params(ps: Seq<Seq<char>>) -> Seq<char>
    decreases ps.len(),
{
    if ps.len() == 0 {
        Seq::empty()
    } else if ps.len() == 1 {
        ps[0]
    } else {
        ps[0] + seq!['&'] + join_params(ps.drop_first())
    }
}

/// A resolution request whose query string holds the parameters `ps`.
pub open spec fn resolution_path(ps: Seq<Seq<char>>) -> Seq<char> {
    "/api/resolution?"@ + join_params(ps)
}

/// Reads the parameters in order, each as `apply_param` says.
pub open spec fn read_in_order(ps: Seq<Seq<char>>, dims: Dimensions) -> Dimensions
    decreases ps.len(),
{
    if ps.len() == 0 {
        dims
    } else {
        apply_param(ps.last(), read_in_order(ps.drop_last(), dims))
    }
}

/// What the last parameter that sets `name` sets it to, or `dflt`.
pub open spec fn last_setting(ps: Seq<Seq<char>>, name: Seq<char>, dflt: Option<u32>) -> Option<u32>
    decreases ps.len(),
{
    if ps.len() == 0 {
        dflt
    } else if sets(ps.last(), name) {
        parse_u32_spec(param_value(ps.last()))
    } else {
        last_setting(ps.drop_last(), name, dflt)
    }
}

/// Searching behind a prefix is searching the rest, shifted.
proof fn lemma_find_from_shift(pre: Seq<char>, s: Seq<char>, c: char, i: nat)
    requires
        i <= s.len(),
    ensures
        find_from(pre + s, c, pre.len() + i) == pre.len() + find_from(s, c, i),
    decreases s.len() - i,
{
    if i < s.len() {
        assert((pre + s)[pre.len() + i as int] == s[i as int]);
        if s[i as int] != c {
            lemma_find_from_shift(pre, s, c, i + 1);
        }
    }
}

/// Scanning parameters behind a prefix is scanning the rest.
proof fn lemma_scan_shift(pre: Seq<char>, s: Seq<char>, i: nat, dims: Dimensions)
    requires
        i <= s.len(),
    ensures
        scan_params(pre + s, pre.len() + i, dims) == scan_params(s, i, dims),
    decreases s.len() - i,
{
    let amp = find_from(s, '&', i);
    lemma_find_from(s, '&', i);
    lemma_find_from_shift(pre, s, '&', i);
    assert((pre + s).subrange(pre.len() + i as int, pre.len() + amp as int) =~= s.subrange(i as int, amp as int));
    let next = apply_param(s.subrange(i as int, amp as int), dims);
    if amp < s.len() {
        lemma_scan_shift(pre, s, amp + 1, next);
    }
}

/// Reading in order is reading the first parameter, then the others.
proof fn lemma_read_first(ps: Seq<Seq<char>>, dims: Dimensions)
    requires
        ps.len() >= 1,
    ensures
        read_in_order(ps, dims) == read_in_order(ps.drop_first(), apply_param(ps[0], dims)),
    decreases ps.len(),
{
    let a = apply_param(ps[0], dims);
    if ps.len() == 1 {
        assert(ps.drop_last() =~= Seq::<Seq<char>>::empty());
        assert(ps.drop_first() =~= Seq::<Seq<char>>::empty());
        assert(read_in_order(ps.drop_last(), dims) == dims);
        assert(read_in_order(ps.drop_first(), a) == a);
    } else {
        lemma_read_first(ps.drop_last(), dims);
        assert(ps.drop_first().drop_last() =~= ps.drop_last().drop_first());
        assert(ps.drop_last()[0] == ps[0]);
        assert(ps.drop_first().last() == ps.last());
        assert(read_in_order(ps.drop_first(), a) == apply_param(
            ps.last(),
            read_in_order(ps.drop_first().drop_last(), a),
        ));
    }
}

/// Scanning joined parameters reads them in order.
proof fn lemma_scan_join(ps: Seq<Seq<char>>, dims: Dimensions)
    requires
        forall|i: int| 0 <= i < ps.len() ==> plain_param(#[trigger] ps[i]),
    ensures
        scan_params(join_params(ps), 0, dims) == read_in_order(ps, dims),
    decreases ps.len(),
{
    if ps.len() == 0 {
        let q = join_params(ps);
        assert(q =~= Seq::<char>::empty());
        lemma_find_from_at(q, '&', 0, 0);
        assert(q.subrange(0, 0) =~= Seq::<char>::empty());
        lemma_find_from_at(Seq::<char>::empty(), '=', 0, 0);
        assert(apply_param(Seq::<char>::empty(), dims) == dims);
        assert(scan_params(q, 0, dims) == dims);
    } else if ps.len() == 1 {
        let q = ps[0];
        assert(join_params(ps) == q);
        assert(plain_param(q));
        lemma_find_from_at(q, '&', 0, q.len());
        assert(q.subrange(0, q.len() as int) =~= q);
        assert(scan_params(q, 0, dims) == apply_param(q, dims));
        assert(ps.drop_last() =~= Seq::<Seq<char>>::empty());
        assert(read_in_order(ps.drop_last(), dims) == dims);
        assert(ps.last() == q);
    } else {
        let rest = ps.drop_first();
        let pre = ps[0] + seq!['&'];
        let q = join_params(ps);
        assert(q == pre + join_params(rest));
        assert(plain_param(ps[0]));
        lemma_find_from_at(q, '&', 0, ps[0].len());
        assert(q.subrange(0, ps[0].len() as int) =~= ps[0]);
        let next = apply_param(ps[0], dims);
        lemma_scan_shift(pre, join_params(rest), 0, next);
        assert forall|i: int| 0 <= i < rest.len() implies plain_param(#[trigger] rest[i]) by {
            assert(rest[i] == ps[i + 1]);
        }
        lemma_scan_join(rest, next);
        lemma_read_first(ps, dims);
    }
}

/// A parameter sets the width, the height, or neither, as `sets` says.
proof fn lemma_apply_param_parts(p: Seq<char>, dims: Dimensions)
    ensures
        apply_param(p, dims) == (
            if sets(p, "w"@) {
                parse_u32_spec(param_value(p))
            } else {
                dims.0
            },
            if sets(p, "h"@) {
                parse_u32_spec(param_value(p))
            } else {
                dims.1
            },
        ),
{
    reveal_strlit("w");
    reveal_strlit("h");
    assert("w"@[0] != "h"@[0]);
}

/// Reading in order leaves each dimension as the last parameter that sets it.
proof fn lemma_read_parts(ps: Seq<Seq<char>>, dims: Dimensions)
    ensures
        read_in_order(ps, dims) == (last_setting(ps, "w"@, dims.0), last_setting(ps, "h"@, dims.1)),
    decreases ps.len(),
{
    if ps.len() > 0 {
        lemma_read_parts(ps.drop_last(), dims);
        lemma_apply_param_parts(ps.last(), read_in_order(ps.drop_last(), dims));
    }
}

/// With distinct keys, the one parameter that sets `name` decides it.
proof fn lemma_setting_of(ps: Seq<Seq<char>>, name: Seq<char>, dflt: Option<u32>, i: int)
    requires
        distinct_keys(ps),
        0 <= i < ps.len(),
        sets(ps[i], name),
    ensures
        last_setting(ps, name, dflt) == parse_u32_spec(param_value(ps[i])),
    decreases ps.len(),
{
    if i < ps.len() - 1 {
        assert(!sets(ps.last(), name)) by {
            if sets(ps.last(), name) {
                assert(param_key(ps[i]) != param_key(ps[ps.len() - 1]));
            }
        }
        let front = ps.drop_last();
        assert(distinct_keys(front)) by {
            assert forall|a: int, b: int| 0 <= a < b < front.len() implies param_key(front[a])
                != param_key(front[b]) by {
                assert(front[a] == ps[a] && front[b] == ps[b]);
            }
        }
        assert(front[i] == ps[i]);
        lemma_setting_of(front, name, dflt, i);
    }
}

/// Without a parameter that sets `name`, it keeps `dflt`.
proof fn lemma_setting_absent(ps: Seq<Seq<char>>, name: Seq<char>, dflt: Option<u32>)
    requires
        forall|i: int| 0 <= i < ps.len() ==> !sets(#[trigger] ps[i], name),
    ensures
        last_setting(ps, name, dflt) == dflt,
    decreases ps.len(),
{
    if ps.len() > 0 {
        let front = ps.drop_last();
        assert forall|i: int| 0 <= i < front.len() implies !sets(#[trigger] front[i], name) by {
            assert(front[i] == ps[i]);
        }
        assert(!sets(ps[ps.len() - 1], name));
        lemma_setting_absent(front, name, dflt);
    }
}

/// Two lists of the same parameters, each with distinct keys, set `name` alike.
proof fn lemma_same_setting(
    ps1: Seq<Seq<char>>,
    ps2: Seq<Seq<char>>,
    name: Seq<char>,
    dflt: Option<u32>,
)
    requires
        distinct_keys(ps1),
        distinct_keys(ps2),
        forall|p: Seq<char>| ps1.contains(p) <==> ps2.contains(p),
    ensures
        last_setting(ps1, name, dflt) == last_setting(ps2, name, dflt),
{
    if exists|i: int| 0 <= i < ps1.len() && sets(#[trigger] ps1[i], name) {
        let i = choose|i: int| 0 <= i < ps1.len() && sets(#[trigger] ps1[i], name);
        assert(ps1.contains(ps1[i]));
        assert(ps2.contains(ps1[i]));
        let j = choose|j: int| 0 <= j < ps2.len() && ps2[j] == ps1[i];
        lemma_setting_of(ps1, name, dflt, i);
        lemma_setting_of(ps2, name, dflt, j);
    } else {
        assert forall|j: int| 0 <= j < ps2.len() implies !sets(#[trigger] ps2[j], name) by {
            if sets(ps2[j], name) {
                assert(ps2.contains(ps2[j]));
                assert(ps1.contains(ps2[j]));
                let i = choose|i: int| 0 <= i < ps1.len() && ps1[i] == ps2[j];
                assert(sets(ps1[i], name));
            }
        }
        lemma_setting_absent(ps1, name, dflt);
        lemma_setting_absent(ps2, name, dflt);
    }
}

/// The resolution a request with the parameters `ps` asks for is what
/// reading them in order gives.
proof fn lemma_resolution_path(ps: Seq<Seq<char>>)
    requires
        forall|i: int| 0 <= i < ps.len() ==> plain_param(#[trigger] ps[i]),
    ensures
        resolution_query(resolution_path(ps)) == match read_in_order(ps, (None, None)) {
            (Some(w), Some(h)) => Some((w, h)),
            _ => None::<(u32, u32)>,
        },
    decreases ps.len(),
{
    reveal_strlit("/api/resolution?");
    let q = join_params(ps);
    let p = resolution_path(ps);
    lemma_join_plain(ps);
    assert(p[15] == '?');
    lemma_find_from_at(p, '?', 0, 15);
    assert forall|j: int| 16 <= j < p.len() implies p[j] != '?' by {
        assert(p[j] == q[j - 16]);
    }
    lemma_find_from_at(p, '?', 16, p.len());
    assert(p.subrange(16, p.len() as int) =~= q);
    lemma_scan_join(ps, (None, None));
}

/// Parameters that hold no `?` join into a query string without one.
proof fn lemma_join_plain(ps: Seq<Seq<char>>)
    requires
        forall|i: int| 0 <= i < ps.len() ==> plain_param(#[trigger] ps[i]),
    ensures
        forall|k: int| 0 <= k < join_params(ps).len() ==> join_params(ps)[k] != '?',
    decreases ps.len(),
{
    if ps.len() == 1 {
        assert(plain_param(ps[0]));
    } else if ps.len() > 1 {
        let rest = ps.drop_first();
        assert forall|i: int| 0 <= i < rest.len() implies plain_param(#[trigger] rest[i]) by {
            assert(rest[i] == ps[i + 1]);
        }
        lemma_join_plain(rest);
        assert(plain_param(ps[0]));
        let q = join_params(ps);
        assert forall|k: int| 0 <= k < q.len() implies q[k] != '?' by {
            if k > ps[0].len() {
                assert(q[k] == join_params(rest)[k - ps[0].len() - 1]);
            }
        }
    }
}

/// Law: the order of the parameters of a resolution request does not
/// matter while no two have the same key: two requests with the same
/// parameters ask for the same resolution and get the same reply.
pub proof fn lemma_resolution_params_any_order(ps1: Seq<Seq<char>>, ps2: Seq<Seq<char>>)
    requires
        forall|i: int| 0 <= i < ps1.len() ==> plain_param(#[trigger] ps1[i]),
        forall|i: int| 0 <= i < ps2.len() ==> plain_param(#[trigger] ps2[i]),
        distinct_keys(ps1),
        distinct_keys(ps2),
        forall|p: Seq<char>| ps1.contains(p) <==> ps2.contains(p),
    ensures
        resolution_query(resolution_path(ps1)) == resolution_query(resolution_path(ps2)),
        resolution_reply_view(resolution_query(resolution_path(ps1))) == resolution_reply_view(
            resolution_query(resolution_path(ps2)),
        ),
{
    lemma_resolution_path(ps1);
    lemma_resolution_path(ps2);
    lemma_read_parts(ps1, (None, None));
    lemma_read_parts(ps2, (None, None));
    lemma_same_setting(ps1, ps2, "w"@, None);
    lemma_same_setting(ps1, ps2, "h"@, None);
}

// ---------------------------------------------------------------- snapshot

/// The reply to a snapshot request, given the latest JPEG frame, or `None`
/// where the frame could not be read.
pub open spec fn snapshot_reply_view(jpeg: Option<Seq<u8>>) -> ReplyView {
    match jpeg {
        None => text_reply(503, ContentType::PlainText, false, "Unavailable"@),
        Some(j) => if j.len() == 0 {
            text_reply(503, ContentType::PlainText, false, "Camera Warming Up"@)
        } else {
            ReplyView {
                status: 200,
                content_type: ContentType::Jpeg,
                allow_any_origin: true,
                body: BodyView::Bytes(j),
            }
        },
    }
}

/// The reply to a snapshot request: the latest frame as a JPEG, or 503 while
/// there is none yet or it cannot be read.
pub fn snapshot_reply(jpeg: Option<&[u8]>) -> (r: Reply)
    ensures
        r@ == snapshot_reply_view(
            match jpeg {
                Some(j) => Some(j@),
                None => None,
            },
        ),
{
    match jpeg {
        None => Reply::text(503, ContentType::PlainText, false, owned("Unavailable")),
        Some(j) => {
            if j.len() == 0 {
                Reply::text(503, ContentType::PlainText, false, owned("Camera Warming Up"))
            } else {
                let mut bytes: Vec<u8> = Vec::new();
                bytes.extend_from_slice(j);
                proof {
                    assert(bytes@ =~= j@);
                }
                Reply {
                    status: 200,
                    content_type: ContentType::Jpeg,
                    allow_any_origin: true,
                    body: Body::Bytes(bytes),
                }
            }
        },
    }
}

// ---------------------------------------------------------------- status

/// What the status endpoint says the stream is doing.
#[derive(Clone, Copy, Debug, PartialEq, Eq, Structural)]
pub enum StreamState {
    Paused,
    Streaming,
    Idle,
    Error,
}

/// The word that the status JSON uses for each state.
pub open spec fn stream_state_text(s: StreamState) -> Seq<char> {
    match s {
        StreamState::Paused => "paused"@,
        StreamState::Streaming => "streaming"@,
        StreamState::Idle => "idle"@,
        StreamState::Error => "error"@,
    }
}

impl StreamState {
    /// The word that the status JSON uses for this state.
    pub fn label(&self) -> (s: String)
        ensures
            s@ == stream_state_text(*self),
    {
        match self {
            StreamState::Paused => owned("paused"),
            StreamState::Streaming => owned("streaming"),
            StreamState::Idle => owned("idle"),
            StreamState::Error => owned("error"),
        }
    }
}

/// What is known of the latest frame.
pub struct FrameFacts {
    pub camera_name: String,
    pub width: u32,
    pub height: u32,
    pub frame_count: u64,
}

/// The status report, apart from the frame rate.
pub struct StatusReport {
    pub camera: String,
    pub width: u32,
    pub height: u32,
    pub frame_count: u64,
    pub state: StreamState,
    pub paused: bool,
}

/// The state reported for a readable frame: paused while the flag is set,
/// streaming once a frame was made, idle before.
pub open spec fn stream_state_of(frame_count: u64, paused: bool) -> StreamState {
    if paused {
        StreamState::Paused
    } else if frame_count > 0 {
        StreamState::Streaming
    } else {
        StreamState::Idle
    }
}

/// The status report for the latest frame, or `None` where it could not be
/// read, with the pause flag `paused`.
pub fn status_report(frame: Option<&FrameFacts>, paused: bool) -> (r: StatusReport)
    ensures
        match frame {
            Some(f) => {
                &&& r.camera@ == f.camera_name@
                &&& r.width == f.width
                &&& r.height == f.height
                &&& r.frame_count == f.frame_count
                &&& r.state == stream_state_of(f.frame_count, paused)
                &&& r.paused == paused
            },
            None => {
                &&& r.camera@ == "Unknown"@
                &&& r.width == 0
                &&& r.height == 0
                &&& r.frame_count == 0
                &&& r.state == StreamState::Error
                &&& !r.paused
            },
        },
{
    match frame {
        Some(f) => {
            let state = if paused {
                StreamState::Paused
            } else if f.frame_count > 0 {
                StreamState::Streaming
            } else {
                StreamState::Idle
            };
            StatusReport {
                camera: f.camera_name.clone(),
                width: f.width,
                height: f.height,
                frame_count: f.frame_count,
                state,
                paused,
            }
        },
        None => StatusReport {
            camera: owned("Unknown"),
            width: 0,
            height: 0,
            frame_count: 0,
            state: StreamState::Error,
            paused: false,
        },
    }
}

/// The reply that carries the status JSON `json`.
pub open spec fn status_reply_view(json: Seq<char>) -> ReplyView {
    text_reply(200, ContentType::Json, true, json)
}

/// The reply that carries the status JSON `json`: 200, readable from any origin.
pub fn status_reply(json: String) -> (r: Reply)
    ensures
        r@ == status_reply_view(json@),
{
    Reply::text(200, ContentType::Json, true, json)
}

// ---------------------------------------------------------------- MJPEG

/// The response head that opens an MJPEG stream.
pub const MJPEG_STREAM_HEAD: &'static str =
    "HTTP/1.1 200 OK\r\nContent-Type: multipart/x-mixed-replace; boundary=frame\r\nAccess-Control-Allow-Origin: *\r\nCache-Control: no-cache\r\nConnection: close\r\n\r\n";

/// What opens each part of the stream, before the frame's length.
pub const MJPEG_PART_OPENING: &'static str =
    "--frame\r\nContent-Type: image/jpeg\r\nContent-Length: ";

/// What ends the headers of a part.
pub const MJPEG_HEADER_END: &'static str = "\r\n\r\n";

/// What follows the frame in each part.
pub const MJPEG_PART_END: &'static str = "\r\n";

/// The headers of the stream part that carries a frame of `len` bytes.
pub open spec fn mjpeg_part_header(len: nat) -> Seq<char> {
    MJPEG_PART_OPENING@ + decimal(len) + MJPEG_HEADER_END@
}

/// Which frame a stream sent last.
pub struct MjpegFeed {
    pub last_frame_id: u64,
}

/// Whether a stream that sent frame `last` last sends frame `frame_id` of
/// `len` bytes: only a new frame, and only one that is not empty.
pub open spec fn mjpeg_sends(last: u64, frame_id: u64, len: nat) -> bool {
    frame_id != last && len > 0
}

impl MjpegFeed {
    /// A stream that has sent nothing yet.
    pub fn new() -> (r: MjpegFeed)
        ensures
            r.last_frame_id == 0,
    {
        MjpegFeed { last_frame_id: 0 }
    }

    /// Offers the stream frame `frame_id`, whose JPEG is `jpeg_len` bytes long.
    /// Where it is to be sent, gives the part headers to write before it
    /// (then the frame, then `MJPEG_PART_END`), and remembers it as sent.
    pub fn offer(&mut self, frame_id: u64, jpeg_len: usize) -> (r: Option<String>)
        ensures
            r.is_some() == mjpeg_sends(old(self).last_frame_id, frame_id, jpeg_len as nat),
            r matches Some(h) ==> h@ == mjpeg_part_header(jpeg_len as nat),
            final(self).last_frame_id == if r.is_some() {
                frame_id
            } else {
                old(self).last_frame_id
            },
    {
        if frame_id != self.last_frame_id && jpeg_len > 0 {
            self.last_frame_id = frame_id;
            let mut header = String::new();
            header.append(MJPEG_PART_OPENING);
            push_decimal(&mut header, jpeg_len as u64);
            header.append(MJPEG_HEADER_END);
            proof {
                assert(header@ =~= mjpeg_part_header(jpeg_len as nat));
            }
            Some(header)
        } else {
            None
        }
    }
}

/// The head that opens an MJPEG stream, as a string.
pub fn mjpeg_stream_head() -> (s: String)
    ensures
        s@ == MJPEG_STREAM_HEAD@,
{
    owned(MJPEG_STREAM_HEAD)
}

/// Law: a frame that a stream sent is not sent again, whatever its length
/// is said to be the next time.
pub proof fn lemma_frame_sent_once(last: u64, frame_id: u64, len: nat, len_again: nat)
    requires
        mjpeg_sends(last, frame_id, len),
    ensures
        !mjpeg_sends(frame_id, frame_id, len_again),
{
}

/// Law: the `Content-Length` of a stream part reads back as the length of
/// the frame it carries.
pub proof fn lemma_part_length_roundtrip(len: u32)
    ensures
        ({
            let header = mjpeg_part_header(len as nat);
            let start = MJPEG_PART_OPENING@.len() as int;
            parse_u32_spec(header.subrange(start, start + decimal(len as nat).len())) == Some(len)
        }),
{
    let header = mjpeg_part_header(len as nat);
    let start = MJPEG_PART_OPENING@.len() as int;
    assert(header.subrange(start, start + decimal(len as nat).len()) =~= decimal(len as nat));
    lemma_parse_decimal_roundtrip(len);
}

/// Law: once a pause request has set the flag, the status reports the
/// stream paused (for a frame that could be read), and once it has cleared
/// it, it does not.
pub proof fn lemma_status_follows_pause(frame_count: u64, paused: bool)
    ensures
        (stream_state_of(frame_count, pause_after(paused)) == StreamState::Paused) == !paused,
{
}

} // verus!
