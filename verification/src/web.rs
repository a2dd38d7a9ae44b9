//! HTTP plumbing decisions: content types and routing of the embedded
//! frontend, the HTTPS redirect target, the startup banner and the CORS
//! origin policy.
use vstd::prelude::*;
use vstd::utf8::encode_utf8;
use crate::text::{
    ascii_lower, char_ascii_lower, chars_eq_str, chars_of, contains, decimal, find_char_from,
    find_from, has_prefix, has_substring, lemma_find_from, push_decimal, push_str, starts_with,
    string_from_range,
};

verus! {

broadcast use vstd::string::group_string_axioms;

// ---------------------------------------------------------------------------
// Embedded assets
// ---------------------------------------------------------------------------

/// Index of the last `c` in `s`, or -1.
pub open spec fn last_index_of(s: Seq<char>, c: char) -> int
    decreases s.len(),
{
    if s.len() == 0 {
        -1
    } else if s.last() == c {
        s.len() - 1
    } else {
        last_index_of(s.drop_last(), c)
    }
}

/// What `rsplit(c).next()` yields: the text after the last `c`, or all of
/// `s` when it holds none.
pub open spec fn after_last(s: Seq<char>, c: char) -> Seq<char> {
    s.skip(last_index_of(s, c) + 1)
}

fn last_index(v: &[char], c: char) -> (r: Option<usize>)
    ensures
        match r {
            Some(k) => last_index_of(v@, c) == k && k < v.len(),
            None => last_index_of(v@, c) == -1,
        },
{
    let mut i = v.len();
    assert(v@.take(i as int) =~= v@);
    while i > 0
        invariant
            i <= v.len(),
            last_index_of(v@, c) == last_index_of(v@.take(i as int), c),
        decreases i,
    {
        if v[i - 1] == c {
            return Some(i - 1);
        }
        assert(v@.take(i as int).drop_last() =~= v@.take(i - 1));
        i = i - 1;
    }
    None
}

fn after_last_vec(v: &[char], c: char) -> (r: Vec<char>)
    ensures
        r@ == after_last(v@, c),
{
    let start = match last_index(v, c) {
        Some(k) => k + 1,
        None => 0,
    };
    let r = crate::updates::sub_vec(v, start, v.len());
    assert(r@ =~= v@.skip(start as int));
    r
}

/// The MIME type served for a lower-case file extension.
pub open spec fn mime_for(ext: Seq<char>) -> Seq<char> {
    if ext == "html"@ {
        "text/html; charset=utf-8"@
    } else if ext == "css"@ {
        "text/css; charset=utf-8"@
    } else if ext == "js"@ || ext == "mjs"@ {
        "application/javascript; charset=utf-8"@
    } else if ext == "json"@ {
        "application/json; charset=utf-8"@
    } else if ext == "svg"@ {
        "image/svg+xml"@
    } else if ext == "png"@ {
        "image/png"@
    } else if ext == "jpg"@ || ext == "jpeg"@ {
        "image/jpeg"@
    } else if ext == "gif"@ {
        "image/gif"@
    } else if ext == "ico"@ {
        "image/x-icon"@
    } else if ext == "woff"@ {
        "font/woff"@
    } else if ext == "woff2"@ {
        "font/woff2"@
    } else if ext == "ttf"@ {
        "font/ttf"@
    } else if ext == "eot"@ {
        "application/vnd.ms-fontobject"@
    } else if ext == "webp"@ {
        "image/webp"@
    } else if ext == "avif"@ {
        "image/avif"@
    } else if ext == "mp4"@ {
        "video/mp4"@
    } else if ext == "webm"@ {
        "video/webm"@
    } else if ext == "txt"@ || ext == "text"@ {
        "text/plain; charset=utf-8"@
    } else if ext == "xml"@ {
        "application/xml; charset=utf-8"@
    } else if ext == "map"@ {
        "application/json; charset=utf-8"@
    } else {
        "application/octet-stream"@
    }
}

/// The extension of a path as it is matched: the text after its last `.`
/// (the whole path when there is none), in ASCII lower case.
pub open spec fn extension_of(path: Seq<char>) -> Seq<char> {
    after_last(path, '.').map_values(|c: char| ascii_lower(c))
}

/// Content type of an asset, by its extension.
pub fn content_type(path: &str) -> (r: &'static str)
    ensures
        r@ == mime_for(extension_of(path@)),
{
    let p = chars_of(path);
    let raw_ext = after_last_vec(p.as_slice(), '.');
    let mut ext: Vec<char> = Vec::new();
    let mut i: usize = 0;
    while i < raw_ext.len()
        invariant
            i <= raw_ext.len(),
            ext@ == raw_ext@.take(i as int).map_values(|c: char| ascii_lower(c)),
        decreases raw_ext.len() - i,
    {
        ext.push(char_ascii_lower(raw_ext[i]));
        i = i + 1;
        assert(ext@ =~= raw_ext@.take(i as int).map_values(|c: char| ascii_lower(c)));
    }
    assert(raw_ext@.take(raw_ext@.len() as int) =~= raw_ext@);
    let e = ext.as_slice();
    if chars_eq_str(e, "html") {
        "text/html; charset=utf-8"
    } else if chars_eq_str(e, "css") {
        "text/css; charset=utf-8"
    } else if chars_eq_str(e, "js") || chars_eq_str(e, "mjs") {
        "application/javascript; charset=utf-8"
    } else if chars_eq_str(e, "json") {
        "application/json; charset=utf-8"
    } else if chars_eq_str(e, "svg") {
        "image/svg+xml"
    } else if chars_eq_str(e, "png") {
        "image/png"
    } else if chars_eq_str(e, "jpg") || chars_eq_str(e, "jpeg") {
        "image/jpeg"
    } else if chars_eq_str(e, "gif") {
        "image/gif"
    } else if chars_eq_str(e, "ico") {
        "image/x-icon"
    } else if chars_eq_str(e, "woff") {
        "font/woff"
    } else if chars_eq_str(e, "woff2") {
        "font/woff2"
    } else if chars_eq_str(e, "ttf") {
        "font/ttf"
    } else if chars_eq_str(e, "eot") {
        "application/vnd.ms-fontobject"
    } else if chars_eq_str(e, "webp") {
        "image/webp"
    } else if chars_eq_str(e, "avif") {
        "image/avif"
    } else if chars_eq_str(e, "mp4") {
        "video/mp4"
    } else if chars_eq_str(e, "webm") {
        "video/webm"
    } else if chars_eq_str(e, "txt") || chars_eq_str(e, "text") {
        "text/plain; charset=utf-8"
    } else if chars_eq_str(e, "xml") {
        "application/xml; charset=utf-8"
    } else if chars_eq_str(e, "map") {
        "application/json; charset=utf-8"
    } else {
        "application/octet-stream"
    }
}

/// The last `c` of `a` followed by `c` and a text without `c` is that `c`.
proof fn lemma_last_index_after(a: Seq<char>, c: char, t: Seq<char>)
    requires
        forall|k: int| 0 <= k < t.len() ==> t[k] != c,
    ensures
        last_index_of(a.push(c) + t, c) == a.len(),
        after_last(a.push(c) + t, c) == t,
    decreases t.len(),
{
    let s = a.push(c) + t;
    if t.len() == 0 {
        assert(s =~= a.push(c));
    } else {
        lemma_last_index_after(a, c, t.drop_last());
        assert(s.drop_last() =~= a.push(c) + t.drop_last());
        assert(s.last() == t.last());
    }
    assert(s.skip(a.len() as int + 1) =~= t);
}

/// A file is served by what its extension names, whatever the case of the
/// extension and whatever comes before it: a page as HTML, a stylesheet as
/// CSS, a script as JavaScript, data as JSON, images, icons and fonts by
/// their types, and anything unknown as a plain byte stream.
pub proof fn law_content_type_by_extension(base: Seq<char>, ext: Seq<char>)
    requires
        forall|k: int| 0 <= k < ext.len() ==> ext[k] != '.',
    ensures
        ({
            let e = ext.map_values(|c: char| ascii_lower(c));
            let t = mime_for(extension_of(base.push('.') + ext));
            &&& e == "html"@ ==> t == "text/html; charset=utf-8"@
            &&& e == "css"@ ==> t == "text/css; charset=utf-8"@
            &&& e == "js"@ ==> t == "application/javascript; charset=utf-8"@
            &&& e == "mjs"@ ==> t == "application/javascript; charset=utf-8"@
            &&& e == "json"@ ==> t == "application/json; charset=utf-8"@
            &&& e == "map"@ ==> t == "application/json; charset=utf-8"@
            &&& e == "svg"@ ==> t == "image/svg+xml"@
            &&& e == "png"@ ==> t == "image/png"@
            &&& e == "jpg"@ ==> t == "image/jpeg"@
            &&& e == "jpeg"@ ==> t == "image/jpeg"@
            &&& e == "gif"@ ==> t == "image/gif"@
            &&& e == "ico"@ ==> t == "image/x-icon"@
            &&& e == "webp"@ ==> t == "image/webp"@
            &&& e == "woff"@ ==> t == "font/woff"@
            &&& e == "woff2"@ ==> t == "font/woff2"@
            &&& e == "ttf"@ ==> t == "font/ttf"@
            &&& e == "eot"@ ==> t == "application/vnd.ms-fontobject"@
            &&& e == "avif"@ ==> t == "image/avif"@
            &&& e == "mp4"@ ==> t == "video/mp4"@
            &&& e == "webm"@ ==> t == "video/webm"@
            &&& e == "txt"@ ==> t == "text/plain; charset=utf-8"@
            &&& e == "text"@ ==> t == "text/plain; charset=utf-8"@
            &&& e == "xml"@ ==> t == "application/xml; charset=utf-8"@
            &&& e == "bin"@ ==> t == "application/octet-stream"@
        }),
{
    lemma_last_index_after(base, '.', ext);
    assert(extension_of(base.push('.') + ext) =~= ext.map_values(|c: char| ascii_lower(c)));
    reveal_strlit("html");
    reveal_strlit("css");
    reveal_strlit("js");
    reveal_strlit("mjs");
    reveal_strlit("json");
    reveal_strlit("svg");
    reveal_strlit("png");
    reveal_strlit("jpg");
    reveal_strlit("jpeg");
    reveal_strlit("gif");
    reveal_strlit("ico");
    reveal_strlit("woff");
    reveal_strlit("woff2");
    reveal_strlit("ttf");
    reveal_strlit("eot");
    reveal_strlit("webp");
    reveal_strlit("avif");
    reveal_strlit("mp4");
    reveal_strlit("webm");
    reveal_strlit("txt");
    reveal_strlit("text");
    reveal_strlit("xml");
    reveal_strlit("map");
    reveal_strlit("bin");
    let e = ext.map_values(|c: char| ascii_lower(c));
    if e == "html"@ {
        assert(e.len() == 4 && e[0] == 'h' && e[1] == 't' && e[2] == 'm' && e[3] == 'l');
    }
    if e == "css"@ {
        assert(e.len() == 3 && e[0] == 'c' && e[1] == 's' && e[2] == 's');
    }
    if e == "js"@ {
        assert(e.len() == 2 && e[0] == 'j' && e[1] == 's');
    }
    if e == "mjs"@ {
        assert(e.len() == 3 && e[0] == 'm' && e[1] == 'j' && e[2] == 's');
    }
    if e == "json"@ {
        assert(e.len() == 4 && e[0] == 'j' && e[1] == 's' && e[2] == 'o' && e[3] == 'n');
    }
    if e == "map"@ {
        assert(e.len() == 3 && e[0] == 'm' && e[1] == 'a' && e[2] == 'p');
    }
    if e == "svg"@ {
        assert(e.len() == 3 && e[0] == 's' && e[1] == 'v' && e[2] == 'g');
    }
    if e == "png"@ {
        assert(e.len() == 3 && e[0] == 'p' && e[1] == 'n' && e[2] == 'g');
    }
    if e == "jpg"@ {
        assert(e.len() == 3 && e[0] == 'j' && e[1] == 'p' && e[2] == 'g');
    }
    if e == "jpeg"@ {
        assert(e.len() == 4 && e[0] == 'j' && e[1] == 'p' && e[2] == 'e' && e[3] == 'g');
    }
    if e == "gif"@ {
        assert(e.len() == 3 && e[0] == 'g' && e[1] == 'i' && e[2] == 'f');
    }
    if e == "ico"@ {
        assert(e.len() == 3 && e[0] == 'i' && e[1] == 'c' && e[2] == 'o');
    }
    if e == "webp"@ {
        assert(e.len() == 4 && e[0] == 'w' && e[1] == 'e' && e[2] == 'b' && e[3] == 'p');
    }
    if e == "woff"@ {
        assert(e.len() == 4 && e[0] == 'w' && e[1] == 'o' && e[2] == 'f' && e[3] == 'f');
    }
    if e == "woff2"@ {
        assert(e.len() == 5 && e[0] == 'w' && e[1] == 'o' && e[2] == 'f' && e[3] == 'f' && e[4] == '2');
    }
    if e == "ttf"@ {
        assert(e.len() == 3 && e[0] == 't' && e[1] == 't' && e[2] == 'f');
    }
    if e == "txt"@ {
        assert(e.len() == 3 && e[0] == 't' && e[1] == 'x' && e[2] == 't');
    }
    if e == "eot"@ {
        assert(e.len() == 3 && e[0] == 'e' && e[1] == 'o' && e[2] == 't');
    }
    if e == "avif"@ {
        assert(e.len() == 4 && e[0] == 'a' && e[1] == 'v' && e[2] == 'i' && e[3] == 'f');
    }
    if e == "mp4"@ {
        assert(e.len() == 3 && e[0] == 'm' && e[1] == 'p' && e[2] == '4');
    }
    if e == "webm"@ {
        assert(e.len() == 4 && e[0] == 'w' && e[1] == 'e' && e[2] == 'b' && e[3] == 'm');
    }
    if e == "text"@ {
        assert(e.len() == 4 && e[0] == 't' && e[1] == 'e' && e[2] == 'x' && e[3] == 't');
    }
    if e == "xml"@ {
        assert(e.len() == 3 && e[0] == 'x' && e[1] == 'm' && e[2] == 'l');
    }
    if e == "bin"@ {
        assert(e.len() == 3 && e[0] == 'b' && e[1] == 'i' && e[2] == 'n');
    }
}

/// A path names a specific file when its last segment holds a dot.
pub open spec fn names_file(path: Seq<char>) -> bool {
    contains(after_last(path, '/'), "."@)
}

/// Whether a path looks like a specific static file.
pub fn is_static_asset(path: &str) -> (r: bool)
    ensures
        r == names_file(path@),
{
    let p = chars_of(path);
    let seg = after_last_vec(p.as_slice(), '/');
    has_substring(seg.as_slice(), ".")
}

/// A request path with every leading `/` removed (`trim_start_matches('/')`).
pub open spec fn strip_leading_slashes(s: Seq<char>) -> Seq<char>
    decreases s.len(),
{
    if s.len() > 0 && s[0] == '/' {
        strip_leading_slashes(s.drop_first())
    } else {
        s
    }
}

/// How the frontend answers a request for an asset path.
#[derive(Debug, PartialEq, Eq, Structural)]
pub enum AssetRoute {
    /// Serve the embedded file at this path.
    Serve,
    /// A specific file was asked for and is not embedded.
    NotFound,
    /// Serve `index.html`, so that client-side routing handles the path.
    IndexFallback,
}

/// The embedded asset a request path asks for: `index.html` for the root.
/// Also says whether the request was for the root.
pub fn asset_path_for(raw_path: &str) -> (r: (String, bool))
    ensures
        r.1 == (strip_leading_slashes(raw_path@).len() == 0),
        r.1 ==> r.0@ == "index.html"@,
        !r.1 ==> r.0@ == strip_leading_slashes(raw_path@),
{
    let v = chars_of(raw_path);
    let mut i: usize = 0;
    assert(v@.skip(0) =~= v@);
    while i < v.len() && v[i] == '/'
        invariant
            i <= v.len(),
            strip_leading_slashes(raw_path@) == strip_leading_slashes(v@.skip(i as int)),
            v@ == raw_path@,
        decreases v.len() - i,
    {
        assert(v@.skip(i as int).drop_first() =~= v@.skip(i + 1));
        i = i + 1;
    }
    assert(strip_leading_slashes(v@.skip(i as int)) == v@.skip(i as int));
    assert(v@.subrange(i as int, v@.len() as int) =~= v@.skip(i as int));
    if i == v.len() {
        ("index.html".to_string(), true)
    } else {
        (string_from_range(v.as_slice(), i, v.len()), false)
    }
}

/// Routing once the embedded store has been asked for the path: a found file
/// is served; a missing specific file (not the root) is a 404; anything else
/// falls back to `index.html`.
pub fn route_asset(asset_path: &str, is_root: bool, found: bool) -> (r: AssetRoute)
    ensures
        found ==> r == AssetRoute::Serve,
        !found && !is_root && names_file(asset_path@) ==> r == AssetRoute::NotFound,
        !found && (is_root || !names_file(asset_path@)) ==> r == AssetRoute::IndexFallback,
{
    if found {
        AssetRoute::Serve
    } else if !is_root && is_static_asset(asset_path) {
        AssetRoute::NotFound
    } else {
        AssetRoute::IndexFallback
    }
}

/// `Cache-Control` for an embedded file: hashed bundles under `assets/` never
/// change, everything else is revalidated.
pub fn cache_control(asset_path: &str) -> (r: &'static str)
    ensures
        starts_with(asset_path@, "assets/"@) ==> r@ == "public, max-age=31536000, immutable"@,
        !starts_with(asset_path@, "assets/"@) ==> r@ == "no-cache"@,
{
    let p = chars_of(asset_path);
    if has_prefix(p.as_slice(), "assets/") {
        "public, max-age=31536000, immutable"
    } else {
        "no-cache"
    }
}

// ---------------------------------------------------------------------------
// HTTP to HTTPS redirect
// ---------------------------------------------------------------------------

/// The text before the first `c` (the first item of `split(c)`).
pub open spec fn before_first(s: Seq<char>, c: char) -> Seq<char> {
    let k = find_from(s, c, 0);
    if k < 0 {
        s
    } else {
        s.take(k)
    }
}

/// Where a plain-HTTP request is sent: the same host (without its port) on
/// the HTTPS port, which is left out when it is 443, and the same path and
/// query (`/` when there is none).
pub open spec fn redirect_target(host: Seq<char>, https_port: u16, path_and_query: Option<
    Seq<char>,
>) -> Seq<char> {
    let base = before_first(host, ':');
    let authority = if https_port == 443 {
        base
    } else {
        base + ":"@ + decimal(https_port as nat)
    };
    let pq = match path_and_query {
        Some(p) => p,
        None => "/"@,
    };
    "https://"@ + authority + pq
}

/// The HTTPS URL that a plain-HTTP request is redirected to.
pub fn https_redirect_target(host: &str, https_port: u16, path_and_query: Option<&str>) -> (r:
    String)
    ensures
        r@ == redirect_target(
            host@,
            https_port,
            match path_and_query {
                Some(p) => Some(p@),
                None => None,
            },
        ),
{
    let h = chars_of(host);
    proof {
        lemma_find_from(h@, ':', 0);
    }
    let end = match find_char_from(h.as_slice(), ':', 0) {
        Some(k) => k,
        None => h.len(),
    };
    let base = string_from_range(h.as_slice(), 0, end);
    assert(base@ =~= before_first(host@, ':'));
    let mut s = String::new();
    push_str(&mut s, "https://");
    push_str(&mut s, base.as_str());
    if https_port != 443 {
        push_str(&mut s, ":");
        push_decimal(&mut s, https_port as u64);
    }
    match path_and_query {
        Some(p) => push_str(&mut s, p),
        None => push_str(&mut s, "/"),
    }
    assert(s@ =~= redirect_target(
        host@,
        https_port,
        match path_and_query {
            Some(p) => Some(p@),
            None => None,
        },
    ));
    s
}

// ---------------------------------------------------------------------------
// Startup banner
// ---------------------------------------------------------------------------

/// Inner width of the startup banner.
pub const BANNER_WIDTH: usize = 50;

/// `n` spaces.
pub open spec fn spaces(n: nat) -> Seq<char> {
    Seq::new(n, |i: int| ' ')
}

/// A banner line: the text between two box edges, padded with spaces to the
/// banner's width counted in UTF-8 bytes (no padding when already wider).
pub fn banner_line(text: &str) -> (r: String)
    ensures
        r@ == "║"@ + text@ + spaces(
            if encode_utf8(text@).len() as usize >= 50 {
                0
            } else {
                (50 - encode_utf8(text@).len() as usize) as nat
            },
        ) + "║"@,
{
    let len = text.len();
    let extra: usize = if len >= BANNER_WIDTH {
        0
    } else {
        BANNER_WIDTH - len
    };
    let mut s = String::new();
    push_str(&mut s, "║");
    push_str(&mut s, text);
    let ghost before = s@;
    let mut i: usize = 0;
    while i < extra
        invariant
            i <= extra,
            s@ == before + spaces(i as nat),
        decreases extra - i,
    {
        s.push(' ');
        i = i + 1;
        assert(s@ =~= before + spaces(i as nat));
    }
    push_str(&mut s, "║");
    s
}

// ---------------------------------------------------------------------------
// CORS
// ---------------------------------------------------------------------------

/// A byte allowed in an HTTP header value: visible ASCII, space, tab, or any
/// byte above 127 (`http::HeaderValue::from_str` accepts exactly these).
pub open spec fn header_byte_ok(b: u8) -> bool {
    (b >= 32 && b != 127) || b == 9
}

/// A string `HeaderValue::from_str` accepts.
pub open spec fn valid_header_value(bytes: Seq<u8>) -> bool {
    forall|i: int| 0 <= i < bytes.len() ==> header_byte_ok(#[trigger] bytes[i])
}

/// Whether a string can be sent as a header value.
pub fn is_valid_header_value(s: &str) -> (r: bool)
    ensures
        r == valid_header_value(encode_utf8(s@)),
{
    let b = s.as_bytes();
    let mut i: usize = 0;
    while i < b.len()
        invariant
            i <= b.len(),
            b@ == encode_utf8(s@),
            forall|k: int| 0 <= k < i ==> header_byte_ok(b@[k]),
        decreases b.len() - i,
    {
        let x = b[i];
        if !((x >= 32 && x != 127) || x == 9) {
            return false;
        }
        i = i + 1;
    }
    true
}

/// The trusted origins that are valid header values, in order.
pub open spec fn valid_origins(os: Seq<String>) -> Seq<Seq<char>>
    decreases os.len(),
{
    if os.len() == 0 {
        Seq::empty()
    } else {
        let rest = valid_origins(os.drop_last());
        if valid_header_value(encode_utf8(os.last()@)) {
            rest.push(os.last()@)
        } else {
            rest
        }
    }
}

/// Views of a sequence of strings.
pub open spec fn string_views(v: Seq<String>) -> Seq<Seq<char>> {
    v.map_values(|s: String| s@)
}

/// Which origins browsers may call the API from.
pub enum CorsPolicy {
    /// Any origin (no trusted origins configured, or none of them valid).
    AnyOrigin,
    /// Only these origins, with credentials.
    Origins(Vec<String>),
}

/// The CORS policy for the configured trusted origins: the valid ones in
/// order, or any origin when there is none.
pub fn cors_policy(trusted_origins: &Vec<String>) -> (r: CorsPolicy)
    ensures
        match r {
            CorsPolicy::AnyOrigin => valid_origins(trusted_origins@).len() == 0,
            CorsPolicy::Origins(v) => v@.len() > 0 && string_views(v@) == valid_origins(
                trusted_origins@,
            ),
        },
{
    let mut out: Vec<String> = Vec::new();
    let mut i: usize = 0;
    assert(trusted_origins@.take(0) =~= Seq::<String>::empty());
    while i < trusted_origins.len()
        invariant
            i <= trusted_origins.len(),
            string_views(out@) == valid_origins(trusted_origins@.take(i as int)),
        decreases trusted_origins.len() - i,
    {
        let o = &trusted_origins[i];
        assert(trusted_origins@.take(i + 1).drop_last() =~= trusted_origins@.take(i as int));
        if is_valid_header_value(o.as_str()) {
            out.push(o.clone());
            assert(string_views(out@) =~= valid_origins(trusted_origins@.take(i + 1)));
        }
        i = i + 1;
    }
    assert(trusted_origins@.take(trusted_origins@.len() as int) =~= trusted_origins@);
    if out.len() == 0 {
        CorsPolicy::AnyOrigin
    } else {
        CorsPolicy::Origins(out)
    }
}

} // verus!
