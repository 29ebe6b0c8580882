//! The HTTP API's decisions: which handler a request goes to, how a handler's
//! outcome is answered, and what an upload asks for. Receiving and sending
//! stay with the caller.

use vstd::prelude::*;

use crate::graphics_component::font::{font_count, font_index, font_name_text, font_variant_names, FontName};
use crate::renderer::{all_accepted, transition, CommandError, CommandValue, DisplayAction, ReplyValue, State};
use crate::graphics_component::ComponentValue;
use crate::text::{chars_of, same_chars};
use crate::upload::{
    animation_frames, ascii_lower, decoded_gif_frames, decoded_image_rgba, filter_named,
    guessed_format_is_gif, maybe_resized, resize_filter_from_str, rgb_value, upload_error_message,
    AnimatedImageBuf, ImageBuf, ResizeFilter, ResizeOptions, UploadManager, UploadedAsset,
};

verus! {

/// Version of the HTTP API that this server implements.
pub fn api_version() -> (v: &'static str)
    ensures
        v@ == api_version_text(),
{
    proof {
        reveal_strlit("0.6.4");
    }
    "0.6.4"
}

/// The API version, `0.6.4`.
pub open spec fn api_version_text() -> Seq<char> {
    seq!['0', '.', '6', '.', '4']
}

/// The handler a request goes to.
#[derive(Debug, PartialEq, Eq, Clone)]
pub enum Route {
    /// `GET /`: the web page.
    Index,
    /// `GET /api/info`.
    Info,
    /// `GET /api/state`.
    GetState,
    /// `POST /api/state`.
    SetState,
    /// `POST /api/display/on`.
    DisplayOn,
    /// `POST /api/display/off`.
    DisplayOff,
    /// `GET /api/files`.
    ListFiles,
    /// `PUT /api/files/<name>`.
    Upload(String),
    /// `DELETE /api/files/<name>`.
    DeleteFile(String),
    /// Any other `GET`: a file of the static web content.
    Asset,
    /// Anything else.
    NotFound,
}

/// A route, its file name taken by value.
pub enum RouteValue {
    Index,
    Info,
    GetState,
    SetState,
    DisplayOn,
    DisplayOff,
    ListFiles,
    Upload(Seq<char>),
    DeleteFile(Seq<char>),
    Asset,
    NotFound,
}

impl View for Route {
    type V = RouteValue;

    open spec fn view(&self) -> RouteValue {
        match self {
            Route::Index => RouteValue::Index,
            Route::Info => RouteValue::Info,
            Route::GetState => RouteValue::GetState,
            Route::SetState => RouteValue::SetState,
            Route::DisplayOn => RouteValue::DisplayOn,
            Route::DisplayOff => RouteValue::DisplayOff,
            Route::ListFiles => RouteValue::ListFiles,
            Route::Upload(n) => RouteValue::Upload(n@),
            Route::DeleteFile(n) => RouteValue::DeleteFile(n@),
            Route::Asset => RouteValue::Asset,
            Route::NotFound => RouteValue::NotFound,
        }
    }
}

/// Where the query of a URL starts: at its first `?`, or at its end.
pub open spec fn query_start(url: Seq<char>) -> nat
    decreases url.len(),
{
    if url.len() == 0 {
        0
    } else if url[0] == '?' {
        0
    } else {
        1 + query_start(url.skip(1))
    }
}

/// The path of a URL: what comes before its query.
pub open spec fn url_path(url: Seq<char>) -> Seq<char> {
    url.take(query_start(url) as int)
}

/// The file named by a path `/api/files/<name>`, where the name holds no `/`.
pub open spec fn file_in_path(path: Seq<char>) -> Option<Seq<char>> {
    let prefix = "/api/files/"@;
    if path.len() >= prefix.len() && path.take(prefix.len() as int) == prefix && !path.skip(
        prefix.len() as int,
    ).contains('/') {
        Some(path.skip(prefix.len() as int))
    } else {
        None
    }
}

/// The handler for a method and a raw URL; the query is ignored.
pub open spec fn route_of(method: Seq<char>, url: Seq<char>) -> RouteValue {
    let path = url_path(url);
    if method == "GET"@ {
        if path == "/"@ {
            RouteValue::Index
        } else if path == "/api/info"@ {
            RouteValue::Info
        } else if path == "/api/state"@ {
            RouteValue::GetState
        } else if path == "/api/files"@ {
            RouteValue::ListFiles
        } else {
            RouteValue::Asset
        }
    } else if method == "POST"@ {
        if path == "/api/state"@ {
            RouteValue::SetState
        } else if path == "/api/display/on"@ {
            RouteValue::DisplayOn
        } else if path == "/api/display/off"@ {
            RouteValue::DisplayOff
        } else {
            RouteValue::NotFound
        }
    } else if method == "PUT"@ {
        match file_in_path(path) {
            Some(n) => RouteValue::Upload(n),
            None => RouteValue::NotFound,
        }
    } else if method == "DELETE"@ {
        match file_in_path(path) {
            Some(n) => RouteValue::DeleteFile(n),
            None => RouteValue::NotFound,
        }
    } else {
        RouteValue::NotFound
    }
}

proof fn lemma_query_start(url: Seq<char>, i: int)
    requires
        0 <= i <= url.len(),
        forall|j: int| 0 <= j < i ==> url[j] != '?',
        i == url.len() || url[i] == '?',
    ensures
        query_start(url) == i,
    decreases i,
{
    if i > 0 {
        assert(url[0] != '?');
        let t = url.skip(1);
        assert forall|j: int| 0 <= j < i - 1 implies t[j] != '?' by {
            assert(t[j] == url[j + 1]);
        }
        if i < url.len() {
            assert(t[i - 1] == url[i]);
        }
        lemma_query_start(t, i - 1);
    }
}

/// The characters of `v` from `from` on.
fn chars_from(v: &Vec<char>, from: usize) -> (r: Vec<char>)
    requires
        from <= v@.len(),
    ensures
        r@ == v@.skip(from as int),
{
    let mut r: Vec<char> = Vec::new();
    let mut i = from;
    while i < v.len()
        invariant
            from <= i <= v@.len(),
            r@ == v@.subrange(from as int, i as int),
        decreases v@.len() - i,
    {
        r.push(v[i]);
        assert(v@.subrange(from as int, i + 1) == v@.subrange(from as int, i as int).push(v@[i as int]));
        i = i + 1;
    }
    assert(v@.subrange(from as int, v@.len() as int) == v@.skip(from as int));
    r
}

/// The characters of `v` before `to`.
fn chars_before(v: &Vec<char>, to: usize) -> (r: Vec<char>)
    requires
        to <= v@.len(),
    ensures
        r@ == v@.take(to as int),
{
    let mut r: Vec<char> = Vec::new();
    let mut i: usize = 0;
    while i < to
        invariant
            i <= to <= v@.len(),
            r@ == v@.take(i as int),
        decreases to - i,
    {
        r.push(v[i]);
        assert(v@.take(i + 1) == v@.take(i as int).push(v@[i as int]));
        i = i + 1;
    }
    r
}

/// Whether `c` occurs in `v`.
fn contains_char(v: &Vec<char>, c: char) -> (b: bool)
    ensures
        b == v@.contains(c),
{
    let mut i: usize = 0;
    while i < v.len()
        invariant
            i <= v@.len(),
            forall|j: int| 0 <= j < i ==> v@[j] != c,
        decreases v@.len() - i,
    {
        if v[i] == c {
            assert(v@[i as int] == c);
            return true;
        }
        i = i + 1;
    }
    false
}

/// Makes a string of characters.
fn string_of(v: &Vec<char>) -> (s: String)
    ensures
        s@ == v@,
{
    let mut s = String::new();
    let mut i: usize = 0;
    while i < v.len()
        invariant
            i <= v@.len(),
            s@ == v@.take(i as int),
        decreases v@.len() - i,
    {
        crate::text::push_char(&mut s, v[i]);
        assert(v@.take(i + 1) == v@.take(i as int).push(v@[i as int]));
        i = i + 1;
    }
    assert(v@.take(v@.len() as int) == v@);
    s
}

/// The file named by a path, as [`file_in_path`] says.
fn file_name_in(path: &Vec<char>) -> (r: Option<String>)
    ensures
        r matches Some(n) ==> file_in_path(path@) == Some(n@),
        r is None ==> file_in_path(path@) is None,
{
    let prefix = chars_of("/api/files/");
    if path.len() < prefix.len() {
        return None;
    }
    let head = chars_before(path, prefix.len());
    if !same_chars(&head, &prefix) {
        return None;
    }
    let rest = chars_from(path, prefix.len());
    if contains_char(&rest, '/') {
        return None;
    }
    Some(string_of(&rest))
}

/// The handler for a request, from its method and raw URL.
pub fn route(method: &str, raw_url: &str) -> (r: Route)
    ensures
        r@ == route_of(method@, raw_url@),
{
    let url = chars_of(raw_url);
    let mut end: usize = 0;
    while end < url.len() && url[end] != '?'
        invariant
            end <= url@.len(),
            forall|j: int| 0 <= j < end ==> url@[j] != '?',
        decreases url@.len() - end,
    {
        end = end + 1;
    }
    proof {
        lemma_query_start(url@, end as int);
    }
    let path = chars_before(&url, end);
    let m = chars_of(method);
    if same_chars(&m, &chars_of("GET")) {
        if same_chars(&path, &chars_of("/")) {
            Route::Index
        } else if same_chars(&path, &chars_of("/api/info")) {
            Route::Info
        } else if same_chars(&path, &chars_of("/api/state")) {
            Route::GetState
        } else if same_chars(&path, &chars_of("/api/files")) {
            Route::ListFiles
        } else {
            Route::Asset
        }
    } else if same_chars(&m, &chars_of("POST")) {
        if same_chars(&path, &chars_of("/api/state")) {
            Route::SetState
        } else if same_chars(&path, &chars_of("/api/display/on")) {
            Route::DisplayOn
        } else if same_chars(&path, &chars_of("/api/display/off")) {
            Route::DisplayOff
        } else {
            Route::NotFound
        }
    } else if same_chars(&m, &chars_of("PUT")) {
        match file_name_in(&path) {
            Some(n) => Route::Upload(n),
            None => Route::NotFound,
        }
    } else if same_chars(&m, &chars_of("DELETE")) {
        match file_name_in(&path) {
            Some(n) => Route::DeleteFile(n),
            None => Route::NotFound,
        }
    } else {
        Route::NotFound
    }
}

/// An answer to a request, without its body's encoding.
#[derive(Debug, PartialEq, Eq, Clone)]
pub enum HttpReply {
    /// 204, no body.
    NoContent,
    /// 201, with a text body.
    Created(String),
    /// 400, with a text body.
    BadRequest(String),
    /// 404, no body.
    NotFound,
    /// 500: the handler failed, for the given reason.
    ServerError(String),
}

/// The value of a reply: its status code and text.
pub open spec fn reply_status_text(r: HttpReply) -> (u16, Seq<char>) {
    match r {
        HttpReply::NoContent => (204, Seq::empty()),
        HttpReply::Created(s) => (201, s@),
        HttpReply::BadRequest(s) => (400, s@),
        HttpReply::NotFound => (404, Seq::empty()),
        HttpReply::ServerError(s) => (500, s@),
    }
}

impl HttpReply {
    /// The HTTP status code.
    pub fn status_code(&self) -> (c: u16)
        ensures
            c == reply_status_text(*self).0,
    {
        match self {
            HttpReply::NoContent => 204,
            HttpReply::Created(_) => 201,
            HttpReply::BadRequest(_) => 400,
            HttpReply::NotFound => 404,
            HttpReply::ServerError(_) => 500,
        }
    }
}

/// How a replacement of the components is answered, and whether the display
/// is then turned on: accepted components are answered with no content and
/// turn the display on; refused ones are a bad request, with the reason; any
/// other failure is a server error.
pub fn state_post_outcome(res: Result<(), CommandError>) -> (out: (HttpReply, bool))
    ensures
        res is Ok ==> out.0 == HttpReply::NoContent && out.1,
        res matches Err(CommandError::UserInputError(s)) ==> (out.0 matches HttpReply::BadRequest(t) && t@ == s@) && !out.1,
        res matches Err(CommandError::InternalServerError(s)) ==> (out.0 matches HttpReply::ServerError(t) && t@ == s@)
            && !out.1,
{
    match res {
        Ok(()) => (HttpReply::NoContent, true),
        Err(CommandError::UserInputError(s)) => (HttpReply::BadRequest(s), false),
        Err(CommandError::InternalServerError(s)) => (HttpReply::ServerError(s), false),
    }
}

/// Replacing the components through the API and then turning the display on,
/// as an accepted `POST /api/state` does, leaves the display rendering exactly
/// the components that were sent, whatever its state before.
pub proof fn lemma_state_post_shows_components(
    state: State,
    components: Seq<ComponentValue>,
    list: Seq<ComponentValue>,
    assets: Map<Seq<char>, UploadedAsset>,
)
    requires
        all_accepted(list, assets),
    ensures
        ({
            let (s1, c1, r1, a1) = transition(state, components, CommandValue::SetComponents(list), assets);
            let (s2, c2, r2, a2) = transition(s1, c1, CommandValue::Start, assets);
            &&& r1 == ReplyValue::SetAccepted
            &&& s2 == State::Rendering
            &&& c2 == list
            &&& (a2 == DisplayAction::StartDisplay <==> state == State::Stopped)
        }),
{
}

/// How turning the display on or off is answered: no content when the renderer
/// did it, a server error otherwise.
pub fn display_switch_outcome(done: bool) -> (r: HttpReply)
    ensures
        done ==> r == HttpReply::NoContent,
        !done ==> r is ServerError,
{
    if done {
        HttpReply::NoContent
    } else {
        HttpReply::ServerError("Failed to switch the display".to_string())
    }
}

/// How a stored upload is answered: created, with the URL it was sent to, for
/// a new file; no content for a file that was replaced.
pub fn upload_outcome(replaced: bool, raw_url: &str) -> (r: HttpReply)
    ensures
        replaced ==> r == HttpReply::NoContent,
        !replaced ==> (r matches HttpReply::Created(t) && t@ == "Created "@ + raw_url@),
{
    if replaced {
        HttpReply::NoContent
    } else {
        let mut t = "Created ".to_owned();
        let v = chars_of(raw_url);
        let mut i: usize = 0;
        let ghost start = t@;
        while i < v.len()
            invariant
                i <= v@.len(),
                v@ == raw_url@,
                start == "Created "@,
                t@ == start + v@.take(i as int),
            decreases v@.len() - i,
        {
            crate::text::push_char(&mut t, v[i]);
            assert(v@.take(i + 1) == v@.take(i as int).push(v@[i as int]));
            i = i + 1;
        }
        assert(v@.take(v@.len() as int) == v@);
        HttpReply::Created(t)
    }
}

/// How a deletion is answered: no content when the file was there, not found
/// otherwise.
pub fn delete_outcome(deleted: bool) -> (r: HttpReply)
    ensures
        deleted ==> r == HttpReply::NoContent,
        !deleted ==> r == HttpReply::NotFound,
{
    if deleted {
        HttpReply::NoContent
    } else {
        HttpReply::NotFound
    }
}

/// The asset an accepted upload stores, as the decoded file makes it.
pub open spec fn upload_stored_as(
    a: UploadedAsset,
    data: Seq<u8>,
    animated: bool,
    resize: Option<ResizeOptions>,
) -> bool {
    if animated {
        a matches UploadedAsset::AnimatedImage(x) && x@ == animation_frames(decoded_gif_frames(data)->0, resize)
    } else {
        a matches UploadedAsset::Image(b) && b@ == rgb_value(maybe_resized(decoded_image_rgba(data)->0, resize))
    }
}

/// Whether an upload's file can be stored: an animation must be a GIF that
/// decodes to at least one frame; a still image must decode.
pub open spec fn upload_decodes(data: Seq<u8>, animated: bool) -> bool {
    if animated {
        guessed_format_is_gif(data) == Some(true) && (decoded_gif_frames(data) matches Some(f) && f.len() > 0)
    } else {
        decoded_image_rgba(data) is Some
    }
}

/// Handles an uploaded file: decodes it as an animation or a still image,
/// resizing if asked, and stores it under its name. A file that does not
/// decode, or an animation with no frames, is a bad request and changes
/// nothing; otherwise the file is stored (replacing one of the same name) and
/// answered as created for a new name, with no content for a replaced one.
pub fn store_upload(
    upload_manager: &mut UploadManager,
    filename: String,
    raw_url: &str,
    data: Vec<u8>,
    animated: bool,
    resize: &Option<ResizeOptions>,
) -> (r: HttpReply)
    ensures
        r is BadRequest <==> !upload_decodes(data@, animated),
        r is BadRequest ==> final(upload_manager).spec_assets() == old(upload_manager).spec_assets(),
        !(r is BadRequest) ==> final(upload_manager).spec_assets() == old(upload_manager).spec_assets().insert(
            filename@,
            final(upload_manager).spec_assets()[filename@],
        ),
        !(r is BadRequest) ==> upload_stored_as(
            final(upload_manager).spec_assets()[filename@],
            data@,
            animated,
            *resize,
        ),
        !(r is BadRequest) && old(upload_manager).spec_assets().contains_key(filename@) ==> r == HttpReply::NoContent,
        !(r is BadRequest) && !old(upload_manager).spec_assets().contains_key(filename@) ==> (r matches HttpReply::Created(t)
            && t@ == "Created "@ + raw_url@),
{
    let ghost d = data@;
    let asset = if animated {
        match AnimatedImageBuf::from_encoded_buffer_resize(data, resize) {
            Ok(a) => {
                let frames = a.get_frames();
                let n = frames.len();
                proof {
                    let dv = decoded_gif_frames(d)->0;
                    assert(animation_frames(dv, *resize).len() == dv.len());
                    assert(crate::upload::frame_values(frames@).len() == frames@.len());
                }
                if n == 0 {
                    return HttpReply::BadRequest("The animation has no frames".to_owned());
                }
                assert(guessed_format_is_gif(d) == Some(true));
                assert(decoded_gif_frames(d) is Some);
                assert(decoded_gif_frames(d)->0.len() > 0);
                UploadedAsset::AnimatedImage(a)
            },
            Err(e) => {
                return HttpReply::BadRequest(upload_error_message(&e));
            },
        }
    } else {
        match ImageBuf::from_encoded_buffer_resize(data, resize) {
            Ok(i) => UploadedAsset::Image(i),
            Err(e) => {
                return HttpReply::BadRequest(upload_error_message(&e));
            },
        }
    };
    assert(upload_decodes(d, animated));
    assert(upload_stored_as(asset, d, animated, *resize));
    let previous = upload_manager.insert(filename, asset);
    let replaced = previous.is_some();
    upload_outcome(replaced, raw_url)
}

/// Whether a character is white space as Rust's `char::is_whitespace` reads it.
pub open spec fn is_white(c: char) -> bool {
    ||| c == ' '
    ||| ('\u{9}' <= c && c <= '\u{d}')
    ||| c == '\u{85}'
    ||| c == '\u{a0}'
    ||| c == '\u{1680}'
    ||| ('\u{2000}' <= c && c <= '\u{200a}')
    ||| c == '\u{2028}'
    ||| c == '\u{2029}'
    ||| c == '\u{202f}'
    ||| c == '\u{205f}'
    ||| c == '\u{3000}'
}

/// `s` without white space at either end.
pub open spec fn trimmed(s: Seq<char>) -> Seq<char>
    decreases s.len(),
{
    if s.len() > 0 && is_white(s[0]) {
        trimmed(s.skip(1))
    } else if s.len() > 0 && is_white(s.last()) {
        trimmed(s.drop_last())
    } else {
        s
    }
}

fn white(c: char) -> (b: bool)
    ensures
        b == is_white(c),
{
    c == ' ' || ('\u{9}' <= c && c <= '\u{d}') || c == '\u{85}' || c == '\u{a0}' || c == '\u{1680}' || (
    '\u{2000}' <= c && c <= '\u{200a}') || c == '\u{2028}' || c == '\u{2029}' || c == '\u{202f}' || c
        == '\u{205f}' || c == '\u{3000}'
}

proof fn lemma_trim_front(s: Seq<char>, i: int)
    requires
        0 <= i <= s.len(),
        forall|j: int| 0 <= j < i ==> is_white(s[j]),
    ensures
        trimmed(s) == trimmed(s.skip(i)),
    decreases i,
{
    if i > 0 {
        assert(is_white(s[0]));
        assert(s.skip(1).skip(i - 1) == s.skip(i));
        assert forall|j: int| 0 <= j < i - 1 implies is_white(s.skip(1)[j]) by {
            assert(s.skip(1)[j] == s[j + 1]);
        }
        lemma_trim_front(s.skip(1), i - 1);
    } else {
        assert(s.skip(0) =~= s);
    }
}

proof fn lemma_trim_back(s: Seq<char>, k: int)
    requires
        0 <= k <= s.len(),
        s.len() == 0 || !is_white(s[0]) || k == s.len(),
        forall|j: int| k <= j < s.len() ==> is_white(s[j]),
        k > 0 ==> !is_white(s[0]),
    ensures
        trimmed(s) == trimmed(s.take(k)),
    decreases s.len() - k,
{
    if k < s.len() {
        assert(s.drop_last().take(k) == s.take(k));
        assert(is_white(s.last()));
        lemma_trim_back(s.drop_last(), k);
    } else {
        assert(s.take(k) == s);
    }
}

/// Whether an upload's `animated` field means yes: `true` in any case, with
/// white space around it allowed.
pub open spec fn animated_flag(field: Seq<char>) -> bool {
    ascii_lower(trimmed(field)) == "true"@
}

/// Reads an upload's `animated` field.
pub fn is_animated_flag(field: &str) -> (b: bool)
    ensures
        b == animated_flag(field@),
{
    let v = chars_of(field);
    let mut lo: usize = 0;
    while lo < v.len() && white(v[lo])
        invariant
            lo <= v@.len(),
            forall|j: int| 0 <= j < lo ==> is_white(v@[j]),
        decreases v@.len() - lo,
    {
        lo = lo + 1;
    }
    let rest = chars_from(&v, lo);
    proof {
        lemma_trim_front(v@, lo as int);
    }
    let mut hi: usize = rest.len();
    while hi > 0 && white(rest[hi - 1])
        invariant
            hi <= rest@.len(),
            forall|j: int| hi <= j < rest@.len() ==> is_white(rest@[j]),
        decreases hi,
    {
        hi = hi - 1;
    }
    let core = chars_before(&rest, hi);
    proof {
        if hi > 0 {
            if lo < v@.len() {
                assert(rest@[0] == v@[lo as int]);
            }
        }
        lemma_trim_back(rest@, hi as int);
        if hi > 0 {
            assert(core@.len() > 0 && !is_white(core@[0]) && !is_white(core@.last()));
        }
        assert(trimmed(core@) == core@);
    }
    let mut lower: Vec<char> = Vec::new();
    let mut i: usize = 0;
    while i < core.len()
        invariant
            i <= core@.len(),
            lower@ == ascii_lower(core@).take(i as int),
        decreases core@.len() - i,
    {
        let c = core[i];
        let l = if 'A' <= c && c <= 'Z' {
            ((c as u8) + 32) as char
        } else {
            c
        };
        lower.push(l);
        assert(ascii_lower(core@).take(i + 1) == ascii_lower(core@).take(i as int).push(l));
        i = i + 1;
    }
    assert(ascii_lower(core@).take(core@.len() as int) == ascii_lower(core@));
    same_chars(&lower, &chars_of("true"))
}

/// Whether a request's `Content-Type` header announces JSON.
pub open spec fn json_content_type(header: Option<Seq<char>>) -> bool {
    match header {
        Some(h) => h.len() >= "application/json"@.len() && h.take("application/json"@.len() as int)
            == "application/json"@,
        None => false,
    }
}

/// Checks a request's `Content-Type` header before its body is read as JSON.
pub fn is_json_content_type(header: Option<&str>) -> (b: bool)
    ensures
        b == json_content_type(
            match header {
                Some(h) => Some(h@),
                None => None,
            },
        ),
{
    match header {
        None => false,
        Some(h) => {
            let v = chars_of(h);
            let p = chars_of("application/json");
            if v.len() < p.len() {
                false
            } else {
                same_chars(&chars_before(&v, p.len()), &p)
            }
        },
    }
}

/// What an upload asks for its size: nothing when it gives neither width nor
/// height, whatever filter it names; otherwise the sides it gives, with the
/// filter it names (bilinear when it names none). A filter name that is not
/// known is refused when a size is asked for.
pub open spec fn upload_resize_of(
    width: Option<u32>,
    height: Option<u32>,
    filter: Option<Seq<char>>,
) -> Option<Option<ResizeOptions>> {
    if width is None && height is None {
        Some(None)
    } else {
        let f = match filter {
            Some(n) => filter_named(ascii_lower(n)),
            None => Some(ResizeFilter::Triangle),
        };
        match f {
            None => None,
            Some(f) => Some(Some(ResizeOptions { width, height, filter: f })),
        }
    }
}

/// Reads an upload's size fields; `Err` carries the text of the refusal.
pub fn upload_resize_request(width: Option<u32>, height: Option<u32>, filter: Option<&str>) -> (r: Result<
    Option<ResizeOptions>,
    String,
>)
    ensures
        r is Ok <==> upload_resize_of(
            width,
            height,
            match filter {
                Some(n) => Some(n@),
                None => None,
            },
        ) is Some,
        r matches Ok(o) ==> upload_resize_of(
            width,
            height,
            match filter {
                Some(n) => Some(n@),
                None => None,
            },
        ) == Some(o),
{
    if width.is_none() && height.is_none() {
        return Ok(None);
    }
    let f = match filter {
        Some(n) => match resize_filter_from_str(n) {
            Some(f) => f,
            None => {
                return Err("Unknown resize filter".to_string());
            },
        },
        None => ResizeFilter::Triangle,
    };
    Ok(Some(ResizeOptions { width, height, filter: f }))
}

/// What `GET /api/info` reports.
#[derive(Debug, Clone)]
pub struct DisplayInfo {
    pub width: u32,
    pub height: u32,
    pub api_version: String,
    pub available_fonts: Vec<&'static str>,
}

/// The display's size, the API version and the names of all fonts, each at
/// the position of its font.
pub fn display_info(canvas_size: (u32, u32)) -> (i: DisplayInfo)
    ensures
        i.width == canvas_size.0,
        i.height == canvas_size.1,
        i.api_version@ == api_version_text(),
        i.available_fonts@.len() == font_count(),
        forall|f: FontName| #[trigger] i.available_fonts@[font_index(f) as int]@ == font_name_text(f),
{
    DisplayInfo {
        width: canvas_size.0,
        height: canvas_size.1,
        api_version: api_version().to_owned(),
        available_fonts: font_variant_names(),
    }
}

} // verus!
