//! Calls into std and into outside crates that Verus cannot read.
//! Every item here is trusted: its contract is believed, not proved.

use base64::Engine;
use sha2::Digest;
use vstd::prelude::*;

verus! {

/// `String::push`: appends one character to the end of the string.
#[verifier::external_body]
pub fn push_char(s: &mut String, c: char)
    ensures
        final(s)@ == old(s)@.push(c),
{
    s.push(c);
}

/// `chrono::Utc::now().timestamp_millis()`: the current wall-clock time in
/// milliseconds since the UNIX epoch. Nothing is stated of the value: it
/// depends on the machine's clock.
#[verifier::external_body]
pub fn utc_now_millis() -> i64 {
    chrono::Utc::now().timestamp_millis()
}

/// `uuid::Uuid::new_v4().as_u128()`: a fresh random session identifier.
/// Nothing is stated of the value: it is drawn from the operating system's
/// random source.
#[verifier::external_body]
pub fn new_session_id() -> u128 {
    uuid::Uuid::new_v4().as_u128()
}

/// The components of a parsed URL that the widget reads.
pub struct UrlParts {
    pub serialization: String,
    pub scheme: String,
    pub host: Option<String>,
    pub path: String,
    pub query: Vec<(String, String)>,
}

/// The view of decoded query pairs.
pub open spec fn pairs_view(v: Seq<(String, String)>) -> Seq<(Seq<char>, Seq<char>)> {
    v.map_values(|p: (String, String)| (p.0@, p.1@))
}

impl View for UrlParts {
    type V = (Seq<char>, Seq<char>, Option<Seq<char>>, Seq<char>, Seq<(Seq<char>, Seq<char>)>);

    open spec fn view(&self) -> Self::V {
        (
            self.serialization@,
            self.scheme@,
            match self.host {
                Some(h) => Some(h@),
                None => None,
            },
            self.path@,
            pairs_view(self.query@),
        )
    }
}

/// What `url::Url::parse` gives for a string: on success its serialization,
/// scheme, host, path and decoded query pairs; on failure the error's message.
pub uninterp spec fn url_parse(s: Seq<char>) -> Result<
    (Seq<char>, Seq<char>, Option<Seq<char>>, Seq<char>, Seq<(Seq<char>, Seq<char>)>),
    Seq<char>,
>;

/// The view of a URL parse result.
pub open spec fn url_result_view(r: Result<UrlParts, String>) -> Result<
    (Seq<char>, Seq<char>, Option<Seq<char>>, Seq<char>, Seq<(Seq<char>, Seq<char>)>),
    Seq<char>,
> {
    match r {
        Ok(p) => Ok(p@),
        Err(e) => Err(e@),
    }
}

/// `url::Url::parse`, read through `as_str`, `scheme`, `host_str`, `path`
/// and `query_pairs`, or the message of the parse error. The contract only
/// names the result: the URL standard's parsing rules are not restated.
#[verifier::external_body]
pub fn parse_url(s: &str) -> (r: Result<UrlParts, String>)
    ensures
        url_result_view(r) == url_parse(s@),
{
    match url::Url::parse(s) {
        Ok(u) => Ok(UrlParts {
            serialization: u.as_str().to_owned(),
            scheme: u.scheme().to_owned(),
            host: u.host_str().map(|h| h.to_owned()),
            path: u.path().to_owned(),
            query: u.query_pairs().map(|(k, v)| (k.into_owned(), v.into_owned())).collect(),
        }),
        Err(error) => Err(error.to_string()),
    }
}

/// What `str::to_lowercase` gives for a string (Unicode lowercase mapping).
pub uninterp spec fn unicode_lowercase(s: Seq<char>) -> Seq<char>;

/// `str::to_lowercase`. The contract names the result; the Unicode case
/// tables are not restated.
#[verifier::external_body]
pub fn to_lowercase(s: &str) -> (r: String)
    ensures
        r@ == unicode_lowercase(s@),
{
    s.to_lowercase()
}

/// The canonical reason phrase the `http` crate (re-exported by `reqwest`)
/// has for a status code, if any.
pub uninterp spec fn http_canonical_reason(code: u16) -> Option<Seq<char>>;

/// `reqwest::StatusCode::from_u16(code)` followed by `canonical_reason`.
/// Codes from 100 to 999 are valid status codes. The contract names the
/// result; the registry of reason phrases is not restated.
#[verifier::external_body]
pub fn canonical_reason(code: u16) -> (r: Option<String>)
    requires
        100 <= code <= 999,
    ensures
        match r {
            Some(s) => http_canonical_reason(code) == Some(s@),
            None => http_canonical_reason(code) is None,
        },
{
    reqwest::StatusCode::from_u16(code).ok().and_then(|s| s.canonical_reason()).map(|s| s.to_owned())
}

/// What `std::str::from_utf8` documents: the bytes are accepted exactly
/// when they are valid UTF-8, and the string holds their decoding.
#[verifier::external_body]
pub fn utf8_to_string(bytes: &[u8]) -> (r: Option<String>)
    ensures
        r is Some <==> vstd::utf8::valid_utf8(bytes@),
        r matches Some(s) ==> s@ == vstd::utf8::decode_utf8(bytes@),
{
    std::str::from_utf8(bytes).ok().map(|s| s.to_owned())
}

/// `rand::random::<u8>()`: one byte from the thread-local generator.
/// Nothing is stated of the value: it is random.
#[verifier::external_body]
pub fn random_byte() -> u8 {
    rand::random::<u8>()
}

/// What `base64::engine::general_purpose::URL_SAFE_NO_PAD.encode` gives for bytes.
pub uninterp spec fn base64_url_no_pad(bytes: Seq<u8>) -> Seq<char>;

/// Whether a character belongs to the URL-safe base64 alphabet of RFC 4648
/// (letters, digits, `-` and `_`).
pub open spec fn is_url_safe_base64_char(c: char) -> bool {
    ('A' <= c && c <= 'Z') || ('a' <= c && c <= 'z') || ('0' <= c && c <= '9') || c == '-' || c
        == '_'
}

/// `URL_SAFE_NO_PAD.encode(bytes)`: base64 with the URL-safe alphabet and no
/// padding. The contract names the result, and states what the crate
/// documents of it: its length (four characters per three bytes, two or
/// three for a final partial group) and that it only uses the URL-safe alphabet.
#[verifier::external_body]
pub fn encode_base64_url(bytes: &[u8]) -> (r: String)
    ensures
        r@ == base64_url_no_pad(bytes@),
        r@.len() == (4 * bytes@.len() + 2) / 3,
        forall|i: int| 0 <= i < r@.len() ==> is_url_safe_base64_char(#[trigger] r@[i]),
{
    base64::engine::general_purpose::URL_SAFE_NO_PAD.encode(bytes)
}

/// What `sha2::Sha256::digest` gives for bytes.
pub uninterp spec fn sha256(bytes: Seq<u8>) -> Seq<u8>;

/// `sha2::Sha256::digest(bytes)`: the 32-byte SHA-256 digest. The contract
/// names the result and states its length.
#[verifier::external_body]
pub fn sha256_digest(bytes: &[u8]) -> (r: Vec<u8>)
    ensures
        r@ == sha256(bytes@),
        r@.len() == 32,
{
    sha2::Sha256::digest(bytes).to_vec()
}

/// What parsing `base` with `url::Url::parse` and appending `pairs` with
/// `query_pairs_mut().append_pair` serializes to, or the parse error's message.
pub uninterp spec fn url_with_query(base: Seq<char>, pairs: Seq<(Seq<char>, Seq<char>)>) -> Result<
    Seq<char>,
    Seq<char>,
>;

/// `url::Url::parse(base)` and `query_pairs_mut().append_pair` for each
/// pair in order (form-urlencoded), serialized with `as_str`. The contract
/// names the result; the encoding rules are not restated.
#[verifier::external_body]
pub fn append_query_pairs(base: &str, pairs: &Vec<(String, String)>) -> (r: Result<String, String>)
    ensures
        match r {
            Ok(u) => url_with_query(base@, pairs_view(pairs@)) == Ok::<Seq<char>, Seq<char>>(u@),
            Err(e) => url_with_query(base@, pairs_view(pairs@)) == Err::<Seq<char>, Seq<char>>(e@),
        },
{
    match url::Url::parse(base) {
        Ok(mut u) => {
            u.query_pairs_mut().extend_pairs(pairs.iter().map(|(k, v)| (k.as_str(), v.as_str())));
            Ok(u.as_str().to_owned())
        },
        Err(error) => Err(error.to_string()),
    }
}

/// `chrono::Utc::now().timestamp()`: the current wall-clock time in whole
/// seconds since the UNIX epoch. Nothing is stated of the value.
#[verifier::external_body]
pub fn utc_now_secs() -> i64 {
    chrono::Utc::now().timestamp()
}

/// What `std::path::Path::join` gives for a base path and a relative
/// component, read back as text. The separator is that of the platform the
/// crate is built for, so the result is fixed for a given build.
pub uninterp spec fn joined_path(base: Seq<char>, name: Seq<char>) -> Seq<char>;

/// Whether `name` is a single plain path component: not empty, without
/// a slash or a backslash, and neither `.` nor `..`.
pub open spec fn is_plain_file_name(name: Seq<char>) -> bool {
    &&& name.len() > 0
    &&& has_no_separator(name)
    &&& name != "."@
    &&& name != ".."@
}

/// Whether no character of `s` is a slash or a backslash.
pub open spec fn has_no_separator(s: Seq<char>) -> bool {
    forall|i: int| 0 <= i < s.len() ==> #[trigger] s[i] != '/' && s[i] != '\\'
}

/// `Path::new(base).join(name)`, converted to text with `to_string_lossy`.
/// The contract names the result, and states what `PathBuf::push`
/// documents for a plain component: it is appended as the last part of the
/// path, so the text ends with it. The platform's separator rules are not
/// restated.
#[verifier::external_body]
pub fn path_join(base: &str, name: &str) -> (r: String)
    ensures
        r@ == joined_path(base@, name@),
        is_plain_file_name(name@) ==> crate::text::ends_with_seq(r@, name@),
{
    std::path::Path::new(base).join(name).to_string_lossy().into_owned()
}

/// What `std::path::Path::with_extension` gives for a path and an extension,
/// read back as text.
pub uninterp spec fn path_with_extension(path: Seq<char>, extension: Seq<char>) -> Seq<char>;

/// `Path::new(path).with_extension(extension)`, converted to text with
/// `to_string_lossy`. The contract names the result. `set_extension`
/// panics on an extension that holds a path separator, so none is admitted.
#[verifier::external_body]
pub fn replace_extension(path: &str, extension: &str) -> (r: String)
    requires
        has_no_separator(extension@),
    ensures
        r@ == path_with_extension(path@, extension@),
{
    std::path::Path::new(path).with_extension(extension).to_string_lossy().into_owned()
}

} // verus!
