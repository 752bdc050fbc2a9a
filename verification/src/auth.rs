//! Spotify authorization: configuration, PKCE S256 values, the
//! authorization request, loopback callback validation, and access-token
//! lifetime rules.

use vstd::prelude::*;
use vstd::string::StringSliceAdditionalSpecFns;

use crate::error::AppError;
use crate::outside::{
    append_query_pairs, base64_url_no_pad, encode_base64_url, is_url_safe_base64_char, pairs_view,
    parse_url, random_byte, sha256, sha256_digest, url_parse, url_with_query, utf8_to_string,
};
use crate::spotify::{status_display, status_text};
use crate::text::{
    chars_of, decimal, is_unicode_whitespace, is_whitespace, push_decimal, str_eq, take_chars,
    trim, trim_seq, truncate,
};

verus! {

/// The authorization endpoint.
pub const AUTHORIZE_URL: &'static str = "https://accounts.spotify.com/authorize";

/// The token endpoint.
pub const TOKEN_URL: &'static str = "https://accounts.spotify.com/api/token";

/// The path the loopback callback must use.
pub const CALLBACK_PATH: &'static str = "/callback";

/// The scopes the widget requests.
pub const SCOPES: &'static str = "user-read-playback-state user-read-currently-playing user-modify-playback-state";

/// An access token is renewed when it expires within this many milliseconds.
pub const TOKEN_RENEWAL_MARGIN_MS: u64 = 60000;

/// The Spotify application the widget authorizes as.
#[derive(Debug, Clone)]
pub struct SpotifyConfig {
    pub client_id: String,
}

impl SpotifyConfig {
    /// The configuration for a client ID found in the build or the
    /// environment: none when absent or only whitespace.
    pub fn from_value(value: Option<String>) -> (r: Option<SpotifyConfig>)
        ensures
            match value {
                Some(v) => if trim_seq(v@).len() == 0 {
                    r is None
                } else {
                    r matches Some(c) && c.client_id@ == v@
                },
                None => r is None,
            },
    {
        match value {
            Some(v) => {
                let trimmed = trim(v.as_str());
                if trimmed.as_str().is_empty() {
                    None
                } else {
                    Some(SpotifyConfig { client_id: v })
                }
            },
            None => None,
        }
    }
}

// ------------------------------------------------------------------ PKCE

/// `bytes` fresh random bytes, base64 encoded with the URL-safe alphabet and
/// no padding: a PKCE verifier or an OAuth state.
pub fn random_urlsafe(bytes: usize) -> (r: String)
    ensures
        exists|random: Seq<u8>|
            random.len() == bytes && r@ == #[trigger] base64_url_no_pad(random),
        r@.len() == (4 * bytes + 2) / 3,
        forall|i: int| 0 <= i < r@.len() ==> is_url_safe_base64_char(#[trigger] r@[i]),
{
    let mut random: Vec<u8> = Vec::new();
    let mut i: usize = 0;
    while i < bytes
        invariant
            i <= bytes,
            random@.len() == i,
        decreases bytes - i,
    {
        random.push(random_byte());
        i = i + 1;
    }
    let r = encode_base64_url(random.as_slice());
    assert(r@ == base64_url_no_pad(random@));
    r
}

/// The PKCE S256 challenge of a verifier: the URL-safe unpadded base64 of
/// the SHA-256 digest of its UTF-8 bytes.
pub fn pkce_challenge(verifier: &str) -> (r: String)
    ensures
        r@ == base64_url_no_pad(sha256(verifier.spec_bytes())),
{
    let digest = sha256_digest(verifier.as_bytes());
    encode_base64_url(digest.as_slice())
}

// ------------------------------------------------------- authorization URL

/// The redirect URI for a loopback port.
pub open spec fn redirect_uri_of(port: u16) -> Seq<char> {
    "http://127.0.0.1:"@ + decimal(port as nat) + "/callback"@
}

/// The query of the authorization request, in order.
pub open spec fn authorize_pairs(
    client_id: Seq<char>,
    redirect_uri: Seq<char>,
    challenge: Seq<char>,
    state: Seq<char>,
) -> Seq<(Seq<char>, Seq<char>)> {
    seq![
        ("client_id"@, client_id),
        ("response_type"@, "code"@),
        ("redirect_uri"@, redirect_uri),
        ("scope"@, SCOPES@),
        ("code_challenge_method"@, "S256"@),
        ("code_challenge"@, challenge),
        ("state"@, state),
    ]
}

/// The browser URL and redirect URI of an authorization attempt.
pub struct AuthorizationRequest {
    pub url: String,
    pub redirect_uri: String,
}

fn pair(k: &str, v: &str) -> (r: (String, String))
    ensures
        r.0@ == k@,
        r.1@ == v@,
{
    (String::from_str(k), String::from_str(v))
}

/// The authorization request for a client, a PKCE challenge, an OAuth
/// state and the loopback port: the authorize URL with the client ID,
/// `response_type=code`, the loopback redirect URI, the scopes, the S256
/// method, the challenge and the state.
pub fn authorization_request(client_id: &str, challenge: &str, state: &str, port: u16) -> (r:
    Result<AuthorizationRequest, AppError>)
    ensures
        ({
            let pairs = authorize_pairs(client_id@, redirect_uri_of(port), challenge@, state@);
            match url_with_query(AUTHORIZE_URL@, pairs) {
                Ok(u) => r matches Ok(req) && req.url@ == u && req.redirect_uri@ == redirect_uri_of(
                    port,
                ),
                Err(m) => r matches Err(AppError::Authorization(e)) && e@ == m,
            }
        }),
{
    let mut redirect_uri = String::from_str("http://127.0.0.1:");
    push_decimal(&mut redirect_uri, port as u64);
    redirect_uri.append(CALLBACK_PATH);
    let mut pairs: Vec<(String, String)> = Vec::new();
    pairs.push(pair("client_id", client_id));
    pairs.push(pair("response_type", "code"));
    pairs.push(pair("redirect_uri", redirect_uri.as_str()));
    pairs.push(pair("scope", SCOPES));
    pairs.push(pair("code_challenge_method", "S256"));
    pairs.push(pair("code_challenge", challenge));
    pairs.push(pair("state", state));
    assert(pairs_view(pairs@) =~= authorize_pairs(
        client_id@,
        redirect_uri_of(port),
        challenge@,
        state@,
    ));
    match append_query_pairs(AUTHORIZE_URL, &pairs) {
        Ok(url) => Ok(AuthorizationRequest { url, redirect_uri }),
        Err(message) => Err(AppError::Authorization(message)),
    }
}

// ------------------------------------------------------------- callback

/// The values of the query pairs with the given name, in order.
pub open spec fn values_named(q: Seq<(Seq<char>, Seq<char>)>, name: Seq<char>) -> Seq<Seq<char>>
    decreases q.len(),
{
    if q.len() == 0 {
        Seq::empty()
    } else {
        let rest = values_named(q.drop_last(), name);
        if q.last().0 == name {
            rest.push(q.last().1)
        } else {
            rest
        }
    }
}

/// The value of the first query pair with the given name.
pub open spec fn first_named(q: Seq<(Seq<char>, Seq<char>)>, name: Seq<char>) -> Option<Seq<char>>
    decreases q.len(),
{
    if q.len() == 0 {
        None
    } else if q[0].0 == name {
        Some(q[0].1)
    } else {
        first_named(q.drop_first(), name)
    }
}

/// The outcome of a callback request target: the authorization code, or
/// the reason it is refused. The target must parse as a URL on the
/// loopback host, use the path `/callback`, carry exactly one `state`
/// equal to the expected one, no `error`, and exactly one non-empty `code`.
/// A refusal names its reason with a fixed text; the value of an `error`
/// parameter is never carried, so nothing of the query reaches the view.
pub open spec fn callback_outcome(target: Seq<char>, expected_state: Seq<char>) -> Result<
    Seq<char>,
    Seq<char>,
> {
    match url_parse("http://127.0.0.1"@ + target) {
        Err(m) => Err(m),
        Ok(parts) => {
            let q = parts.4;
            if parts.3 != "/callback"@ {
                Err("unexpected callback path"@)
            } else if values_named(q, "state"@) != seq![expected_state] {
                Err("OAuth state did not match"@)
            } else if first_named(q, "error"@) is Some {
                Err("authorization was denied"@)
            } else {
                let codes = values_named(q, "code"@);
                if codes.len() != 1 || codes[0].len() == 0 {
                    Err("authorization code was missing or ambiguous"@)
                } else {
                    Ok(codes[0])
                }
            }
        },
    }
}

fn pairs_values_named(q: &Vec<(String, String)>, name: &str) -> (r: Vec<String>)
    ensures
        r@.map_values(|s: String| s@) == values_named(pairs_view(q@), name@),
{
    let mut out: Vec<String> = Vec::new();
    let n = q.len();
    let mut i: usize = 0;
    while i < n
        invariant
            n == q@.len(),
            i <= n,
            out@.map_values(|s: String| s@) == values_named(pairs_view(q@.take(i as int)), name@),
        decreases n - i,
    {
        assert(pairs_view(q@.take(i + 1)).drop_last() =~= pairs_view(q@.take(i as int)));
        assert(pairs_view(q@.take(i + 1)).last() == (q@[i as int].0@, q@[i as int].1@));
        if str_eq(q[i].0.as_str(), name) {
            out.push(q[i].1.clone());
            assert(out@.map_values(|s: String| s@) =~= values_named(
                pairs_view(q@.take(i as int)),
                name@,
            ).push(q@[i as int].1@));
        }
        i = i + 1;
    }
    assert(q@.take(n as int) =~= q@);
    out
}

proof fn lemma_first_named_skip(q: Seq<(Seq<char>, Seq<char>)>, name: Seq<char>, i: int)
    requires
        0 <= i <= q.len(),
        forall|j: int| 0 <= j < i ==> q[j].0 != name,
    ensures
        first_named(q, name) == first_named(q.skip(i), name),
    decreases i,
{
    if i > 0 {
        lemma_first_named_skip(q.drop_first(), name, i - 1);
        assert(q.drop_first().skip(i - 1) =~= q.skip(i));
    } else {
        assert(q.skip(0) =~= q);
    }
}

fn pairs_first_named(q: &Vec<(String, String)>, name: &str) -> (r: Option<String>)
    ensures
        crate::sessions::opt_seq(r) == first_named(pairs_view(q@), name@),
{
    let n = q.len();
    let mut i: usize = 0;
    while i < n
        invariant
            n == q@.len(),
            i <= n,
            forall|j: int| 0 <= j < i ==> pairs_view(q@)[j].0 != name@,
        decreases n - i,
    {
        if str_eq(q[i].0.as_str(), name) {
            proof {
                lemma_first_named_skip(pairs_view(q@), name@, i as int);
                assert(pairs_view(q@).skip(i as int)[0] == pairs_view(q@)[i as int]);
            }
            return Some(q[i].1.clone());
        }
        i = i + 1;
    }
    proof {
        lemma_first_named_skip(pairs_view(q@), name@, n as int);
    }
    None
}

/// Validates the request target of the loopback callback and gives the
/// authorization code; see `callback_outcome`. Every refusal is an
/// authorization error carrying its reason.
pub fn parse_callback_target(target: &str, expected_state: &str) -> (r: Result<String, AppError>)
    ensures
        match callback_outcome(target@, expected_state@) {
            Ok(code) => r matches Ok(c) && c@ == code,
            Err(m) => r matches Err(AppError::Authorization(e)) && e@ == m,
        },
{
    let mut url = String::from_str("http://127.0.0.1");
    url.append(target);
    let parts = match parse_url(url.as_str()) {
        Ok(p) => p,
        Err(message) => {
            return Err(AppError::Authorization(message));
        },
    };
    if !str_eq(parts.path.as_str(), CALLBACK_PATH) {
        return Err(AppError::Authorization(String::from_str("unexpected callback path")));
    }
    let states = pairs_values_named(&parts.query, "state");
    let state_ok = states.len() == 1 && str_eq(states[0].as_str(), expected_state);
    proof {
        let sv = states@.map_values(|s: String| s@);
        if state_ok {
            assert(sv =~= seq![expected_state@]);
        } else if sv.len() == 1 {
            assert(sv[0] != expected_state@);
        }
    }
    if !state_ok {
        return Err(AppError::Authorization(String::from_str("OAuth state did not match")));
    }
    if pairs_first_named(&parts.query, "error").is_some() {
        return Err(AppError::Authorization(String::from_str("authorization was denied")));
    }
    let codes = pairs_values_named(&parts.query, "code");
    if codes.len() != 1 || codes[0].as_str().is_empty() {
        return Err(
            AppError::Authorization(String::from_str("authorization code was missing or ambiguous")),
        );
    }
    Ok(codes[0].clone())
}

/// An accepted callback used the path `/callback`, carried exactly one
/// `state`, equal to the expected one, no `error`, and exactly one `code`,
/// which is non-empty and is the code returned.
pub proof fn lemma_accepted_callback_is_exact(target: Seq<char>, expected_state: Seq<char>)
    requires
        callback_outcome(target, expected_state) is Ok,
    ensures
        url_parse("http://127.0.0.1"@ + target) matches Ok(parts) && {
            &&& parts.3 == "/callback"@
            &&& values_named(parts.4, "state"@) == seq![expected_state]
            &&& first_named(parts.4, "error"@) is None
            &&& values_named(parts.4, "code"@).len() == 1
            &&& values_named(parts.4, "code"@)[0].len() > 0
            &&& callback_outcome(target, expected_state) == Ok::<Seq<char>, Seq<char>>(
                values_named(parts.4, "code"@)[0],
            )
        },
{
}

/// A refused callback is refused with one of four fixed reasons, or with
/// the URL parser's error when the target is not a URL: no value of the
/// callback's query (state, code or error) is ever carried in the refusal.
pub proof fn lemma_callback_refusal_carries_no_query_value(
    target: Seq<char>,
    expected_state: Seq<char>,
)
    requires
        callback_outcome(target, expected_state) is Err,
    ensures
        ({
            let m = callback_outcome(target, expected_state)->Err_0;
            ||| url_parse("http://127.0.0.1"@ + target) == Err::<
                (Seq<char>, Seq<char>, Option<Seq<char>>, Seq<char>, Seq<(Seq<char>, Seq<char>)>),
                Seq<char>,
            >(m)
            ||| m == "unexpected callback path"@
            ||| m == "OAuth state did not match"@
            ||| m == "authorization was denied"@
            ||| m == "authorization code was missing or ambiguous"@
        }),
{
}

/// The characters up to the first line feed, and whether one was found.
pub open spec fn until_newline(s: Seq<char>) -> (Seq<char>, bool)
    decreases s.len(),
{
    if s.len() == 0 {
        (Seq::empty(), false)
    } else if s[0] == '\n' {
        (Seq::empty(), true)
    } else {
        let (rest, found) = until_newline(s.drop_first());
        (seq![s[0]] + rest, found)
    }
}

/// `s.lines().next()`: the first line, without its `\n` or `\r\n`
/// terminator; none for the empty string.
pub open spec fn first_line(s: Seq<char>) -> Option<Seq<char>> {
    if s.len() == 0 {
        None
    } else {
        let (line, found) = until_newline(s);
        if found && line.len() > 0 && line.last() == '\r' {
            Some(line.drop_last())
        } else {
            Some(line)
        }
    }
}

/// `s.split_whitespace()`: the maximal runs of non-whitespace characters.
pub open spec fn words(s: Seq<char>) -> Seq<Seq<char>>
    decreases s.len(),
{
    if s.len() == 0 {
        Seq::empty()
    } else {
        let w = words(s.drop_last());
        let c = s.last();
        if is_unicode_whitespace(c) {
            w
        } else if s.len() >= 2 && !is_unicode_whitespace(s[s.len() - 2]) {
            w.update(w.len() - 1, w.last().push(c))
        } else {
            w.push(seq![c])
        }
    }
}

/// The request target of a raw callback request: the second word of its
/// first line, or the reason the request is refused.
pub open spec fn request_target_outcome(bytes: Seq<u8>) -> Result<Seq<char>, Seq<char>> {
    if !vstd::utf8::valid_utf8(bytes) {
        Err("callback request was not valid UTF-8"@)
    } else {
        match first_line(vstd::utf8::decode_utf8(bytes)) {
            Some(line) if words(line).len() >= 2 => Ok(words(line)[1]),
            _ => Err("callback request line was invalid"@),
        }
    }
}

proof fn lemma_until_newline_prefix(s: Seq<char>, k: int)
    requires
        0 <= k <= s.len(),
        forall|j: int| 0 <= j < k ==> s[j] != '\n',
        k == s.len() || s[k] == '\n',
    ensures
        until_newline(s) == (s.take(k), k < s.len()),
    decreases k,
{
    if k > 0 {
        lemma_until_newline_prefix(s.drop_first(), k - 1);
        assert(seq![s[0]] + s.drop_first().take(k - 1) =~= s.take(k));
    } else {
        assert(s.take(0) =~= Seq::<char>::empty());
    }
}

fn first_line_chars(s: &Vec<char>) -> (r: Option<Vec<char>>)
    ensures
        match first_line(s@) {
            Some(l) => r matches Some(v) && v@ == l,
            None => r is None,
        },
{
    let n = s.len();
    if n == 0 {
        return None;
    }
    let mut k: usize = 0;
    while k < n && s[k] != '\n'
        invariant
            n == s@.len(),
            k <= n,
            forall|j: int| 0 <= j < k ==> s@[j] != '\n',
        decreases n - k,
    {
        k = k + 1;
    }
    proof {
        lemma_until_newline_prefix(s@, k as int);
    }
    let found = k < n;
    let end = if found && k > 0 && s[k - 1] == '\r' {
        k - 1
    } else {
        k
    };
    let mut line: Vec<char> = Vec::new();
    let mut i: usize = 0;
    while i < end
        invariant
            n == s@.len(),
            end <= k <= n,
            i <= end,
            line@ == s@.take(i as int),
        decreases end - i,
    {
        line.push(s[i]);
        assert(s@.take(i + 1) =~= s@.take(i as int).push(s@[i as int]));
        i = i + 1;
    }
    proof {
        if end < k {
            assert(s@.take(k as int).drop_last() =~= s@.take(end as int));
        }
    }
    Some(line)
}

/// The views of a sequence of character vectors.
pub open spec fn vecs_view(v: Seq<Vec<char>>) -> Seq<Seq<char>> {
    v.map_values(|x: Vec<char>| x@)
}

fn split_words(s: &Vec<char>) -> (r: Vec<Vec<char>>)
    ensures
        vecs_view(r@) == words(s@),
{
    let n = s.len();
    let mut done: Vec<Vec<char>> = Vec::new();
    let mut cur: Vec<char> = Vec::new();
    let mut i: usize = 0;
    while i < n
        invariant
            n == s@.len(),
            i <= n,
            words(s@.take(i as int)) == (if cur@.len() > 0 {
                vecs_view(done@).push(cur@)
            } else {
                vecs_view(done@)
            }),
            cur@.len() > 0 <==> (i > 0 && !is_unicode_whitespace(s@[i - 1])),
        decreases n - i,
    {
        let c = s[i];
        let ghost prefix = s@.take(i + 1);
        assert(prefix.drop_last() =~= s@.take(i as int));
        assert(prefix.last() == c);
        if is_whitespace(c) {
            if cur.len() > 0 {
                let finished = cur;
                done.push(finished);
                cur = Vec::new();
                assert(vecs_view(done@) =~= vecs_view(done@.drop_last()).push(finished@));
            }
        } else {
            let ghost before = vecs_view(done@);
            if cur.len() > 0 {
                proof {
                    assert(prefix[prefix.len() - 2] == s@[i - 1]);
                }
                cur.push(c);
            } else {
                cur.push(c);
                assert(cur@ =~= seq![c]);
            }
            assert(vecs_view(done@) == before);
        }
        i = i + 1;
    }
    assert(s@.take(n as int) =~= s@);
    if cur.len() > 0 {
        let finished = cur;
        done.push(finished);
        assert(vecs_view(done@) =~= vecs_view(done@.drop_last()).push(finished@));
    }
    done
}

/// The request target of a raw callback request; see
/// `request_target_outcome`. Refusals are authorization errors.
pub fn callback_request_target(bytes: &[u8]) -> (r: Result<String, AppError>)
    ensures
        match request_target_outcome(bytes@) {
            Ok(t) => r matches Ok(s) && s@ == t,
            Err(m) => r matches Err(AppError::Authorization(e)) && e@ == m,
        },
{
    let request = match utf8_to_string(bytes) {
        Some(s) => s,
        None => {
            return Err(
                AppError::Authorization(String::from_str("callback request was not valid UTF-8")),
            );
        },
    };
    let chars = chars_of(request.as_str());
    let invalid = String::from_str("callback request line was invalid");
    let line = match first_line_chars(&chars) {
        Some(l) => l,
        None => {
            return Err(AppError::Authorization(invalid));
        },
    };
    let tokens = split_words(&line);
    if tokens.len() < 2 {
        return Err(AppError::Authorization(invalid));
    }
    Ok(crate::text::string_of_chars(&tokens[1]))
}

// ---------------------------------------------------------- access tokens

/// Whether a cached access token may still be used at `now`: it must
/// outlive the renewal margin. Times are monotonic milliseconds.
pub fn token_is_fresh(expires_at: u64, now: u64) -> (r: bool)
    ensures
        r == (expires_at > now + TOKEN_RENEWAL_MARGIN_MS),
{
    expires_at > now && expires_at - now > TOKEN_RENEWAL_MARGIN_MS
}

/// When an access token received at `now` expires: after its lifetime,
/// counted as at least 60 seconds. The sum must be representable.
pub fn token_expires_at(now: u64, expires_in_secs: u64) -> (r: u64)
    requires
        now + (if expires_in_secs > 60 {
            expires_in_secs
        } else {
            60
        }) * 1000 <= u64::MAX,
    ensures
        r == now + (if expires_in_secs > 60 {
            expires_in_secs
        } else {
            60
        }) * 1000,
{
    let secs = if expires_in_secs > 60 {
        expires_in_secs
    } else {
        60
    };
    now + secs * 1000
}

/// The error for an unsuccessful token endpoint response: the status and
/// the first 160 characters of the body.
pub fn token_endpoint_error(status: u16, body: &str) -> (r: AppError)
    requires
        100 <= status <= 999,
    ensures
        r matches AppError::Authorization(m) && m@ == "token endpoint returned "@ + status_display(
            status,
        ) + ": "@ + take_chars(body@, 160),
{
    let mut message = String::from_str("token endpoint returned ");
    let shown = status_text(status);
    message.append(shown.as_str());
    message.append(": ");
    let excerpt = truncate(body, 160);
    message.append(excerpt.as_str());
    AppError::Authorization(message)
}

/// Whether a failed refresh means the stored refresh token was revoked and
/// must be deleted (the token endpoint answers 400 Bad Request).
pub fn refresh_token_revoked(status: u16) -> (r: bool)
    ensures
        r == (status == 400),
{
    status == 400
}

// ------------------------------------------------------- access tokens

/// An access token held in memory, with the monotonic time it expires at.
#[derive(Debug, Clone)]
pub struct AccessToken {
    pub value: String,
    pub expires_at_ms: u64,
}

/// The fields of a successful token endpoint answer.
#[derive(Debug, Clone)]
pub struct TokenGrant {
    pub access_token: String,
    pub expires_in: u64,
    pub refresh_token: Option<String>,
}

/// What obtaining an access token does next.
#[derive(Debug)]
pub enum TokenStep {
    /// Done, with the access token's value or the error.
    Finished(Result<String, AppError>),
    /// Read the stored refresh token; answer with `access_token_stored`.
    ReadStoredToken,
    /// Post a refresh grant for this client and refresh token; answer with
    /// `refresh_answered`.
    RequestRefresh { client_id: String, refresh_token: String },
    /// Delete the stored refresh token; answer with `stored_token_deleted`.
    DeleteStoredToken,
    /// Read the body of the unsuccessful answer with this status; answer
    /// with `token_error_body`.
    ReadErrorBody(u16),
    /// Decode the successful answer; answer with `grant_decoded`.
    DecodeGrant,
    /// Store this new refresh token; answer with `refresh_token_stored`.
    StoreRefreshToken(String, AccessToken),
    /// Keep this access token in memory and finish with its value.
    Keep(AccessToken),
}

/// The first step of obtaining an access token: a cached token that is
/// still fresh is used; without a client ID the configuration is required;
/// otherwise the stored refresh token is read.
pub fn access_token_begin(cached: &Option<AccessToken>, config: &Option<SpotifyConfig>, now: u64) -> (r:
    TokenStep)
    ensures
        match *cached {
            Some(t) if t.expires_at_ms > now + TOKEN_RENEWAL_MARGIN_MS => r matches TokenStep::Finished(
                Ok(v),
            ) && v@ == t.value@,
            _ => if config.is_none() {
                r matches TokenStep::Finished(Err(AppError::ConfigurationRequired))
            } else {
                r matches TokenStep::ReadStoredToken
            },
        },
{
    if let Some(t) = cached {
        if token_is_fresh(t.expires_at_ms, now) {
            return TokenStep::Finished(Ok(t.value.clone()));
        }
    }
    match config {
        None => TokenStep::Finished(Err(AppError::ConfigurationRequired)),
        Some(_) => TokenStep::ReadStoredToken,
    }
}

/// The answer to `ReadStoredToken`: without a client ID the configuration
/// is required; a failure ends the attempt; without a stored refresh token
/// authorization is required, and nothing is sent;
/// otherwise a refresh grant is requested for it.
pub fn access_token_stored(config: &Option<SpotifyConfig>, stored: Result<Option<String>, AppError>) -> (r:
    TokenStep)
    ensures
        match *config {
            None => r matches TokenStep::Finished(Err(AppError::ConfigurationRequired)),
            Some(c) => match stored {
                Err(e) => r == TokenStep::Finished(Err(e)),
                Ok(None) => r matches TokenStep::Finished(Err(AppError::AuthenticationRequired)),
                Ok(Some(t)) => r matches TokenStep::RequestRefresh { client_id, refresh_token }
                    && client_id@ == c.client_id@ && refresh_token == t,
            },
        },
{
    let config = match config {
        Some(c) => c,
        None => {
            return TokenStep::Finished(Err(AppError::ConfigurationRequired));
        },
    };
    match stored {
        Err(e) => TokenStep::Finished(Err(e)),
        Ok(None) => TokenStep::Finished(Err(AppError::AuthenticationRequired)),
        Ok(Some(t)) => TokenStep::RequestRefresh {
            client_id: config.client_id.clone(),
            refresh_token: t,
        },
    }
}

/// The answer to a token request, given its status or the failure to send
/// it: a success is decoded; another status has its body read.
pub fn token_answered(answer: Result<u16, AppError>) -> (r: TokenStep)
    requires
        answer matches Ok(s) ==> 100 <= s <= 999,
    ensures
        match answer {
            Err(e) => r == TokenStep::Finished(Err(e)),
            Ok(s) => if 200 <= s <= 299 {
                r matches TokenStep::DecodeGrant
            } else {
                r matches TokenStep::ReadErrorBody(c) && c == s
            },
        },
{
    match answer {
        Err(e) => TokenStep::Finished(Err(e)),
        Ok(s) => if 200 <= s && s <= 299 {
            TokenStep::DecodeGrant
        } else {
            TokenStep::ReadErrorBody(s)
        },
    }
}

/// The answer to `RequestRefresh`: a revoked refresh token (see
/// `refresh_token_revoked`) is deleted; otherwise as `token_answered`.
pub fn refresh_answered(answer: Result<u16, AppError>) -> (r: TokenStep)
    requires
        answer matches Ok(s) ==> 100 <= s <= 999,
    ensures
        match answer {
            Err(e) => r == TokenStep::Finished(Err(e)),
            Ok(s) => if s == 400 {
                r matches TokenStep::DeleteStoredToken
            } else if 200 <= s <= 299 {
                r matches TokenStep::DecodeGrant
            } else {
                r matches TokenStep::ReadErrorBody(c) && c == s
            },
        },
{
    match answer {
        Ok(s) => if refresh_token_revoked(s) {
            TokenStep::DeleteStoredToken
        } else {
            token_answered(Ok(s))
        },
        Err(e) => TokenStep::Finished(Err(e)),
    }
}

/// The answer to `ReadErrorBody`: the attempt ends with the token
/// endpoint's error (see `token_endpoint_error`).
pub fn token_error_body(status: u16, body: &str) -> (r: TokenStep)
    requires
        100 <= status <= 999,
    ensures
        r matches TokenStep::Finished(Err(AppError::Authorization(m))) && m@
            == "token endpoint returned "@ + status_display(status) + ": "@ + take_chars(body@, 160),
{
    TokenStep::Finished(Err(token_endpoint_error(status, body)))
}

/// The answer to `DeleteStoredToken`: authorization is required again,
/// unless the deletion itself failed.
pub fn stored_token_deleted(result: Result<(), AppError>) -> (r: TokenStep)
    ensures
        match result {
            Err(e) => r == TokenStep::Finished(Err(e)),
            Ok(()) => r matches TokenStep::Finished(Err(AppError::AuthenticationRequired)),
        },
{
    match result {
        Err(e) => TokenStep::Finished(Err(e)),
        Ok(()) => TokenStep::Finished(Err(AppError::AuthenticationRequired)),
    }
}

/// The answer to `DecodeGrant`, received at `now`: an undecodable answer is
/// an authorization error with the decoder's message; a grant gives an
/// access token expiring after its lifetime (see `token_expires_at`),
/// stored after a new refresh token when the grant carries one.
pub fn grant_decoded(decoded: Result<TokenGrant, String>, now: u64) -> (r: TokenStep)
    requires
        decoded matches Ok(g) ==> now + (if g.expires_in > 60 {
            g.expires_in
        } else {
            60
        }) * 1000 <= u64::MAX,
    ensures
        match decoded {
            Err(m) => r matches TokenStep::Finished(Err(AppError::Authorization(e))) && e == m,
            Ok(g) => {
                let expires = now + (if g.expires_in > 60 {
                    g.expires_in
                } else {
                    60
                }) * 1000;
                match g.refresh_token {
                    Some(rt) => r matches TokenStep::StoreRefreshToken(s, t) && s == rt && t.value
                        == g.access_token && t.expires_at_ms == expires,
                    None => r matches TokenStep::Keep(t) && t.value == g.access_token
                        && t.expires_at_ms == expires,
                }
            },
        },
{
    match decoded {
        Err(m) => TokenStep::Finished(Err(AppError::Authorization(m))),
        Ok(g) => {
            let token = AccessToken {
                value: g.access_token,
                expires_at_ms: token_expires_at(now, g.expires_in),
            };
            match g.refresh_token {
                Some(rt) => TokenStep::StoreRefreshToken(rt, token),
                None => TokenStep::Keep(token),
            }
        },
    }
}

/// The answer to `StoreRefreshToken`: the access token is kept, unless
/// storing failed.
pub fn refresh_token_stored(result: Result<(), AppError>, token: AccessToken) -> (r: TokenStep)
    ensures
        match result {
            Err(e) => r == TokenStep::Finished(Err(e)),
            Ok(()) => r == TokenStep::Keep(token),
        },
{
    match result {
        Err(e) => TokenStep::Finished(Err(e)),
        Ok(()) => TokenStep::Keep(token),
    }
}

// ------------------------------------------------------- callback response

/// The HTML page shown in the browser after the callback.
pub open spec fn callback_page(title: Seq<char>, message: Seq<char>) -> Seq<char> {
    "<!doctype html><meta charset=utf-8><title>"@ + title
        + "</title><style>body{font:16px system-ui;background:#111411;color:#eef6f0;display:grid;place-items:center;height:100vh;margin:0}main{max-width:32rem;padding:2rem}h1{color:#63dd83}</style><main><h1>"@
        + title + "</h1><p>"@ + message + "</p></main>"@
}

/// The status, title and message of the callback page.
pub open spec fn callback_texts(success: bool) -> (Seq<char>, Seq<char>, Seq<char>) {
    if success {
        (
            "200 OK"@,
            "Spotify connected"@,
            "You can close this tab and return to Spotify Companion Widget."@,
        )
    } else {
        (
            "400 Bad Request"@,
            "Connection failed"@,
            "Return to Spotify Companion Widget and try again."@,
        )
    }
}

/// The full HTTP response to the browser's callback request. Its
/// `Content-Length` is the UTF-8 length of the page (as `str::len` reports it).
pub open spec fn callback_http_response(success: bool) -> Seq<char> {
    let (status, title, message) = callback_texts(success);
    let page = callback_page(title, message);
    "HTTP/1.1 "@ + status + "\r\nContent-Type: text/html; charset=utf-8\r\nContent-Length: "@
        + decimal((vstd::utf8::encode_utf8(page).len() as usize) as nat)
        + "\r\nConnection: close\r\nCache-Control: no-store\r\n\r\n"@ + page
}

/// The HTTP response that tells the browser whether the connection succeeded.
pub fn callback_response(success: bool) -> (r: String)
    ensures
        r@ == callback_http_response(success),
{
    let (status, title, message) = if success {
        (
            "200 OK",
            "Spotify connected",
            "You can close this tab and return to Spotify Companion Widget.",
        )
    } else {
        (
            "400 Bad Request",
            "Connection failed",
            "Return to Spotify Companion Widget and try again.",
        )
    };
    let mut body = String::from_str("<!doctype html><meta charset=utf-8><title>");
    body.append(title);
    body.append(
        "</title><style>body{font:16px system-ui;background:#111411;color:#eef6f0;display:grid;place-items:center;height:100vh;margin:0}main{max-width:32rem;padding:2rem}h1{color:#63dd83}</style><main><h1>",
    );
    body.append(title);
    body.append("</h1><p>");
    body.append(message);
    body.append("</p></main>");
    assert(callback_texts(success) == (status@, title@, message@));
    assert(body@ =~= callback_page(title@, message@));
    let length = body.as_str().len();

    let mut response = String::from_str("HTTP/1.1 ");
    response.append(status);
    response.append("\r\nContent-Type: text/html; charset=utf-8\r\nContent-Length: ");
    push_decimal(&mut response, length as u64);
    response.append("\r\nConnection: close\r\nCache-Control: no-store\r\n\r\n");
    response.append(body.as_str());
    response
}

} // verus!
