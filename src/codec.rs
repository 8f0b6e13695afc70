use crate::error::{make_error, stage_error, ErrorKind, HandlerError};
use vstd::prelude::*;

verus! {

/// What base64's standard alphabet without padding decodes `s` to, if it is valid.
pub uninterp spec fn base64_no_pad_decoded(s: Seq<char>) -> Option<Seq<u8>>;

/// The `user_id`, `app_id` and `exp` members of the JSON object in `b`, if `b`
/// is JSON and the three are present with those types.
pub uninterp spec fn json_claims(b: Seq<u8>) -> Option<(u64, Seq<char>, u64)>;

/// The `exp` member of the JSON object in `b`, if present as an unsigned integer.
pub uninterp spec fn json_exp_claim(b: Seq<u8>) -> Option<u64>;

/// The `access_token` and `refresh_token` members of the JSON object in `b`,
/// if both are present as strings.
pub uninterp spec fn json_token_pair(b: Seq<u8>) -> Option<(Seq<char>, Seq<char>)>;

/// Relies on base64's `STANDARD_NO_PAD` engine: `decode` yields the bytes of
/// a valid input, an error otherwise, and depends on the input alone.
#[verifier::external_body]
fn decode_no_pad(s: &str) -> (r: Result<Vec<u8>, String>)
    ensures
        match r {
            Ok(v) => base64_no_pad_decoded(s@) == Some(v@),
            Err(_) => base64_no_pad_decoded(s@) is None,
        },
{
    base64::Engine::decode(&base64::engine::general_purpose::STANDARD_NO_PAD, s).map_err(
        |e| e.to_string(),
    )
}

/// Relies on `serde_json::from_slice` into a `Value`, then `Value::get` with
/// `as_u64` / `as_str` to read the three claims.
#[verifier::external_body]
fn read_claims(b: &[u8]) -> (r: Result<Claims, String>)
    ensures
        match r {
            Ok(c) => json_claims(b@) == Some(c@),
            Err(_) => json_claims(b@) is None,
        },
{
    let v: serde_json::Value = serde_json::from_slice(b).map_err(|e| e.to_string())?;
    let user_id = v.get("user_id").and_then(serde_json::Value::as_u64);
    let app_id = v.get("app_id").and_then(serde_json::Value::as_str);
    let exp = v.get("exp").and_then(serde_json::Value::as_u64);
    match (user_id, app_id, exp) {
        (Some(user_id), Some(app_id), Some(exp)) => Ok(Claims { user_id, app_id: app_id.to_string(), exp }),
        _ => Err("expected unsigned user_id and exp and a string app_id".to_string()),
    }
}

/// Relies on `serde_json::from_slice` into a `Value`, then `Value::get("exp")`
/// with `as_u64`.
#[verifier::external_body]
fn read_exp_claim(b: &[u8]) -> (r: Result<u64, String>)
    ensures
        match r {
            Ok(x) => json_exp_claim(b@) == Some(x),
            Err(_) => json_exp_claim(b@) is None,
        },
{
    let v: serde_json::Value = serde_json::from_slice(b).map_err(|e| e.to_string())?;
    v.get("exp").and_then(serde_json::Value::as_u64).ok_or_else(|| "expected an unsigned exp".to_string())
}

/// Relies on `serde_json::from_slice` into a `Value`, then `Value::get` with
/// `as_str` to read both tokens.
#[verifier::external_body]
fn read_token_pair(b: &[u8]) -> (r: Result<(String, String), String>)
    ensures
        match r {
            Ok((a, f)) => json_token_pair(b@) == Some((a@, f@)),
            Err(_) => json_token_pair(b@) is None,
        },
{
    let v: serde_json::Value = serde_json::from_slice(b).map_err(|e| e.to_string())?;
    let access = v.get("access_token").and_then(serde_json::Value::as_str);
    let refresh = v.get("refresh_token").and_then(serde_json::Value::as_str);
    match (access, refresh) {
        (Some(a), Some(f)) => Ok((a.to_string(), f.to_string())),
        _ => Err("expected string access_token and refresh_token".to_string()),
    }
}

/// Identity claims carried in the payload of a compact token.
#[derive(Clone, Debug)]
pub struct Claims {
    pub user_id: u64,
    pub app_id: String,
    pub exp: u64,
}

impl View for Claims {
    type V = (u64, Seq<char>, u64);

    open spec fn view(&self) -> (u64, Seq<char>, u64) {
        (self.user_id, self.app_id@, self.exp)
    }
}

/// Index of the first `.` of `s` at or after `from`, or the length of `s`.
pub open spec fn dot_index(s: Seq<char>, from: int) -> int
    decreases s.len() - from,
{
    if from < 0 || from >= s.len() {
        s.len() as int
    } else if s[from] == '.' {
        from
    } else {
        dot_index(s, from + 1)
    }
}

/// The second `.`-separated segment of a compact token, if it has one.
pub open spec fn second_segment(s: Seq<char>) -> Option<Seq<char>> {
    let i = dot_index(s, 0);
    if i >= s.len() {
        None
    } else {
        Some(s.subrange(i + 1, dot_index(s, i + 1)))
    }
}

/// The bytes that the payload segment of `token` decodes to.
pub open spec fn payload_bytes(token: Seq<char>) -> Option<Seq<u8>> {
    match second_segment(token) {
        Some(seg) => base64_no_pad_decoded(seg),
        None => None,
    }
}

/// The identity claims of an authorization code.
pub open spec fn identity_of(code: Seq<char>) -> Option<(u64, Seq<char>, u64)> {
    match payload_bytes(code) {
        Some(b) => json_claims(b),
        None => None,
    }
}

/// The expiry claim of an access token.
pub open spec fn expiry_of(access: Seq<char>) -> Option<u64> {
    match payload_bytes(access) {
        Some(b) => json_exp_claim(b),
        None => None,
    }
}

/// What a stored token pair yields: its access token's expiry and its refresh token.
pub open spec fn cached_token_of(b: Seq<u8>) -> Option<(u64, Seq<char>)> {
    match json_token_pair(b) {
        Some((access, refresh)) => match expiry_of(access) {
            Some(exp) => Some((exp, refresh)),
            None => None,
        },
        None => None,
    }
}

proof fn lemma_dot_index_bounds(s: Seq<char>, from: int)
    requires
        0 <= from <= s.len(),
    ensures
        from <= dot_index(s, from) <= s.len(),
    decreases s.len() - from,
{
    if from < s.len() && s[from] != '.' {
        lemma_dot_index_bounds(s, from + 1);
    }
}

fn find_dot(token: &str, len: usize, from: usize) -> (r: usize)
    requires
        len == token@.len(),
        from <= len,
    ensures
        r == dot_index(token@, from as int),
{
    let mut i: usize = from;
    while i < len
        invariant
            len == token@.len(),
            from <= i <= len,
            dot_index(token@, from as int) == dot_index(token@, i as int),
        decreases len - i,
    {
        if token.get_char(i) == '.' {
            return i;
        }
        i = i + 1;
    }
    i
}

/// Returns the second `.`-separated segment of `token`, or `None` when it has no `.`.
pub fn payload_segment(token: &str) -> (r: Option<String>)
    ensures
        match r {
            Some(s) => second_segment(token@) == Some(s@),
            None => second_segment(token@) is None,
        },
{
    let len = token.unicode_len();
    let i = find_dot(token, len, 0);
    if i >= len {
        return None;
    }
    let j = find_dot(token, len, i + 1);
    proof {
        lemma_dot_index_bounds(token@, i as int + 1);
    }
    Some(String::from_str(token.substring_char(i + 1, j)))
}

/// Decodes the payload of `token` to bytes; `missing` and `undecodable` are
/// the messages for a token without a payload segment and for one that is not base64.
fn decode_payload(token: &str, missing: &str, undecodable: &str) -> (r: Result<Vec<u8>, HandlerError>)
    ensures
        match r {
            Ok(v) => payload_bytes(token@) == Some(v@),
            Err(e) => payload_bytes(token@) is None && e.kind == ErrorKind::Codec,
        },
{
    match payload_segment(token) {
        None => Err(make_error(ErrorKind::Codec, missing)),
        Some(seg) => match decode_no_pad(seg.as_str()) {
            Ok(v) => Ok(v),
            Err(cause) => Err(stage_error(ErrorKind::Codec, undecodable, cause.as_str())),
        },
    }
}

/// Reads the identity claims of an authorization code. The claims are not
/// authenticated: they select a cache entry and grant nothing.
pub fn extract_identity(code: &str) -> (r: Result<Claims, HandlerError>)
    ensures
        match identity_of(code@) {
            Some(id) => r matches Ok(c) && c@ == id,
            None => r matches Err(e) && e.kind == ErrorKind::Codec,
        },
{
    let bytes = decode_payload(
        code,
        "failed to decode authorization code: no payload segment",
        "failed to decode authorization code: ",
    )?;
    match read_claims(bytes.as_slice()) {
        Ok(c) => Ok(c),
        Err(cause) => Err(
            stage_error(ErrorKind::Codec, "failed to parse authorization code into json: ", cause.as_str()),
        ),
    }
}

/// Reads the expiry claim (seconds since the epoch) of an access token.
pub fn access_token_expiry(access: &str) -> (r: Result<u64, HandlerError>)
    ensures
        match expiry_of(access@) {
            Some(x) => r == Ok::<u64, HandlerError>(x),
            None => r matches Err(e) && e.kind == ErrorKind::Codec,
        },
{
    let bytes = decode_payload(
        access,
        "failed to extract the data section from the jwt token",
        "failed to decode the data section from the jwt token: ",
    )?;
    match read_exp_claim(bytes.as_slice()) {
        Ok(x) => Ok(x),
        Err(cause) => Err(
            stage_error(
                ErrorKind::Codec,
                "failed to parse to decoded data section from the jwt token: ",
                cause.as_str(),
            ),
        ),
    }
}

/// Reads a stored token pair: the expiry of its access token and its refresh token.
pub fn read_cached_token(b: &[u8]) -> (r: Result<(u64, String), HandlerError>)
    ensures
        match cached_token_of(b@) {
            Some((x, f)) => r matches Ok((rx, rf)) && rx == x && rf@ == f,
            None => r matches Err(e) && e.kind == ErrorKind::Codec,
        },
{
    match read_token_pair(b) {
        Ok((access, refresh)) => {
            let exp = access_token_expiry(access.as_str())?;
            Ok((exp, refresh))
        },
        Err(cause) => Err(
            stage_error(ErrorKind::Codec, "failed to parse token data from s3 object: ", cause.as_str()),
        ),
    }
}

} // verus!
