use crate::error::{make_error, ErrorKind, HandlerError};
use vstd::prelude::*;

verus! {

/// The token endpoint of the provider; a grant's parameters follow the `?`.
pub const TOKEN_ENDPOINT: &'static str = "https://api.getjobber.com/api/oauth/token?";

/// The five values a request needs, all present and non-empty.
#[derive(Clone, Debug)]
pub struct Params {
    pub code: String,
    pub redirect_uri: String,
    pub client_id: String,
    pub client_secret: String,
    pub bucket: String,
}

/// Whether a value was supplied and is not empty.
pub open spec fn supplied(v: Option<String>) -> bool {
    v matches Some(s) && s@.len() > 0
}

/// The failure for the first of the five values that is missing, if any: its
/// kind and its message. The three query parameters come first, then the two
/// configuration values.
pub open spec fn missing_value(
    code: Option<String>,
    redirect_uri: Option<String>,
    client_id: Option<String>,
    client_secret: Option<String>,
    bucket: Option<String>,
) -> Option<(ErrorKind, Seq<char>)> {
    if !supplied(code) {
        Some((ErrorKind::ClientInput, "missing code"@))
    } else if !supplied(redirect_uri) {
        Some((ErrorKind::ClientInput, "missing redirect_uri"@))
    } else if !supplied(client_id) {
        Some((ErrorKind::ClientInput, "missing client_id"@))
    } else if !supplied(client_secret) {
        Some((ErrorKind::Configuration, "missing CLIENT_SECRET"@))
    } else if !supplied(bucket) {
        Some((ErrorKind::Configuration, "missing S3_BUCKET"@))
    } else {
        None
    }
}

/// The parameters of an authorization-code grant.
pub open spec fn code_grant(client_id: Seq<char>, client_secret: Seq<char>, code: Seq<char>, redirect_uri: Seq<char>) -> Seq<char> {
    "client_id="@ + client_id + "&client_secret="@ + client_secret
        + "&grant_type=authorization_code&code="@ + code + "&redirect_uri="@ + redirect_uri
}

/// The parameters of a refresh-token grant.
pub open spec fn refresh_grant(client_id: Seq<char>, client_secret: Seq<char>, refresh_token: Seq<char>) -> Seq<char> {
    "client_id="@ + client_id + "&client_secret="@ + client_secret
        + "&grant_type=refresh_token&refresh_token="@ + refresh_token
}

fn require_value(v: Option<String>, kind: ErrorKind, missing: &str) -> (r: Result<String, HandlerError>)
    ensures
        supplied(v) ==> (r matches Ok(s) && v == Some(s)),
        !supplied(v) ==> (r matches Err(e) && e.kind == kind && e.message@ == missing@),
{
    match v {
        Some(s) => {
            if s.as_str().is_empty() {
                Err(make_error(kind, missing))
            } else {
                Ok(s)
            }
        },
        None => Err(make_error(kind, missing)),
    }
}

/// Checks that the three query parameters and the two configuration values are
/// supplied and not empty. No outside call is made before this succeeds.
pub fn validate_params(
    code: Option<String>,
    redirect_uri: Option<String>,
    client_id: Option<String>,
    client_secret: Option<String>,
    bucket: Option<String>,
) -> (r: Result<Params, HandlerError>)
    ensures
        match missing_value(code, redirect_uri, client_id, client_secret, bucket) {
            Some((kind, msg)) => r matches Err(e) && e.kind == kind && e.message@ == msg,
            None => r matches Ok(p) && code == Some(p.code) && redirect_uri == Some(p.redirect_uri)
                && client_id == Some(p.client_id) && client_secret == Some(p.client_secret)
                && bucket == Some(p.bucket),
        },
{
    let code = require_value(code, ErrorKind::ClientInput, "missing code")?;
    let redirect_uri = require_value(redirect_uri, ErrorKind::ClientInput, "missing redirect_uri")?;
    let client_id = require_value(client_id, ErrorKind::ClientInput, "missing client_id")?;
    let client_secret = require_value(client_secret, ErrorKind::Configuration, "missing CLIENT_SECRET")?;
    let bucket = require_value(bucket, ErrorKind::Configuration, "missing S3_BUCKET")?;
    Ok(Params { code, redirect_uri, client_id, client_secret, bucket })
}

/// The parameters of an authorization-code grant, form-encoded as the provider takes them.
pub fn code_grant_query(client_id: &str, client_secret: &str, code: &str, redirect_uri: &str) -> (r: String)
    ensures
        r@ == code_grant(client_id@, client_secret@, code@, redirect_uri@),
{
    let mut q = String::from_str("client_id=");
    q.append(client_id);
    q.append("&client_secret=");
    q.append(client_secret);
    q.append("&grant_type=authorization_code&code=");
    q.append(code);
    q.append("&redirect_uri=");
    q.append(redirect_uri);
    q
}

/// The parameters of a refresh-token grant, form-encoded as the provider takes them.
pub fn refresh_grant_query(client_id: &str, client_secret: &str, refresh_token: &str) -> (r: String)
    ensures
        r@ == refresh_grant(client_id@, client_secret@, refresh_token@),
{
    let mut q = String::from_str("client_id=");
    q.append(client_id);
    q.append("&client_secret=");
    q.append(client_secret);
    q.append("&grant_type=refresh_token&refresh_token=");
    q.append(refresh_token);
    q
}

/// The address to post a grant with parameters `query` to.
pub fn token_url(query: &str) -> (r: String)
    ensures
        r@ == TOKEN_ENDPOINT@ + query@,
{
    String::from_str(TOKEN_ENDPOINT).concat(query)
}

} // verus!
