//! OAuth credentials: the stored record, the refresh policy, and the
//! authorization headers built from them.
use vstd::prelude::*;
use vstd::string::StringExecFns;
use struson::writer::simple::{SimpleJsonWriter, ValueWriter};

verus! {

/// The stored OAuth credentials.
pub struct TokenRecord {
    pub access_token: String,
    pub refresh_token: String,
}

impl TokenRecord {
    /// Both credentials are present.
    pub open spec fn wf(&self) -> bool {
        self.access_token@.len() > 0 && self.refresh_token@.len() > 0
    }
}

/// The identity provider's answer to a refresh-token grant.
pub struct TokenResponse {
    pub access_token: String,
    pub refresh_token: Option<String>,
}

/// Failure of the token persistence layer.
#[derive(Debug)]
pub enum StorageError {
    /// The record could not be read or written.
    Unavailable,
    /// The record was read but does not hold both credentials.
    Malformed,
}

/// Checks a record read from storage: both credentials must be non-empty.
pub fn check_loaded(record: TokenRecord) -> (r: Result<TokenRecord, StorageError>)
    ensures
        r is Ok <==> record.wf(),
        r is Ok ==> r->Ok_0 == record,
        r is Err ==> r->Err_0 is Malformed,
{
    if record.access_token.as_str().is_empty() || record.refresh_token.as_str().is_empty() {
        Err(StorageError::Malformed)
    } else {
        Ok(record)
    }
}

/// A refresh response is usable when it carries an access token.
pub open spec fn usable_response(resp: TokenResponse) -> bool {
    resp.access_token@.len() > 0
}

/// The refresh token to keep: the new one if one was issued, else the stored one.
pub open spec fn kept_refresh_token(stored: TokenRecord, resp: TokenResponse) -> Seq<char> {
    match resp.refresh_token {
        Some(t) => if t@.len() > 0 { t@ } else { stored.refresh_token@ },
        None => stored.refresh_token@,
    }
}

/// The record that a refresh outcome leads to, if any: `None` means the
/// stored record must stay as it is.
pub open spec fn refreshed(stored: TokenRecord, outcome: Option<TokenResponse>, r: Option<TokenRecord>) -> bool {
    match outcome {
        Some(resp) => if usable_response(resp) {
            &&& r is Some
            &&& r->0.access_token@ == resp.access_token@
            &&& r->0.refresh_token@ == kept_refresh_token(stored, resp)
        } else {
            r is None
        },
        None => r is None,
    }
}

/// Applies the refresh policy: the access token is always replaced, the
/// refresh token only when a new non-empty one was issued. A failed or
/// unusable refresh yields `None`, and nothing is to be written.
pub fn apply_refresh(stored: &TokenRecord, outcome: Option<TokenResponse>) -> (r: Option<TokenRecord>)
    ensures
        refreshed(*stored, outcome, r),
        stored.wf() && r is Some ==> r->0.wf(),
        outcome is Some && outcome->0.refresh_token is None && usable_response(outcome->0) ==> {
            &&& r is Some
            &&& r->0.refresh_token@ == stored.refresh_token@
            &&& r->0.access_token@ == outcome->0.access_token@
        },
{
    match outcome {
        None => None,
        Some(resp) => {
            if resp.access_token.as_str().is_empty() {
                None
            } else {
                let refresh_token = match resp.refresh_token {
                    Some(t) => if t.as_str().is_empty() {
                        stored.refresh_token.clone()
                    } else {
                        t
                    },
                    None => stored.refresh_token.clone(),
                };
                Some(TokenRecord { access_token: resp.access_token, refresh_token })
            }
        },
    }
}

/// The standard Base64 encoding of the UTF-8 bytes of `s`.
pub uninterp spec fn base64_of(s: Seq<char>) -> Seq<char>;

/// Relies on base64_light::base64_encode: standard Base64 of the string's bytes.
#[verifier::external_body]
fn base64(s: &str) -> (r: String)
    ensures
        r@ == base64_of(s@),
{
    base64_light::base64_encode(s)
}

pub open spec fn basic_authorization_spec(client_id: Seq<char>, secret: Seq<char>) -> Seq<char> {
    "Basic "@ + base64_of(client_id + ":"@ + secret)
}

/// The `Authorization` header value for client credentials.
pub fn basic_authorization(client_id: &str, secret: &str) -> (r: String)
    ensures
        r@ == basic_authorization_spec(client_id@, secret@),
{
    let mut credentials = String::from_str(client_id);
    credentials.append(":");
    credentials.append(secret);
    let encoded = base64(credentials.as_str());
    let mut header = String::from_str("Basic ");
    header.append(encoded.as_str());
    proof {
        reveal_strlit(":");
        reveal_strlit("Basic ");
    }
    header
}

pub open spec fn bearer_authorization_spec(access_token: Seq<char>) -> Seq<char> {
    "Bearer "@ + access_token
}

/// The `Authorization` header value for an access token.
pub fn bearer_authorization(access_token: &str) -> (r: String)
    ensures
        r@ == bearer_authorization_spec(access_token@),
{
    let mut header = String::from_str("Bearer ");
    header.append(access_token);
    proof {
        reveal_strlit("Bearer ");
    }
    header
}

/// The UTF-8 text of the JSON object `{"access_token": a, "refresh_token": r}`.
pub uninterp spec fn token_json(access_token: Seq<char>, refresh_token: Seq<char>) -> Seq<u8>;

/// Relies on struson's SimpleJsonWriter::write_object: writes a JSON object
/// with the two string members, in this order, into a byte buffer. The calls
/// come in a valid order and writing to a `Vec<u8>` cannot fail, so the
/// writer reports no error.
#[verifier::external_body]
fn write_token_json(access_token: &str, refresh_token: &str) -> (r: Option<Vec<u8>>)
    ensures
        r is Some,
        r is Some ==> r->0@ == token_json(access_token@, refresh_token@),
{
    let mut out: Vec<u8> = Vec::new();
    let written = SimpleJsonWriter::new(&mut out).write_object(|o| {
        o.write_string_member("access_token", access_token)?;
        o.write_string_member("refresh_token", refresh_token)?;
        Ok(())
    });
    match written {
        Ok(()) => Some(out),
        Err(_) => None,
    }
}

/// The bytes to store for `record`.
pub fn encode_token_record(record: &TokenRecord) -> (r: Vec<u8>)
    ensures
        r@ == token_json(record.access_token@, record.refresh_token@),
{
    write_token_json(record.access_token.as_str(), record.refresh_token.as_str()).unwrap()
}

/// Whether a refreshed record may replace the stored one: only while the
/// store still holds the record that the refresh started from, so that a
/// newer record written meanwhile is not overwritten with an older one.
pub fn may_replace(current: &TokenRecord, started_from: &TokenRecord) -> (r: bool)
    ensures
        r == (current.access_token@ == started_from.access_token@
            && current.refresh_token@ == started_from.refresh_token@),
{
    current.access_token == started_from.access_token && current.refresh_token == started_from.refresh_token
}

/// A successful refresh that issues no new refresh token keeps the stored
/// refresh token and replaces the access token.
pub proof fn lemma_refresh_keeps_refresh_token(
    stored: TokenRecord,
    resp: TokenResponse,
    r: Option<TokenRecord>,
)
    requires
        refreshed(stored, Some(resp), r),
        resp.refresh_token is None,
        usable_response(resp),
    ensures
        r is Some,
        r->0.refresh_token@ == stored.refresh_token@,
        r->0.access_token@ == resp.access_token@,
{
}

} // verus!
