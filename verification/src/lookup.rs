//! The identity lookup side: username validation, the wire shape of the
//! lookup service's answer, and classification of a complete HTTP response
//! into the one outcome the reconciler acts on.

use vstd::prelude::*;

use crate::ids::ExternalAccountId;

verus! {

broadcast use vstd::slice::group_slice_axioms;

/// Wire shape of a successful lookup response: the authoritative external
/// account id and the account's current display name.
pub struct UserLookupResponse {
    pub account_id: i32,
    pub name: String,
}

/// What the lookup service reported for one request, after transport and
/// status handling but before any store access. Diagnostic payloads stay in
/// the failing variants for operators; they are never shown to the requester.
#[derive(PartialEq, Eq, Debug)]
pub enum LookupOutcome {
    /// The account exists: its id and current display name.
    Found { account: ExternalAccountId, name: String },
    /// The service answered not-found: no account currently satisfies the
    /// lookup.
    NotFound,
    /// The request produced no response at all.
    TransportFailed,
    /// A non-success, non-not-found answer; status and body kept whole.
    ServerError { status: u16, body: String },
    /// A success status whose body did not parse; the body kept whole.
    Unparseable { body: String },
}

/// A username may be forwarded to the lookup service only if it is pure
/// ASCII and at most 16 bytes long.
pub open spec fn valid_username(u: Seq<char>) -> bool {
    vstd::utf8::is_ascii_chars(u) && u.len() <= 16
}

/// The shape check performed before any network or store access.
pub fn validate_username(u: &str) -> (r: bool)
    ensures
        r == valid_username(u@),
{
    if !u.is_ascii() {
        return false;
    }
    let bytes = u.as_bytes();
    proof {
        vstd::string::is_ascii_spec_bytes(u);
        assert(bytes@.len() == u@.len());
    }
    bytes.len() <= 16
}

/// The value that a success response body parses to: the external account
/// id and display name, or nothing when the body is not such an object.
/// The parse depends on the body text alone.
pub uninterp spec fn lookup_parse_of(body: Seq<char>) -> Option<(i32, Seq<char>)>;

/// Relies on serde_json::from_str and serde_json::from_value: parsing a
/// body into the `{account_id: integer, name: string}` object is a function
/// of the text alone, and hands both fields over unchanged.
#[verifier::external_body]
fn parse_lookup_body(body: &str) -> (r: Option<UserLookupResponse>)
    ensures
        match r {
            Some(resp) => (lookup_parse_of(body@) matches Some(p) && p.0 == resp.account_id
                && p.1 == resp.name@),
            None => lookup_parse_of(body@) is None,
        },
{
    let v: serde_json::Value = serde_json::from_str(body).ok()?;
    let account_id: i32 = serde_json::from_value(v.get("account_id")?.clone()).ok()?;
    let name: String = serde_json::from_value(v.get("name")?.clone()).ok()?;
    Some(UserLookupResponse { account_id, name })
}

/// The statuses the lookup service uses for success.
pub open spec fn success_status(status: u16) -> bool {
    200 <= status <= 299
}

/// Classifies one complete lookup response. A success status stands or
/// falls with its body's parse; not-found is its own answer; anything else
/// is an unexpected server error, kept whole for diagnostics. Transport
/// failures never reach this point: they produce no response to classify.
pub fn classify_lookup_response(status: u16, body: String) -> (r: LookupOutcome)
    ensures
        success_status(status) ==> match lookup_parse_of(body@) {
            Some(p) => (r matches LookupOutcome::Found { account, name } && account.raw == p.0
                && name@ == p.1),
            None => (r matches LookupOutcome::Unparseable { body: b } && b@ == body@),
        },
        status == 404 ==> r is NotFound,
        !success_status(status) && status != 404 ==> (r matches LookupOutcome::ServerError {
            status: st,
            body: b,
        } && st == status && b@ == body@),
{
    if 200 <= status && status <= 299 {
        match parse_lookup_body(body.as_str()) {
            Some(resp) => LookupOutcome::Found {
                account: ExternalAccountId { raw: resp.account_id },
                name: resp.name,
            },
            None => LookupOutcome::Unparseable { body },
        }
    } else if status == 404 {
        LookupOutcome::NotFound
    } else {
        LookupOutcome::ServerError { status, body }
    }
}

} // verus!
