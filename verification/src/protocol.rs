//! The request/response protocol of the OSV query API.
//!
//! The query endpoint answers success for both "matches found" and "no
//! matches"; only the body's shape tells the two apart. This module builds
//! the two request shapes, discriminates the response body, composes the
//! single-record lookup URL, and maps transport outcomes onto the closed
//! error taxonomy.

use vstd::prelude::*;
use vstd::string::*;
use crate::codec::{request_json, vuln_of_json, vulns_of, request_to_json, json_to_vulns_from, json_to_vuln};
use crate::json::{JsonV, JsonValue, obj_get, parse_json, print_json, view_arr, decode_json, encode_json, get_key};
use crate::model::{Request, RequestV, Vulnerability, VulnerabilityV};

verus! {

/// The HTTP status the service answers for an identity it does not know.
pub const STATUS_NOT_FOUND: u16 = 404;

/// What can go wrong in one exchange with the service: the queried identity
/// does not exist, the lookup URL cannot be composed, a body cannot be
/// encoded or decoded, the transport failed below the HTTP layer, or a state
/// the mapper cannot classify.
#[derive(Debug, PartialEq)]
pub enum ApiError {
    /// The queried package, commit or vulnerability id is unknown to the
    /// service; carries the identifier text.
    NotFound(String),
    /// The vulnerability-id path could not be composed into a valid URL.
    InvalidUrl(String),
    /// A request could not be encoded, or a response body decoded into any
    /// recognized shape.
    SerializationError(String),
    /// The transport reported a failure below the HTTP layer, or an HTTP
    /// failure not handled as `NotFound`.
    RequestFailed(String),
    /// Reserved for states the mapper cannot classify; a conforming server
    /// never causes it.
    Unexpected,
}

/// The identifier text a failed query names: the package name or the commit
/// hash, never the version.
pub open spec fn not_found_ident(q: RequestV) -> Seq<char> {
    match q {
        RequestV::PackageQuery { version, package } => "package - `"@ + package.name + "`"@,
        RequestV::CommitQuery { commit } => "commit - `"@ + commit + "`"@,
    }
}

/// The identifier text for a query that found nothing.
pub fn not_found_ident_string(q: &Request) -> (r: String)
    ensures
        r@ == not_found_ident(q@),
{
    match q {
        Request::PackageQuery { version: _, package } => {
            let mut m = "package - `".to_owned();
            m.append(package.name.as_str());
            m.append("`");
            m
        },
        Request::CommitQuery { commit } => {
            let mut m = "commit - `".to_owned();
            m.append(commit.as_str());
            m.append("`");
            m
        },
    }
}

/// The body text this client sends for a query request: the untagged wire
/// form of the request.
pub fn encode_request(q: &Request) -> (r: String)
    ensures
        r@ == print_json(request_json(q@)),
{
    let j = request_to_json(q);
    encode_json(&j)
}

/// What a query response body text denotes. The outer `None` is a body that
/// is no JSON document at all; `Some(None)` is a well-formed body without a
/// readable `vulns` list, the "no result" shape; `Some(Some(list))` is the
/// "matches found" shape. The choice goes by the `vulns` key and its list,
/// never by the list's length.
pub open spec fn query_response_of(s: Seq<char>) -> Option<Option<Seq<VulnerabilityV>>> {
    match parse_json(s) {
        None => None,
        Some(j) => Some(
            match j {
                JsonV::Obj(ms) => match obj_get(ms, "vulns"@) {
                    Some(JsonV::Arr(vs)) => match vulns_of(vs) {
                        Some(list) => Some(list),
                        None => None,
                    },
                    _ => None,
                },
                _ => None,
            },
        ),
    }
}

/// What a single-record response body text denotes: the vulnerability the
/// body spells, if it is a JSON document spelling one.
pub open spec fn vuln_of_text(s: Seq<char>) -> Option<VulnerabilityV> {
    match parse_json(s) {
        None => None,
        Some(j) => vuln_of_json(j),
    }
}

/// Reads a query response body: the list under `vulns` where the body has
/// that shape, nothing where it is some other JSON document, and a
/// serialization error only where it is no JSON document at all.
pub fn decode_response_body(body: &str) -> (r: Result<Option<Vec<Vulnerability>>, ApiError>)
    ensures
        match r {
            Ok(Some(out)) => query_response_of(body@) == Some(Some(out.deep_view())),
            Ok(None) => query_response_of(body@) == Some(None::<Seq<VulnerabilityV>>),
            Err(e) => query_response_of(body@) is None && e matches ApiError::SerializationError(
                _,
            ),
        },
{
    match decode_json(body) {
        None => Err(ApiError::SerializationError("response body is not JSON".to_owned())),
        Some(j) => match &j {
            JsonValue::Obj(ms) => {
                let key = "vulns".to_owned();
                match get_key(ms, &key) {
                    Some(JsonValue::Arr(vs)) => {
                        proof {
                            assert(view_arr(vs@, 0).skip(0) =~= view_arr(vs@, 0));
                        }
                        match json_to_vulns_from(vs, 0) {
                            Some(list) => Ok(Some(list)),
                            None => Ok(None),
                        }
                    },
                    _ => Ok(None),
                }
            },
            _ => Ok(None),
        },
    }
}

/// Interprets the status and body of a query exchange: a not-found status
/// short-circuits to `NotFound` carrying the identifier text built from the
/// request, before any look at the body; any other status has the body
/// discriminated by its shape.
pub fn interpret_query_response(q: &Request, status: u16, body: &str) -> (r: Result<
    Option<Vec<Vulnerability>>,
    ApiError,
>)
    ensures
        status == STATUS_NOT_FOUND ==> (r matches Err(e) && e matches ApiError::NotFound(m)
            && m@ == not_found_ident(q@)),
        status != STATUS_NOT_FOUND ==> match r {
            Ok(Some(out)) => query_response_of(body@) == Some(Some(out.deep_view())),
            Ok(None) => query_response_of(body@) == Some(None::<Seq<VulnerabilityV>>),
            Err(e) => query_response_of(body@) is None && e matches ApiError::SerializationError(
                _,
            ),
        },
{
    if status == STATUS_NOT_FOUND {
        Err(ApiError::NotFound(not_found_ident_string(q)))
    } else {
        decode_response_body(body)
    }
}

/// Interprets the status and body of a single-record lookup: a not-found
/// status yields `NotFound` carrying the requested id, any other status has
/// the body read as one vulnerability record.
pub fn interpret_vulnerability_response(id: &str, status: u16, body: &str) -> (r: Result<
    Vulnerability,
    ApiError,
>)
    ensures
        status == STATUS_NOT_FOUND ==> (r matches Err(e) && e matches ApiError::NotFound(m) && m@
            == id@),
        status != STATUS_NOT_FOUND ==> match r {
            Ok(v) => vuln_of_text(body@) == Some(v@),
            Err(e) => vuln_of_text(body@) is None && e matches ApiError::SerializationError(_),
        },
{
    if status == STATUS_NOT_FOUND {
        Err(ApiError::NotFound(id.to_owned()))
    } else {
        match decode_json(body) {
            None => Err(ApiError::SerializationError("response body is not JSON".to_owned())),
            Some(j) => match json_to_vuln(&j) {
                Some(v) => Ok(v),
                None => Err(
                    ApiError::SerializationError(
                        "response body is not a vulnerability record".to_owned(),
                    ),
                ),
            },
        }
    }
}

/// What the url crate's join of `rel` against the parsed `base` yields: a
/// function of the two texts alone.
pub uninterp spec fn url_join_of(base: Seq<char>, rel: Seq<char>) -> Option<Seq<char>>;

/// Relies on `url::Url::parse` and `url::Url::join`: parsing the base URL
/// and joining the relative segment, with percent-encoding per the URL
/// standard, depends on the two texts alone; `Url::as_str` hands the joined
/// URL back as text.
#[verifier::external_body]
fn join_url(base: &str, rel: &str) -> (r: Option<String>)
    ensures
        match r {
            Some(u) => url_join_of(base@, rel@) == Some(u@),
            None => url_join_of(base@, rel@) is None,
        },
{
    match url::Url::parse(base) {
        Ok(b) => match b.join(rel) {
            Ok(u) => Some(u.as_str().to_owned()),
            Err(_) => None,
        },
        Err(_) => None,
    }
}

/// The URL of the query endpoint.
pub fn query_url() -> (r: String)
    ensures
        r@ == "https://api.osv.dev/v1/query"@,
{
    "https://api.osv.dev/v1/query".to_owned()
}

/// The lookup URL for a vulnerability id: the id joined onto the fixed
/// record base path, or `InvalidUrl` where the id cannot be composed into a
/// valid URL.
pub fn vulnerability_url(id: &str) -> (r: Result<String, ApiError>)
    ensures
        match r {
            Ok(u) => url_join_of("https://api.osv.dev/v1/vulns/"@, id@) == Some(u@),
            Err(e) => url_join_of("https://api.osv.dev/v1/vulns/"@, id@) is None && e matches
                ApiError::InvalidUrl(_),
        },
{
    match join_url("https://api.osv.dev/v1/vulns/", id) {
        Some(u) => Ok(u),
        None => Err(ApiError::InvalidUrl(id.to_owned())),
    }
}

} // verus!
