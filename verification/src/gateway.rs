//! The pure half of the remote list gateway: the request paths, the body of
//! the archive mutation, and the classification of response status codes.
//! The HTTP exchange itself is performed outside the library and hands the
//! decoded results back as plain values.

use vstd::prelude::*;
use crate::decimal::dec_str;
use crate::decimal::usize_to_string;

verus! {

/// The path and query string of one page of the filtered list read: members
/// with the unsubscribed status, ordered by signup timestamp ascending, at
/// the given offset and page size.
pub open spec fn spec_list_page_path(list_id: Seq<char>, count: int, offset: int) -> Seq<char> {
    "/3.0/lists/"@ + list_id + "/members?status=unsubscribed&count="@ + dec_str(count)
        + "&offset="@ + dec_str(offset) + "&sort_field=timestamp_signup&sort_dir=ASC"@
}

/// The path of the archive mutation for one member.
pub open spec fn spec_archive_path(list_id: Seq<char>, member_id: Seq<char>) -> Seq<char> {
    "/3.0/lists/"@ + list_id + "/members/"@ + member_id
}

/// Builds the path and query string of one page request.
pub fn list_page_path(list_id: &str, count: usize, offset: usize) -> (r: String)
    ensures
        r@ == spec_list_page_path(list_id@, count as int, offset as int),
{
    let mut r = String::from_str("/3.0/lists/");
    r.append(list_id);
    r.append("/members?status=unsubscribed&count=");
    let count_str = usize_to_string(count);
    r.append(count_str.as_str());
    r.append("&offset=");
    let offset_str = usize_to_string(offset);
    r.append(offset_str.as_str());
    r.append("&sort_field=timestamp_signup&sort_dir=ASC");
    proof {
        assert(r@ =~= spec_list_page_path(list_id@, count as int, offset as int));
    }
    r
}

/// Builds the path of the archive mutation for one member.
pub fn archive_path(list_id: &str, member_id: &str) -> (r: String)
    ensures
        r@ == spec_archive_path(list_id@, member_id@),
{
    let mut r = String::from_str("/3.0/lists/");
    r.append(list_id);
    r.append("/members/");
    r.append(member_id);
    proof {
        assert(r@ =~= spec_archive_path(list_id@, member_id@));
    }
    r
}

/// The full URL of one page request against the configured base endpoint.
pub fn list_page_url(base_url: &str, list_id: &str, count: usize, offset: usize) -> (r: String)
    ensures
        r@ == base_url@ + spec_list_page_path(list_id@, count as int, offset as int),
{
    let mut r = String::from_str(base_url);
    let path = list_page_path(list_id, count, offset);
    r.append(path.as_str());
    r
}

/// The full URL of the archive mutation for one member.
pub fn archive_url(base_url: &str, list_id: &str, member_id: &str) -> (r: String)
    ensures
        r@ == base_url@ + spec_archive_path(list_id@, member_id@),
{
    let mut r = String::from_str(base_url);
    let path = archive_path(list_id, member_id);
    r.append(path.as_str());
    r
}

/// The fixed placeholder principal of the HTTP Basic authentication; the
/// configured credential stands as the password.
pub fn basic_auth_username() -> (r: &'static str)
    ensures
        r@ == "anystring"@,
{
    "anystring"
}

/// The body of the archive mutation: it sets the member's status to the
/// archived ("cleaned") value.
pub fn archive_request_body() -> (r: String)
    ensures
        r@ == "{\"status\":\"cleaned\"}"@,
{
    String::from_str("{\"status\":\"cleaned\"}")
}

/// Whether a response status reports a client error, in which case the body
/// is the structured error shape rather than the requested resource.
pub fn is_client_error(status: u16) -> (r: bool)
    ensures
        r == (400 <= status && status < 500),
{
    400 <= status && status < 500
}

} // verus!
