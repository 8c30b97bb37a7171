//! Request paths of version 1 of the API.
//!
//! Path segments (token ids, event ids, handles) are inserted as given,
//! without percent-encoding; callers that pass reserved characters get them
//! on the wire unchanged.
use vstd::prelude::*;
use crate::status::{Status, status_token, effective_status};

verus! {

/// Host of the public API.
pub const ENDPOINT: &'static str = "https://public-api.gitpoap.io";

/// Root of every request path.
pub open spec fn base_url() -> Seq<char> {
    ENDPOINT@ + "/v1"@
}

/// Path of the check whether a POAP token is a GitPOAP.
pub open spec fn token_check_url(poap_token_id: Seq<char>) -> Seq<char> {
    base_url() + "/poap/"@ + poap_token_id + "/is-gitpoap"@
}

/// Path of the list of all POAP token ids that are GitPOAPs.
pub open spec fn token_ids_url() -> Seq<char> {
    base_url() + "/poap/gitpoap-ids"@
}

/// Path of the check whether a POAP event is a GitPOAP event.
pub open spec fn event_check_url(poap_event_id: Seq<char>) -> Seq<char> {
    base_url() + "/poap-event/"@ + poap_event_id + "/is-gitpoap"@
}

/// Path of the GitPOAPs of a GitHub user, filtered by status.
pub open spec fn user_badges_url(github_handle: Seq<char>, status: Option<Status>) -> Seq<char> {
    base_url() + "/github/user/"@ + github_handle + "/gitpoaps?status="@
        + status_token(effective_status(status))
}

pub fn get_base_url() -> (r: String)
    ensures
        r@ == base_url(),
{
    let mut url = String::from_str(ENDPOINT);
    url.append("/v1");
    url
}

/// GET /v1/poap/:poapTokenId/is-gitpoap
pub fn is_gitpoap_url(poap_token_id: &str) -> (r: String)
    ensures
        r@ == token_check_url(poap_token_id@),
{
    let mut url = get_base_url();
    url.append("/poap/");
    url.append(poap_token_id);
    url.append("/is-gitpoap");
    url
}

/// GET /v1/poap/gitpoap-ids
pub fn get_gitpoap_ids_url() -> (r: String)
    ensures
        r@ == token_ids_url(),
{
    let mut url = get_base_url();
    url.append("/poap/gitpoap-ids");
    url
}

/// GET /v1/poap-event/:poapEventId/is-gitpoap
pub fn is_gitpoap_event_url(poap_event_id: &str) -> (r: String)
    ensures
        r@ == event_check_url(poap_event_id@),
{
    let mut url = get_base_url();
    url.append("/poap-event/");
    url.append(poap_event_id);
    url.append("/is-gitpoap");
    url
}

/// GET /v1/github/user/:githubHandle/gitpoaps?status=<status>
///
/// A missing status is sent as `claimed`: the client, not the server,
/// chooses that default, and no "all statuses" query is offered.
pub fn get_gitpoaps_for_github_user_url(github_handle: &str, status: Option<Status>) -> (r: String)
    ensures
        r@ == user_badges_url(github_handle@, status),
{
    let token = Status::or_default(status).to_string();
    let mut url = get_base_url();
    url.append("/github/user/");
    url.append(github_handle);
    url.append("/gitpoaps?status=");
    url.append(token.as_str());
    url
}

/// Leaving the status out asks for exactly what asking for `Claimed` does.
pub proof fn lemma_missing_status_means_claimed(github_handle: Seq<char>)
    ensures
        user_badges_url(github_handle, None) == user_badges_url(github_handle, Some(Status::Claimed)),
{
}

} // verus!
