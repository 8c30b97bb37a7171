//! Typed records of the API's responses, each decoded from a parsed JSON
//! body. The wire names of members (camelCase) map one-to-one onto the
//! fields, and values are taken over unchanged.
use vstd::prelude::*;
use crate::error::ClientError;
use crate::json::{
    Json, bool_at, i32_at, opt_i32_at, text_at, texts_at, texts_view, member_of, read_bool,
    read_i32, read_opt_i32, read_string, read_strings, decode_failure,
};

verus! {

/// Whether a POAP token is a GitPOAP, and which one.
#[derive(Debug)]
pub struct PoapResponse {
    pub is_gitpoap: bool,
    pub gitpoap_id: Option<i32>,
}

/// Every POAP token id that is a GitPOAP.
#[derive(Debug)]
pub struct PoapIdsResponse {
    pub poap_token_ids: Vec<String>,
}

/// Whether a POAP event is a GitPOAP event, and which GitPOAP.
#[derive(Debug)]
pub struct EventResponse {
    pub is_gitpoap: bool,
    pub gitpoap_id: Option<i32>,
}

/// The fancy ids of GitPOAP events.
#[derive(Debug)]
pub struct PoapEventFancyIdsResponse {
    pub poap_event_fancy_ids: Vec<String>,
}

/// A GitPOAP event: the campaign under which badges of one kind are minted.
#[derive(Debug)]
pub struct GitPoapEvent {
    pub git_poap_event_id: i32,
    pub poap_event_id: i32,
    pub poap_event_fancy_id: String,
    pub name: String,
    pub year: i32,
    pub description: String,
    pub image_url: String,
    pub repositories: Vec<String>,
    pub minted_count: i32,
}

/// A list of addresses.
#[derive(Debug)]
pub struct AddressesResponse {
    pub addresses: Vec<String>,
}

/// The body of an error reply of the server.
#[derive(Debug)]
pub struct ErrorResponse {
    pub message: String,
}

/// One GitPOAP awarded to a user.
#[derive(Debug)]
pub struct GitpoapResponse {
    pub git_poap_id: i32,
    pub git_poap_event_id: i32,
    pub poap_token_id: String,
    pub poap_event_id: i32,
    pub poap_event_fancy_id: String,
    pub name: String,
    pub year: i32,
    pub description: String,
    pub image_url: String,
    pub repositories: Vec<String>,
    pub earned_at: String,
    pub minted_at: String,
}

/// The GitPOAPs of a user, in the order the server gave them.
#[derive(Debug)]
pub struct GitpoapsResponse(pub Vec<GitpoapResponse>);

/// `v` has the shape of a badge check: a boolean `isGitPOAP` and an
/// integer or null (or missing) `gitPOAPId`.
pub open spec fn badge_check_ok(v: Json) -> bool {
    &&& bool_at(v, "isGitPOAP"@) is Some
    &&& opt_i32_at(v, "gitPOAPId"@) is Some
}

/// The members of a badge check `v` are `is_gitpoap` and `gitpoap_id`.
pub open spec fn badge_check_matches(v: Json, is_gitpoap: bool, gitpoap_id: Option<i32>) -> bool {
    &&& bool_at(v, "isGitPOAP"@) == Some(is_gitpoap)
    &&& opt_i32_at(v, "gitPOAPId"@) == Some(gitpoap_id)
}

pub open spec fn poap_ids_ok(v: Json) -> bool {
    texts_at(v, "poapTokenIds"@) is Some
}

pub open spec fn poap_ids_matches(v: Json, r: PoapIdsResponse) -> bool {
    texts_at(v, "poapTokenIds"@) == Some(texts_view(r.poap_token_ids@))
}

pub open spec fn fancy_ids_ok(v: Json) -> bool {
    texts_at(v, "poapEventFancyIds"@) is Some
}

pub open spec fn fancy_ids_matches(v: Json, r: PoapEventFancyIdsResponse) -> bool {
    texts_at(v, "poapEventFancyIds"@) == Some(texts_view(r.poap_event_fancy_ids@))
}

pub open spec fn event_ok(v: Json) -> bool {
    &&& i32_at(v, "gitPoapEventId"@) is Some
    &&& i32_at(v, "poapEventId"@) is Some
    &&& text_at(v, "poapEventFancyId"@) is Some
    &&& text_at(v, "name"@) is Some
    &&& i32_at(v, "year"@) is Some
    &&& text_at(v, "description"@) is Some
    &&& text_at(v, "imageUrl"@) is Some
    &&& texts_at(v, "repositories"@) is Some
    &&& i32_at(v, "mintedCount"@) is Some
}

pub open spec fn event_matches(v: Json, r: GitPoapEvent) -> bool {
    &&& i32_at(v, "gitPoapEventId"@) == Some(r.git_poap_event_id)
    &&& i32_at(v, "poapEventId"@) == Some(r.poap_event_id)
    &&& text_at(v, "poapEventFancyId"@) == Some(r.poap_event_fancy_id@)
    &&& text_at(v, "name"@) == Some(r.name@)
    &&& i32_at(v, "year"@) == Some(r.year)
    &&& text_at(v, "description"@) == Some(r.description@)
    &&& text_at(v, "imageUrl"@) == Some(r.image_url@)
    &&& texts_at(v, "repositories"@) == Some(texts_view(r.repositories@))
    &&& i32_at(v, "mintedCount"@) == Some(r.minted_count)
}

pub open spec fn addresses_ok(v: Json) -> bool {
    texts_at(v, "addresses"@) is Some
}

pub open spec fn addresses_matches(v: Json, r: AddressesResponse) -> bool {
    texts_at(v, "addresses"@) == Some(texts_view(r.addresses@))
}

pub open spec fn error_ok(v: Json) -> bool {
    text_at(v, "message"@) is Some
}

pub open spec fn error_matches(v: Json, r: ErrorResponse) -> bool {
    text_at(v, "message"@) == Some(r.message@)
}

pub open spec fn gitpoap_ok(v: Json) -> bool {
    &&& i32_at(v, "gitPoapId"@) is Some
    &&& i32_at(v, "gitPoapEventId"@) is Some
    &&& text_at(v, "poapTokenId"@) is Some
    &&& i32_at(v, "poapEventId"@) is Some
    &&& text_at(v, "poapEventFancyId"@) is Some
    &&& text_at(v, "name"@) is Some
    &&& i32_at(v, "year"@) is Some
    &&& text_at(v, "description"@) is Some
    &&& text_at(v, "imageUrl"@) is Some
    &&& texts_at(v, "repositories"@) is Some
    &&& text_at(v, "earnedAt"@) is Some
    &&& text_at(v, "mintedAt"@) is Some
}

pub open spec fn gitpoap_matches(v: Json, r: GitpoapResponse) -> bool {
    &&& i32_at(v, "gitPoapId"@) == Some(r.git_poap_id)
    &&& i32_at(v, "gitPoapEventId"@) == Some(r.git_poap_event_id)
    &&& text_at(v, "poapTokenId"@) == Some(r.poap_token_id@)
    &&& i32_at(v, "poapEventId"@) == Some(r.poap_event_id)
    &&& text_at(v, "poapEventFancyId"@) == Some(r.poap_event_fancy_id@)
    &&& text_at(v, "name"@) == Some(r.name@)
    &&& i32_at(v, "year"@) == Some(r.year)
    &&& text_at(v, "description"@) == Some(r.description@)
    &&& text_at(v, "imageUrl"@) == Some(r.image_url@)
    &&& texts_at(v, "repositories"@) == Some(texts_view(r.repositories@))
    &&& text_at(v, "earnedAt"@) == Some(r.earned_at@)
    &&& text_at(v, "mintedAt"@) == Some(r.minted_at@)
}

/// `v` is an array of user badges, each of the right shape.
pub open spec fn gitpoaps_ok(v: Json) -> bool {
    &&& v is Array
    &&& forall|i: int| 0 <= i < v->Array_0@.len() ==> gitpoap_ok(#[trigger] v->Array_0@[i])
}

/// `r` holds, item for item and in order, the badges of the array `v`.
pub open spec fn gitpoaps_matches(v: Json, r: GitpoapsResponse) -> bool {
    &&& v is Array
    &&& r.0@.len() == v->Array_0@.len()
    &&& forall|i: int| 0 <= i < v->Array_0@.len() ==> gitpoap_matches(#[trigger] v->Array_0@[i], r.0@[i])
}

/// A badge check whose `isGitPOAP` member is present but not a boolean
/// does not decode, for the token check and the event check alike.
pub proof fn lemma_non_boolean_flag_rejected(v: Json)
    requires
        member_of(v, "isGitPOAP"@) matches Some(x) && !(x is Bool),
    ensures
        !badge_check_ok(v),
{
}

/// A body that is not an object decodes neither as a badge check nor as the
/// id list; one that is not an array does not decode as a badge list.
pub proof fn lemma_wrong_body_kind_rejected(v: Json)
    ensures
        !(v is Object) ==> !badge_check_ok(v) && !poap_ids_ok(v),
        !(v is Array) ==> !gitpoaps_ok(v),
{
}

impl PoapResponse {
    /// Decodes the body of `GET /v1/poap/:poapTokenId/is-gitpoap`.
    pub fn decode(v: &Json) -> (r: Result<PoapResponse, ClientError>)
        ensures
            r is Ok <==> badge_check_ok(*v),
            r matches Ok(p) ==> badge_check_matches(*v, p.is_gitpoap, p.gitpoap_id),
            r matches Err(e) ==> e is Decode,
    {
        let is_gitpoap = read_bool(v, "isGitPOAP")?;
        let gitpoap_id = read_opt_i32(v, "gitPOAPId")?;
        Ok(PoapResponse { is_gitpoap, gitpoap_id })
    }
}

impl EventResponse {
    /// Decodes the body of `GET /v1/poap-event/:poapEventId/is-gitpoap`.
    pub fn decode(v: &Json) -> (r: Result<EventResponse, ClientError>)
        ensures
            r is Ok <==> badge_check_ok(*v),
            r matches Ok(p) ==> badge_check_matches(*v, p.is_gitpoap, p.gitpoap_id),
            r matches Err(e) ==> e is Decode,
    {
        let is_gitpoap = read_bool(v, "isGitPOAP")?;
        let gitpoap_id = read_opt_i32(v, "gitPOAPId")?;
        Ok(EventResponse { is_gitpoap, gitpoap_id })
    }
}

impl PoapIdsResponse {
    /// Decodes the body of `GET /v1/poap/gitpoap-ids`.
    pub fn decode(v: &Json) -> (r: Result<PoapIdsResponse, ClientError>)
        ensures
            r is Ok <==> poap_ids_ok(*v),
            r matches Ok(p) ==> poap_ids_matches(*v, p),
            r matches Err(e) ==> e is Decode,
    {
        let poap_token_ids = read_strings(v, "poapTokenIds")?;
        Ok(PoapIdsResponse { poap_token_ids })
    }
}

impl PoapEventFancyIdsResponse {
    pub fn decode(v: &Json) -> (r: Result<PoapEventFancyIdsResponse, ClientError>)
        ensures
            r is Ok <==> fancy_ids_ok(*v),
            r matches Ok(p) ==> fancy_ids_matches(*v, p),
            r matches Err(e) ==> e is Decode,
    {
        let poap_event_fancy_ids = read_strings(v, "poapEventFancyIds")?;
        Ok(PoapEventFancyIdsResponse { poap_event_fancy_ids })
    }
}

impl AddressesResponse {
    pub fn decode(v: &Json) -> (r: Result<AddressesResponse, ClientError>)
        ensures
            r is Ok <==> addresses_ok(*v),
            r matches Ok(p) ==> addresses_matches(*v, p),
            r matches Err(e) ==> e is Decode,
    {
        let addresses = read_strings(v, "addresses")?;
        Ok(AddressesResponse { addresses })
    }
}

impl ErrorResponse {
    pub fn decode(v: &Json) -> (r: Result<ErrorResponse, ClientError>)
        ensures
            r is Ok <==> error_ok(*v),
            r matches Ok(p) ==> error_matches(*v, p),
            r matches Err(e) ==> e is Decode,
    {
        let message = read_string(v, "message")?;
        Ok(ErrorResponse { message })
    }
}

impl GitPoapEvent {
    pub fn decode(v: &Json) -> (r: Result<GitPoapEvent, ClientError>)
        ensures
            r is Ok <==> event_ok(*v),
            r matches Ok(p) ==> event_matches(*v, p),
            r matches Err(e) ==> e is Decode,
    {
        let git_poap_event_id = read_i32(v, "gitPoapEventId")?;
        let poap_event_id = read_i32(v, "poapEventId")?;
        let poap_event_fancy_id = read_string(v, "poapEventFancyId")?;
        let name = read_string(v, "name")?;
        let year = read_i32(v, "year")?;
        let description = read_string(v, "description")?;
        let image_url = read_string(v, "imageUrl")?;
        let repositories = read_strings(v, "repositories")?;
        let minted_count = read_i32(v, "mintedCount")?;
        Ok(
            GitPoapEvent {
                git_poap_event_id,
                poap_event_id,
                poap_event_fancy_id,
                name,
                year,
                description,
                image_url,
                repositories,
                minted_count,
            },
        )
    }
}

impl GitpoapResponse {
    /// Decodes one item of the user badge list.
    pub fn decode(v: &Json) -> (r: Result<GitpoapResponse, ClientError>)
        ensures
            r is Ok <==> gitpoap_ok(*v),
            r matches Ok(p) ==> gitpoap_matches(*v, p),
            r matches Err(e) ==> e is Decode,
    {
        let git_poap_id = read_i32(v, "gitPoapId")?;
        let git_poap_event_id = read_i32(v, "gitPoapEventId")?;
        let poap_token_id = read_string(v, "poapTokenId")?;
        let poap_event_id = read_i32(v, "poapEventId")?;
        let poap_event_fancy_id = read_string(v, "poapEventFancyId")?;
        let name = read_string(v, "name")?;
        let year = read_i32(v, "year")?;
        let description = read_string(v, "description")?;
        let image_url = read_string(v, "imageUrl")?;
        let repositories = read_strings(v, "repositories")?;
        let earned_at = read_string(v, "earnedAt")?;
        let minted_at = read_string(v, "mintedAt")?;
        Ok(
            GitpoapResponse {
                git_poap_id,
                git_poap_event_id,
                poap_token_id,
                poap_event_id,
                poap_event_fancy_id,
                name,
                year,
                description,
                image_url,
                repositories,
                earned_at,
                minted_at,
            },
        )
    }
}

impl GitpoapsResponse {
    /// Decodes the body of `GET /v1/github/user/:githubHandle/gitpoaps`:
    /// an array of badges, all of which must decode.
    pub fn decode(v: &Json) -> (r: Result<GitpoapsResponse, ClientError>)
        ensures
            r is Ok <==> gitpoaps_ok(*v),
            r matches Ok(p) ==> gitpoaps_matches(*v, p),
            r matches Err(e) ==> e is Decode,
    {
        let items = match v {
            Json::Array(items) => items,
            _ => {
                return Err(decode_failure("gitpoaps"));
            },
        };
        let mut out: Vec<GitpoapResponse> = Vec::new();
        let mut i: usize = 0;
        while i < items.len()
            invariant
                i <= items@.len(),
                *v == Json::Array(*items),
                out@.len() == i,
                forall|j: int| 0 <= j < i ==> gitpoap_ok(#[trigger] items@[j]),
                forall|j: int| 0 <= j < i ==> gitpoap_matches(#[trigger] items@[j], out@[j]),
            decreases items@.len() - i,
        {
            match GitpoapResponse::decode(&items[i]) {
                Ok(g) => {
                    out.push(g);
                },
                Err(e) => {
                    assert(v->Array_0@[i as int] == items@[i as int]);
                    return Err(e);
                },
            }
            i = i + 1;
        }
        Ok(GitpoapsResponse(out))
    }
}

} // verus!
