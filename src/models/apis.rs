use vstd::prelude::*;

verus! {

/// An outgoing paginated list keys request.
#[derive(Debug, Clone)]
pub struct ListKeysRequest {
    /// The id of the api to list keys for.
    pub api_id: String,
    /// The optional owner id used to filter keys by owner.
    pub owner_id: Option<String>,
    /// The optional number of keys to return, up to 100.
    pub limit: Option<usize>,
    /// The pagination cursor indicating the last key that was returned.
    pub cursor: Option<String>,
    /// Whether to revalidate the cache for this request.
    pub revalidate_cache: Option<bool>,
}

impl ListKeysRequest {
    /// Creates a new list keys request with no optional field set.
    pub fn new(api_id: &str) -> (r: ListKeysRequest)
        ensures
            r.api_id@ == api_id@,
            r.owner_id is None,
            r.limit is None,
            r.cursor is None,
            r.revalidate_cache is None,
    {
        ListKeysRequest {
            api_id: String::from_str(api_id),
            owner_id: None,
            limit: None,
            cursor: None,
            revalidate_cache: None,
        }
    }

    /// Sets the limit for the request.
    pub fn set_limit(self, limit: usize) -> (r: ListKeysRequest)
        ensures
            r == (ListKeysRequest { limit: Some(limit), ..self }),
    {
        ListKeysRequest { limit: Some(limit), ..self }
    }

    /// Sets the pagination cursor for the request.
    pub fn set_cursor(self, cursor: &str) -> (r: ListKeysRequest)
        ensures
            r == (ListKeysRequest { cursor: r.cursor, ..self }),
            r.cursor matches Some(c) && c@ == cursor@,
    {
        ListKeysRequest { cursor: Some(String::from_str(cursor)), ..self }
    }

    /// Sets the owner id for filtering the listed keys by owner.
    pub fn set_owner_id(self, owner_id: &str) -> (r: ListKeysRequest)
        ensures
            r == (ListKeysRequest { owner_id: r.owner_id, ..self }),
            r.owner_id matches Some(o) && o@ == owner_id@,
    {
        ListKeysRequest { owner_id: Some(String::from_str(owner_id)), ..self }
    }

    /// Sets whether to revalidate the key cache with this request.
    pub fn set_revalidate_cache(self, revalidate_cache: bool) -> (r: ListKeysRequest)
        ensures
            r == (ListKeysRequest { revalidate_cache: Some(revalidate_cache), ..self }),
    {
        ListKeysRequest { revalidate_cache: Some(revalidate_cache), ..self }
    }
}

/// An incoming paginated list keys response.
#[derive(Debug, Clone)]
pub struct ListKeysResponse {
    /// The api keys included in this page.
    pub keys: Vec<crate::models::keys::ApiKey>,
    /// The total number of api keys.
    pub total: usize,
    /// The cursor indicating the last key that was returned.
    pub cursor: Option<String>,
}

/// An outgoing get api request.
#[derive(Debug, Clone)]
pub struct GetApiRequest {
    /// The id of the api to get information for.
    pub api_id: String,
}

impl GetApiRequest {
    /// Creates a new get api request.
    pub fn new(api_id: &str) -> (r: GetApiRequest)
        ensures
            r.api_id@ == api_id@,
    {
        GetApiRequest { api_id: String::from_str(api_id) }
    }
}

/// An incoming get api response.
#[derive(Debug, Clone)]
pub struct GetApiResponse {
    /// The id of the api.
    pub api_id: String,
    /// The name of the api.
    pub name: String,
    /// The workspace id of the api.
    pub workspace_id: String,
}

/// An outgoing request to delete an api.
#[derive(Debug, Clone)]
pub struct DeleteApiRequest {
    /// The id of the api to delete.
    pub api_id: String,
}

impl DeleteApiRequest {
    /// Creates a new delete api request.
    pub fn new(api_id: &str) -> (r: DeleteApiRequest)
        ensures
            r.api_id@ == api_id@,
    {
        DeleteApiRequest { api_id: String::from_str(api_id) }
    }
}

} // verus!
