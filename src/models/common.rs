use vstd::prelude::*;

verus! {

/// A record whose in-memory footprint can be estimated for cache accounting.
pub trait Cacheable {
    /// The estimated footprint in bytes.
    spec fn size_estimate(&self) -> nat;

    /// Estimates the memory size of this item in bytes.
    fn estimate_size_bytes(&self) -> (r: usize)
        ensures
            r as nat == self.size_estimate(),
    ;
}

/// Wrapper of a paginated list response.
pub struct ListResponse<T> {
    pub data: Vec<T>,
}

/// Wrapper of a single-item response.
pub struct GetResponse<T> {
    pub data: T,
}

/// Wrapper of a create request.
pub struct CreateRequest<T> {
    pub data: T,
}

/// Answer of the identity endpoint.
pub struct IdentifyResponse {
    pub active: bool,
    pub workspace_id: Option<String>,
    pub workspace_name: Option<String>,
    pub workspace_slug: Option<String>,
}

} // verus!
