use vstd::prelude::*;

verus! {

/// One stored mapping: a short code, the original URL it stands for, the
/// moment of creation (seconds since the Unix epoch) and the number of
/// redirects served for it so far.
#[derive(Debug)]
pub struct Url {
    pub id: String,
    pub original_url: String,
    pub created_at: i64,
    pub visit_count: u64,
}

impl Url {
    /// A field-for-field copy of the row.
    pub fn duplicate(&self) -> (r: Url)
        ensures
            r == *self,
    {
        Url {
            id: self.id.clone(),
            original_url: self.original_url.clone(),
            created_at: self.created_at,
            visit_count: self.visit_count,
        }
    }
}

/// The body of a request to shorten a URL.
#[derive(Debug)]
pub struct CreateUrlRequest {
    pub url: String,
}

/// The public outcome of a successful shorten call: the fresh code and the
/// fully qualified short URL built from the configured base URL.
#[derive(Debug)]
pub struct CreateUrlResponse {
    pub short_code: String,
    pub short_url: String,
}

/// The read-only projection that the stats service reports for one code.
#[derive(Debug)]
pub struct UrlStatsResponse {
    pub original_url: String,
    pub visit_count: u64,
    pub created_at: i64,
}

/// The error taxonomy of the store and the services.
#[derive(Clone, Copy, Debug, PartialEq, Eq, Structural)]
pub enum UrlError {
    /// The code is already taken by a live mapping.
    Collision,
    /// No mapping exists for the code.
    NotFound,
    /// The backing store failed for a reason other than a collision.
    Store,
}

} // verus!
