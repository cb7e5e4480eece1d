//! The data model: a stored shortened-URL record, the values a new record is
//! created from, and the body of a creation request.

use vstd::prelude::*;

verus! {

/// The mathematical view of a stored record: the identifier, the destination
/// URL, the short code and the creation timestamp, as plain values.
pub ghost struct UrlView {
    pub id: int,
    pub original_url: Seq<char>,
    pub short_code: Seq<char>,
    pub created_at: int,
}

/// A shortened-URL record as the store keeps it. `id` and `created_at` are
/// assigned by the store at insertion and never change afterwards; the
/// timestamp counts seconds.
pub struct Url {
    pub id: i64,
    pub original_url: String,
    pub short_code: String,
    pub created_at: i64,
}

impl View for Url {
    type V = UrlView;

    open spec fn view(&self) -> UrlView {
        UrlView {
            id: self.id as int,
            original_url: self.original_url@,
            short_code: self.short_code@,
            created_at: self.created_at as int,
        }
    }
}

impl Clone for Url {
    fn clone(&self) -> (r: Self)
        ensures
            r@ == self@,
    {
        Url {
            id: self.id,
            original_url: self.original_url.clone(),
            short_code: self.short_code.clone(),
            created_at: self.created_at,
        }
    }
}

/// The caller-supplied part of a record: the destination URL and the short
/// code drawn for it. The store adds `id` and `created_at`.
pub struct NewUrl {
    pub original_url: String,
    pub short_code: String,
}

/// The body of a creation request: the URL to shorten.
pub struct NewUrlRequest {
    pub original_url: String,
}

} // verus!
