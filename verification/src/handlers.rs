//! The handler layer: the decision logic of the three endpoints — create,
//! list and redirect — as functions over the store. Transport, JSON framing
//! and the HTTP status line live outside the library; each handler returns a
//! value that names the response it decided on.

use vstd::prelude::*;
use vstd::string::StringExecFns;
use crate::codegen;
use crate::models::{NewUrl, NewUrlRequest, Url};
use crate::store::{spec_assign_time, spec_find_by_code, spec_newest_first, UrlStore};
use crate::text;
use crate::text::is_blank;

verus! {

/// The body a successful creation answers with: the destination URL, the
/// fully-qualified short URL, the bare short code, and the record's creation
/// timestamp.
pub struct CreatedResponse {
    pub original_url: String,
    pub short_url: String,
    pub short_code: String,
    pub created_at: i64,
}

/// The outcome of a creation request: `Created` (201) with its body, or
/// `BadRequest` (400) when the submitted URL is empty after trimming.
pub enum CreateResponse {
    Created(CreatedResponse),
    BadRequest,
}

/// The outcome of a redirect request: `Found` (302) carrying the value of the
/// `Location` header, or `NotFound` (404) when no record has the code.
pub enum RedirectResponse {
    Found(String),
    NotFound,
}

/// The short URL composed for a code: the base URL, a slash, the code.
pub open spec fn spec_short_url(base: Seq<char>, code: Seq<char>) -> Seq<char> {
    base + seq!['/'] + code
}

/// Composes the fully-qualified short URL for a code.
pub fn compose_short_url(base_url: &str, code: &str) -> (r: String)
    ensures
        r@ == spec_short_url(base_url@, code@),
{
    let mut s = base_url.to_owned();
    s.append("/");
    s.append(code);
    proof {
        reveal_strlit("/");
        assert(s@ =~= spec_short_url(base_url@, code@));
    }
    s
}

/// Serves a creation request. A blank URL is rejected with `BadRequest` and
/// the store is left untouched. Otherwise a fresh 7-character alphanumeric
/// code is drawn, the record is inserted, and the response carries the
/// submitted URL, the code, the short URL composed from `base_url`, and the
/// timestamp the store assigned from `now`.
pub fn create_url(store: &mut UrlStore, req: &NewUrlRequest, base_url: &str, now: i64) -> (r:
    CreateResponse)
    requires
        old(store).wf(),
        old(store)@.len() < i64::MAX,
    ensures
        final(store).wf(),
        is_blank(req.original_url@) ==> r is BadRequest && final(store)@ == old(store)@,
        !is_blank(req.original_url@) ==> (r matches CreateResponse::Created(body) && {
            let rec = final(store)@.last();
            &&& final(store)@ == old(store)@.push(rec)
            &&& codegen::is_valid_short_code(body.short_code@)
            &&& body.original_url@ == req.original_url@
            &&& body.short_url@ == spec_short_url(base_url@, body.short_code@)
            &&& rec.original_url == req.original_url@
            &&& rec.short_code == body.short_code@
            &&& rec.id == old(store)@.len() + 1
            &&& rec.created_at == spec_assign_time(old(store)@, now as int)
            &&& body.created_at == rec.created_at
        }),
{
    if text::str_is_blank(req.original_url.as_str()) {
        return CreateResponse::BadRequest;
    }
    let code = codegen::generate_short_code();
    let new_url = NewUrl {
        original_url: req.original_url.clone(),
        short_code: code.clone(),
    };
    let rec = store.insert(new_url, now);
    let short_url = compose_short_url(base_url, code.as_str());
    CreateResponse::Created(
        CreatedResponse {
            original_url: rec.original_url,
            short_url,
            short_code: rec.short_code,
            created_at: rec.created_at,
        },
    )
}

/// Serves a listing request: every stored record, newest first.
pub fn list_urls(store: &UrlStore) -> (r: Vec<Url>)
    ensures
        r@.map_values(|u: Url| u@) == spec_newest_first(store@),
{
    store.list_all()
}

/// Serves a redirect request: when some record carries `code`, answers
/// `Found` with that record's original URL (the earliest record when several
/// share the code); otherwise answers `NotFound`.
pub fn redirect_url(store: &UrlStore, code: &str) -> (r: RedirectResponse)
    ensures
        match spec_find_by_code(store@, code@) {
            Some(u) => r matches RedirectResponse::Found(loc) && loc@ == u.original_url,
            None => r is NotFound,
        },
{
    match store.find_by_code(code) {
        Some(u) => RedirectResponse::Found(u.original_url),
        None => RedirectResponse::NotFound,
    }
}

} // verus!
