use vstd::prelude::*;
use std::rc::Rc;
use crate::headers::{merged, Entry, HeaderList};

verus! {

/// `http::Uri`, carried as an opaque value: the request's target.
#[verifier::external_type_specification]
#[verifier::external_body]
pub struct ExUri(http::Uri);

/// `http::Method`, carried as an opaque value.
#[verifier::external_type_specification]
#[verifier::external_body]
pub struct ExMethod(http::Method);

/// `http::Version`, carried as an opaque value.
#[verifier::external_type_specification]
#[verifier::external_body]
pub struct ExVersion(http::Version);

/// `http::StatusCode`, carried as an opaque value.
#[verifier::external_type_specification]
#[verifier::external_body]
pub struct ExStatusCode(http::StatusCode);

/// The text of a URI: its scheme, authority, path and query as written.
pub uninterp spec fn uri_text(u: http::Uri) -> Seq<char>;

/// Relies on the derived `Clone` of `http::Uri`: the copy has every
/// component of the value it copies.
pub assume_specification[ <http::Uri as Clone>::clone ](u: &http::Uri) -> (r: http::Uri)
    ensures
        uri_text(r) == uri_text(*u),
;

/// The metadata of a request, without its body.
pub struct RequestHead {
    pub method: http::Method,
    pub uri: http::Uri,
    pub version: http::Version,
    pub headers: HeaderList,
}

/// The metadata of a response, as a completed exchange or upgrade gives it.
pub struct ResponseHead {
    pub status: http::StatusCode,
    pub version: http::Version,
    pub headers: HeaderList,
}

/// A request head as an attempt holds it: owned by the attempt, or shared
/// with the caller and read together with an optional overlay of headers.
pub enum RequestHeadType {
    Owned(RequestHead),
    Shared(Rc<RequestHead>, Option<HeaderList>),
}

impl RequestHeadType {
    /// The head the attempt reads, whichever way it is held.
    pub open spec fn head(&self) -> RequestHead {
        match self {
            RequestHeadType::Owned(h) => *h,
            RequestHeadType::Shared(h, _) => **h,
        }
    }

    /// The headers the request carries: the head's own, with the overlay, if
    /// any, merged over them.
    pub open spec fn effective(&self) -> Seq<Entry> {
        match self {
            RequestHeadType::Owned(h) => h.headers@,
            RequestHeadType::Shared(h, None) => h.headers@,
            RequestHeadType::Shared(h, Some(o)) => merged(h.headers@, o@),
        }
    }

    pub fn uri(&self) -> (r: &http::Uri)
        ensures
            *r == self.head().uri,
    {
        match self {
            RequestHeadType::Owned(h) => &h.uri,
            RequestHeadType::Shared(h, _) => &h.uri,
        }
    }

    /// Computes the headers the request carries; the shared head and the
    /// overlay are only read.
    pub fn effective_headers(&self) -> (r: HeaderList)
        ensures
            r@ == self.effective(),
    {
        proof {
            crate::headers::lemma_merge_empty(self.head().headers@);
        }
        match self {
            RequestHeadType::Owned(h) => h.headers.merged_with(&HeaderList::new()),
            RequestHeadType::Shared(h, None) => h.headers.merged_with(&HeaderList::new()),
            RequestHeadType::Shared(h, Some(o)) => h.headers.merged_with(o),
        }
    }
}

} // verus!
