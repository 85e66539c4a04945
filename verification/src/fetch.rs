//! Fetching code bytes from a remote source: the request that goes out, and
//! what the reply means.
//!
//! Every fetch is one plain GET. Nothing is cached and nothing is retried.

use vstd::prelude::*;
use crate::error::{ProvisionError, ProvisionErrorView};
use crate::rejection::Rejection;

verus! {

/// The method of an outbound request.
#[derive(Clone, Copy, Debug, PartialEq, Eq, Hash)]
pub enum HttpMethod {
    Get,
    Post,
    Head,
}

/// A header of an outbound request.
#[derive(Clone, Debug, PartialEq, Eq)]
pub struct HttpHeader {
    pub name: String,
    pub value: String,
}

/// The transformation that is applied to a response before it is handed
/// over: the name of the function that performs it and the context given to
/// that function.
#[derive(Clone, Debug, PartialEq, Eq)]
pub struct ResponseTransform {
    pub function: String,
    pub context: Vec<u8>,
}

/// An outbound request.
#[derive(Clone, Debug, PartialEq, Eq)]
pub struct FetchRequest {
    pub url: String,
    /// The most bytes that the response may have; no cap when absent.
    pub max_response_bytes: Option<u64>,
    pub method: HttpMethod,
    pub headers: Vec<HttpHeader>,
    pub body: Option<Vec<u8>>,
    pub transform: Option<ResponseTransform>,
}

/// A header as a plain value.
pub struct HttpHeaderView {
    pub name: Seq<char>,
    pub value: Seq<char>,
}

impl View for HttpHeader {
    type V = HttpHeaderView;

    open spec fn view(&self) -> HttpHeaderView {
        HttpHeaderView { name: self.name@, value: self.value@ }
    }
}

/// A transformation as a plain value.
pub struct ResponseTransformView {
    pub function: Seq<char>,
    pub context: Seq<u8>,
}

impl View for ResponseTransform {
    type V = ResponseTransformView;

    open spec fn view(&self) -> ResponseTransformView {
        ResponseTransformView { function: self.function@, context: self.context@ }
    }
}

/// An outbound request as a plain value.
pub struct FetchRequestView {
    pub url: Seq<char>,
    pub max_response_bytes: Option<u64>,
    pub method: HttpMethod,
    pub headers: Seq<HttpHeaderView>,
    pub body: Option<Seq<u8>>,
    pub transform: Option<ResponseTransformView>,
}

impl View for FetchRequest {
    type V = FetchRequestView;

    open spec fn view(&self) -> FetchRequestView {
        FetchRequestView {
            url: self.url@,
            max_response_bytes: self.max_response_bytes,
            method: self.method,
            headers: Seq::new(self.headers@.len(), |i: int| self.headers@[i]@),
            body: match self.body {
                Some(bytes) => Some(bytes@),
                None => None,
            },
            transform: match self.transform {
                Some(transform) => Some(transform@),
                None => None,
            },
        }
    }
}

/// The plain fetch of an address: a GET without custom headers, without a
/// body, without a cap on the size of the response and without a
/// transformation of it.
pub open spec fn plain_get(url: Seq<char>) -> FetchRequestView {
    FetchRequestView {
        url,
        max_response_bytes: None,
        method: HttpMethod::Get,
        headers: Seq::empty(),
        body: None,
        transform: None,
    }
}

/// The request that fetches the code at the given address.
pub fn fetch_request(url: String) -> (request: FetchRequest)
    ensures
        request@ == plain_get(url@),
{
    let request = FetchRequest {
        url,
        max_response_bytes: None,
        method: HttpMethod::Get,
        headers: Vec::new(),
        body: None,
        transform: None,
    };
    assert(request@.headers =~= Seq::empty());
    request
}

/// Reads the reply to a fetch: the bytes of the response body, or the
/// rejection as a failed fetch, whatever its code.
pub fn fetch_outcome(reply: Result<Vec<u8>, Rejection>) -> (outcome: Result<
    Vec<u8>,
    ProvisionError,
>)
    ensures
        match reply {
            Ok(body) => outcome is Ok && outcome->Ok_0@ == body@,
            Err(rejection) => outcome is Err && outcome->Err_0@ == ProvisionErrorView::FetchFailed(
                rejection@,
            ),
        },
{
    match reply {
        Ok(body) => Ok(body),
        Err(rejection) => Err(ProvisionError::FetchFailed(rejection)),
    }
}

} // verus!
