//! The client of the annotations resource.

use crate::annotations::model::{AnnotationRequest, AnnotationRequestView, ListRequest};
use crate::annotations::query::query_string;
use crate::error::ClientError;
use crate::http::{Method, Request, RequestView};
use vstd::prelude::*;
use vstd::string::*;

verus! {

/// The path of the annotations resource: the collection as a whole.
pub open spec fn resource_path() -> Seq<char> {
    "/v2/annotations"@
}

/// The path of the annotation with the identifier `id`: the resource, `/`,
/// and the identifier as it is.
pub open spec fn annotation_path(id: Seq<char>) -> Seq<char> {
    resource_path() + seq!['/'] + id
}

/// The path of the listing with the query string `query`: the resource, `?`,
/// and the query string.
pub open spec fn listing_path(query: Seq<char>) -> Seq<char> {
    resource_path() + seq!['?'] + query
}

/// The request that creates an annotation: a POST of the payload to the
/// resource.
pub open spec fn create_request(payload: AnnotationRequestView) -> RequestView {
    RequestView { method: Method::Post, path: resource_path(), body: Some(payload) }
}

/// The request that fetches one annotation: a GET of its path.
pub open spec fn get_request(id: Seq<char>) -> RequestView {
    RequestView { method: Method::Get, path: annotation_path(id), body: None }
}

/// The request that lists annotations: a GET of the listing's path.
pub open spec fn list_request(query: Seq<char>) -> RequestView {
    RequestView { method: Method::Get, path: listing_path(query), body: None }
}

/// The request that changes one annotation: a PUT of the payload to its path.
pub open spec fn update_request(id: Seq<char>, payload: AnnotationRequestView) -> RequestView {
    RequestView { method: Method::Put, path: annotation_path(id), body: Some(payload) }
}

/// The request that deletes one annotation: a DELETE of its path.
pub open spec fn delete_request(id: Seq<char>) -> RequestView {
    RequestView { method: Method::Delete, path: annotation_path(id), body: None }
}

/// Says, for each operation on annotations, which request performs it.
///
/// The client holds no state: each call stands for itself, and the reply to
/// the request is settled by [`crate::http::Reply::into_result`].
#[derive(Debug, Clone)]
pub struct Client {}

/// The path of an annotation, for the three requests that address one.
fn path_of(id: &str) -> (path: String)
    ensures
        path@ == annotation_path(id@),
{
    proof {
        reveal_strlit("/v2/annotations");
        reveal_strlit("/v2/annotations/");
        assert("/v2/annotations/"@ =~= resource_path() + seq!['/']);
    }
    String::from_str("/v2/annotations/").concat(id)
}

impl Client {
    /// A client. There is nothing to configure: the transport, and with it
    /// the base URL, is the caller's.
    pub fn new() -> (client: Client) {
        Client {  }
    }

    /// The request that creates an annotation from `req`. The payload is sent
    /// as it is: no field is added, dropped or changed.
    pub fn create(&self, req: AnnotationRequest) -> (request: Request)
        ensures
            request@ == create_request(req@),
    {
        Request { method: Method::Post, path: String::from_str("/v2/annotations"), body: Some(req) }
    }

    /// The request that fetches the annotation `id`.
    pub fn get(&self, id: &str) -> (request: Request)
        ensures
            request@ == get_request(id@),
    {
        Request { method: Method::Get, path: path_of(id), body: None }
    }

    /// The request that lists the annotations that pass the filters of `req`,
    /// which become the query string.
    ///
    /// Fails with [`ClientError::Serialize`] exactly where the filters cannot
    /// be encoded; without filters it never fails.
    pub fn list(&self, req: ListRequest) -> (r: Result<Request, ClientError>)
        ensures
            match query_string(req@) {
                Some(query) => r matches Ok(request) && request@ == list_request(query),
                None => r matches Err(ClientError::Serialize(_)),
            },
    {
        match req.to_query() {
            Ok(query) => Ok(self.list_with_query(query.as_str())),
            Err(e) => Err(e),
        }
    }

    /// The request that lists annotations under an already encoded query
    /// string.
    pub fn list_with_query(&self, query: &str) -> (request: Request)
        ensures
            request@ == list_request(query@),
    {
        proof {
            reveal_strlit("/v2/annotations");
            reveal_strlit("/v2/annotations?");
            assert("/v2/annotations?"@ =~= resource_path() + seq!['?']);
        }
        Request {
            method: Method::Get,
            path: String::from_str("/v2/annotations?").concat(query),
            body: None,
        }
    }

    /// The request that changes the annotation `id` as `req` says. The
    /// payload is sent as it is: a field that `req` leaves out stays out.
    pub fn update(&self, id: &str, req: AnnotationRequest) -> (request: Request)
        ensures
            request@ == update_request(id@, req@),
    {
        Request { method: Method::Put, path: path_of(id), body: Some(req) }
    }

    /// The request that deletes the annotation `id`.
    pub fn delete(&self, id: &str) -> (request: Request)
        ensures
            request@ == delete_request(id@),
    {
        Request { method: Method::Delete, path: path_of(id), body: None }
    }
}

/// Two identifiers have the same path only if they are the same identifier:
/// a request for one annotation never addresses another.
pub proof fn lemma_annotation_path_injective(a: Seq<char>, b: Seq<char>)
    requires
        annotation_path(a) == annotation_path(b),
    ensures
        a == b,
{
    let prefix = resource_path() + seq!['/'];
    assert(a =~= (prefix + a).skip(prefix.len() as int));
    assert(b =~= (prefix + b).skip(prefix.len() as int));
}

} // verus!
