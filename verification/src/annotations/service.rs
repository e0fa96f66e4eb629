//! What the client expects of the service.
//!
//! Nothing in this module runs. It writes down, as a relation between what
//! the service holds before and after a request and what it answers, the
//! behaviour the annotations resource is expected to have, so that what the
//! client's requests achieve can be stated and proved. Whether a given
//! service keeps to it is for a test against that service to show.

use crate::annotations::client::{
    annotation_path,
    create_request,
    delete_request,
    get_request,
    list_request,
    listing_path,
    resource_path,
    update_request,
};
use crate::annotations::model::{AnnotationRequestView, AnnotationView};
use crate::http::{Method, RequestView};
use vstd::prelude::*;

verus! {

/// The annotations the service holds, by identifier.
pub type Store = Map<Seq<char>, AnnotationView>;

/// What the service answers to one request.
pub enum Answer {
    /// Success, with one annotation as the body.
    One(AnnotationView),
    /// Success, with a list of annotations as the body.
    Many(Seq<AnnotationView>),
    /// Success, without a body.
    Done,
    /// A status that is not a success.
    Refused(u16),
}

/// The annotation has every field that the payload supplies, as supplied.
pub open spec fn reflects(annotation: AnnotationView, payload: AnnotationRequestView) -> bool {
    &&& payload.message matches Some(message) ==> annotation.message == message
    &&& payload.datasets matches Some(datasets) ==> annotation.datasets == datasets
    &&& payload.time matches Some(time) ==> annotation.time == time
    &&& payload.end_time matches Some(end) ==> annotation.end_time == Some(end)
}

/// The annotation with the fields that the payload supplies put in place of
/// its own, and its other fields and its identifier as they were.
pub open spec fn overwritten(
    annotation: AnnotationView,
    payload: AnnotationRequestView,
) -> AnnotationView {
    AnnotationView {
        id: annotation.id,
        message: match payload.message {
            Some(message) => message,
            None => annotation.message,
        },
        datasets: match payload.datasets {
            Some(datasets) => datasets,
            None => annotation.datasets,
        },
        time: match payload.time {
            Some(time) => time,
            None => annotation.time,
        },
        end_time: match payload.end_time {
            Some(end) => Some(end),
            None => annotation.end_time,
        },
    }
}

/// The request is turned down and changes nothing.
pub open spec fn refused(before: Store, after: Store, answer: Answer) -> bool {
    after == before && answer is Refused
}

/// Either the payload is turned down, or an annotation that reflects it is
/// stored under an identifier that was free, and returned.
pub open spec fn created(
    before: Store,
    payload: AnnotationRequestView,
    after: Store,
    answer: Answer,
) -> bool {
    ||| refused(before, after, answer)
    ||| {
        &&& answer matches Answer::One(annotation)
        &&& !before.contains_key(annotation.id)
        &&& reflects(annotation, payload)
        &&& after == before.insert(annotation.id, annotation)
    }
}

/// The annotation under `id` is returned, or 404 where there is none.
pub open spec fn fetched(before: Store, id: Seq<char>, after: Store, answer: Answer) -> bool {
    &&& after == before
    &&& answer == if before.contains_key(id) {
        Answer::One(before[id])
    } else {
        Answer::Refused(404)
    }
}

/// Every annotation returned is held; with the empty query string every
/// annotation held is returned. The order is the service's.
pub open spec fn listed(before: Store, query: Seq<char>, after: Store, answer: Answer) -> bool {
    &&& after == before
    &&& answer matches Answer::Many(items)
    &&& forall|annotation: AnnotationView| #[trigger]
        items.contains(annotation) ==> before.contains_value(annotation)
    &&& query.len() == 0 ==> forall|annotation: AnnotationView| #[trigger]
        before.contains_value(annotation) ==> items.contains(annotation)
}

/// Where `id` is unknown the answer is 404. Else either the payload is turned
/// down, or the annotation is overwritten by it, stored and returned.
pub open spec fn updated(
    before: Store,
    id: Seq<char>,
    payload: AnnotationRequestView,
    after: Store,
    answer: Answer,
) -> bool {
    if before.contains_key(id) {
        ||| refused(before, after, answer)
        ||| {
            &&& answer == Answer::One(overwritten(before[id], payload))
            &&& after == before.insert(id, overwritten(before[id], payload))
        }
    } else {
        after == before && answer == Answer::Refused(404)
    }
}

/// The annotation under `id` is dropped, or 404 where there is none.
pub open spec fn deleted(before: Store, id: Seq<char>, after: Store, answer: Answer) -> bool {
    if before.contains_key(id) {
        after == before.remove(id) && answer == Answer::Done
    } else {
        after == before && answer == Answer::Refused(404)
    }
}

/// The service holds `before`, gets `request`, answers `answer` and holds
/// `after`: what it does is decided by the method and the path alone.
pub open spec fn serves(before: Store, request: RequestView, after: Store, answer: Answer) -> bool {
    let item = resource_path() + seq!['/'];
    let listing = resource_path() + seq!['?'];
    if item.is_prefix_of(request.path) {
        let id = request.path.skip(item.len() as int);
        match (request.method, request.body) {
            (Method::Get, _) => fetched(before, id, after, answer),
            (Method::Put, Some(payload)) => updated(before, id, payload, after, answer),
            (Method::Delete, _) => deleted(before, id, after, answer),
            _ => refused(before, after, answer),
        }
    } else if listing.is_prefix_of(request.path) {
        let query = request.path.skip(listing.len() as int);
        match request.method {
            Method::Get => listed(before, query, after, answer),
            _ => refused(before, after, answer),
        }
    } else if request.path == resource_path() {
        match (request.method, request.body) {
            (Method::Post, Some(payload)) => created(before, payload, after, answer),
            _ => refused(before, after, answer),
        }
    } else {
        refused(before, after, answer)
    }
}

/// The paths that the client builds are told apart as they were meant: the
/// path of an annotation yields its identifier, the path of a listing its
/// query string and no identifier, and the resource's own path neither.
proof fn lemma_routes(id: Seq<char>, query: Seq<char>)
    ensures
        (resource_path() + seq!['/']).is_prefix_of(annotation_path(id)),
        annotation_path(id).skip((resource_path() + seq!['/']).len() as int) == id,
        !(resource_path() + seq!['/']).is_prefix_of(listing_path(query)),
        (resource_path() + seq!['?']).is_prefix_of(listing_path(query)),
        listing_path(query).skip((resource_path() + seq!['?']).len() as int) == query,
        !(resource_path() + seq!['/']).is_prefix_of(resource_path()),
        !(resource_path() + seq!['?']).is_prefix_of(resource_path()),
{
    let item = resource_path() + seq!['/'];
    let listing = resource_path() + seq!['?'];
    assert((item + id).subrange(0, item.len() as int) =~= item);
    assert((item + id).skip(item.len() as int) =~= id);
    assert((listing + query).subrange(0, listing.len() as int) =~= listing);
    assert((listing + query).skip(listing.len() as int) =~= query);
    assert((listing + query)[resource_path().len() as int] == '?');
    assert(item[resource_path().len() as int] == '/');
}

/// Where the service creates an annotation from a payload and is then asked
/// for the identifier it returned, it answers with that annotation, which has
/// every field that the payload supplied.
pub proof fn lemma_create_then_get(
    before: Store,
    payload: AnnotationRequestView,
    between: Store,
    annotation: AnnotationView,
    after: Store,
    answer: Answer,
)
    requires
        serves(before, create_request(payload), between, Answer::One(annotation)),
        serves(between, get_request(annotation.id), after, answer),
    ensures
        answer == Answer::One(annotation),
        reflects(annotation, payload),
        after == between,
{
    lemma_routes(annotation.id, Seq::empty());
}

/// Where the service changes an annotation it holds, the annotation it
/// returns and then holds has the fields that the payload supplies as
/// supplied, and every other field, and the identifier, as before. No other
/// annotation changes.
pub proof fn lemma_update_overwrites_supplied_fields(
    before: Store,
    id: Seq<char>,
    payload: AnnotationRequestView,
    after: Store,
    annotation: AnnotationView,
)
    requires
        before.contains_key(id),
        serves(before, update_request(id, payload), after, Answer::One(annotation)),
    ensures
        reflects(annotation, payload),
        annotation.id == before[id].id,
        payload.message is None ==> annotation.message == before[id].message,
        payload.datasets is None ==> annotation.datasets == before[id].datasets,
        payload.time is None ==> annotation.time == before[id].time,
        payload.end_time is None ==> annotation.end_time == before[id].end_time,
        after.contains_key(id) && after[id] == annotation,
        forall|other: Seq<char>|
            other != id ==> after.contains_key(other) == before.contains_key(other) && after[other]
                == before[other],
{
    lemma_routes(id, Seq::empty());
}

/// Where the service deletes an annotation and is then asked for it, it
/// answers 404.
pub proof fn lemma_delete_then_get(
    before: Store,
    id: Seq<char>,
    between: Store,
    after: Store,
    answer: Answer,
)
    requires
        serves(before, delete_request(id), between, Answer::Done),
        serves(between, get_request(id), after, answer),
    ensures
        answer == Answer::Refused(404),
{
    lemma_routes(id, Seq::empty());
}

/// The listing with the empty query string returns exactly the annotations
/// that the service holds, and changes nothing.
pub proof fn lemma_list_without_filters(before: Store, after: Store, answer: Answer)
    requires
        serves(before, list_request(Seq::empty()), after, answer),
    ensures
        after == before,
        answer matches Answer::Many(items) && forall|annotation: AnnotationView|
            items.contains(annotation) <==> before.contains_value(annotation),
{
    lemma_routes(Seq::empty(), Seq::empty());
}

} // verus!
