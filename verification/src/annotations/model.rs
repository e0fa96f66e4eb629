//! The records that travel to and from the annotations resource.

use vstd::prelude::*;

verus! {

/// A marker on the timeline of one or more datasets, as the service holds it.
#[derive(Debug, Clone, PartialEq, Eq)]
pub struct Annotation {
    /// The identifier the service gave the annotation.
    pub id: String,
    /// What the marker says.
    pub message: String,
    /// The names of the datasets on whose timelines the marker shows.
    pub datasets: Vec<String>,
    /// The instant the marker stands at, as an RFC 3339 timestamp.
    pub time: String,
    /// The end of the marked range, where the marker covers one.
    pub end_time: Option<String>,
}

/// What a caller supplies to create or change an annotation: the fields of an
/// [`Annotation`] without the identifier. A field that is `None` is not sent.
#[derive(Debug, Clone, PartialEq, Eq)]
pub struct AnnotationRequest {
    pub message: Option<String>,
    pub datasets: Option<Vec<String>>,
    pub time: Option<String>,
    pub end_time: Option<String>,
}

/// The filters of a listing. A filter that is `None` does not restrict it.
#[derive(Debug, Clone, PartialEq, Eq)]
pub struct ListRequest {
    /// Only annotations of these datasets.
    pub datasets: Option<Vec<String>>,
    /// Only annotations at or after this RFC 3339 timestamp.
    pub start: Option<String>,
    /// Only annotations at or before this RFC 3339 timestamp.
    pub end: Option<String>,
}

/// An [`Annotation`] as mathematical values.
pub struct AnnotationView {
    pub id: Seq<char>,
    pub message: Seq<char>,
    pub datasets: Seq<Seq<char>>,
    pub time: Seq<char>,
    pub end_time: Option<Seq<char>>,
}

impl View for Annotation {
    type V = AnnotationView;

    open spec fn view(&self) -> AnnotationView {
        AnnotationView {
            id: self.id@,
            message: self.message@,
            datasets: self.datasets.deep_view(),
            time: self.time@,
            end_time: self.end_time.deep_view(),
        }
    }
}

/// An [`AnnotationRequest`] as mathematical values.
pub struct AnnotationRequestView {
    pub message: Option<Seq<char>>,
    pub datasets: Option<Seq<Seq<char>>>,
    pub time: Option<Seq<char>>,
    pub end_time: Option<Seq<char>>,
}

impl View for AnnotationRequest {
    type V = AnnotationRequestView;

    open spec fn view(&self) -> AnnotationRequestView {
        AnnotationRequestView {
            message: self.message.deep_view(),
            datasets: self.datasets.deep_view(),
            time: self.time.deep_view(),
            end_time: self.end_time.deep_view(),
        }
    }
}

/// The filters of a [`ListRequest`] as mathematical values.
pub struct ListRequestView {
    pub datasets: Option<Seq<Seq<char>>>,
    pub start: Option<Seq<char>>,
    pub end: Option<Seq<char>>,
}

impl View for ListRequest {
    type V = ListRequestView;

    open spec fn view(&self) -> ListRequestView {
        ListRequestView {
            datasets: self.datasets.deep_view(),
            start: self.start.deep_view(),
            end: self.end.deep_view(),
        }
    }
}

impl Default for AnnotationRequest {
    /// The request that supplies nothing.
    fn default() -> (req: AnnotationRequest)
        ensures
            req.message is None,
            req.datasets is None,
            req.time is None,
            req.end_time is None,
    {
        AnnotationRequest { message: None, datasets: None, time: None, end_time: None }
    }
}

impl Default for ListRequest {
    /// The listing without filters.
    fn default() -> (req: ListRequest)
        ensures
            req.datasets is None,
            req.start is None,
            req.end is None,
    {
        ListRequest { datasets: None, start: None, end: None }
    }
}

} // verus!
