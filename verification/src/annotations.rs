//! Annotations: timestamped markers on the timelines of datasets.

pub mod client;
pub mod model;
pub mod query;
pub mod service;

pub use client::Client;
pub use model::{Annotation, AnnotationRequest, ListRequest, ListRequestView};
