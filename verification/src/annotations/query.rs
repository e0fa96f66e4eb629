//! The query string of a listing.
//!
//! Each filter that is set becomes one field of the query string. How a field
//! is written (percent-encoding, the keys of a list's items) is decided by
//! `serde_qs`; this module decides which fields there are, in which order,
//! and joins them.

use crate::annotations::model::{ListRequest, ListRequestView};
use crate::error::ClientError;
use std::collections::BTreeMap;
use vstd::prelude::*;
use vstd::string::*;

verus! {

/// The error type of `serde_qs`, opaque here.
#[verifier::external_type_specification]
#[verifier::external_body]
pub struct ExQueryError(serde_qs::Error);

/// What `serde_qs::to_string` returns for a map with the one entry
/// `key`: `value`, where `value` is a text: `Some` of the string on success,
/// `None` where it fails.
pub uninterp spec fn qs_text_field(key: Seq<char>, value: Seq<char>) -> Option<Seq<char>>;

/// What `serde_qs::to_string` returns for a map with the one entry
/// `key`: `values`, where `values` is a list of texts: `Some` of the string on
/// success, `None` where it fails.
pub uninterp spec fn qs_list_field(key: Seq<char>, values: Seq<Seq<char>>) -> Option<Seq<char>>;

/// Calls `serde_qs::to_string` on a map with the one entry `key`: `value`.
/// Nothing is proved of the string: the contract only names it, claiming that
/// the outcome depends on `key` and `value` alone.
#[verifier::external_body]
fn encode_text_field(key: &str, value: &str) -> (r: Result<String, serde_qs::Error>)
    ensures
        r matches Ok(s) ==> qs_text_field(key@, value@) == Some(s@),
        r is Err ==> qs_text_field(key@, value@) is None,
{
    let mut entry: BTreeMap<&str, &str> = BTreeMap::new();
    entry.insert(key, value);
    serde_qs::to_string(&entry)
}

/// Calls `serde_qs::to_string` on a map with the one entry `key`: `values`.
/// Nothing is proved of the string: the contract only names it, claiming that
/// the outcome depends on `key` and `values` alone.
#[verifier::external_body]
fn encode_list_field(key: &str, values: &Vec<String>) -> (r: Result<String, serde_qs::Error>)
    ensures
        r matches Ok(s) ==> qs_list_field(key@, values.deep_view()) == Some(s@),
        r is Err ==> qs_list_field(key@, values.deep_view()) is None,
{
    let mut entry: BTreeMap<&str, &Vec<String>> = BTreeMap::new();
    entry.insert(key, values);
    serde_qs::to_string(&entry)
}

/// The text of a `serde_qs::Error`, through its `Display` impl. Nothing is
/// claimed of it.
#[verifier::external_body]
fn error_text(e: &serde_qs::Error) -> String {
    e.to_string()
}

/// `parts` with `&` between each two neighbours.
pub open spec fn joined(parts: Seq<Seq<char>>) -> Seq<char>
    decreases parts.len(),
{
    if parts.len() == 0 {
        Seq::empty()
    } else if parts.len() == 1 {
        parts[0]
    } else {
        joined(parts.drop_last()) + seq!['&'] + parts.last()
    }
}

/// Joins the fields of a query string with `&`.
pub fn join_fields(parts: &Vec<String>) -> (query: String)
    ensures
        query@ == joined(parts.deep_view()),
{
    let ghost all = parts.deep_view();
    let mut query = String::new();
    let mut i: usize = 0;
    while i < parts.len()
        invariant
            i <= parts.len(),
            all == parts.deep_view(),
            query@ == joined(all.take(i as int)),
        decreases parts.len() - i,
    {
        proof {
            reveal_strlit("&");
            let next = all.take(i + 1);
            assert(next.drop_last() == all.take(i as int));
            assert(next.last() == parts[i as int]@);
        }
        if i > 0 {
            query.append("&");
        }
        query.append(parts[i].as_str());
        i += 1;
    }
    proof {
        assert(all.take(i as int) == all);
    }
    query
}

/// What the encoder returns for a text filter: nothing where the filter is not
/// set, else its one field.
pub open spec fn text_field(key: Seq<char>, value: Option<Seq<char>>) -> Seq<Option<Seq<char>>> {
    match value {
        None => Seq::empty(),
        Some(text) => seq![qs_text_field(key, text)],
    }
}

/// What the encoder returns for a list filter: nothing where the filter is not
/// set, else its one field.
pub open spec fn list_field(key: Seq<char>, values: Option<Seq<Seq<char>>>) -> Seq<
    Option<Seq<char>>,
> {
    match values {
        None => Seq::empty(),
        Some(items) => seq![qs_list_field(key, items)],
    }
}

/// The encoder's outcome for each filter of `req` that is set, in the order
/// `datasets`, `start`, `end`.
pub open spec fn encoded_fields(req: ListRequestView) -> Seq<Option<Seq<char>>> {
    list_field("datasets"@, req.datasets) + text_field("start"@, req.start) + text_field(
        "end"@,
        req.end,
    )
}

/// The query string of `req`: its encoded fields joined by `&`, or `None`
/// where the encoder fails on one of them. Without filters it is empty.
pub open spec fn query_string(req: ListRequestView) -> Option<Seq<char>> {
    let fields = encoded_fields(req);
    if forall|i: int| 0 <= i < fields.len() ==> (#[trigger] fields[i]) is Some {
        Some(joined(fields.map_values(|field: Option<Seq<char>>| field.unwrap())))
    } else {
        None
    }
}

/// A listing without filters has the empty query string: nothing is handed
/// to the encoder, so nothing can fail.
pub proof fn lemma_no_filters_empty_query(req: ListRequestView)
    requires
        req.datasets is None,
        req.start is None,
        req.end is None,
    ensures
        query_string(req) == Some(Seq::<char>::empty()),
{
    let fields = encoded_fields(req);
    assert(fields.len() == 0);
    assert(fields.map_values(|field: Option<Seq<char>>| field.unwrap()).len() == 0);
}

impl ListRequest {
    /// Encodes the filters that are set as a query string.
    ///
    /// Fails with [`ClientError::Serialize`] exactly where the encoder fails
    /// on one of the fields.
    pub fn to_query(&self) -> (r: Result<String, ClientError>)
        ensures
            match query_string(self@) {
                Some(query) => r matches Ok(s) && s@ == query,
                None => r matches Err(ClientError::Serialize(_)),
            },
    {
        let ghost fields = encoded_fields(self@);
        let ghost unwrap = |field: Option<Seq<char>>| field.unwrap();
        let mut parts: Vec<String> = Vec::new();
        let ghost mut done: Seq<Option<Seq<char>>> = Seq::empty();
        assert(parts.deep_view() =~= done.map_values(unwrap));

        if let Some(datasets) = &self.datasets {
            match encode_list_field("datasets", datasets) {
                Ok(part) => {
                    proof {
                        done = done.push(Some(part@));
                    }
                    parts.push(part);
                    assert(parts.deep_view() =~= done.map_values(unwrap));
                },
                Err(e) => {
                    assert(fields[0] is None);
                    return Err(ClientError::Serialize(error_text(&e)));
                },
            }
        }
        assert(done =~= list_field("datasets"@, self@.datasets));

        if let Some(start) = &self.start {
            match encode_text_field("start", start.as_str()) {
                Ok(part) => {
                    proof {
                        done = done.push(Some(part@));
                    }
                    parts.push(part);
                    assert(parts.deep_view() =~= done.map_values(unwrap));
                },
                Err(e) => {
                    assert(fields[done.len() as int] is None);
                    return Err(ClientError::Serialize(error_text(&e)));
                },
            }
        }
        assert(done =~= list_field("datasets"@, self@.datasets) + text_field(
            "start"@,
            self@.start,
        ));

        if let Some(end) = &self.end {
            match encode_text_field("end", end.as_str()) {
                Ok(part) => {
                    proof {
                        done = done.push(Some(part@));
                    }
                    parts.push(part);
                    assert(parts.deep_view() =~= done.map_values(unwrap));
                },
                Err(e) => {
                    assert(fields[done.len() as int] is None);
                    return Err(ClientError::Serialize(error_text(&e)));
                },
            }
        }
        assert(done =~= fields);
        Ok(join_fields(&parts))
    }
}

} // verus!
