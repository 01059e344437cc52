use vstd::prelude::*;
use vstd::string::*;
use crate::interp::ReplyKind;
use crate::value::{field, get_field, str_eq, take_field, take_two_fields, Json, JsonNumber};

verus! {

/// One hit of a similarity search: its `similarity` and `document` fields as the server sent them.
#[derive(Debug, PartialEq)]
pub struct Hit {
    pub similarity: Option<Json>,
    pub document: Option<Json>,
}

/// What a successful reply shows.
#[derive(Debug, PartialEq)]
pub enum Rendered {
    Created { id: String, result: Json },
    Updated { id: String, result: Json },
    Deleted(String),
    /// Each collection's name, marked when it is the selected one.
    Collections(Vec<(bool, String)>),
    NoCollections,
    Documents(Vec<Json>),
    NoDocuments,
    Count(u64),
    /// The reply held no count; shown as zero.
    CountMissing,
    Hits(Vec<Hit>),
    NoSimilar,
}

/// The items of `v` when it is a non-empty array.
pub open spec fn nonempty_items(v: Option<Json>) -> Option<Seq<Json>> {
    match v {
        Some(Json::Array(x)) => if x@.len() > 0 {
            Some(x@)
        } else {
            None
        },
        _ => None,
    }
}

/// The name a listed collection is shown under.
pub open spec fn shown_name(v: Json) -> Seq<char> {
    match v {
        Json::Str(s) => s@,
        _ => "unknown"@,
    }
}

/// Whether the collection named `n` is the selected one.
pub open spec fn is_selected(cur: Option<String>, n: Seq<char>) -> bool {
    cur is Some && cur->0@ == n
}

/// The document id a create reply is shown with.
pub open spec fn created_id(reply: Json) -> Seq<char> {
    match field(reply, "document_id"@) {
        Some(Json::Str(s)) => s@,
        _ => "N/A"@,
    }
}

/// The listing of collections `reply` gives when `cur` is selected.
pub open spec fn collections_shown(reply: Json, cur: Option<String>, r: Rendered) -> bool {
    match nonempty_items(field(reply, "collections"@)) {
        Some(items) => r is Collections && r->Collections_0@.len() == items.len() && forall|i: int|
            0 <= i < items.len() ==> (#[trigger] r->Collections_0@[i]).1@ == shown_name(items[i])
                && r->Collections_0@[i].0 == is_selected(cur, shown_name(items[i])),
        None => r == Rendered::NoCollections,
    }
}

/// The hits `reply` gives.
pub open spec fn hits_shown(reply: Json, r: Rendered) -> bool {
    match nonempty_items(field(reply, "results"@)) {
        Some(items) => r is Hits && r->Hits_0@.len() == items.len() && forall|i: int|
            0 <= i < items.len() ==> (#[trigger] r->Hits_0@[i]).similarity == field(
                items[i],
                "similarity"@,
            ) && r->Hits_0@[i].document == field(items[i], "document"@),
        None => r == Rendered::NoSimilar,
    }
}

/// What a successful `reply` to a request of kind `kind` shows, with `cur` selected.
pub open spec fn reply_shown(kind: ReplyKind, cur: Option<String>, reply: Json, r: Rendered) -> bool {
    match kind {
        ReplyKind::Created => r is Created && r->Created_id@ == created_id(reply)
            && r->Created_result == reply,
        ReplyKind::Updated(id) => r == Rendered::Updated { id, result: reply },
        ReplyKind::Deleted(id) => r == Rendered::Deleted(id),
        ReplyKind::Collections => collections_shown(reply, cur, r),
        ReplyKind::Documents => match nonempty_items(field(reply, "documents"@)) {
            Some(items) => r is Documents && r->Documents_0@ == items,
            None => r == Rendered::NoDocuments,
        },
        ReplyKind::Count => match field(reply, "count"@) {
            Some(Json::Number(JsonNumber::PosInt(n))) => r == Rendered::Count(n),
            _ => r == Rendered::CountMissing,
        },
        ReplyKind::Similar => hits_shown(reply, r),
    }
}

fn nonempty_array(v: Option<Json>) -> (r: Option<Vec<Json>>)
    ensures
        match nonempty_items(v) {
            Some(items) => r is Some && r->0@ == items,
            None => r is None,
        },
{
    match v {
        Some(Json::Array(x)) => if x.len() > 0 {
            Some(x)
        } else {
            None
        },
        _ => None,
    }
}

fn list_collections(items: &Vec<Json>, cur: &Option<String>) -> (r: Vec<(bool, String)>)
    ensures
        r@.len() == items@.len(),
        forall|i: int|
            0 <= i < items@.len() ==> (#[trigger] r@[i]).1@ == shown_name(items@[i]) && r@[i].0
                == is_selected(*cur, shown_name(items@[i])),
{
    let mut out: Vec<(bool, String)> = Vec::new();
    let mut i: usize = 0;
    while i < items.len()
        invariant
            i <= items@.len(),
            out@.len() == i,
            forall|j: int|
                0 <= j < i ==> (#[trigger] out@[j]).1@ == shown_name(items@[j]) && out@[j].0
                    == is_selected(*cur, shown_name(items@[j])),
        decreases items@.len() - i,
    {
        let name = match &items[i] {
            Json::Str(s) => s.clone(),
            _ => String::from_str("unknown"),
        };
        let marked = match cur {
            Some(c) => str_eq(c.as_str(), name.as_str()),
            None => false,
        };
        out.push((marked, name));
        i = i + 1;
    }
    out
}

fn collect_hits(items: Vec<Json>) -> (r: Vec<Hit>)
    ensures
        r@.len() == items@.len(),
        forall|i: int|
            0 <= i < items@.len() ==> (#[trigger] r@[i]).similarity == field(
                items@[i],
                "similarity"@,
            ) && r@[i].document == field(items@[i], "document"@),
{
    let ghost orig = items@;
    let mut items = items;
    let mut out: Vec<Hit> = Vec::new();
    proof {
        reveal_strlit("similarity");
        reveal_strlit("document");
        assert("similarity"@[0] != "document"@[0]);
    }
    while items.len() > 0
        invariant
            out@.len() + items@.len() == orig.len(),
            items@ == orig.subrange(out@.len() as int, orig.len() as int),
            forall|j: int|
                0 <= j < out@.len() ==> (#[trigger] out@[j]).similarity == field(
                    orig[j],
                    "similarity"@,
                ) && out@[j].document == field(orig[j], "document"@),
            "similarity"@ != "document"@,
        decreases items@.len(),
    {
        let x = items.remove(0);
        let (sim, doc) = take_two_fields(x, "similarity", "document");
        out.push(Hit { similarity: sim, document: doc });
        assert(items@ =~= orig.subrange(out@.len() as int, orig.len() as int));
    }
    out
}

/// What a successful `reply` to a request of kind `kind` shows; `current` is the selected collection.
pub fn render_reply(kind: ReplyKind, current: &Option<String>, reply: Json) -> (r: Rendered)
    ensures
        reply_shown(kind, *current, reply, r),
{
    match kind {
        ReplyKind::Created => {
            let id = match get_field(&reply, "document_id") {
                Some(Json::Str(s)) => s.clone(),
                _ => String::from_str("N/A"),
            };
            Rendered::Created { id, result: reply }
        },
        ReplyKind::Updated(id) => Rendered::Updated { id, result: reply },
        ReplyKind::Deleted(id) => Rendered::Deleted(id),
        ReplyKind::Collections => match nonempty_array(take_field(reply, "collections")) {
            Some(items) => Rendered::Collections(list_collections(&items, current)),
            None => Rendered::NoCollections,
        },
        ReplyKind::Documents => match nonempty_array(take_field(reply, "documents")) {
            Some(items) => Rendered::Documents(items),
            None => Rendered::NoDocuments,
        },
        ReplyKind::Count => match take_field(reply, "count") {
            Some(Json::Number(JsonNumber::PosInt(n))) => Rendered::Count(n),
            _ => Rendered::CountMissing,
        },
        ReplyKind::Similar => match nonempty_array(take_field(reply, "results")) {
            Some(items) => Rendered::Hits(collect_hits(items)),
            None => Rendered::NoSimilar,
        },
    }
}

/// A collection is marked in the listing exactly when it is shown under the selected
/// collection's name: with `movies` selected, a mark appears only if the server listed `movies`.
pub proof fn lemma_marker_iff_listed(reply: Json, cur: String, r: Rendered)
    requires
        collections_shown(reply, Some(cur), r),
        r is Collections,
    ensures
        (exists|i: int| 0 <= i < r->Collections_0@.len() && (#[trigger] r->Collections_0@[i]).0)
            <==> (exists|i: int|
            0 <= i < nonempty_items(field(reply, "collections"@))->0.len() && shown_name(
                #[trigger] nonempty_items(field(reply, "collections"@))->0[i],
            ) == cur@),
{
    let items = nonempty_items(field(reply, "collections"@))->0;
    assert(nonempty_items(field(reply, "collections"@)) is Some);
    if exists|i: int| 0 <= i < r->Collections_0@.len() && (#[trigger] r->Collections_0@[i]).0 {
        let i = choose|i: int| 0 <= i < r->Collections_0@.len() && (#[trigger] r->Collections_0@[i]).0;
        assert(shown_name(items[i]) == cur@);
    }
    if exists|i: int| 0 <= i < items.len() && shown_name(#[trigger] items[i]) == cur@ {
        let i = choose|i: int| 0 <= i < items.len() && shown_name(#[trigger] items[i]) == cur@;
        assert(r->Collections_0@[i].0);
    }
}

} // verus!
