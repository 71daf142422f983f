//! Facts about a sequence of stored records kept in order of creation.
use vstd::prelude::*;
use crate::entities::{TodoModel, LabelModel};

verus! {

/// Ids rise strictly along the sequence, are positive, and stay below the
/// next id to be issued.
pub open spec fn store_wf(s: Seq<TodoModel>, next_id: int) -> bool {
    &&& 1 <= next_id <= i32::MAX
    &&& forall|i: int, j: int| 0 <= i < j < s.len() ==> #[trigger] s[i].id < #[trigger] s[j].id
    &&& forall|i: int| 0 <= i < s.len() ==> 1 <= #[trigger] s[i].id < next_id
}

pub open spec fn has_id(s: Seq<TodoModel>, id: i32) -> bool {
    exists|i: int| 0 <= i < s.len() && #[trigger] s[i].id == id
}

/// The position of the todo with this id.
pub open spec fn index_of(s: Seq<TodoModel>, id: i32) -> int {
    choose|i: int| 0 <= i < s.len() && #[trigger] s[i].id == id
}

/// The todo with this id, if one is stored.
pub open spec fn lookup(s: Seq<TodoModel>, id: i32) -> Option<TodoModel> {
    if has_id(s, id) {
        Some(s[index_of(s, id)])
    } else {
        None
    }
}

/// Ids of the label sequence rise strictly, are positive, and stay below
/// the next id to be issued.
pub open spec fn label_store_wf(s: Seq<LabelModel>, next_id: int) -> bool {
    &&& 1 <= next_id <= i32::MAX
    &&& forall|i: int, j: int| 0 <= i < j < s.len() ==> #[trigger] s[i].id < #[trigger] s[j].id
    &&& forall|i: int| 0 <= i < s.len() ==> 1 <= #[trigger] s[i].id < next_id
}

pub open spec fn has_label_id(s: Seq<LabelModel>, id: i32) -> bool {
    exists|i: int| 0 <= i < s.len() && #[trigger] s[i].id == id
}

pub open spec fn label_index_of(s: Seq<LabelModel>, id: i32) -> int {
    choose|i: int| 0 <= i < s.len() && #[trigger] s[i].id == id
}

/// In a well-formed store the todo with a given id stands at one place only.
pub proof fn lemma_index_unique(s: Seq<TodoModel>, next_id: int, i: int)
    requires
        store_wf(s, next_id),
        0 <= i < s.len(),
    ensures
        has_id(s, s[i].id),
        index_of(s, s[i].id) == i,
        lookup(s, s[i].id) == Some(s[i]),
{
    let id = s[i].id;
    assert(s[i].id == id);
    let j = index_of(s, id);
    if j < i {
        assert(s[j].id < s[i].id);
    } else if i < j {
        assert(s[i].id < s[j].id);
    }
}

/// In a well-formed label store the label with a given id stands at one place only.
pub proof fn lemma_label_index_unique(s: Seq<LabelModel>, next_id: int, i: int)
    requires
        label_store_wf(s, next_id),
        0 <= i < s.len(),
    ensures
        has_label_id(s, s[i].id),
        label_index_of(s, s[i].id) == i,
{
    let id = s[i].id;
    assert(s[i].id == id);
    let j = label_index_of(s, id);
    if j < i {
        assert(s[j].id < s[i].id);
    } else if i < j {
        assert(s[i].id < s[j].id);
    }
}

} // verus!
