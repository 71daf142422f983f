//! Properties of the repository contract that hold across several calls.
use vstd::prelude::*;
use crate::entities::{applied, fresh_todo, TodoModel, UpdateTodo};
use crate::store::{has_id, index_of, lemma_index_unique, lookup, store_wf};

verus! {

/// The todos a store holds after one `create` per text, starting empty:
/// the store's contract makes each step push a fresh todo under the next id.
pub open spec fn created_from_empty(texts: Seq<Seq<char>>) -> Seq<TodoModel>
    decreases texts.len(),
{
    if texts.len() == 0 {
        Seq::empty()
    } else {
        created_from_empty(texts.drop_last()).push(
            fresh_todo(texts.len() as i32, texts.last()),
        )
    }
}

/// In a well-formed store no two todos share an id; since every `create`
/// runs with exclusive access to the store, this holds however creates
/// from many tasks interleave.
pub proof fn lemma_ids_unique(s: Seq<TodoModel>, next_id: int)
    requires
        store_wf(s, next_id),
    ensures
        forall|i: int, j: int| 0 <= i < s.len() && 0 <= j < s.len() && i != j ==> #[trigger] s[i].id
            != #[trigger] s[j].id,
{
    assert forall|i: int, j: int| 0 <= i < s.len() && 0 <= j < s.len() && i != j implies #[trigger] s[i].id
        != #[trigger] s[j].id by {
        if i < j {
            assert(s[i].id < s[j].id);
        } else {
            assert(s[j].id < s[i].id);
        }
    }
}

/// A created todo is not completed, and its id is held by no stored todo;
/// the store stays well formed with it added.
pub proof fn lemma_create_fresh(s: Seq<TodoModel>, next_id: int, text: Seq<char>)
    requires
        store_wf(s, next_id),
        next_id < i32::MAX,
    ensures
        !fresh_todo(next_id as i32, text).completed,
        !has_id(s, next_id as i32),
        store_wf(s.push(fresh_todo(next_id as i32, text)), next_id + 1),
{
    let t = fresh_todo(next_id as i32, text);
    let s2 = s.push(t);
    if has_id(s, next_id as i32) {
        let i = choose|i: int| 0 <= i < s.len() && #[trigger] s[i].id == next_id as i32;
        assert(s[i].id < next_id);
    }
    assert forall|i: int, j: int| 0 <= i < j < s2.len() implies #[trigger] s2[i].id
        < #[trigger] s2[j].id by {
        if j == s.len() {
            assert(s[i].id < next_id);
        } else {
            assert(s[i].id < s[j].id);
        }
    }
    assert forall|i: int| 0 <= i < s2.len() implies 1 <= #[trigger] s2[i].id < next_id + 1 by {
        if i < s.len() {
            assert(s[i] == s2[i]);
        }
    }
}

/// Looking up the id that `create` returned finds the todo it returned.
pub proof fn lemma_find_after_create(s: Seq<TodoModel>, next_id: int, text: Seq<char>)
    requires
        store_wf(s, next_id),
        next_id < i32::MAX,
    ensures
        lookup(s.push(fresh_todo(next_id as i32, text)), next_id as i32) == Some(
            fresh_todo(next_id as i32, text),
        ),
{
    let s2 = s.push(fresh_todo(next_id as i32, text));
    lemma_create_fresh(s, next_id, text);
    lemma_index_unique(s2, next_id + 1, s.len() as int);
}

/// An id that was never issued is found nowhere.
pub proof fn lemma_find_never_issued(s: Seq<TodoModel>, next_id: int, id: i32)
    requires
        store_wf(s, next_id),
        id < 1 || id >= next_id,
    ensures
        lookup(s, id) is None,
{
    if has_id(s, id) {
        let i = choose|i: int| 0 <= i < s.len() && #[trigger] s[i].id == id;
        assert(1 <= s[i].id < next_id);
    }
}

/// An update that carries only a text changes the text of that todo alone:
/// its id and completion stay, and every other todo stays as it was.
pub proof fn lemma_update_text_only(s: Seq<TodoModel>, next_id: int, id: i32, text: String)
    requires
        store_wf(s, next_id),
        has_id(s, id),
    ensures
        ({
            let old_todo = lookup(s, id).unwrap();
            let new_todo = applied(old_todo, UpdateTodo { text: Some(text), completed: None });
            let s2 = s.update(index_of(s, id), new_todo);
            &&& new_todo.id == id
            &&& new_todo.text == text@
            &&& new_todo.completed == old_todo.completed
            &&& lookup(s2, id) == Some(new_todo)
            &&& forall|i: int| 0 <= i < s.len() && i != index_of(s, id) ==> #[trigger] s2[i] == s[i]
            &&& store_wf(s2, next_id)
        }),
{
    let k = index_of(s, id);
    let new_todo = applied(s[k], UpdateTodo { text: Some(text), completed: None });
    let s2 = s.update(k, new_todo);
    assert(store_wf(s2, next_id)) by {
        assert forall|i: int, j: int| 0 <= i < j < s2.len() implies #[trigger] s2[i].id
            < #[trigger] s2[j].id by {
            assert(s[i].id < s[j].id);
        }
        assert forall|i: int| 0 <= i < s2.len() implies 1 <= #[trigger] s2[i].id < next_id by {
            assert(1 <= s[i].id < next_id);
        }
    }
    lemma_index_unique(s2, next_id, k);
}

/// After the todo with an id is removed, that id is found nowhere.
pub proof fn lemma_find_after_delete(s: Seq<TodoModel>, next_id: int, id: i32)
    requires
        store_wf(s, next_id),
        has_id(s, id),
    ensures
        lookup(s.remove(index_of(s, id)), id) is None,
{
    let k = index_of(s, id);
    let s2 = s.remove(k);
    lemma_ids_unique(s, next_id);
    if has_id(s2, id) {
        let i = choose|i: int| 0 <= i < s2.len() && #[trigger] s2[i].id == id;
        if i < k {
            assert(s[i].id == id);
        } else {
            assert(s[i + 1].id == id);
        }
    }
}

/// After `n` creates on an empty store, the store holds exactly `n` todos
/// and each id from 1 to `n` stands at exactly one place.
pub proof fn lemma_all_after_creates(texts: Seq<Seq<char>>)
    requires
        texts.len() < i32::MAX,
    ensures
        store_wf(created_from_empty(texts), texts.len() as int + 1),
        created_from_empty(texts).len() == texts.len(),
        forall|i: int| 0 <= i < texts.len() ==> (#[trigger] created_from_empty(texts)[i]).id == i + 1,
        forall|id: i32| 1 <= id <= texts.len() ==> has_id(#[trigger] created_from_empty(texts), id)
            && created_from_empty(texts)[index_of(created_from_empty(texts), id)].id == id,
    decreases texts.len(),
{
    let s = created_from_empty(texts);
    if texts.len() > 0 {
        let prev = texts.drop_last();
        lemma_all_after_creates(prev);
        lemma_create_fresh(created_from_empty(prev), texts.len() as int, texts.last());
        assert forall|i: int| 0 <= i < texts.len() implies (#[trigger] s[i]).id == i + 1 by {
            if i < prev.len() {
                assert(s[i] == created_from_empty(prev)[i]);
            }
        }
    }
    assert forall|id: i32| 1 <= id <= texts.len() implies has_id(#[trigger] created_from_empty(texts), id)
        && s[index_of(s, id)].id == id by {
        let k = (id - 1) as int;
        assert(s[k].id == id);
    }
}

} // verus!
