//! The repository interface for labels and its in-memory backend.
use vstd::prelude::*;
use crate::entities::{CreateLabel, Label, LabelModel};
use crate::error::RepositoryError;
use crate::store::{has_label_id, label_index_of, label_store_wf, lemma_label_index_unique};

verus! {

/// Create, list and delete over labels, whatever holds them.
pub trait LabelRepository {
    spec fn labels(&self) -> Seq<LabelModel>;

    spec fn next_id(&self) -> int;

    /// Whether an id is left to issue, so that `create` may be called.
    fn can_create(&self) -> (r: bool)
        ensures
            r == (self.next_id() < i32::MAX),
    ;

    /// Stores a new label under the next id and returns it; never fails.
    fn create(&mut self, payload: CreateLabel) -> (r: Label)
        requires
            label_store_wf(old(self).labels(), old(self).next_id()),
            old(self).next_id() < i32::MAX,
        ensures
            r@ == (LabelModel { id: old(self).next_id() as i32, name: payload.name@ }),
            final(self).labels() == old(self).labels().push(r@),
            final(self).next_id() == old(self).next_id() + 1,
            label_store_wf(final(self).labels(), final(self).next_id()),
    ;

    /// Every stored label, in order of creation.
    fn all(&self) -> (r: Vec<Label>)
        requires
            label_store_wf(self.labels(), self.next_id()),
        ensures
            r@.map_values(|l: Label| l@) == self.labels(),
    ;

    /// Removes the label with this id.
    fn delete(&mut self, id: i32) -> (r: Result<(), RepositoryError>)
        requires
            label_store_wf(old(self).labels(), old(self).next_id()),
        ensures
            final(self).next_id() == old(self).next_id(),
            label_store_wf(final(self).labels(), final(self).next_id()),
            has_label_id(old(self).labels(), id) <==> r is Ok,
            r is Ok ==> final(self).labels() == old(self).labels().remove(
                label_index_of(old(self).labels(), id),
            ),
            r matches Err(e) ==> {
                &&& e == RepositoryError::NotFound(id)
                &&& final(self).labels() == old(self).labels()
            },
    ;
}

/// Labels held in memory, in order of creation, which is also order of id.
pub struct LabelRepositoryForMemory {
    store: Vec<Label>,
    next_id: i32,
}

impl LabelRepositoryForMemory {
    pub fn new() -> (r: LabelRepositoryForMemory)
        ensures
            r.labels() == Seq::<LabelModel>::empty(),
            r.next_id() == 1,
            label_store_wf(r.labels(), r.next_id()),
    {
        LabelRepositoryForMemory { store: Vec::new(), next_id: 1 }
    }
}

impl LabelRepository for LabelRepositoryForMemory {
    closed spec fn labels(&self) -> Seq<LabelModel> {
        self.store@.map_values(|l: Label| l@)
    }

    closed spec fn next_id(&self) -> int {
        self.next_id as int
    }

    fn can_create(&self) -> (r: bool) {
        self.next_id < i32::MAX
    }

    fn create(&mut self, payload: CreateLabel) -> (r: Label) {
        let label = Label::new(self.next_id, payload.name);
        let r = label.copied();
        self.store.push(label);
        self.next_id = self.next_id + 1;
        proof {
            assert(self.labels() =~= old(self).labels().push(r@));
        }
        r
    }

    fn all(&self) -> (r: Vec<Label>) {
        let mut r: Vec<Label> = Vec::new();
        let mut i: usize = 0;
        while i < self.store.len()
            invariant
                i <= self.store@.len(),
                r@.len() == i,
                forall|k: int| 0 <= k < i ==> (#[trigger] r@[k])@ == self.store@[k]@,
            decreases self.store@.len() - i,
        {
            r.push(self.store[i].copied());
            i = i + 1;
        }
        assert(r@.map_values(|l: Label| l@) =~= self.labels());
        r
    }

    fn delete(&mut self, id: i32) -> (r: Result<(), RepositoryError>) {
        let ghost s = self.labels();
        let mut i: usize = 0;
        while i < self.store.len()
            invariant
                s == self.labels(),
                self.store@ == old(self).store@,
                self.next_id == old(self).next_id,
                label_store_wf(s, self.next_id()),
                i <= self.store@.len(),
                forall|k: int| 0 <= k < i ==> #[trigger] s[k].id != id,
            decreases self.store@.len() - i,
        {
            if self.store[i].id == id {
                proof {
                    lemma_label_index_unique(s, self.next_id(), i as int);
                }
                self.store.remove(i);
                proof {
                    assert(self.labels() =~= s.remove(i as int));
                }
                return Ok(());
            }
            i = i + 1;
        }
        Err(RepositoryError::NotFound(id))
    }
}

} // verus!
