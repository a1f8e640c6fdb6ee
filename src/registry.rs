use vstd::prelude::*;

use crate::pc::PythError;

verus! {

/// A named set of key strings, with the id it was given at creation.
#[derive(Clone)]
pub struct IndexAccount {
    pub index_id: u32,
    pub index_name: String,
    pub pub_keys: Vec<String>,
}

/// The registry of indices, with the counter that hands out their ids.
pub struct IndexStorageAccount {
    /// The last id handed out; ids start at one.
    pub id_counter: u32,
    pub indices: Vec<IndexAccount>,
}

/// Ids increase along the list and none exceeds the counter, so the next id
/// was never handed out.
pub open spec fn ids_wf(counter: u32, s: Seq<IndexAccount>) -> bool {
    &&& forall|i: int| 0 <= i < s.len() ==> #[trigger] s[i].index_id <= counter
    &&& forall|i: int, j: int| 0 <= i < j < s.len() ==> s[i].index_id < s[j].index_id
}

/// `i` is the first position of `s` whose entry has id `id`.
pub open spec fn first_with_id(s: Seq<IndexAccount>, id: u32, i: int) -> bool {
    &&& 0 <= i < s.len()
    &&& s[i].index_id == id
    &&& forall|j: int| 0 <= j < i ==> #[trigger] s[j].index_id != id
}

/// `i` is the first position of `s` whose entry is named `name`.
pub open spec fn first_with_name(s: Seq<IndexAccount>, name: Seq<char>, i: int) -> bool {
    &&& 0 <= i < s.len()
    &&& s[i].index_name@ == name
    &&& forall|j: int| 0 <= j < i ==> #[trigger] s[j].index_name@ != name
}

impl IndexStorageAccount {
    pub open spec fn wf(&self) -> bool {
        ids_wf(self.id_counter, self.indices@)
    }

    /// An empty registry whose first id will be one.
    pub fn new() -> (r: Self)
        ensures
            r.id_counter == 0,
            r.indices@.len() == 0,
            r.wf(),
    {
        IndexStorageAccount { id_counter: 0, indices: Vec::new() }
    }

    /// Position of the first entry with id `id`, if any.
    pub fn find_index(&self, id: u32) -> (r: Option<usize>)
        ensures
            match r {
                Some(i) => first_with_id(self.indices@, id, i as int),
                None => forall|j: int|
                    0 <= j < self.indices@.len() ==> #[trigger] self.indices@[j].index_id != id,
            },
    {
        let mut i: usize = 0;
        while i < self.indices.len()
            invariant
                i <= self.indices@.len(),
                forall|j: int| 0 <= j < i ==> #[trigger] self.indices@[j].index_id != id,
            decreases self.indices@.len() - i,
        {
            if self.indices[i].index_id == id {
                return Some(i);
            }
            i = i + 1;
        }
        None
    }

    /// Position of the first entry named `name`, if any.
    pub fn find_index_by_name(&self, name: &String) -> (r: Option<usize>)
        ensures
            match r {
                Some(i) => first_with_name(self.indices@, name@, i as int),
                None => forall|j: int|
                    0 <= j < self.indices@.len() ==> #[trigger] self.indices@[j].index_name@
                        != name@,
            },
    {
        let mut i: usize = 0;
        while i < self.indices.len()
            invariant
                i <= self.indices@.len(),
                forall|j: int| 0 <= j < i ==> #[trigger] self.indices@[j].index_name@ != name@,
            decreases self.indices@.len() - i,
        {
            if self.indices[i].index_name == *name {
                return Some(i);
            }
            i = i + 1;
        }
        None
    }
}

/// Resets the registry to its freshly allocated state: no entries, and ids
/// start again at one.
pub fn init_index_storage(storage: &mut IndexStorageAccount)
    ensures
        final(storage).id_counter == 0,
        final(storage).indices@.len() == 0,
        final(storage).wf(),
{
    storage.id_counter = 0;
    storage.indices = Vec::new();
}

/// Appends an entry with a fresh id, one more than the last id handed out,
/// and returns that id.
pub fn create_index(
    storage: &mut IndexStorageAccount,
    f_index_name: String,
    f_pub_keys: Vec<String>,
) -> (r: u32)
    requires
        old(storage).id_counter < u32::MAX,
    ensures
        r == old(storage).id_counter + 1,
        final(storage).id_counter == r,
        final(storage).indices@ == old(storage).indices@.push(
            (IndexAccount { index_id: r, index_name: f_index_name, pub_keys: f_pub_keys }),
        ),
        old(storage).wf() ==> final(storage).wf(),
{
    storage.id_counter = storage.id_counter + 1;
    let id = storage.id_counter;
    let new_index = IndexAccount { index_id: id, index_name: f_index_name, pub_keys: f_pub_keys };
    storage.indices.push(new_index);
    id
}

/// Removes the first entry with id `f_id_to_delete`; `NotFound` when there is
/// none, and then nothing changes.
pub fn delete_index(storage: &mut IndexStorageAccount, f_id_to_delete: u32) -> (r: Result<
    (),
    PythError,
>)
    ensures
        final(storage).id_counter == old(storage).id_counter,
        match r {
            Ok(_) => exists|i: int|
                first_with_id(old(storage).indices@, f_id_to_delete, i)
                    && final(storage).indices@ == old(storage).indices@.remove(i),
            Err(e) => e == PythError::NotFound && final(storage).indices@
                == old(storage).indices@ && forall|j: int|
                0 <= j < old(storage).indices@.len() ==> #[trigger] old(
                    storage,
                ).indices@[j].index_id != f_id_to_delete,
        },
        old(storage).wf() ==> final(storage).wf(),
{
    match storage.find_index(f_id_to_delete) {
        Some(pos) => {
            storage.indices.remove(pos);
            proof {
                lemma_remove_keeps_wf(old(storage).id_counter, old(storage).indices@, pos as int);
            }
            Ok(())
        },
        None => Err(PythError::NotFound),
    }
}

/// Removes the first entry named `f_index_name`; `NotFound` when there is
/// none, and then nothing changes.
pub fn delete_index_by_name(storage: &mut IndexStorageAccount, f_index_name: &String) -> (r: Result<
    (),
    PythError,
>)
    ensures
        final(storage).id_counter == old(storage).id_counter,
        match r {
            Ok(_) => exists|i: int|
                first_with_name(old(storage).indices@, f_index_name@, i)
                    && final(storage).indices@ == old(storage).indices@.remove(i),
            Err(e) => e == PythError::NotFound && final(storage).indices@
                == old(storage).indices@ && forall|j: int|
                0 <= j < old(storage).indices@.len() ==> #[trigger] old(
                    storage,
                ).indices@[j].index_name@ != f_index_name@,
        },
        old(storage).wf() ==> final(storage).wf(),
{
    match storage.find_index_by_name(f_index_name) {
        Some(pos) => {
            storage.indices.remove(pos);
            proof {
                lemma_remove_keeps_wf(old(storage).id_counter, old(storage).indices@, pos as int);
            }
            Ok(())
        },
        None => Err(PythError::NotFound),
    }
}

proof fn lemma_remove_keeps_wf(counter: u32, s: Seq<IndexAccount>, i: int)
    requires
        0 <= i < s.len(),
    ensures
        ids_wf(counter, s) ==> ids_wf(counter, s.remove(i)),
{
    let t = s.remove(i);
    assert forall|a: int| 0 <= a < t.len() implies t[a] == (if a < i {
        s[a]
    } else {
        s[a + 1]
    }) by {}
}

/// In a well-formed registry every id present is below the next one handed
/// out, so a new entry never takes an id that was used before.
pub proof fn lemma_next_id_fresh(storage: IndexStorageAccount)
    requires
        storage.wf(),
    ensures
        forall|i: int|
            0 <= i < storage.indices@.len() ==> #[trigger] storage.indices@[i].index_id
                < storage.id_counter + 1,
{
}

/// In a well-formed registry, removing the entry with a given id leaves no
/// entry with that id and keeps every entry with another id.
pub proof fn lemma_delete_only_that_id(storage: IndexStorageAccount, id: u32, i: int)
    requires
        storage.wf(),
        first_with_id(storage.indices@, id, i),
    ensures
        forall|j: int|
            0 <= j < storage.indices@.remove(i).len() ==> #[trigger] storage.indices@.remove(
                i,
            )[j].index_id != id,
        forall|j: int|
            0 <= j < storage.indices@.len() && storage.indices@[j].index_id != id
                ==> storage.indices@.remove(i).contains(#[trigger] storage.indices@[j]),
{
    let s = storage.indices@;
    let t = s.remove(i);
    assert forall|a: int| 0 <= a < t.len() implies t[a] == (if a < i {
        s[a]
    } else {
        s[a + 1]
    }) by {}
    assert forall|j: int| 0 <= j < s.len() && s[j].index_id != id implies t.contains(
        #[trigger] s[j],
    ) by {
        if j < i {
            assert(t[j] == s[j]);
        } else {
            assert(j != i);
            assert(t[j - 1] == s[j]);
        }
    }
}

} // verus!
