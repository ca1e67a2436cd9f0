//! The task store service: create, read, update, delete and list, with
//! owner-only mutation.
//!
//! The service owns the durable table and the identifier allocator.  Its
//! mathematical value is a [`StoreModel`]: the map from stored identifiers to
//! record models, and the next identifier to hand out.  Every operation's
//! contract is stated as a step over that model, and the laws at the end of
//! the module are proved from those steps alone.

use vstd::prelude::*;

use crate::codec::{decode_item, encode_checked, spec_decode};
use crate::record::{valid_model, valid_view, Messages, TodoItem, TodoItemView, TodoModel,
    TodoViewModel, MAX_FIELD_LEN};
use crate::storage::{counter_value, fresh_storage, open_storage, table_bytes, Counter, Table};

verus! {

/// The mathematical value of a [`TaskStore`].
pub ghost struct StoreModel {
    /// Every stored identifier, mapped to the record it holds.
    pub records: Map<u64, TodoModel>,
    /// The identifier the allocator hands out next.
    pub next_id: u64,
}

/// The task store: a durable table of encoded records and the persistent
/// identifier allocator.  The store is a process-wide singleton — its two
/// structures live on fixed partitions of the process's stable memory —
/// so a process builds exactly one, with [`TaskStore::open`] where it
/// continues from persisted state.
pub struct TaskStore {
    pub table: Table,
    pub counter: Counter,
}

impl View for TaskStore {
    type V = StoreModel;

    open spec fn view(&self) -> StoreModel {
        StoreModel {
            records: Map::new(
                |k: u64| table_bytes(self.table).dom().contains(k),
                |k: u64| spec_decode(table_bytes(self.table)[k])->0,
            ),
            next_id: counter_value(self.counter),
        }
    }
}

/// What holds of one stored table entry in a well-formed store: the bytes
/// are the encoding of a legal record that carries its own key as id, its
/// timestamps are ordered, and its key is below the allocator's counter.
pub open spec fn wf_entry(b: Seq<u8>, k: u64, ctr: u64) -> bool {
    &&& spec_decode(b) is Some
    &&& valid_model(spec_decode(b)->0)
    &&& (spec_decode(b)->0).id == k
    &&& (spec_decode(b)->0).created_at <= (spec_decode(b)->0).updated_at
    &&& k < ctr
}

impl TaskStore {
    /// The store's invariant, established by [`TaskStore::new`] and kept by
    /// every operation.
    pub open spec fn wf(&self) -> bool {
        forall|k: u64| #[trigger] table_bytes(self.table).dom().contains(k)
            ==> wf_entry(table_bytes(self.table)[k], k, counter_value(self.counter))
    }
}

/// The record a create call stamps: owner and id fixed for good, both
/// timestamps set to the creation time, the payload taken from the view.
pub open spec fn created_record(view: TodoViewModel, owner: Seq<u8>, id: u64, now: u64)
    -> TodoModel {
    TodoModel {
        owner,
        id,
        assignee: view.assignee,
        description: view.description,
        duration: view.duration,
        is_active: view.is_active,
        updated_at: now,
        created_at: now,
    }
}

/// The record an authorized update leaves behind: exactly the four payload
/// fields replaced, `updated_at` advanced to the call time but never moved
/// backwards, and owner, id and `created_at` untouched.
pub open spec fn updated_record(prev: TodoModel, view: TodoViewModel, now: u64) -> TodoModel {
    TodoModel {
        owner: prev.owner,
        id: prev.id,
        assignee: view.assignee,
        description: view.description,
        duration: view.duration,
        is_active: view.is_active,
        updated_at: if now >= prev.updated_at { now } else { prev.updated_at },
        created_at: prev.created_at,
    }
}

/// What a point lookup returns on a given store.
pub open spec fn spec_get(s: StoreModel, id: u64) -> Option<TodoModel> {
    if s.records.dom().contains(id) {
        Some(s.records[id])
    } else {
        None
    }
}

/// How a successful create call moves the store: the returned record is
/// stamped from the view, stored under the freshly allocated id, and the
/// allocator advances by one.
pub open spec fn create_step(
    pre: StoreModel,
    view: TodoViewModel,
    owner: Seq<u8>,
    now: u64,
    post: StoreModel,
    ret: TodoModel,
) -> bool {
    &&& ret == created_record(view, owner, pre.next_id, now)
    &&& post.records == pre.records.insert(pre.next_id, ret)
    &&& post.next_id == pre.next_id + 1
}

/// How an update call moves the store: `NoSuchItem` on an absent id,
/// `NotAuthorized` for a caller other than the owner — both leaving the
/// store untouched — and otherwise the stored record replaced as
/// [`updated_record`] says.
pub open spec fn update_step(
    pre: StoreModel,
    id: u64,
    view: TodoViewModel,
    caller: Seq<u8>,
    now: u64,
    post: StoreModel,
    r: Result<Messages, Messages>,
) -> bool {
    if !pre.records.dom().contains(id) {
        post == pre && r == Err::<Messages, Messages>(Messages::NoSuchItem)
    } else if pre.records[id].owner != caller {
        post == pre && r == Err::<Messages, Messages>(Messages::NotAuthorized)
    } else {
        &&& post.records == pre.records.insert(id, updated_record(pre.records[id], view, now))
        &&& post.next_id == pre.next_id
        &&& r == Ok::<Messages, Messages>(Messages::Success)
    }
}

/// How a delete call moves the store: `NoSuchItem` on an absent id,
/// `NotAuthorized` for a caller other than the owner — both leaving the
/// store untouched — and otherwise the record removed for good.
pub open spec fn delete_step(
    pre: StoreModel,
    id: u64,
    caller: Seq<u8>,
    post: StoreModel,
    r: Result<Messages, Messages>,
) -> bool {
    if !pre.records.dom().contains(id) {
        post == pre && r == Err::<Messages, Messages>(Messages::NoSuchItem)
    } else if pre.records[id].owner != caller {
        post == pre && r == Err::<Messages, Messages>(Messages::NotAuthorized)
    } else {
        &&& post.records == pre.records.remove(id)
        &&& post.next_id == pre.next_id
        &&& r == Ok::<Messages, Messages>(Messages::Success)
    }
}

/// Byte-for-byte equality of two byte strings; how the store compares
/// caller identities.
pub fn bytes_eq(a: &Vec<u8>, b: &Vec<u8>) -> (r: bool)
    ensures
        r == (a@ == b@),
{
    if a.len() != b.len() {
        return false;
    }
    let n: usize = a.len();
    let mut i: usize = 0;
    while i < n
        invariant
            i <= n,
            n == a@.len(),
            a@.len() == b@.len(),
            forall|j: int| 0 <= j < i ==> a@[j] == b@[j],
        decreases n - i,
    {
        if a[i] != b[i] {
            return false;
        }
        i = i + 1;
    }
    proof {
        assert(a@ =~= b@);
    }
    true
}

/// A fatal storage fault: a stored blob that is not the encoding of a
/// legal record, or a stored record at odds with the allocator.  Never a
/// user error, and never surfaced as a [`Messages`] outcome.
#[derive(PartialEq, Eq, Structural, Clone, Copy, Debug)]
pub enum StoreError {
    CorruptRecord,
}

impl TaskStore {
    /// Builds a fresh, empty store: no records, allocator at zero.  This
    /// discards whatever the backing partitions held; a process that means
    /// to continue from persisted state opens with [`TaskStore::open`].
    pub fn new() -> (s: TaskStore)
        ensures
            s.wf(),
            s@.next_id == 0,
            forall|k: u64| !(#[trigger] s@.records.dom().contains(k)),
    {
        let (table, counter) = fresh_storage();
        TaskStore { table, counter }
    }

    /// Opens the store from whatever the backing memory persisted and
    /// validates it.  The accept/reject decision is wholly
    /// [`TaskStore::validate`]'s, whose contract fixes the result for every
    /// value the load could have returned; this function only states what
    /// holds whatever came back.
    pub fn open() -> (r: Result<TaskStore, StoreError>)
        ensures
            match r {
                Ok(s) => s.wf(),
                Err(e) => e == StoreError::CorruptRecord,
            },
    {
        let (table, counter) = open_storage();
        TaskStore::validate(table, counter)
    }

    /// Checks every stored entry against the store's invariant: each blob
    /// must decode to a legal record carrying its own key as id, with
    /// ordered timestamps, below the allocator's high-water mark.  The
    /// store is handed out exactly when every entry is well-formed; it is
    /// corrupt — a storage or schema fault, not a user error — exactly when
    /// some entry is not, and no partial state is handed out.
    pub fn validate(table: Table, counter: Counter) -> (r: Result<TaskStore, StoreError>)
        ensures
            match r {
                Ok(s) => s.table == table && s.counter == counter && s.wf(),
                Err(e) => e == StoreError::CorruptRecord && exists|k: u64|
                    #[trigger] table_bytes(table).dom().contains(k)
                    && !wf_entry(table_bytes(table)[k], k, counter_value(counter)),
            },
    {
        let limit = counter.get();
        let entries = table.entries();
        let mut idx: usize = 0;
        while idx < entries.len()
            invariant
                idx <= entries@.len(),
                limit == counter_value(counter),
                forall|i: int|
                    0 <= i < entries@.len() ==> table_bytes(table).contains_pair(
                        (#[trigger] entries@[i]).0,
                        entries@[i].1@,
                    ),
                forall|k: u64|
                    #[trigger] table_bytes(table).dom().contains(k) ==> exists|i: int|
                        0 <= i < entries@.len() && (#[trigger] entries@[i]).0 == k,
                forall|j: int|
                    0 <= j < idx ==> wf_entry(
                        (#[trigger] entries@[j]).1@,
                        entries@[j].0,
                        limit,
                    ),
            decreases entries@.len() - idx,
        {
            let pair = &entries[idx];
            match decode_item(&pair.1) {
                None => {
                    proof {
                        assert(table_bytes(table).dom().contains(entries@[idx as int].0)
                            && !wf_entry(
                            table_bytes(table)[entries@[idx as int].0],
                            entries@[idx as int].0,
                            counter_value(counter),
                        ));
                    }
                    return Err(StoreError::CorruptRecord);
                }
                Some(item) => {
                    if item.id != pair.0 || item.created_at > item.updated_at
                        || pair.0 >= limit {
                        proof {
                            assert(table_bytes(table).dom().contains(entries@[idx as int].0)
                                && !wf_entry(
                                table_bytes(table)[entries@[idx as int].0],
                                entries@[idx as int].0,
                                counter_value(counter),
                            ));
                        }
                        return Err(StoreError::CorruptRecord);
                    }
                    proof {
                        crate::codec::lemma_decode_valid(entries@[idx as int].1@);
                    }
                }
            }
            idx = idx + 1;
        }
        proof {
            assert forall|k: u64| #[trigger] table_bytes(table).dom().contains(k)
                implies wf_entry(
                table_bytes(table)[k],
                k,
                counter_value(counter),
            ) by {
                let i = choose|i: int|
                    0 <= i < entries@.len() && (#[trigger] entries@[i]).0 == k;
                assert(table_bytes(table).contains_pair(entries@[i].0, entries@[i].1@));
            }
        }
        Ok(TaskStore { table, counter })
    }

    /// Reads the identifier the allocator will hand out next.
    pub fn current_id(&self) -> (r: u64)
        ensures
            r == self@.next_id,
    {
        self.counter.get()
    }

    /// Hands out the next unused identifier and durably advances the
    /// high-water mark.  The table is untouched.
    pub fn get_and_inc_current_id(&mut self) -> (id: u64)
        requires
            old(self)@.next_id < u64::MAX,
        ensures
            id == old(self)@.next_id,
            final(self)@.next_id == old(self)@.next_id + 1,
            final(self).table == old(self).table,
            final(self)@.records == old(self)@.records,
    {
        let id_tmp = self.counter.get();
        self.counter.set(id_tmp + 1);
        proof {
            assert(self@.records =~= old(self)@.records);
        }
        id_tmp
    }

    /// Point lookup.  No authorization: reads are public.
    pub fn get_todo(&self, key: u64) -> (r: Option<TodoItem>)
        requires
            self.wf(),
        ensures
            match r {
                Some(item) => spec_get(self@, key) == Some(item@),
                None => spec_get(self@, key) is None,
            },
    {
        match self.table.get(key) {
            None => None,
            Some(bytes) => match decode_item(&bytes) {
                Some(item) => Some(item),
                None => vstd::pervasive::unreached(),
            },
        }
    }

    /// Creates a record: allocates a fresh id, stamps owner and timestamps,
    /// persists the record.  The fresh id can never collide with a stored
    /// record, so the call always returns the created record; an absent
    /// result would mean the allocator and the table disagree, and nothing
    /// is overwritten in that case.
    #[verifier::rlimit(100)]
    pub fn insert_new_todo(&mut self, value: TodoItemView, caller: Vec<u8>, now: u64)
        -> (r: Option<TodoItem>)
        requires
            old(self).wf(),
            old(self)@.next_id < u64::MAX,
            caller@.len() <= MAX_FIELD_LEN,
            valid_view(value@),
        ensures
            final(self).wf(),
            r is Some,
            create_step(old(self)@, value@, caller@, now, final(self)@, (r->0)@),
            !old(self)@.records.dom().contains(old(self)@.next_id),
    {
        let ghost pre = *old(self);
        let id_tmp = self.get_and_inc_current_id();
        let new_todo = TodoItem {
            owner: caller,
            id: id_tmp,
            assignee: value.assignee,
            description: value.description,
            duration: value.duration,
            is_active: value.is_active,
            updated_at: now,
            created_at: now,
        };
        if self.table.contains_key(id_tmp) {
            return None;
        }
        match encode_checked(&new_todo) {
            None => vstd::pervasive::unreached(),
            Some(bytes) => {
                proof {
                    crate::codec::lemma_decode_encode(new_todo@);
                }
                let _prev = self.table.insert(id_tmp, bytes);
                proof {
                    assert(self@.records =~= pre@.records.insert(id_tmp, new_todo@));
                }
                Some(new_todo)
            }
        }
    }

    /// Updates a record's four payload fields and refreshes `updated_at`,
    /// for the record's owner only.  A rejected call leaves the stored
    /// record untouched.
    #[verifier::rlimit(100)]
    pub fn update_todo(&mut self, key: u64, value: TodoItemView, caller: Vec<u8>, now: u64)
        -> (r: Result<Messages, Messages>)
        requires
            old(self).wf(),
            valid_view(value@),
        ensures
            final(self).wf(),
            update_step(old(self)@, key, value@, caller@, now, final(self)@, r),
    {
        let ghost pre = *old(self);
        let found = match self.table.get(key) {
            None => None,
            Some(bytes) => match decode_item(&bytes) {
                Some(item) => Some(item),
                None => vstd::pervasive::unreached(),
            },
        };
        match found {
            None => Err(Messages::NoSuchItem),
            Some(prev) => {
                if !bytes_eq(&prev.owner, &caller) {
                    return Err(Messages::NotAuthorized);
                }
                let new_updated: u64 = if now >= prev.updated_at { now } else { prev.updated_at };
                let new_todo = TodoItem {
                    owner: prev.owner,
                    id: prev.id,
                    assignee: value.assignee,
                    description: value.description,
                    duration: value.duration,
                    is_active: value.is_active,
                    updated_at: new_updated,
                    created_at: prev.created_at,
                };
                match encode_checked(&new_todo) {
                    None => vstd::pervasive::unreached(),
                    Some(bytes) => {
                        proof {
                            crate::codec::lemma_decode_encode(new_todo@);
                        }
                        let _prev_bytes = self.table.insert(key, bytes);
                        proof {
                            assert(self@.records =~= pre@.records.insert(
                                key,
                                updated_record(pre@.records[key], value@, now),
                            ));
                        }
                        Ok(Messages::Success)
                    }
                }
            }
        }
    }

    /// Removes a record for good, for the record's owner only.  A rejected
    /// call leaves the stored record untouched; the id is never reassigned.
    pub fn delete_todo(&mut self, key: u64, caller: Vec<u8>) -> (r: Result<Messages, Messages>)
        requires
            old(self).wf(),
        ensures
            final(self).wf(),
            delete_step(old(self)@, key, caller@, final(self)@, r),
    {
        let ghost pre = *old(self);
        let found = match self.table.get(key) {
            None => None,
            Some(bytes) => match decode_item(&bytes) {
                Some(item) => Some(item),
                None => vstd::pervasive::unreached(),
            },
        };
        match found {
            None => Err(Messages::NoSuchItem),
            Some(ft) => {
                if !bytes_eq(&ft.owner, &caller) {
                    return Err(Messages::NotAuthorized);
                }
                let _removed = self.table.remove(key);
                proof {
                    assert(self@.records =~= pre@.records.remove(key));
                }
                Ok(Messages::Success)
            }
        }
    }

    /// Full scan: every stored record, in ascending id order, and nothing
    /// else.  Empty store, empty vector — never an absent result.
    pub fn get_todo_list_vector(&self) -> (r: Vec<TodoItem>)
        requires
            self.wf(),
        ensures
            forall|i: int, j: int|
                0 <= i < j < r@.len() ==> (#[trigger] r@[i])@.id < (#[trigger] r@[j])@.id,
            forall|i: int|
                0 <= i < r@.len() ==> spec_get(self@, (#[trigger] r@[i])@.id) == Some(r@[i]@),
            forall|k: u64|
                #[trigger] self@.records.dom().contains(k) ==> exists|i: int|
                    0 <= i < r@.len() && (#[trigger] r@[i])@.id == k,
    {
        let entries = self.table.entries();
        let mut vector: Vec<TodoItem> = Vec::new();
        let mut idx: usize = 0;
        while idx < entries.len()
            invariant
                self.wf(),
                idx <= entries@.len(),
                vector@.len() == idx,
                forall|i: int, j: int|
                    0 <= i < j < entries@.len()
                        ==> (#[trigger] entries@[i]).0 < (#[trigger] entries@[j]).0,
                forall|i: int|
                    0 <= i < entries@.len() ==> table_bytes(self.table).contains_pair(
                        (#[trigger] entries@[i]).0,
                        entries@[i].1@,
                    ),
                forall|j: int|
                    0 <= j < idx ==> (#[trigger] vector@[j])@.id == entries@[j].0
                        && spec_decode(entries@[j].1@) == Some(vector@[j]@),
            decreases entries@.len() - idx,
        {
            let pair = &entries[idx];
            match decode_item(&pair.1) {
                Some(item) => vector.push(item),
                None => {
                    proof {
                        assert(table_bytes(self.table).dom().contains(entries@[idx as int].0));
                    }
                    vstd::pervasive::unreached::<()>();
                }
            }
            idx = idx + 1;
        }
        proof {
            assert forall|k: u64| #[trigger] self@.records.dom().contains(k) implies exists|i: int|
                0 <= i < vector@.len() && (#[trigger] vector@[i])@.id == k by {
                assert(table_bytes(self.table).dom().contains(k));
                let i = choose|i: int| 0 <= i < entries@.len() && (#[trigger] entries@[i]).0 == k;
                assert(0 <= i < vector@.len() && vector@[i]@.id == k);
            }
        }
        vector
    }
}

/// A well-formed store never holds a record under the id the allocator will
/// hand out next: freshly created ids never repeat a stored one, even after
/// deletes, because deleted ids are below the counter too and are never
/// reassigned.
pub proof fn lemma_next_id_fresh(s: TaskStore)
    requires
        s.wf(),
    ensures
        !s@.records.dom().contains(s@.next_id),
{
}

/// No operation lowers the allocator's counter: a create advances it by one
/// and an update or delete leaves it alone, whatever the outcome.
pub proof fn lemma_next_id_never_decreases(
    pre: StoreModel,
    view: TodoViewModel,
    id: u64,
    caller: Seq<u8>,
    now: u64,
    post: StoreModel,
    ret: TodoModel,
    r: Result<Messages, Messages>,
)
    ensures
        create_step(pre, view, caller, now, post, ret) ==> post.next_id == pre.next_id + 1,
        update_step(pre, id, view, caller, now, post, r) ==> post.next_id == pre.next_id,
        delete_step(pre, id, caller, post, r) ==> post.next_id == pre.next_id,
{
}

/// Ids returned by two creates are strictly increasing, whatever mix of
/// operations runs in between: no operation lowers the allocator's counter.
pub proof fn lemma_create_ids_strictly_increase(
    s0: StoreModel,
    view0: TodoViewModel,
    owner0: Seq<u8>,
    now0: u64,
    s1: StoreModel,
    ret0: TodoModel,
    mid: StoreModel,
    view1: TodoViewModel,
    owner1: Seq<u8>,
    now1: u64,
    s2: StoreModel,
    ret1: TodoModel,
)
    requires
        create_step(s0, view0, owner0, now0, s1, ret0),
        mid.next_id >= s1.next_id,
        create_step(mid, view1, owner1, now1, s2, ret1),
    ensures
        ret1.id > ret0.id,
{
}

/// After a successful create, a get of the returned id finds a record whose
/// owner is the creator, whose two timestamps both equal the creation time,
/// and whose four payload fields are the view's.
pub proof fn lemma_create_then_get(
    pre: StoreModel,
    view: TodoViewModel,
    owner: Seq<u8>,
    now: u64,
    post: StoreModel,
    ret: TodoModel,
)
    requires
        create_step(pre, view, owner, now, post, ret),
    ensures
        spec_get(post, ret.id) == Some(ret),
        ret.owner == owner,
        ret.created_at == now && ret.updated_at == now,
        ret.assignee == view.assignee,
        ret.description == view.description,
        ret.duration == view.duration,
        ret.is_active == view.is_active,
{
    assert(post.records.dom().contains(pre.next_id));
}

/// An update by a caller other than the record's owner returns
/// `NotAuthorized` and leaves every lookup unchanged.
pub proof fn lemma_update_not_owner(
    pre: StoreModel,
    id: u64,
    view: TodoViewModel,
    caller: Seq<u8>,
    now: u64,
    post: StoreModel,
    r: Result<Messages, Messages>,
)
    requires
        update_step(pre, id, view, caller, now, post, r),
        pre.records.dom().contains(id),
        pre.records[id].owner != caller,
    ensures
        r == Err::<Messages, Messages>(Messages::NotAuthorized),
        post == pre,
        spec_get(post, id) == spec_get(pre, id),
{
}

/// An owner's update succeeds, replaces exactly the four payload fields,
/// never moves `updated_at` backwards — it becomes the call time whenever
/// the clock has not run backwards — and keeps id, owner and `created_at`;
/// every other record is untouched.
pub proof fn lemma_update_by_owner(
    pre: StoreModel,
    id: u64,
    view: TodoViewModel,
    caller: Seq<u8>,
    now: u64,
    post: StoreModel,
    r: Result<Messages, Messages>,
)
    requires
        update_step(pre, id, view, caller, now, post, r),
        pre.records.dom().contains(id),
        pre.records[id].owner == caller,
    ensures
        r == Ok::<Messages, Messages>(Messages::Success),
        spec_get(post, id) == Some(updated_record(pre.records[id], view, now)),
        post.records[id].assignee == view.assignee,
        post.records[id].description == view.description,
        post.records[id].duration == view.duration,
        post.records[id].is_active == view.is_active,
        post.records[id].updated_at >= pre.records[id].updated_at,
        now >= pre.records[id].updated_at ==> post.records[id].updated_at == now,
        post.records[id].id == pre.records[id].id,
        post.records[id].owner == pre.records[id].owner,
        post.records[id].created_at == pre.records[id].created_at,
        forall|k: u64| k != id ==> spec_get(post, k) == spec_get(pre, k),
{
    assert(post.records.dom().contains(id));
    assert forall|k: u64| k != id implies spec_get(post, k) == spec_get(pre, k) by {
        assert(post.records.dom().contains(k) == pre.records.dom().contains(k));
    }
}

/// After an owner's delete the id is gone: a get finds nothing, and a
/// further update or delete of the same id reports `NoSuchItem` and changes
/// nothing.
pub proof fn lemma_delete_then_gone(
    pre: StoreModel,
    id: u64,
    caller: Seq<u8>,
    post: StoreModel,
    r: Result<Messages, Messages>,
    view2: TodoViewModel,
    caller2: Seq<u8>,
    now2: u64,
    post2: StoreModel,
    r2: Result<Messages, Messages>,
    post3: StoreModel,
    r3: Result<Messages, Messages>,
)
    requires
        delete_step(pre, id, caller, post, r),
        pre.records.dom().contains(id),
        pre.records[id].owner == caller,
        update_step(post, id, view2, caller2, now2, post2, r2),
        delete_step(post, id, caller2, post3, r3),
    ensures
        r == Ok::<Messages, Messages>(Messages::Success),
        spec_get(post, id) is None,
        r2 == Err::<Messages, Messages>(Messages::NoSuchItem),
        post2 == post,
        r3 == Err::<Messages, Messages>(Messages::NoSuchItem),
        post3 == post,
{
    assert(!post.records.dom().contains(id));
}

/// A delete by a caller other than the record's owner returns
/// `NotAuthorized` and the record is still there, unchanged.
pub proof fn lemma_delete_not_owner(
    pre: StoreModel,
    id: u64,
    caller: Seq<u8>,
    post: StoreModel,
    r: Result<Messages, Messages>,
)
    requires
        delete_step(pre, id, caller, post, r),
        pre.records.dom().contains(id),
        pre.records[id].owner != caller,
    ensures
        r == Err::<Messages, Messages>(Messages::NotAuthorized),
        post == pre,
        spec_get(post, id) == spec_get(pre, id),
{
}

} // verus!
