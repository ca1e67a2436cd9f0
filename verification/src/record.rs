//! The task record, its mutable-field view, and the service's outcome type.

use vstd::prelude::*;

verus! {

/// Largest number of bytes each free-text field (owner identity, assignee,
/// description) may hold.  Chosen so that every legal record's encoding stays
/// under [`crate::codec::MAX_VALUE_SIZE`].
pub const MAX_FIELD_LEN: usize = 140;

/// A durable task record.
///
/// `owner` is the opaque identity of the creator, compared only for equality;
/// it and `id` and `created_at` are set once at creation and never change.
/// The four payload fields (`assignee`, `description`, `duration`,
/// `is_active`) are replaced on every successful update, which also refreshes
/// `updated_at`.  Free-text fields are carried as raw bytes: the store never
/// looks inside them.
pub struct TodoItem {
    pub owner: Vec<u8>,
    pub id: u64,
    pub assignee: Vec<u8>,
    pub description: Vec<u8>,
    pub duration: u64,
    pub is_active: bool,
    pub updated_at: u64,
    pub created_at: u64,
}

/// The mathematical value of a [`TodoItem`].
pub ghost struct TodoModel {
    pub owner: Seq<u8>,
    pub id: u64,
    pub assignee: Seq<u8>,
    pub description: Seq<u8>,
    pub duration: u64,
    pub is_active: bool,
    pub updated_at: u64,
    pub created_at: u64,
}

impl View for TodoItem {
    type V = TodoModel;

    open spec fn view(&self) -> TodoModel {
        TodoModel {
            owner: self.owner@,
            id: self.id,
            assignee: self.assignee@,
            description: self.description@,
            duration: self.duration,
            is_active: self.is_active,
            updated_at: self.updated_at,
            created_at: self.created_at,
        }
    }
}

/// The mutable-field subset of a record: the payload a caller hands to
/// create and update.  Identity and timestamp fields are system-assigned and
/// have no place here.
pub struct TodoItemView {
    pub assignee: Vec<u8>,
    pub description: Vec<u8>,
    pub duration: u64,
    pub is_active: bool,
}

/// The mathematical value of a [`TodoItemView`].
pub ghost struct TodoViewModel {
    pub assignee: Seq<u8>,
    pub description: Seq<u8>,
    pub duration: u64,
    pub is_active: bool,
}

impl View for TodoItemView {
    type V = TodoViewModel;

    open spec fn view(&self) -> TodoViewModel {
        TodoViewModel {
            assignee: self.assignee@,
            description: self.description@,
            duration: self.duration,
            is_active: self.is_active,
        }
    }
}

/// A record model is encodable when its free-text fields respect the caps.
pub open spec fn valid_model(m: TodoModel) -> bool {
    &&& m.owner.len() <= MAX_FIELD_LEN
    &&& m.assignee.len() <= MAX_FIELD_LEN
    &&& m.description.len() <= MAX_FIELD_LEN
}

/// A view is acceptable as input when its free-text fields respect the caps.
pub open spec fn valid_view(v: TodoViewModel) -> bool {
    &&& v.assignee.len() <= MAX_FIELD_LEN
    &&& v.description.len() <= MAX_FIELD_LEN
}

/// The typed outcome of a mutating call.
#[derive(PartialEq, Eq, Structural, Clone, Copy, Debug)]
pub enum Messages {
    Success,
    NotAuthorized,
    NoSuchItem,
}

} // verus!
