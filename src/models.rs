use vstd::prelude::*;

verus! {

/// One todo record: an identifier assigned by the store, free-form text and
/// a completion flag.
#[derive(Clone, Debug, PartialEq, Eq)]
pub struct Todo {
    pub id: u64,
    pub content: String,
    pub completed: bool,
}

impl Todo {
    /// A field-by-field copy of this record.
    pub fn duplicate(&self) -> (r: Todo)
        ensures
            r == *self,
    {
        Todo { id: self.id, content: self.content.clone(), completed: self.completed }
    }
}

/// The body of a create request. `content` is `None` when the request did
/// not carry the field.
#[derive(Clone, Debug)]
pub struct CreateTodo {
    pub content: Option<String>,
}

/// The body of an update request. `completed` is `None` when the request
/// left the flag out, in which case the stored flag is kept.
#[derive(Clone, Debug)]
pub struct UpdateTodo {
    pub content: String,
    pub completed: Option<bool>,
}

} // verus!
