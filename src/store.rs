use vstd::prelude::*;

use crate::models::Todo;

verus! {

/// Why a store operation did not take place.
#[derive(Clone, Copy, Debug, PartialEq, Eq, Structural)]
pub enum StoreError {
    /// No record carries the requested identifier.
    NotFound,
    /// The largest identifier in use is already `u64::MAX`, so no new one
    /// can be assigned.
    IdsExhausted,
}

/// Whether some record of `s` carries identifier `id`.
pub open spec fn has_id(s: Seq<Todo>, id: u64) -> bool {
    exists|i: int| 0 <= i < s.len() && s[i].id == id
}

/// No two records of `s` share an identifier.
pub open spec fn ids_unique(s: Seq<Todo>) -> bool {
    forall|i: int, j: int|
        0 <= i < s.len() && 0 <= j < s.len() && i != j ==> s[i].id != s[j].id
}

/// The position of the record carrying `id` (meaningful when `has_id(s, id)`).
pub open spec fn index_of(s: Seq<Todo>, id: u64) -> int {
    choose|i: int| 0 <= i < s.len() && s[i].id == id
}

/// The record carrying `id`, if any.
pub open spec fn lookup(s: Seq<Todo>, id: u64) -> Option<Todo> {
    if has_id(s, id) {
        Some(s[index_of(s, id)])
    } else {
        None
    }
}

/// The largest identifier in `s`, or 0 when `s` is empty.
pub open spec fn max_id(s: Seq<Todo>) -> nat
    decreases s.len(),
{
    if s.len() == 0 {
        0
    } else {
        let m = max_id(s.drop_last());
        if s.last().id > m {
            s.last().id as nat
        } else {
            m
        }
    }
}

/// Whether a new identifier can still be assigned after the records of `s`.
pub open spec fn can_assign(s: Seq<Todo>) -> bool {
    max_id(s) < u64::MAX
}

/// The record that creating `content` adds to `s`: one past the largest
/// identifier in use (so 1 for an empty store), not yet completed.
pub open spec fn new_record(s: Seq<Todo>, content: String) -> Todo {
    Todo { id: (max_id(s) + 1) as u64, content, completed: false }
}

/// The records after creating `content` in `s`.
pub open spec fn after_create(s: Seq<Todo>, content: String) -> Seq<Todo> {
    if can_assign(s) {
        s.push(new_record(s, content))
    } else {
        s
    }
}

/// `t` with its content replaced and its flag replaced only when one is given.
pub open spec fn revised(t: Todo, content: String, completed: Option<bool>) -> Todo {
    Todo {
        id: t.id,
        content,
        completed: match completed {
            Some(b) => b,
            None => t.completed,
        },
    }
}

/// The records after updating the one that carries `id`.
pub open spec fn after_update(s: Seq<Todo>, id: u64, content: String, completed: Option<bool>) -> Seq<
    Todo,
> {
    if has_id(s, id) {
        s.update(index_of(s, id), revised(s[index_of(s, id)], content, completed))
    } else {
        s
    }
}

/// The records after removing the one that carries `id`.
pub open spec fn after_delete(s: Seq<Todo>, id: u64) -> Seq<Todo> {
    if has_id(s, id) {
        s.remove(index_of(s, id))
    } else {
        s
    }
}

/// The records after creating each of `contents` in turn, starting from `s`.
pub open spec fn after_creates(s: Seq<Todo>, contents: Seq<String>) -> Seq<Todo>
    decreases contents.len(),
{
    if contents.len() == 0 {
        s
    } else {
        after_create(after_creates(s, contents.drop_last()), contents.last())
    }
}

/// Every identifier in `s` is at most `max_id(s)`.
pub proof fn lemma_max_id_bounds(s: Seq<Todo>)
    ensures
        forall|i: int| 0 <= i < s.len() ==> s[i].id <= max_id(s),
    decreases s.len(),
{
    if s.len() > 0 {
        lemma_max_id_bounds(s.drop_last());
        assert forall|i: int| 0 <= i < s.len() implies s[i].id <= max_id(s) by {
            if i < s.len() - 1 {
                assert(s.drop_last()[i] == s[i]);
            }
        }
    }
}

/// Creating a record keeps identifiers unique, and the new identifier is
/// larger than every identifier already present.
pub proof fn lemma_create_keeps_unique(s: Seq<Todo>, content: String)
    requires
        ids_unique(s),
        can_assign(s),
    ensures
        ids_unique(after_create(s, content)),
        forall|i: int| 0 <= i < s.len() ==> s[i].id < new_record(s, content).id,
{
    lemma_max_id_bounds(s);
}

/// The authoritative collection of todo records.
///
/// Its model is the sequence of records in the order they were created;
/// identifiers are unique within it.
pub struct TodoStore {
    todos: Vec<Todo>,
}

impl View for TodoStore {
    type V = Seq<Todo>;

    closed spec fn view(&self) -> Seq<Todo> {
        self.todos@
    }
}

impl TodoStore {
    /// The store's invariant: identifiers are unique.
    pub open spec fn wf(&self) -> bool {
        ids_unique(self@)
    }

    /// An empty store.
    pub fn new() -> (r: TodoStore)
        ensures
            r@ == Seq::<Todo>::empty(),
            r.wf(),
    {
        TodoStore { todos: Vec::new() }
    }

    /// The number of records held.
    pub fn len(&self) -> (r: usize)
        ensures
            r == self@.len(),
    {
        self.todos.len()
    }

    /// A copy of every record, in creation order.
    pub fn list(&self) -> (r: Vec<Todo>)
        ensures
            r@ == self@,
    {
        let mut out: Vec<Todo> = Vec::new();
        let mut i: usize = 0;
        while i < self.todos.len()
            invariant
                i <= self@.len(),
                out@ == self@.take(i as int),
            decreases self@.len() - i,
        {
            out.push(self.todos[i].duplicate());
            i = i + 1;
            assert(out@ =~= self@.take(i as int));
        }
        assert(self@.take(self@.len() as int) =~= self@);
        out
    }

    /// The record carrying `id`, or `NotFound`.
    pub fn get(&self, id: u64) -> (r: Result<Todo, StoreError>)
        requires
            self.wf(),
        ensures
            match lookup(self@, id) {
                Some(t) => r == Ok::<Todo, StoreError>(t),
                None => r == Err::<Todo, StoreError>(StoreError::NotFound),
            },
    {
        match self.find(id) {
            Some(i) => Ok(self.todos[i].duplicate()),
            None => Err(StoreError::NotFound),
        }
    }

    /// Adds a record for `content` with the next identifier (one past the
    /// largest in use, 1 when empty) and `completed` false, and returns it.
    /// Fails with `IdsExhausted`, leaving the store as it was, only when the
    /// largest identifier in use is `u64::MAX`.
    pub fn create(&mut self, content: String) -> (r: Result<Todo, StoreError>)
        requires
            old(self).wf(),
        ensures
            final(self).wf(),
            final(self)@ == after_create(old(self)@, content),
            can_assign(old(self)@) ==> r == Ok::<Todo, StoreError>(new_record(old(self)@, content)),
            !can_assign(old(self)@) ==> r == Err::<Todo, StoreError>(StoreError::IdsExhausted),
    {
        let m = self.largest_id();
        if m == u64::MAX {
            return Err(StoreError::IdsExhausted);
        }
        proof {
            lemma_create_keeps_unique(self@, content);
        }
        let todo = Todo { id: m + 1, content, completed: false };
        self.todos.push(todo.duplicate());
        Ok(todo)
    }

    /// Replaces the content of the record carrying `id`, and its flag when
    /// `completed` is given, and returns the updated record; `NotFound`,
    /// with the store unchanged, when no record carries `id`.
    pub fn update(&mut self, id: u64, content: String, completed: Option<bool>) -> (r: Result<
        Todo,
        StoreError,
    >)
        requires
            old(self).wf(),
        ensures
            final(self).wf(),
            final(self)@ == after_update(old(self)@, id, content, completed),
            match lookup(old(self)@, id) {
                Some(t) => r == Ok::<Todo, StoreError>(revised(t, content, completed)),
                None => r == Err::<Todo, StoreError>(StoreError::NotFound),
            },
    {
        match self.find(id) {
            Some(i) => {
                let flag = match completed {
                    Some(b) => b,
                    None => self.todos[i].completed,
                };
                let todo = Todo { id, content, completed: flag };
                self.todos.set(i, todo.duplicate());
                Ok(todo)
            },
            None => Err(StoreError::NotFound),
        }
    }

    /// Removes the record carrying `id`; `NotFound`, with the store
    /// unchanged, when there is none.
    pub fn delete(&mut self, id: u64) -> (r: Result<(), StoreError>)
        requires
            old(self).wf(),
        ensures
            final(self).wf(),
            final(self)@ == after_delete(old(self)@, id),
            has_id(old(self)@, id) ==> r == Ok::<(), StoreError>(()),
            !has_id(old(self)@, id) ==> r == Err::<(), StoreError>(StoreError::NotFound),
    {
        match self.find(id) {
            Some(i) => {
                self.todos.remove(i);
                Ok(())
            },
            None => Err(StoreError::NotFound),
        }
    }

    /// The position of the record carrying `id`, if any.
    fn find(&self, id: u64) -> (r: Option<usize>)
        requires
            self.wf(),
        ensures
            r is None <==> !has_id(self@, id),
            r matches Some(i) ==> i < self@.len() && index_of(self@, id) == i && self@[i as int].id
                == id,
    {
        let mut i: usize = 0;
        while i < self.todos.len()
            invariant
                self.wf(),
                i <= self@.len(),
                forall|k: int| 0 <= k < i ==> self@[k].id != id,
            decreases self@.len() - i,
        {
            if self.todos[i].id == id {
                proof {
                    assert(has_id(self@, id));
                    let j = index_of(self@, id);
                    assert(0 <= j < self@.len() && self@[j].id == id);
                    assert(self@[i as int].id == id);
                    assert(j == i as int);
                }
                return Some(i);
            }
            i = i + 1;
        }
        None
    }

    /// The largest identifier in use, or 0 when the store is empty.
    fn largest_id(&self) -> (r: u64)
        ensures
            r == max_id(self@),
    {
        let mut m: u64 = 0;
        let mut i: usize = 0;
        while i < self.todos.len()
            invariant
                i <= self@.len(),
                m == max_id(self@.take(i as int)),
            decreases self@.len() - i,
        {
            assert(self@.take(i + 1).drop_last() =~= self@.take(i as int));
            if self.todos[i].id > m {
                m = self.todos[i].id;
            }
            i = i + 1;
        }
        assert(self@.take(self@.len() as int) =~= self@);
        m
    }
}

} // verus!
