use vstd::prelude::*;

use crate::models::Todo;
use crate::store::{
    after_create, after_creates, after_delete, after_update, can_assign, has_id, ids_unique,
    index_of, lemma_create_keeps_unique, lemma_max_id_bounds, lookup, max_id, new_record,
};

verus! {

/// In a sequence with unique identifiers, looking up the identifier of the
/// record at position `i` finds that record.
pub proof fn lemma_lookup_at(s: Seq<Todo>, i: int)
    requires
        ids_unique(s),
        0 <= i < s.len(),
    ensures
        has_id(s, s[i].id),
        index_of(s, s[i].id) == i,
        lookup(s, s[i].id) == Some(s[i]),
{
    assert(has_id(s, s[i].id));
    let j = index_of(s, s[i].id);
    assert(0 <= j < s.len() && s[j].id == s[i].id);
}

/// Adding a record one past the largest identifier makes that identifier
/// the new largest one.
proof fn lemma_max_id_after_create(s: Seq<Todo>, content: String)
    requires
        can_assign(s),
    ensures
        max_id(after_create(s, content)) == max_id(s) + 1,
{
    let r = after_create(s, content);
    assert(r.drop_last() =~= s);
}

/// Creating the records of `contents` one after another, with enough
/// identifiers left, appends them in order with consecutive identifiers
/// starting one past the largest identifier already in use, keeps the
/// records already present, and keeps identifiers unique.
pub proof fn lemma_creates_in_sequence(s: Seq<Todo>, contents: Seq<String>)
    requires
        ids_unique(s),
        max_id(s) + contents.len() <= u64::MAX,
    ensures
        after_creates(s, contents).len() == s.len() + contents.len(),
        after_creates(s, contents).subrange(0, s.len() as int) == s,
        ids_unique(after_creates(s, contents)),
        max_id(after_creates(s, contents)) == max_id(s) + contents.len(),
        forall|k: int|
            0 <= k < contents.len() ==> #[trigger] after_creates(s, contents)[s.len() + k] == (Todo {
                id: (max_id(s) + k + 1) as u64,
                content: contents[k],
                completed: false,
            }),
    decreases contents.len(),
{
    if contents.len() > 0 {
        let init = contents.drop_last();
        lemma_creates_in_sequence(s, init);
        let p = after_creates(s, init);
        let c = contents.last();
        lemma_create_keeps_unique(p, c);
        lemma_max_id_after_create(p, c);
        let r = after_creates(s, contents);
        assert(r == after_create(p, c));
        assert(r.subrange(0, s.len() as int) =~= p.subrange(0, s.len() as int));
        assert forall|k: int| 0 <= k < contents.len() implies #[trigger] r[s.len() + k] == (Todo {
            id: (max_id(s) + k + 1) as u64,
            content: contents[k],
            completed: false,
        }) by {
            if k < contents.len() - 1 {
                assert(r[s.len() + k] == p[s.len() + k]);
                assert(init[k] == contents[k]);
            }
        }
    }
}

/// Records created one after another get strictly increasing identifiers,
/// and identifiers stay unique.
pub proof fn lemma_sequential_ids_increase(s: Seq<Todo>, contents: Seq<String>)
    requires
        ids_unique(s),
        max_id(s) + contents.len() <= u64::MAX,
    ensures
        ids_unique(after_creates(s, contents)),
        forall|i: int, j: int|
            0 <= i < j < contents.len() ==> #[trigger] after_creates(s, contents)[s.len() + i].id
                < #[trigger] after_creates(s, contents)[s.len() + j].id,
{
    lemma_creates_in_sequence(s, contents);
    let r = after_creates(s, contents);
    assert forall|i: int, j: int| 0 <= i < j < contents.len() implies #[trigger] r[s.len() + i].id
        < #[trigger] r[s.len() + j].id by {
        assert(r[s.len() + i].id == max_id(s) + i + 1);
        assert(r[s.len() + j].id == max_id(s) + j + 1);
    }
}

/// `k` creates on an empty store, carried out one at a time as the store's
/// single lock serialises them, leave exactly `k` records whose identifiers
/// are 1 to `k`: none is lost and none is repeated.
pub proof fn lemma_creates_from_empty(contents: Seq<String>)
    requires
        contents.len() <= u64::MAX,
    ensures
        after_creates(Seq::empty(), contents).len() == contents.len(),
        ids_unique(after_creates(Seq::empty(), contents)),
        forall|k: int|
            0 <= k < contents.len() ==> #[trigger] after_creates(Seq::empty(), contents)[k] == (Todo {
                id: (k + 1) as u64,
                content: contents[k],
                completed: false,
            }),
{
    let e = Seq::<Todo>::empty();
    lemma_creates_in_sequence(e, contents);
    assert forall|k: int| 0 <= k < contents.len() implies #[trigger] after_creates(e, contents)[k]
        == (Todo { id: (k + 1) as u64, content: contents[k], completed: false }) by {
        assert(after_creates(e, contents)[e.len() + k] == after_creates(e, contents)[k]);
    }
}

/// Fetching the identifier of a record just created returns that record.
pub proof fn lemma_get_after_create(s: Seq<Todo>, content: String)
    requires
        ids_unique(s),
        can_assign(s),
    ensures
        lookup(after_create(s, content), new_record(s, content).id) == Some(new_record(s, content)),
{
    lemma_create_keeps_unique(s, content);
    lemma_lookup_at(after_create(s, content), s.len() as int);
}

/// An update without a flag replaces the content and keeps the flag.
pub proof fn lemma_update_keeps_flag(s: Seq<Todo>, id: u64, content: String)
    requires
        ids_unique(s),
        has_id(s, id),
    ensures
        ids_unique(after_update(s, id, content, None)),
        lookup(after_update(s, id, content, None), id) matches Some(u) && u.id == id && u.content
            == content && u.completed == lookup(s, id)->Some_0.completed,
{
    let i = index_of(s, id);
    let r = after_update(s, id, content, None);
    assert(ids_unique(r)) by {
        assert forall|a: int, b: int| 0 <= a < r.len() && 0 <= b < r.len() && a != b implies r[a].id
            != r[b].id by {
            assert(r[a].id == s[a].id && r[b].id == s[b].id);
        }
    }
    lemma_lookup_at(r, i);
}

/// An update with a flag replaces both the content and the flag.
pub proof fn lemma_update_sets_both(s: Seq<Todo>, id: u64, content: String, completed: bool)
    requires
        ids_unique(s),
        has_id(s, id),
    ensures
        ids_unique(after_update(s, id, content, Some(completed))),
        lookup(after_update(s, id, content, Some(completed)), id) == Some(
            Todo { id, content, completed },
        ),
{
    let i = index_of(s, id);
    let r = after_update(s, id, content, Some(completed));
    assert(ids_unique(r)) by {
        assert forall|a: int, b: int| 0 <= a < r.len() && 0 <= b < r.len() && a != b implies r[a].id
            != r[b].id by {
            assert(r[a].id == s[a].id && r[b].id == s[b].id);
        }
    }
    lemma_lookup_at(r, i);
}

/// After a delete nothing carries the deleted identifier; a delete of an
/// identifier that nothing carries changes nothing.
pub proof fn lemma_get_after_delete(s: Seq<Todo>, id: u64)
    requires
        ids_unique(s),
    ensures
        lookup(after_delete(s, id), id) is None,
        !has_id(s, id) ==> after_delete(s, id) == s,
{
    if has_id(s, id) {
        let i = index_of(s, id);
        let r = after_delete(s, id);
        assert forall|k: int| 0 <= k < r.len() implies r[k].id != id by {
            if k < i {
                assert(r[k] == s[k]);
            } else {
                assert(r[k] == s[k + 1]);
            }
        }
    }
}

/// After `n` creates on an empty store and the delete of one of the created
/// identifiers, exactly `n - 1` records remain, and they are the created
/// records other than the deleted one.
pub proof fn lemma_creates_then_delete(contents: Seq<String>, id: u64)
    requires
        contents.len() <= u64::MAX,
        has_id(after_creates(Seq::empty(), contents), id),
    ensures
        after_delete(after_creates(Seq::empty(), contents), id).len() == contents.len() - 1,
        forall|t: Todo|
            after_delete(after_creates(Seq::empty(), contents), id).contains(t) <==> (after_creates(
                Seq::empty(),
                contents,
            ).contains(t) && t.id != id),
{
    let s = after_creates(Seq::empty(), contents);
    lemma_creates_from_empty(contents);
    let i = index_of(s, id);
    let r = after_delete(s, id);
    assert forall|t: Todo| r.contains(t) <==> (s.contains(t) && t.id != id) by {
        if r.contains(t) {
            let k = choose|k: int| 0 <= k < r.len() && r[k] == t;
            if k < i {
                assert(r[k] == s[k]);
            } else {
                assert(r[k] == s[k + 1]);
            }
        }
        if s.contains(t) && t.id != id {
            let k = choose|k: int| 0 <= k < s.len() && s[k] == t;
            if k < i {
                assert(r[k] == s[k]);
            } else {
                assert(k != i);
                assert(r[k - 1] == s[k]);
            }
        }
    }
}

} // verus!
