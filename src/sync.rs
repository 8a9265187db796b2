use vstd::prelude::*;

use crate::app::{sorts_view, AppContext, InputMode};
use crate::keys::{handles_key, Flow, Key};
use crate::command::{
    added_fields, adds_task, appends_new_task, cycles_priority, deletes_task, edited_fields, finishes_edit, reprioritized,
    selected_task, toggles_status,
};
use crate::task::Task;
use crate::task_db::{rows_updated, with_completed, with_priority, RowFields, RowOrder};
use crate::task_manager::{lists_tasks, task_fields, task_matches, TaskError};

verus! {

/// Whether the list `s` holds exactly the tasks that the rows `m` hold, each once, in any
/// order.
pub open spec fn mirrors(m: Map<int, RowFields>, s: Seq<Task>) -> bool {
    &&& forall|i: int|
        0 <= i < s.len() ==> m.contains_key(#[trigger] s[i].id as int) && task_matches(
            s[i],
            s[i].id as int,
            m[s[i].id as int],
        )
    &&& forall|k: int| m.contains_key(k) ==> exists|i: int| 0 <= i < s.len() && #[trigger] s[i].id == k
    &&& forall|i: int, j: int| 0 <= i < j < s.len() ==> s[i].id != s[j].id
}

/// Whether the list on screen holds exactly the stored tasks.
pub open spec fn in_sync(app: AppContext) -> bool {
    mirrors(app.tasks_service.rows(), app.task_list.items@)
}

/// A listing of the stored tasks, in any of the orders, mirrors the store.
pub proof fn lemma_listing_mirrors(m: Map<int, RowFields>, s: Seq<Task>, order: RowOrder)
    requires
        lists_tasks(m, s, order),
    ensures
        mirrors(m, s),
{
    assert forall|i: int, j: int| 0 <= i < j < s.len() implies s[i].id != s[j].id by {
        assert(m.contains_key(s[i].id as int));
        assert(m.contains_key(s[j].id as int));
        assert(crate::task_manager::task_before(s[i], s[j], order));
        if s[i].id == s[j].id {
            assert(task_fields(s[i]) == task_fields(s[j]));
            assert(s[i].priority.rank() == s[j].priority.rank());
        }
    }
}

/// Writing new fields into the stored task of entry `i`, and the same fields into the entry,
/// keeps a list mirroring the store.
proof fn lemma_patch_mirrors(m: Map<int, RowFields>, s: Seq<Task>, s2: Seq<Task>, i: int, f: RowFields)
    requires
        mirrors(m, s),
        0 <= i < s.len(),
        s2.len() == s.len(),
        forall|j: int| 0 <= j < s.len() && j != i ==> s2[j] == s[j],
        s2[i].id == s[i].id,
        task_matches(s2[i], s[i].id as int, f),
    ensures
        mirrors(m.insert(s[i].id as int, f), s2),
{
    let id = s[i].id as int;
    let m2 = m.insert(id, f);
    assert forall|j: int| 0 <= j < s2.len() implies m2.contains_key(#[trigger] s2[j].id as int) && task_matches(
        s2[j],
        s2[j].id as int,
        m2[s2[j].id as int],
    ) by {
        if j != i {
            assert(s2[j] == s[j]);
            assert(s[j].id != s[i].id) by {
                if j < i {
                    assert(s[j].id != s[i].id);
                } else {
                    assert(s[i].id != s[j].id);
                }
            }
            assert(m.contains_key(s[j].id as int));
        }
    }
    assert forall|k: int| m2.contains_key(k) implies exists|j: int| 0 <= j < s2.len() && #[trigger] s2[j].id == k by {
        if k == id {
            assert(s2[i].id == k);
        } else {
            let j = choose|j: int| 0 <= j < s.len() && #[trigger] s[j].id == k;
            if j == i {
                assert(false);
            }
            assert(s2[j].id == k);
        }
    }
    assert forall|a: int, b: int| 0 <= a < b < s2.len() implies s2[a].id != s2[b].id by {
        assert(s[a].id != s[b].id);
    }
}

/// Removing the stored task of entry `i`, and the entry, keeps a list mirroring the store.
proof fn lemma_remove_mirrors(m: Map<int, RowFields>, s: Seq<Task>, i: int)
    requires
        mirrors(m, s),
        0 <= i < s.len(),
    ensures
        mirrors(m.remove(s[i].id as int), s.remove(i)),
{
    let id = s[i].id as int;
    let m2 = m.remove(id);
    let s2 = s.remove(i);
    assert forall|j: int| 0 <= j < s2.len() implies m2.contains_key(#[trigger] s2[j].id as int) && task_matches(
        s2[j],
        s2[j].id as int,
        m2[s2[j].id as int],
    ) by {
        let k = if j < i { j } else { j + 1 };
        assert(s2[j] == s[k]);
        assert(s[k].id != s[i].id) by {
            if k < i {
                assert(s[k].id != s[i].id);
            } else {
                assert(s[i].id != s[k].id);
            }
        }
        assert(m.contains_key(s[k].id as int));
    }
    assert forall|k: int| m2.contains_key(k) implies exists|j: int| 0 <= j < s2.len() && #[trigger] s2[j].id == k by {
        let j = choose|j: int| 0 <= j < s.len() && #[trigger] s[j].id == k;
        assert(j != i);
        if j < i {
            assert(s2[j].id == k);
        } else {
            assert(s2[j - 1].id == k);
        }
    }
    assert forall|a: int, b: int| 0 <= a < b < s2.len() implies s2[a].id != s2[b].id by {
        let a0 = if a < i { a } else { a + 1 };
        let b0 = if b < i { b } else { b + 1 };
        assert(s2[a] == s[a0] && s2[b] == s[b0]);
        assert(s[a0].id != s[b0].id);
    }
}

/// Toggling the completed flag keeps the list in step with the store, whether the store
/// took the change or the list was read again after a failure.
pub proof fn lemma_toggle_keeps_sync(a: AppContext, b: AppContext, r: Result<(), TaskError>)
    requires
        a.wf(),
        b.wf(),
        in_sync(a),
        toggles_status(a, b, r),
    ensures
        in_sync(b),
{
    if let Some(i) = a.task_list.selected {
        let s = a.task_list.items@;
        let m = a.tasks_service.rows();
        let t = selected_task(a);
        assert(m.contains_key(s[i as int].id as int));
        if r is Ok {
            let f = with_completed(m[t.id as int], !t.completed);
            assert(task_fields(b.task_list.items@[i as int]) == f);
            assert(b.task_list.items@[i as int].wf());
            lemma_patch_mirrors(m, s, b.task_list.items@, i as int, f);
            assert(rows_updated(m, t.id as int, f) == m.insert(t.id as int, f));
        } else if b.task_list.items@ != s {
            lemma_listing_mirrors(m, b.task_list.items@, RowOrder::PriorityDesc);
        }
    }
}

/// Moving a task to the next priority keeps the list in step with the store, whether the
/// store took the change or the list was read again after a failure.
pub proof fn lemma_priority_keeps_sync(a: AppContext, b: AppContext, r: Result<(), TaskError>)
    requires
        a.wf(),
        b.wf(),
        in_sync(a),
        cycles_priority(a, b, r),
    ensures
        in_sync(b),
{
    if let Some(i) = a.task_list.selected {
        let s = a.task_list.items@;
        let m = a.tasks_service.rows();
        let t = selected_task(a);
        assert(m.contains_key(s[i as int].id as int));
        if r is Ok {
            let f = with_priority(m[t.id as int], t.priority.spec_next().rank() as int);
            assert(reprioritized(s[i as int], b.task_list.items@[i as int]));
            assert(task_fields(b.task_list.items@[i as int]) == f);
            assert(b.task_list.items@[i as int].wf());
            lemma_patch_mirrors(m, s, b.task_list.items@, i as int, f);
            assert(rows_updated(m, t.id as int, f) == m.insert(t.id as int, f));
        } else if b.task_list.items@ != s {
            lemma_listing_mirrors(m, b.task_list.items@, RowOrder::PriorityDesc);
        }
    }
}

/// Confirming an edit keeps the list in step with the store.
pub proof fn lemma_edit_keeps_sync(a: AppContext, b: AppContext, r: Result<(), TaskError>)
    requires
        a.wf(),
        b.wf(),
        in_sync(a),
        finishes_edit(a, b, r),
    ensures
        in_sync(b),
{
    if let Some(i) = a.task_list.selected {
        if a.input_title@.len() > 0 && r is Ok {
            let s = a.task_list.items@;
            let m = a.tasks_service.rows();
            let t = selected_task(a);
            let f = edited_fields(a, t);
            assert(m.contains_key(s[i as int].id as int));
            assert(b.task_list.items@[i as int].wf());
            lemma_patch_mirrors(m, s, b.task_list.items@, i as int, f);
        }
    }
}

/// Deleting the selected task keeps the list in step with the store.
pub proof fn lemma_delete_keeps_sync(a: AppContext, b: AppContext, r: Result<(), TaskError>)
    requires
        a.wf(),
        in_sync(a),
        deletes_task(a, b, r),
    ensures
        in_sync(b),
{
    if let Some(i) = a.task_list.selected {
        let s = a.task_list.items@;
        let m = a.tasks_service.rows();
        assert(m.contains_key(s[i as int].id as int));
        if r is Ok {
            lemma_remove_mirrors(m, s, i as int);
        }
    }
}

/// Appending the task of a new row keeps a list mirroring the store.
proof fn lemma_append_mirrors(m: Map<int, RowFields>, s: Seq<Task>, s2: Seq<Task>, id: int, f: RowFields)
    requires
        mirrors(m, s),
        !m.contains_key(id),
        appends_new_task(s, s2, id, f),
    ensures
        mirrors(m.insert(id, f), s2),
{
    let m2 = m.insert(id, f);
    let n = s.len() as int;
    assert forall|j: int| 0 <= j < s2.len() implies m2.contains_key(#[trigger] s2[j].id as int) && task_matches(
        s2[j],
        s2[j].id as int,
        m2[s2[j].id as int],
    ) by {
        if j < n {
            assert(s2[j] == s2.drop_last()[j]);
            assert(m.contains_key(s[j].id as int));
        }
    }
    assert forall|k: int| m2.contains_key(k) implies exists|j: int| 0 <= j < s2.len() && #[trigger] s2[j].id == k by {
        if k == id {
            assert(s2[n].id == k);
        } else {
            let j = choose|j: int| 0 <= j < s.len() && #[trigger] s[j].id == k;
            assert(s2[j] == s2.drop_last()[j]);
            assert(s2[j].id == k);
        }
    }
    assert forall|a: int, b: int| 0 <= a < b < s2.len() implies s2[a].id != s2[b].id by {
        assert(s2[a] == s2.drop_last()[a]);
        if b < n {
            assert(s2[b] == s2.drop_last()[b]);
        } else {
            assert(m.contains_key(s[a].id as int));
        }
    }
}

/// Confirming an add leaves the list in step with the store when it succeeds, and when it
/// fails without storing anything.
pub proof fn lemma_add_keeps_sync(a: AppContext, b: AppContext, r: Result<(), TaskError>)
    requires
        in_sync(a),
        adds_task(a, b, r),
        r is Ok || b.tasks_service.rows() == a.tasks_service.rows(),
    ensures
        in_sync(b),
{
    if a.input_title@.len() > 0 && r is Ok {
        let m = a.tasks_service.rows();
        let id = choose|id: int|
            #![trigger m.insert(id, added_fields(a))]
            !m.contains_key(id) && b.tasks_service.rows() == m.insert(id, added_fields(a)) && (
            lists_tasks(b.tasks_service.rows(), b.task_list.items@, RowOrder::PriorityDesc)
                || appends_new_task(a.task_list.items@, b.task_list.items@, id, added_fields(a)));
        if lists_tasks(b.tasks_service.rows(), b.task_list.items@, RowOrder::PriorityDesc) {
            lemma_listing_mirrors(b.tasks_service.rows(), b.task_list.items@, RowOrder::PriorityDesc);
        } else {
            lemma_append_mirrors(m, a.task_list.items@, b.task_list.items@, id, added_fields(a));
        }
    }
}

/// Listing the tasks again by priority leaves the list in step with the store.
pub proof fn lemma_sort_keeps_sync(a: AppContext, b: AppContext, r: Result<(), TaskError>)
    requires
        in_sync(a),
        sorts_view(a, b, r),
    ensures
        in_sync(b),
{
    if r is Ok {
        lemma_listing_mirrors(a.tasks_service.rows(), b.task_list.items@, RowOrder::PriorityDesc);
    }
}

/// Whatever key the user presses, the list on screen afterwards holds exactly the stored
/// tasks, but where a command failed after the store had already changed (an add whose
/// listing again failed).
pub proof fn lemma_keys_keep_sync(a: AppContext, b: AppContext, key: Key, r: (Flow, Result<(), TaskError>))
    requires
        a.wf(),
        b.wf(),
        in_sync(a),
        handles_key(a, b, key, r),
    ensures
        in_sync(b) || (r.1 is Err && b.tasks_service.rows() != a.tasks_service.rows()),
{
    match a.input_mode {
        InputMode::View => match key {
            Key::Char(' ') => lemma_toggle_keeps_sync(a, b, r.1),
            Key::Char('p') => lemma_priority_keeps_sync(a, b, r.1),
            Key::Char('s') => lemma_sort_keeps_sync(a, b, r.1),
            Key::Char('d') => lemma_delete_keeps_sync(a, b, r.1),
            _ => {},
        },
        InputMode::Adding => {
            if key == Key::Enter && (r.1 is Ok || b.tasks_service.rows() == a.tasks_service.rows()) {
                lemma_add_keeps_sync(a, b, r.1);
            }
        },
        InputMode::EditingExisting => {
            if key == Key::Enter {
                lemma_edit_keeps_sync(a, b, r.1);
            }
        },
    }
}

} // verus!
