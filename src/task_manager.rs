use vstd::prelude::*;

use crate::date::{is_canonical_date_text, Date};
use crate::task::{Priority, Task};
use crate::task_db::{
    lists_rows, rows_touched, rows_updated, with_completed, with_priority, RowFields, RowOrder,
    StorageError, TaskRow, DB,
};

verus! {

/// The order of a listing by priority.
pub enum SortOrder {
    /// Highest priority first.
    High,
    /// Lowest priority first.
    Low,
}

/// Why an operation on the tasks failed.
#[derive(Debug, Clone, PartialEq, Eq)]
pub enum TaskError {
    /// The storage engine failed, with its message.
    Storage(String),
    /// A due date is not a day of the calendar with a four-digit year.
    InvalidDate,
    /// The stored row with this id holds values that are not a task.
    UnreadableRow(i64),
}

impl TaskError {
    /// The text shown to the user: the storage engine's own message for its failures.
    pub fn message(&self) -> (r: String)
        ensures
            self matches TaskError::Storage(m) ==> r@ == m@,
            self is InvalidDate ==> r@ == "Invalid date: expected dd-mm-yyyy"@,
            self is UnreadableRow ==> r@ == "A stored task could not be read"@,
    {
        match self {
            TaskError::Storage(m) => m.clone(),
            TaskError::InvalidDate => "Invalid date: expected dd-mm-yyyy".to_owned(),
            TaskError::UnreadableRow(_) => "A stored task could not be read".to_owned(),
        }
    }
}

fn storage_failure(e: StorageError) -> (r: TaskError)
    ensures
        r is Storage,
{
    TaskError::Storage(e.message)
}

/// The stored fields of a task: title, description, completed flag, priority code and the
/// text of its due date.
pub open spec fn task_fields(t: Task) -> RowFields {
    (t.title@, t.description@, t.completed, t.priority.rank() as int, match t.date {
        Some(d) => Some(d.text()),
        None => None,
    })
}

/// Whether a stored row holds a task: an id that fits a task, a known priority code and, if
/// any, the canonical text of a due date.
pub open spec fn readable(id: int, f: RowFields) -> bool {
    &&& i32::MIN <= id <= i32::MAX
    &&& 0 <= f.3 <= 2
    &&& (f.4 matches Some(s) ==> is_canonical_date_text(s))
}

/// Whether task `t` is what the row `id` with fields `f` holds.
pub open spec fn task_matches(t: Task, id: int, f: RowFields) -> bool {
    t.id == id && task_fields(t) == f && t.wf()
}

pub open spec fn all_readable(m: Map<int, RowFields>) -> bool {
    forall|k: int| m.contains_key(k) ==> readable(k, #[trigger] m[k])
}

/// Whether task `a` comes strictly before task `b` in the given order.
pub open spec fn task_before(a: Task, b: Task, order: RowOrder) -> bool {
    match order {
        RowOrder::ById => a.id < b.id,
        RowOrder::PriorityDesc => a.priority.rank() > b.priority.rank() || (a.priority.rank()
            == b.priority.rank() && a.id < b.id),
        RowOrder::PriorityAsc => a.priority.rank() < b.priority.rank() || (a.priority.rank()
            == b.priority.rank() && a.id < b.id),
    }
}

/// Whether `s` lists the tasks that the rows `m` hold, each once, in the given order.
pub open spec fn lists_tasks(m: Map<int, RowFields>, s: Seq<Task>, order: RowOrder) -> bool {
    &&& forall|i: int|
        0 <= i < s.len() ==> m.contains_key(#[trigger] s[i].id as int) && task_matches(
            s[i],
            s[i].id as int,
            m[s[i].id as int],
        )
    &&& forall|k: int| m.contains_key(k) ==> exists|i: int| 0 <= i < s.len() && #[trigger] s[i].id == k
    &&& forall|i: int, j: int| 0 <= i < j < s.len() ==> task_before(s[i], s[j], order)
}

/// Every task of a listing holds storable values.
pub proof fn lemma_listed_tasks_wf(m: Map<int, RowFields>, s: Seq<Task>, order: RowOrder)
    requires
        lists_tasks(m, s, order),
    ensures
        forall|i: int| 0 <= i < s.len() ==> (#[trigger] s[i]).wf(),
{
    assert forall|i: int| 0 <= i < s.len() implies (#[trigger] s[i]).wf() by {
        assert(m.contains_key(s[i].id as int));
    }
}

/// Whether the list `t` holds a task with id `id` and stored fields `f`.
pub open spec fn holds_task(t: Seq<Task>, id: int, f: RowFields) -> bool {
    exists|j: int| 0 <= j < t.len() && #[trigger] t[j].id == id && task_fields(t[j]) == f
}

/// Whether every task of `s` is, by id and fields, in `t`.
pub open spec fn holds_all_of(t: Seq<Task>, s: Seq<Task>) -> bool {
    forall|i: int| 0 <= i < s.len() ==> holds_task(t, (#[trigger] s[i]).id as int, task_fields(s[i]))
}

/// Whether tasks of equal priority come in `a` in the order in which they come in `d`.
pub open spec fn equal_priorities_in_same_order(a: Seq<Task>, d: Seq<Task>) -> bool {
    forall|i1: int, i2: int, j1: int, j2: int|
        0 <= i1 < i2 < a.len() && 0 <= j1 < d.len() && 0 <= j2 < d.len() && #[trigger] a[i1].id
            == #[trigger] d[j1].id && #[trigger] a[i2].id == #[trigger] d[j2].id
            && a[i1].priority.rank() == a[i2].priority.rank() ==> j1 < j2
}

/// Every task of one listing of a store is, by id and fields, in any other listing of it.
proof fn lemma_listings_share_tasks(m: Map<int, RowFields>, s: Seq<Task>, o1: RowOrder, t: Seq<Task>, o2: RowOrder)
    requires
        lists_tasks(m, s, o1),
        lists_tasks(m, t, o2),
    ensures
        holds_all_of(t, s),
{
    assert forall|i: int| 0 <= i < s.len() implies holds_task(t, (#[trigger] s[i]).id as int, task_fields(s[i])) by {
        assert(m.contains_key(s[i].id as int));
        let j = choose|j: int| 0 <= j < t.len() && #[trigger] t[j].id == s[i].id as int;
        assert(m.contains_key(t[j].id as int));
    }
}

/// Two tasks of equal priority come in the same order in the listing by lowest priority as
/// in the listing by highest priority.
proof fn lemma_equal_priority_order(
    m: Map<int, RowFields>,
    d: Seq<Task>,
    a: Seq<Task>,
    i1: int,
    i2: int,
    j1: int,
    j2: int,
)
    requires
        lists_tasks(m, d, RowOrder::PriorityDesc),
        lists_tasks(m, a, RowOrder::PriorityAsc),
        0 <= i1 < i2 < a.len(),
        0 <= j1 < d.len(),
        0 <= j2 < d.len(),
        a[i1].id == d[j1].id,
        a[i2].id == d[j2].id,
        a[i1].priority.rank() == a[i2].priority.rank(),
    ensures
        j1 < j2,
{
    assert(task_before(a[i1], a[i2], RowOrder::PriorityAsc));
    assert(m.contains_key(a[i1].id as int) && m.contains_key(a[i2].id as int));
    assert(m.contains_key(d[j1].id as int) && m.contains_key(d[j2].id as int));
    assert(task_fields(d[j1]) == task_fields(a[i1]));
    assert(task_fields(d[j2]) == task_fields(a[i2]));
    if j2 < j1 {
        assert(task_before(d[j2], d[j1], RowOrder::PriorityDesc));
    }
}

/// The listing by highest priority and the listing by lowest priority of the same store hold
/// the same tasks, the first with priorities falling and the second with priorities rising;
/// tasks of equal priority come in the same order in both, the order in which they were stored.
pub proof fn lemma_sorted_listings_agree(m: Map<int, RowFields>, d: Seq<Task>, a: Seq<Task>)
    requires
        lists_tasks(m, d, RowOrder::PriorityDesc),
        lists_tasks(m, a, RowOrder::PriorityAsc),
    ensures
        holds_all_of(d, a),
        holds_all_of(a, d),
        forall|j1: int, j2: int| 0 <= j1 < j2 < d.len() ==> d[j1].priority.rank() >= d[j2].priority.rank(),
        forall|i1: int, i2: int| 0 <= i1 < i2 < a.len() ==> a[i1].priority.rank() <= a[i2].priority.rank(),
        equal_priorities_in_same_order(a, d),
{
    lemma_listings_share_tasks(m, a, RowOrder::PriorityAsc, d, RowOrder::PriorityDesc);
    lemma_listings_share_tasks(m, d, RowOrder::PriorityDesc, a, RowOrder::PriorityAsc);
    assert forall|j1: int, j2: int| 0 <= j1 < j2 < d.len() implies d[j1].priority.rank() >= d[j2].priority.rank() by {
        assert(task_before(d[j1], d[j2], RowOrder::PriorityDesc));
    }
    assert forall|i1: int, i2: int| 0 <= i1 < i2 < a.len() implies a[i1].priority.rank() <= a[i2].priority.rank() by {
        assert(task_before(a[i1], a[i2], RowOrder::PriorityAsc));
    }
    assert forall|i1: int, i2: int, j1: int, j2: int|
        0 <= i1 < i2 < a.len() && 0 <= j1 < d.len() && 0 <= j2 < d.len() && #[trigger] a[i1].id
            == #[trigger] d[j1].id && #[trigger] a[i2].id == #[trigger] d[j2].id
            && a[i1].priority.rank() == a[i2].priority.rank() implies j1 < j2 by {
        lemma_equal_priority_order(m, d, a, i1, i2, j1, j2);
    }
}

/// The row order of a listing by priority.
pub open spec fn order_of(sort: SortOrder) -> RowOrder {
    match sort {
        SortOrder::High => RowOrder::PriorityDesc,
        SortOrder::Low => RowOrder::PriorityAsc,
    }
}

/// The task that a stored row holds, or `None` where the row is not readable.
pub fn task_from_row(row: &TaskRow) -> (r: Option<Task>)
    ensures
        r is Some <==> readable(row.id as int, row.fields()),
        r matches Some(t) ==> task_matches(t, row.id as int, row.fields()),
{
    if row.id < i32::MIN as i64 || row.id > i32::MAX as i64 || row.priority < 0 || row.priority > 2 {
        return None;
    }
    let priority = match Priority::from_u8(row.priority as u8) {
        Some(p) => p,
        None => return None,
    };
    let date = match &row.date {
        None => None,
        Some(text) => match Date::parse(text.as_str()) {
            Some(d) => {
                let back = d.to_text();
                if back == *text {
                    Some(d)
                } else {
                    return None;
                }
            },
            None => return None,
        },
    };
    Some(
        Task {
            id: row.id as i32,
            title: row.title.clone(),
            description: row.description.clone(),
            completed: row.completed,
            priority,
            date,
        },
    )
}

/// The tasks that the rows hold, in the same order; `Err` with the id of the first row that is
/// not readable.
pub fn tasks_from_rows(rows: &Vec<TaskRow>) -> (r: Result<Vec<Task>, i64>)
    ensures
        r matches Ok(v) ==> v.len() == rows.len() && forall|i: int|
            0 <= i < rows.len() ==> task_matches(#[trigger] v[i], rows[i].id as int, rows[i].fields()),
        r is Ok <==> forall|i: int| 0 <= i < rows.len() ==> readable(#[trigger] rows[i].id as int, rows[i].fields()),
        r matches Err(id) ==> exists|i: int| 0 <= i < rows.len() && #[trigger] rows[i].id == id && !readable(id as int, rows[i].fields()),
{
    let mut tasks: Vec<Task> = Vec::new();
    let mut i: usize = 0;
    while i < rows.len()
        invariant
            i <= rows.len(),
            tasks.len() == i,
            forall|j: int| 0 <= j < i ==> task_matches(#[trigger] tasks[j], rows[j].id as int, rows[j].fields()),
            forall|j: int| 0 <= j < i ==> readable(#[trigger] rows[j].id as int, rows[j].fields()),
        decreases rows.len() - i,
    {
        match task_from_row(&rows[i]) {
            Some(t) => tasks.push(t),
            None => {
                assert(!readable(rows[i as int].id as int, rows[i as int].fields()));
                return Err(rows[i].id);
            },
        }
        i = i + 1;
    }
    Ok(tasks)
}

/// Tasks read from a listing of rows list the tasks those rows hold, in the same order.
proof fn lemma_listing_carries_over(
    m: Map<int, RowFields>,
    rows: Seq<TaskRow>,
    tasks: Seq<Task>,
    order: RowOrder,
)
    requires
        lists_rows(m, rows, order),
        tasks.len() == rows.len(),
        forall|i: int| 0 <= i < rows.len() ==> task_matches(#[trigger] tasks[i], rows[i].id as int, rows[i].fields()),
    ensures
        lists_tasks(m, tasks, order),
{
    assert forall|k: int| m.contains_key(k) implies exists|i: int| 0 <= i < tasks.len() && #[trigger] tasks[i].id == k by {
        let i = choose|i: int| 0 <= i < rows.len() && #[trigger] rows[i].id == k;
        assert(task_matches(tasks[i], rows[i].id as int, rows[i].fields()));
        assert(tasks[i].id == k);
    }
    assert forall|i: int, j: int| 0 <= i < j < tasks.len() implies task_before(tasks[i], tasks[j], order) by {
        assert(task_matches(tasks[i], rows[i].id as int, rows[i].fields()));
        assert(task_matches(tasks[j], rows[j].id as int, rows[j].fields()));
        assert(crate::task_db::comes_before(rows[i], rows[j], order));
    }
    assert forall|i: int| 0 <= i < tasks.len() implies m.contains_key(#[trigger] tasks[i].id as int) && task_matches(
        tasks[i],
        tasks[i].id as int,
        m[tasks[i].id as int],
    ) by {
        assert(task_matches(tasks[i], rows[i].id as int, rows[i].fields()));
        assert(m.contains_key(rows[i].id as int));
    }
}

/// Where a listing of rows has a row that is not readable, that row is in the store.
proof fn lemma_unreadable_is_stored(m: Map<int, RowFields>, rows: Seq<TaskRow>, order: RowOrder, id: i64)
    requires
        lists_rows(m, rows, order),
        exists|i: int| 0 <= i < rows.len() && #[trigger] rows[i].id == id && !readable(id as int, rows[i].fields()),
    ensures
        m.contains_key(id as int),
        !readable(id as int, m[id as int]),
        !all_readable(m),
{
    let i = choose|i: int| 0 <= i < rows.len() && #[trigger] rows[i].id == id && !readable(id as int, rows[i].fields());
    assert(m.contains_key(rows[i].id as int));
}

/// Where every row of a listing is readable, every stored row is.
proof fn lemma_listing_all_readable(m: Map<int, RowFields>, rows: Seq<TaskRow>, order: RowOrder)
    requires
        lists_rows(m, rows, order),
        forall|i: int| 0 <= i < rows.len() ==> readable(#[trigger] rows[i].id as int, rows[i].fields()),
    ensures
        all_readable(m),
{
    assert forall|k: int| m.contains_key(k) implies readable(k, #[trigger] m[k]) by {
        let i = choose|i: int| 0 <= i < rows.len() && #[trigger] rows[i].id == k;
        assert(readable(rows[i].id as int, rows[i].fields()));
    }
}

/// The rows of a store that was empty, after tasks with the fields `fs` were added one after
/// the other and given the ids `ids`.
pub open spec fn rows_after_adds(ids: Seq<int>, fs: Seq<RowFields>) -> Map<int, RowFields>
    decreases ids.len(),
{
    if ids.len() == 0 {
        Map::empty()
    } else {
        rows_after_adds(ids.drop_last(), fs.drop_last()).insert(ids.last(), fs[ids.len() - 1])
    }
}

/// Each id that an add returns differs from every id before it.
pub open spec fn ids_distinct(ids: Seq<int>) -> bool {
    forall|i: int, j: int| 0 <= i < j < ids.len() ==> ids[i] != ids[j]
}

/// After `N` adds to an empty store the store counts `N` tasks, and the id that each add
/// returned holds exactly the fields that were added under it.
pub proof fn lemma_adds_count(ids: Seq<int>, fs: Seq<RowFields>)
    requires
        ids.len() == fs.len(),
        ids_distinct(ids),
    ensures
        rows_after_adds(ids, fs).dom().finite(),
        rows_after_adds(ids, fs).dom().len() == ids.len(),
        forall|i: int| 0 <= i < ids.len() ==> rows_after_adds(ids, fs).contains_key(#[trigger] ids[i])
            && rows_after_adds(ids, fs)[ids[i]] == fs[i],
        forall|k: int| rows_after_adds(ids, fs).contains_key(k) ==> exists|i: int| 0 <= i < ids.len() && #[trigger] ids[i] == k,
    decreases ids.len(),
{
    if ids.len() > 0 {
        let pre_ids = ids.drop_last();
        let pre_fs = fs.drop_last();
        assert(ids_distinct(pre_ids));
        lemma_adds_count(pre_ids, pre_fs);
        let pre = rows_after_adds(pre_ids, pre_fs);
        let last = ids.last();
        assert(!pre.contains_key(last)) by {
            if pre.contains_key(last) {
                let i = choose|i: int| 0 <= i < pre_ids.len() && #[trigger] pre_ids[i] == last;
                assert(ids[i] != ids[ids.len() - 1]);
            }
        }
        assert forall|i: int| 0 <= i < ids.len() implies rows_after_adds(ids, fs).contains_key(#[trigger] ids[i])
            && rows_after_adds(ids, fs)[ids[i]] == fs[i] by {
            if i < ids.len() - 1 {
                assert(pre_ids[i] == ids[i]);
                assert(ids[i] != last);
            }
        }
        assert forall|k: int| rows_after_adds(ids, fs).contains_key(k) implies exists|i: int| 0 <= i < ids.len() && #[trigger] ids[i] == k by {
            if k != last {
                let i = choose|i: int| 0 <= i < pre_ids.len() && #[trigger] pre_ids[i] == k;
                assert(ids[i] == k);
            } else {
                assert(ids[ids.len() - 1] == k);
            }
        }
    }
}

/// Whether `states` are the rows of a store after each step of a run of adds: the first is
/// empty, and each next one is the one before with the fields `fs[k]` stored under the fresh id
/// `ids[k]`, as `add_new_task` promises for each call that succeeds.
pub open spec fn is_run_of_adds(states: Seq<Map<int, RowFields>>, ids: Seq<int>, fs: Seq<RowFields>) -> bool {
    &&& states.len() == ids.len() + 1
    &&& ids.len() == fs.len()
    &&& states[0].dom().len() == 0
    &&& states[0].dom().finite()
    &&& forall|k: int|
        0 <= k < ids.len() ==> !states[k].contains_key(#[trigger] ids[k]) && states[k + 1]
            == states[k].insert(ids[k], fs[k])
}

/// After a run of `N` successful adds from an empty store, the store counts `N` tasks, and each
/// id returned holds exactly the fields that were added under it.
pub proof fn lemma_run_of_adds(states: Seq<Map<int, RowFields>>, ids: Seq<int>, fs: Seq<RowFields>)
    requires
        is_run_of_adds(states, ids, fs),
    ensures
        states.last() == rows_after_adds(ids, fs),
        states.last().dom().len() == ids.len(),
        forall|i: int| 0 <= i < ids.len() ==> states.last().contains_key(#[trigger] ids[i])
            && states.last()[ids[i]] == fs[i],
    decreases ids.len(),
{
    if ids.len() == 0 {
        assert(states[0] =~= Map::<int, RowFields>::empty());
    } else {
        let n = ids.len() - 1;
        let pre_states = states.drop_last();
        let pre_ids = ids.drop_last();
        let pre_fs = fs.drop_last();
        assert forall|k: int| 0 <= k < pre_ids.len() implies !pre_states[k].contains_key(#[trigger] pre_ids[k])
            && pre_states[k + 1] == pre_states[k].insert(pre_ids[k], pre_fs[k]) by {
            assert(pre_states[k] == states[k] && pre_states[k + 1] == states[k + 1]);
            assert(!states[k].contains_key(ids[k]));
        }
        lemma_run_of_adds(pre_states, pre_ids, pre_fs);
        assert(pre_states.last() == states[n]);
        assert(!states[n].contains_key(ids[n]));
        assert(ids_distinct(ids)) by {
            assert forall|i: int, j: int| 0 <= i < j < ids.len() implies ids[i] != ids[j] by {
                lemma_run_keeps_ids(states, ids, fs, i, j);
            }
        }
        lemma_adds_count(ids, fs);
    }
}

/// In a run of adds, an id added at step `i` is still held at every later step `j`, so the id
/// added at `j` differs from it.
proof fn lemma_run_keeps_ids(states: Seq<Map<int, RowFields>>, ids: Seq<int>, fs: Seq<RowFields>, i: int, j: int)
    requires
        is_run_of_adds(states, ids, fs),
        0 <= i < j < ids.len(),
    ensures
        states[j].contains_key(ids[i]),
        ids[i] != ids[j],
    decreases j - i,
{
    if j == i + 1 {
        assert(states[i + 1] == states[i].insert(ids[i], fs[i]));
    } else {
        lemma_run_keeps_ids(states, ids, fs, i, j - 1);
        assert(states[j] == states[j - 1].insert(ids[j - 1], fs[j - 1]));
    }
    assert(!states[j].contains_key(ids[j]));
}

/// Deleting an id that the store does not hold leaves the count as it was; deleting one that
/// it holds lowers the count by exactly one. The number of rows removed is the difference.
pub proof fn lemma_delete_count(m: Map<int, RowFields>, id: int)
    requires
        m.dom().finite(),
    ensures
        m.remove(id).dom().finite(),
        m.remove(id).dom().len() == m.dom().len() - rows_touched(m, id),
        !m.contains_key(id) ==> m.remove(id) == m && rows_touched(m, id) == 0,
        m.contains_key(id) ==> m.remove(id).dom().len() + 1 == m.dom().len() && rows_touched(m, id) == 1,
{
    if !m.contains_key(id) {
        assert(m.remove(id) =~= m);
    }
}

/// The tasks, kept in a durable store that gives each new task its id.
pub struct TasksService {
    db: DB,
}

impl TasksService {
    /// The stored rows, by id.
    pub closed spec fn rows(&self) -> Map<int, RowFields> {
        self.db.rows()
    }

    pub open spec fn wf(&self) -> bool {
        self.rows().dom().finite()
    }

    /// Opens the store in the file at `db_path`, created if there is none; where `db_path` is
    /// empty, a new store in memory.
    pub fn new(db_path: &String) -> (r: Result<TasksService, TaskError>)
        ensures
            r matches Ok(s) ==> s.wf(),
            r matches Ok(s) ==> (db_path@.len() == 0 ==> s.rows().dom().len() == 0),
            r matches Err(e) ==> e is Storage,
    {
        match DB::create_and_return_connection(db_path.as_str()) {
            Ok(db) => Ok(TasksService { db }),
            Err(e) => Err(storage_failure(e)),
        }
    }

    /// Stores a new task with this description, low priority, no title and no due date;
    /// returns its id.
    pub fn add_task(&mut self, description: String) -> (r: Result<i64, TaskError>)
        requires
            old(self).wf(),
        ensures
            final(self).wf(),
            r matches Ok(id) ==> {
                &&& !old(self).rows().contains_key(id as int)
                &&& final(self).rows() == old(self).rows().insert(
                    id as int,
                    (Seq::<char>::empty(), description@, false, 0, None),
                )
            },
            r matches Err(e) ==> e is Storage && final(self).rows() == old(self).rows(),
    {
        match self.db.add_task(description.as_str()) {
            Ok(id) => Ok(id),
            Err(e) => Err(storage_failure(e)),
        }
    }

    /// Stores a new task with this description and priority, no title and no due date;
    /// returns its id.
    pub fn add_task_with_priority(&mut self, description: String, priority: Priority) -> (r: Result<
        i64,
        TaskError,
    >)
        requires
            old(self).wf(),
        ensures
            final(self).wf(),
            r matches Ok(id) ==> {
                &&& !old(self).rows().contains_key(id as int)
                &&& final(self).rows() == old(self).rows().insert(
                    id as int,
                    (Seq::<char>::empty(), description@, false, priority.rank() as int, None),
                )
            },
            r matches Err(e) ==> e is Storage && final(self).rows() == old(self).rows(),
    {
        match self.db.add_task_with_priority(description.as_str(), priority) {
            Ok(id) => Ok(id),
            Err(e) => Err(storage_failure(e)),
        }
    }

    /// Stores a new task with the fields of `task` but its id, and returns the id that the
    /// store gave it, one not already there.
    pub fn add_new_task(&mut self, task: &Task) -> (r: Result<i64, TaskError>)
        requires
            old(self).wf(),
        ensures
            final(self).wf(),
            r matches Ok(id) ==> {
                &&& !old(self).rows().contains_key(id as int)
                &&& final(self).rows() == old(self).rows().insert(id as int, task_fields(*task))
            },
            r is Err ==> final(self).rows() == old(self).rows(),
            r == Err::<i64, TaskError>(TaskError::InvalidDate) <==> !task.wf(),
    {
        let date_text = match &task.date {
            Some(d) => {
                if !d.is_valid() {
                    return Err(TaskError::InvalidDate);
                }
                Some(d.to_text())
            },
            None => None,
        };
        let date = match &date_text {
            Some(s) => Some(s.as_str()),
            None => None,
        };
        match self.db.insert_task(
            task.title.as_str(),
            task.description.as_str(),
            task.completed,
            task.priority,
            date,
        ) {
            Ok(id) => Ok(id),
            Err(e) => Err(storage_failure(e)),
        }
    }

    /// The task `task_id`, if the store has it and can read it.
    pub fn get_task(&self, task_id: i32) -> (r: Option<Task>)
        ensures
            r matches Some(t) ==> self.rows().contains_key(task_id as int) && task_matches(
                t,
                task_id as int,
                self.rows()[task_id as int],
            ),
            !self.rows().contains_key(task_id as int) ==> r is None,
    {
        match self.db.get_task_by_id(task_id as i64) {
            Ok(Some(row)) => task_from_row(&row),
            _ => None,
        }
    }

    /// Every task, in the order of their ids.
    pub fn get_all_tasks(&self) -> (r: Result<Vec<Task>, TaskError>)
        ensures
            r matches Ok(v) ==> lists_tasks(self.rows(), v@, RowOrder::ById),
            r is Ok ==> all_readable(self.rows()),
            r matches Err(TaskError::UnreadableRow(id)) ==> self.rows().contains_key(id as int)
                && !readable(id as int, self.rows()[id as int]),
            r matches Err(e) ==> e is Storage || e is UnreadableRow,
    {
        let rows = match self.db.get_all_tasks() {
            Ok(rows) => rows,
            Err(e) => return Err(storage_failure(e)),
        };
        self.read_listing(&rows, Ghost(RowOrder::ById))
    }

    fn read_listing(&self, rows: &Vec<TaskRow>, order: Ghost<RowOrder>) -> (r: Result<Vec<Task>, TaskError>)
        requires
            lists_rows(self.rows(), rows@, order@),
        ensures
            r matches Ok(v) ==> lists_tasks(self.rows(), v@, order@),
            r is Ok <==> all_readable(self.rows()),
            r matches Err(TaskError::UnreadableRow(id)) ==> self.rows().contains_key(id as int)
                && !readable(id as int, self.rows()[id as int]),
            r matches Err(e) ==> e is UnreadableRow,
    {
        match tasks_from_rows(rows) {
            Ok(tasks) => {
                proof {
                    lemma_listing_carries_over(self.rows(), rows@, tasks@, order@);
                    lemma_listing_all_readable(self.rows(), rows@, order@);
                }
                Ok(tasks)
            },
            Err(id) => {
                proof {
                    lemma_unreadable_is_stored(self.rows(), rows@, order@, id);
                }
                Err(TaskError::UnreadableRow(id))
            },
        }
    }

    /// Every task, ordered by priority as `sort` says; tasks of equal priority in the order in
    /// which they were stored.
    pub fn get_all_tasks_sorted(&self, sort: SortOrder) -> (r: Result<Vec<Task>, TaskError>)
        ensures
            r matches Ok(v) ==> lists_tasks(self.rows(), v@, order_of(sort)),
            r is Ok ==> all_readable(self.rows()),
            r matches Err(TaskError::UnreadableRow(id)) ==> self.rows().contains_key(id as int)
                && !readable(id as int, self.rows()[id as int]),
            r matches Err(e) ==> e is Storage || e is UnreadableRow,
    {
        let listed = match sort {
            SortOrder::High => self.db.get_all_task_by_highest_priority(),
            SortOrder::Low => self.db.get_all_task_by_lowest_priority(),
        };
        let rows = match listed {
            Ok(rows) => rows,
            Err(e) => return Err(storage_failure(e)),
        };
        self.read_listing(&rows, Ghost(order_of(sort)))
    }

    /// Marks the task `task_id` completed; returns the number of tasks changed.
    pub fn mark_completed(&mut self, task_id: i32) -> (r: Result<usize, TaskError>)
        requires
            old(self).wf(),
        ensures
            final(self).wf(),
            r matches Ok(n) ==> {
                let m = old(self).rows();
                &&& n == rows_touched(m, task_id as int)
                &&& final(self).rows() == rows_updated(m, task_id as int, with_completed(m[task_id as int], true))
            },
            r matches Err(e) ==> e is Storage && final(self).rows() == old(self).rows(),
    {
        self.toggle_task_completed(task_id, true)
    }

    /// Sets the completed flag of the task `task_id`; returns the number of tasks changed.
    pub fn toggle_task_completed(&mut self, task_id: i32, completed: bool) -> (r: Result<
        usize,
        TaskError,
    >)
        requires
            old(self).wf(),
        ensures
            final(self).wf(),
            r matches Ok(n) ==> {
                let m = old(self).rows();
                &&& n == rows_touched(m, task_id as int)
                &&& final(self).rows() == rows_updated(m, task_id as int, with_completed(m[task_id as int], completed))
            },
            r matches Err(e) ==> e is Storage && final(self).rows() == old(self).rows(),
    {
        match self.db.set_task_completed(task_id as i64, completed) {
            Ok(n) => Ok(n),
            Err(e) => Err(storage_failure(e)),
        }
    }

    /// Sets the priority of the task `task_id`; returns the number of tasks changed.
    pub fn change_priortiy(&mut self, task_id: i32, priority: Priority) -> (r: Result<
        usize,
        TaskError,
    >)
        requires
            old(self).wf(),
        ensures
            final(self).wf(),
            r matches Ok(n) ==> {
                let m = old(self).rows();
                &&& n == rows_touched(m, task_id as int)
                &&& final(self).rows() == rows_updated(m, task_id as int, with_priority(m[task_id as int], priority.rank() as int))
            },
            r matches Err(e) ==> e is Storage && final(self).rows() == old(self).rows(),
    {
        match self.db.update_task_priority(task_id as i64, priority) {
            Ok(n) => Ok(n),
            Err(e) => Err(storage_failure(e)),
        }
    }

    /// Writes every field of `task` into the stored task with its id; returns the number of
    /// tasks changed.
    pub fn update_task(&mut self, task: &Task) -> (r: Result<usize, TaskError>)
        requires
            old(self).wf(),
        ensures
            final(self).wf(),
            r matches Ok(n) ==> {
                &&& n == rows_touched(old(self).rows(), task.id as int)
                &&& final(self).rows() == rows_updated(old(self).rows(), task.id as int, task_fields(*task))
            },
            r is Err ==> final(self).rows() == old(self).rows(),
            r == Err::<usize, TaskError>(TaskError::InvalidDate) <==> !task.wf(),
    {
        let date_text = match &task.date {
            Some(d) => {
                if !d.is_valid() {
                    return Err(TaskError::InvalidDate);
                }
                Some(d.to_text())
            },
            None => None,
        };
        let date = match &date_text {
            Some(s) => Some(s.as_str()),
            None => None,
        };
        match self.db.update_task(
            task.id as i64,
            task.title.as_str(),
            task.description.as_str(),
            task.completed,
            task.priority,
            date,
        ) {
            Ok(n) => Ok(n),
            Err(e) => Err(storage_failure(e)),
        }
    }

    /// Removes the task `task_id`; returns the number of tasks removed.
    pub fn delete_task(&mut self, task_id: i32) -> (r: Result<usize, TaskError>)
        requires
            old(self).wf(),
        ensures
            final(self).wf(),
            r matches Ok(n) ==> {
                &&& n == rows_touched(old(self).rows(), task_id as int)
                &&& final(self).rows() == old(self).rows().remove(task_id as int)
            },
            r matches Err(e) ==> e is Storage && final(self).rows() == old(self).rows(),
    {
        match self.db.delete_task(task_id as i64) {
            Ok(n) => Ok(n),
            Err(e) => Err(storage_failure(e)),
        }
    }

    /// The number of stored tasks.
    pub fn length(&self) -> (r: Result<i64, TaskError>)
        ensures
            r matches Ok(n) ==> n == self.rows().dom().len(),
            r matches Err(e) ==> e is Storage,
    {
        match self.db.get_record_count() {
            Ok(n) => Ok(n),
            Err(e) => Err(storage_failure(e)),
        }
    }

    /// Whether there are no stored tasks.
    pub fn is_empty(&self) -> (r: Result<bool, TaskError>)
        ensures
            r matches Ok(b) ==> b == (self.rows().dom().len() == 0),
            r matches Err(e) ==> e is Storage,
    {
        match self.length() {
            Ok(n) => Ok(n == 0),
            Err(e) => Err(e),
        }
    }

    /// Removes every task; returns their number.
    pub fn delete_all_tasks(&mut self) -> (r: Result<usize, TaskError>)
        requires
            old(self).wf(),
        ensures
            final(self).wf(),
            r matches Ok(n) ==> n == old(self).rows().dom().len() && final(self).rows().dom().len() == 0,
            r matches Err(e) ==> e is Storage && final(self).rows() == old(self).rows(),
    {
        match self.db.clear() {
            Ok(n) => Ok(n),
            Err(e) => Err(storage_failure(e)),
        }
    }
}

} // verus!
