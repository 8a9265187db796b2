use vstd::prelude::*;

use crate::date::Date;

verus! {

/// How urgent a task is; ordered `Low < Medium < High`.
#[derive(Debug, Clone, Copy, PartialEq, Eq, PartialOrd, Ord, Structural)]
pub enum Priority {
    Low,
    Medium,
    High,
}

impl Priority {
    /// The rank of a priority in the order `Low < Medium < High`; also its stored code.
    pub open spec fn rank(self) -> nat {
        match self {
            Priority::Low => 0,
            Priority::Medium => 1,
            Priority::High => 2,
        }
    }

    /// The priority that follows `self` in the cycle `Low -> Medium -> High -> Low`.
    pub open spec fn spec_next(self) -> Priority {
        match self {
            Priority::Low => Priority::Medium,
            Priority::Medium => Priority::High,
            Priority::High => Priority::Low,
        }
    }

    /// The priority whose rank is `code`, if there is one.
    pub open spec fn of_code(code: int) -> Option<Priority> {
        if code == 0 {
            Some(Priority::Low)
        } else if code == 1 {
            Some(Priority::Medium)
        } else if code == 2 {
            Some(Priority::High)
        } else {
            None
        }
    }

    /// The one-letter label of a priority.
    pub open spec fn spec_letter(self) -> char {
        match self {
            Priority::Low => 'L',
            Priority::Medium => 'M',
            Priority::High => 'H',
        }
    }

    pub fn next(&self) -> (r: Priority)
        ensures
            r == self.spec_next(),
            r.rank() == (self.rank() + 1) % 3,
    {
        match self {
            Priority::Low => Priority::Medium,
            Priority::Medium => Priority::High,
            Priority::High => Priority::Low,
        }
    }

    pub fn from_u8(value: u8) -> (r: Option<Priority>)
        ensures
            r == Priority::of_code(value as int),
            r matches Some(p) ==> p.rank() == value,
            r is None <==> value > 2,
    {
        match value {
            0 => Some(Priority::Low),
            1 => Some(Priority::Medium),
            2 => Some(Priority::High),
            _ => None,
        }
    }

    pub fn to_usize(&self) -> (r: usize)
        ensures
            r == self.rank(),
    {
        match self {
            Priority::Low => 0,
            Priority::Medium => 1,
            Priority::High => 2,
        }
    }

    /// The one-letter label shown for a priority: `L`, `M` or `H`.
    pub fn letter(&self) -> (r: char)
        ensures
            r == self.spec_letter(),
    {
        match self {
            Priority::Low => 'L',
            Priority::Medium => 'M',
            Priority::High => 'H',
        }
    }

    /// Reads a one-letter label, in either case: `L`, `M` or `H`.
    pub fn from_letter(c: char) -> (r: Option<Priority>)
        ensures
            r matches Some(p) ==> p.spec_letter() == c || p.spec_letter() as u32 + 32 == c as u32,
            r is None <==> !(c == 'L' || c == 'l' || c == 'M' || c == 'm' || c == 'H' || c == 'h'),
    {
        match c {
            'L' | 'l' => Some(Priority::Low),
            'M' | 'm' => Some(Priority::Medium),
            'H' | 'h' => Some(Priority::High),
            _ => None,
        }
    }
}

/// Cycling the priority three times gives back the priority one started from.
pub proof fn lemma_priority_cycle(p: Priority)
    ensures
        p.spec_next().spec_next().spec_next() == p,
        p.spec_next() != p,
{
}

/// A to-do item.
#[derive(Debug, Clone, PartialEq, Eq)]
pub struct Task {
    pub id: i32,
    pub title: String,
    pub description: String,
    pub completed: bool,
    pub priority: Priority,
    pub date: Option<Date>,
}

impl Task {
    /// Whether the task's fields are values that storage can hold: a due date, if any, is a
    /// calendar date with a four-digit year.
    pub open spec fn wf(self) -> bool {
        self.date matches Some(d) ==> d.wf()
    }

    /// A blank task: no title or description, not completed, low priority, no due date.
    pub fn new() -> (t: Task)
        ensures
            t.id == 0,
            t.title@ == Seq::<char>::empty(),
            t.description@ == Seq::<char>::empty(),
            !t.completed,
            t.priority == Priority::Low,
            t.date is None,
            t.wf(),
    {
        Task {
            id: 0,
            title: String::new(),
            description: String::new(),
            completed: false,
            priority: Priority::Low,
            date: None,
        }
    }

    /// A copy of the task, field by field.
    pub fn duplicate(&self) -> (t: Task)
        ensures
            t == *self,
    {
        Task {
            id: self.id,
            title: self.title.clone(),
            description: self.description.clone(),
            completed: self.completed,
            priority: self.priority,
            date: self.date,
        }
    }
}

impl Default for Task {
    fn default() -> (t: Task)
        ensures
            t.id == 0,
            t.title@ == "Test task title"@,
            t.description@ == "Test task description"@,
            !t.completed,
            t.priority == Priority::Low,
            t.date is None,
    {
        let mut t = Task::new();
        t.title = "Test task title".to_owned();
        t.description = "Test task description".to_owned();
        t
    }
}

} // verus!
