//! Read-only views of a document: task filtering, the status summary and listings.
use crate::model::{first_with_id, is_pending, same_project, same_projects, Document, LogEntry, Project, Task};
use crate::outside::{upper_of, uppercase};
use crate::text::same_text;
use vstd::prelude::*;

verus! {

/// How a task list is filtered by status.
#[derive(Clone, Debug)]
pub enum StatusFilter {
    /// Tasks that are neither archived nor completed.
    Pending,
    /// Tasks whose status is exactly this text.
    Exactly(String),
}

/// The filter that the status query value `s` asks for: `pending`, or the
/// upper-cased status.
pub open spec fn status_filter_of(s: Seq<char>, f: StatusFilter) -> bool {
    if s == "pending"@ {
        f is Pending
    } else {
        f matches StatusFilter::Exactly(x) && x@ == upper_of(s)
    }
}

/// The project of task `t` is known and has slug `slug`.
pub open spec fn in_project(ps: Seq<Project>, t: Task, slug: Seq<char>) -> bool {
    exists|i: int| first_with_id(ps, t.project_id@, i) && ps[i].slug@ == slug
}

/// Task `t` passes the status filter `f`.
pub open spec fn passes_status(t: Task, f: StatusFilter) -> bool {
    match f {
        StatusFilter::Pending => is_pending(t),
        StatusFilter::Exactly(s) => t.status@ == s@,
    }
}

/// Task `t` passes both filters; an absent filter passes every task.
pub open spec fn passes(
    ps: Seq<Project>,
    t: Task,
    project: Option<Seq<char>>,
    status: Option<StatusFilter>,
) -> bool {
    &&& (project matches Some(slug) ==> in_project(ps, t, slug))
    &&& (status matches Some(f) ==> passes_status(t, f))
}

/// The tasks of `d` that pass both filters, in the document's order.
pub open spec fn filtered(
    d: Document,
    project: Option<Seq<char>>,
    status: Option<StatusFilter>,
) -> Seq<Task> {
    d.tasks@.filter(|t: Task| passes(d.projects@, t, project, status))
}

/// The view of an optional string.
pub open spec fn opt_view(o: Option<&str>) -> Option<Seq<char>> {
    match o {
        Some(s) => Some(s@),
        None => None,
    }
}

/// The number of pending tasks of `d`.
pub open spec fn pending_count(d: Document) -> nat {
    d.tasks@.filter(|t: Task| is_pending(t)).len()
}

/// Counts of a document.
#[derive(Clone, Copy, Debug, PartialEq, Eq)]
pub struct Summary {
    pub tasks: usize,
    pub projects: usize,
    pub pending: usize,
}

/// The status filter that the query value `s` asks for.
pub fn status_filter(s: &str) -> (r: StatusFilter)
    ensures
        status_filter_of(s@, r),
{
    if same_text(s, "pending") {
        StatusFilter::Pending
    } else {
        StatusFilter::Exactly(uppercase(s))
    }
}

impl Document {
    /// Whether the project of task `t` is known and has slug `slug`.
    pub fn task_in_project(&self, t: &Task, slug: &str) -> (r: bool)
        ensures
            r == in_project(self.projects@, *t, slug@),
    {
        match self.project_with_id(t.project_id.as_str()) {
            Some(i) => {
                let r = same_text(self.projects[i].slug.as_str(), slug);
                proof {
                    if !r && in_project(self.projects@, *t, slug@) {
                        let k = choose|k: int|
                            first_with_id(self.projects@, t.project_id@, k)
                                && self.projects@[k].slug@ == slug@;
                        if k < i {
                            assert(self.projects@[k].id@ != t.project_id@);
                        } else if k > i {
                            assert(self.projects@[i as int].id@ != t.project_id@);
                        }
                    }
                }
                r
            },
            None => false,
        }
    }

    /// Whether task `t` passes both filters.
    pub fn task_passes(&self, t: &Task, project: Option<&str>, status: &Option<StatusFilter>) -> (r:
        bool)
        ensures
            r == passes(self.projects@, *t, opt_view(project), *status),
    {
        let in_proj = match project {
            Some(slug) => self.task_in_project(t, slug),
            None => true,
        };
        let status_ok = match status {
            Some(StatusFilter::Pending) => !t.archived && !t.completed,
            Some(StatusFilter::Exactly(s)) => t.status == *s,
            None => true,
        };
        in_proj && status_ok
    }

    /// The tasks that pass both filters, in the document's order; the status
    /// filter already resolved.
    pub fn filter_tasks(&self, project: Option<&str>, status: &Option<StatusFilter>) -> (r: Vec<
        Task,
    >)
        ensures
            r@ == filtered(*self, opt_view(project), *status),
    {
        let ghost pred = |t: Task| passes(self.projects@, t, opt_view(project), *status);
        let mut r: Vec<Task> = Vec::new();
        let mut i: usize = 0;
        while i < self.tasks.len()
            invariant
                i <= self.tasks@.len(),
                pred == (|t: Task| passes(self.projects@, t, opt_view(project), *status)),
                r@ == self.tasks@.subrange(0, i as int).filter(pred),
            decreases self.tasks@.len() - i,
        {
            let t = &self.tasks[i];
            proof {
                self.tasks@.subrange(0, i as int).lemma_filter_push(self.tasks@[i as int], pred);
                assert(self.tasks@.subrange(0, i as int).push(self.tasks@[i as int])
                    =~= self.tasks@.subrange(0, i + 1));
            }
            if self.task_passes(t, project, status) {
                r.push(t.duplicate());
            }
            i = i + 1;
        }
        assert(self.tasks@.subrange(0, i as int) =~= self.tasks@);
        r
    }

    /// The tasks that pass the project filter (a slug) and the status filter
    /// (`pending`, or a status matched after upper-casing).
    pub fn list_tasks(&self, project: Option<&str>, status: Option<&str>) -> (r: Vec<Task>)
        ensures
            exists|f: Option<StatusFilter>|
                {
                    &&& match status {
                        Some(s) => f matches Some(g) && status_filter_of(s@, g),
                        None => f is None,
                    }
                    &&& r@ == filtered(*self, opt_view(project), f)
                },
    {
        let f = match status {
            Some(s) => Some(status_filter(s)),
            None => None,
        };
        self.filter_tasks(project, &f)
    }

    /// The number of pending tasks.
    pub fn count_pending(&self) -> (r: usize)
        ensures
            r == pending_count(*self),
    {
        let ghost pred = |t: Task| is_pending(t);
        let mut n: usize = 0;
        let mut i: usize = 0;
        while i < self.tasks.len()
            invariant
                i <= self.tasks@.len(),
                pred == (|t: Task| is_pending(t)),
                n == self.tasks@.subrange(0, i as int).filter(pred).len(),
                n <= i,
            decreases self.tasks@.len() - i,
        {
            proof {
                self.tasks@.subrange(0, i as int).lemma_filter_push(self.tasks@[i as int], pred);
                assert(self.tasks@.subrange(0, i as int).push(self.tasks@[i as int])
                    =~= self.tasks@.subrange(0, i + 1));
            }
            if !self.tasks[i].archived && !self.tasks[i].completed {
                n = n + 1;
            }
            i = i + 1;
        }
        assert(self.tasks@.subrange(0, i as int) =~= self.tasks@);
        n
    }

    /// The number of tasks, of projects, and of pending tasks.
    pub fn status_summary(&self) -> (r: Summary)
        ensures
            r.tasks == self.tasks@.len(),
            r.projects == self.projects@.len(),
            r.pending == pending_count(*self),
    {
        Summary { tasks: self.tasks.len(), projects: self.projects.len(), pending: self.count_pending() }
    }

    /// Every project, in the document's order.
    pub fn list_projects(&self) -> (r: Vec<Project>)
        ensures
            same_projects(r@, self.projects@),
    {
        let mut r: Vec<Project> = Vec::new();
        let mut i: usize = 0;
        while i < self.projects.len()
            invariant
                i <= self.projects@.len(),
                r@.len() == i,
                forall|j: int| 0 <= j < i ==> same_project(#[trigger] r@[j], self.projects@[j]),
            decreases self.projects@.len() - i,
        {
            r.push(self.projects[i].duplicate());
            i = i + 1;
        }
        r
    }

    /// Every log entry, in the order of insertion.
    pub fn list_log(&self) -> (r: Vec<LogEntry>)
        ensures
            r@ == self.log_entries@,
    {
        let mut r: Vec<LogEntry> = Vec::new();
        let mut i: usize = 0;
        while i < self.log_entries.len()
            invariant
                i <= self.log_entries@.len(),
                r@ == self.log_entries@.subrange(0, i as int),
            decreases self.log_entries@.len() - i,
        {
            r.push(self.log_entries[i].duplicate());
            i = i + 1;
            assert(r@ =~= self.log_entries@.subrange(0, i as int));
        }
        assert(r@ =~= self.log_entries@);
        r
    }
}

} // verus!
