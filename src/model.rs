//! The document and its records, as the library holds them.
use vstd::prelude::*;

verus! {

/// Project id given to a record whose project slug matches no project.
pub const INBOX_ID: &'static str = "inbox";

/// Color of a newly created project.
pub const DEFAULT_COLOR: &'static str = "#83a598";

/// Status of a task that is not done.
pub const STATUS_TODO: &'static str = "TODO";

/// Status of a completed task.
pub const STATUS_DONE: &'static str = "DONE";

/// Members of a record that this library does not interpret, as the text of a JSON object.
pub const NO_EXTRA: &'static str = "{}";

/// A project: a named, slugged group of tasks.
#[derive(Clone, Debug)]
pub struct Project {
    pub id: String,
    pub name: String,
    pub slug: String,
    pub color: String,
    pub task_order: Vec<String>,
    pub created_at: i64,
    pub is_inbox: bool,
    /// The other members of the stored record, as JSON object text.
    pub extra: String,
}

/// A task. Nullable members that this library carries but does not read hold
/// the JSON text of their value, `None` standing for `null`.
#[derive(Clone, Debug)]
pub struct Task {
    pub id: String,
    pub content: String,
    pub completed: bool,
    pub status: String,
    pub archived: bool,
    pub project_id: String,
    pub parent_id: Option<String>,
    pub indent: i64,
    pub created_at: i64,
    pub completed_at: Option<i64>,
    pub due_at: Option<String>,
    pub scheduled: Option<String>,
    pub notes: Option<String>,
    pub recurrence: Option<String>,
    /// The other members of the stored record, as JSON object text.
    pub extra: String,
}

/// An entry of the log.
#[derive(Clone, Debug)]
pub struct LogEntry {
    pub id: String,
    pub content: String,
    pub created_at: i64,
    pub project_id: String,
    /// The other members of the stored record, as JSON object text.
    pub extra: String,
}

/// The whole stored document. Projects and tasks are keyed by their `id`, in
/// the order in which the store lists them.
#[derive(Clone, Debug)]
pub struct Document {
    pub projects: Vec<Project>,
    pub tasks: Vec<Task>,
    pub log_entries: Vec<LogEntry>,
    /// The other top-level members of the stored document, as JSON object text.
    pub extra: String,
}

impl Document {
    /// Projects and tasks are keyed by id: no two projects, and no two tasks, share one.
    pub open spec fn wf(&self) -> bool {
        &&& forall|i: int, j: int|
            0 <= i < j < self.projects@.len() ==> (#[trigger] self.projects@[i]).id@
                != (#[trigger] self.projects@[j]).id@
        &&& forall|i: int, j: int|
            0 <= i < j < self.tasks@.len() ==> (#[trigger] self.tasks@[i]).id@
                != (#[trigger] self.tasks@[j]).id@
    }
}

/// A task is pending when it is neither archived nor completed, whatever its status.
pub open spec fn is_pending(t: Task) -> bool {
    !t.archived && !t.completed
}

/// Two projects hold the same values.
pub open spec fn same_project(a: Project, b: Project) -> bool {
    &&& a.id == b.id
    &&& a.name == b.name
    &&& a.slug == b.slug
    &&& a.color == b.color
    &&& a.task_order@ == b.task_order@
    &&& a.created_at == b.created_at
    &&& a.is_inbox == b.is_inbox
    &&& a.extra == b.extra
}

/// Two sequences of projects hold the same values, one by one.
pub open spec fn same_projects(a: Seq<Project>, b: Seq<Project>) -> bool {
    a.len() == b.len() && forall|i: int| 0 <= i < a.len() ==> same_project(#[trigger] a[i], b[i])
}

/// `i` is the first position whose project has slug `slug`.
pub open spec fn first_with_slug(ps: Seq<Project>, slug: Seq<char>, i: int) -> bool {
    &&& 0 <= i < ps.len()
    &&& ps[i].slug@ == slug
    &&& forall|j: int| 0 <= j < i ==> (#[trigger] ps[j]).slug@ != slug
}

/// No project has slug `slug`.
pub open spec fn no_slug(ps: Seq<Project>, slug: Seq<char>) -> bool {
    forall|j: int| 0 <= j < ps.len() ==> (#[trigger] ps[j]).slug@ != slug
}

/// `i` is the first position whose project has id `id`.
pub open spec fn first_with_id(ps: Seq<Project>, id: Seq<char>, i: int) -> bool {
    &&& 0 <= i < ps.len()
    &&& ps[i].id@ == id
    &&& forall|j: int| 0 <= j < i ==> (#[trigger] ps[j]).id@ != id
}

/// `i` is the first position whose task has id `id`.
pub open spec fn first_task_with_id(ts: Seq<Task>, id: Seq<char>, i: int) -> bool {
    &&& 0 <= i < ts.len()
    &&& ts[i].id@ == id
    &&& forall|j: int| 0 <= j < i ==> (#[trigger] ts[j]).id@ != id
}

/// No task has id `id`.
pub open spec fn no_task_id(ts: Seq<Task>, id: Seq<char>) -> bool {
    forall|j: int| 0 <= j < ts.len() ==> (#[trigger] ts[j]).id@ != id
}

/// The project id that a slug resolves to: that of the first project with the
/// slug, or the inbox id when none has it.
pub open spec fn resolved_project_id(ps: Seq<Project>, slug: Seq<char>) -> Seq<char> {
    if exists|i: int| first_with_slug(ps, slug, i) {
        ps[choose|i: int| first_with_slug(ps, slug, i)].id@
    } else {
        INBOX_ID@
    }
}

/// `o` again, with its string cloned.
pub fn copy_opt_string(o: &Option<String>) -> (r: Option<String>)
    ensures
        r == *o,
{
    match o {
        Some(s) => Some(s.clone()),
        None => None,
    }
}

/// `v` again, each string cloned.
pub fn copy_strings(v: &Vec<String>) -> (r: Vec<String>)
    ensures
        r@ == v@,
{
    let mut r: Vec<String> = Vec::new();
    let mut i: usize = 0;
    while i < v.len()
        invariant
            i <= v@.len(),
            r@ == v@.subrange(0, i as int),
        decreases v@.len() - i,
    {
        r.push(v[i].clone());
        i = i + 1;
        assert(r@ =~= v@.subrange(0, i as int));
    }
    assert(r@ =~= v@);
    r
}

impl Project {
    /// This project again, field by field.
    pub fn duplicate(&self) -> (r: Project)
        ensures
            same_project(r, *self),
    {
        Project {
            id: self.id.clone(),
            name: self.name.clone(),
            slug: self.slug.clone(),
            color: self.color.clone(),
            task_order: copy_strings(&self.task_order),
            created_at: self.created_at,
            is_inbox: self.is_inbox,
            extra: self.extra.clone(),
        }
    }
}

impl Task {
    /// A task with the same fields.
    pub fn duplicate(&self) -> (r: Task)
        ensures
            r == *self,
    {
        Task {
            id: self.id.clone(),
            content: self.content.clone(),
            completed: self.completed,
            status: self.status.clone(),
            archived: self.archived,
            project_id: self.project_id.clone(),
            parent_id: copy_opt_string(&self.parent_id),
            indent: self.indent,
            created_at: self.created_at,
            completed_at: self.completed_at,
            due_at: copy_opt_string(&self.due_at),
            scheduled: copy_opt_string(&self.scheduled),
            notes: copy_opt_string(&self.notes),
            recurrence: copy_opt_string(&self.recurrence),
            extra: self.extra.clone(),
        }
    }
}

impl LogEntry {
    /// This entry again, field by field.
    pub fn duplicate(&self) -> (r: LogEntry)
        ensures
            r == *self,
    {
        LogEntry {
            id: self.id.clone(),
            content: self.content.clone(),
            created_at: self.created_at,
            project_id: self.project_id.clone(),
            extra: self.extra.clone(),
        }
    }
}

impl Document {
    /// The empty document, as an absent or unreadable store gives it.
    pub fn empty() -> (r: Document)
        ensures
            r.projects@.len() == 0,
            r.tasks@.len() == 0,
            r.log_entries@.len() == 0,
            r.extra@ == NO_EXTRA@,
            r.wf(),
    {
        Document {
            projects: Vec::new(),
            tasks: Vec::new(),
            log_entries: Vec::new(),
            extra: NO_EXTRA.to_owned(),
        }
    }

    /// The position of the first project with slug `slug`, if any.
    pub fn project_with_slug(&self, slug: &str) -> (r: Option<usize>)
        ensures
            match r {
                Some(i) => first_with_slug(self.projects@, slug@, i as int),
                None => no_slug(self.projects@, slug@),
            },
    {
        let mut i: usize = 0;
        while i < self.projects.len()
            invariant
                i <= self.projects@.len(),
                forall|j: int| 0 <= j < i ==> (#[trigger] self.projects@[j]).slug@ != slug@,
            decreases self.projects@.len() - i,
        {
            if self.projects[i].slug == slug.to_owned() {
                return Some(i);
            }
            i = i + 1;
        }
        None
    }

    /// The position of the first project with id `id`, if any.
    pub fn project_with_id(&self, id: &str) -> (r: Option<usize>)
        ensures
            match r {
                Some(i) => first_with_id(self.projects@, id@, i as int),
                None => forall|j: int|
                    0 <= j < self.projects@.len() ==> (#[trigger] self.projects@[j]).id@ != id@,
            },
    {
        let mut i: usize = 0;
        while i < self.projects.len()
            invariant
                i <= self.projects@.len(),
                forall|j: int| 0 <= j < i ==> (#[trigger] self.projects@[j]).id@ != id@,
            decreases self.projects@.len() - i,
        {
            if self.projects[i].id == id.to_owned() {
                return Some(i);
            }
            i = i + 1;
        }
        None
    }

    /// The position of the first task with id `id`, if any.
    pub fn task_with_id(&self, id: &str) -> (r: Option<usize>)
        ensures
            match r {
                Some(i) => first_task_with_id(self.tasks@, id@, i as int),
                None => no_task_id(self.tasks@, id@),
            },
    {
        let mut i: usize = 0;
        while i < self.tasks.len()
            invariant
                i <= self.tasks@.len(),
                forall|j: int| 0 <= j < i ==> (#[trigger] self.tasks@[j]).id@ != id@,
            decreases self.tasks@.len() - i,
        {
            if self.tasks[i].id == id.to_owned() {
                return Some(i);
            }
            i = i + 1;
        }
        None
    }

    /// The id of the project that `slug` names: the first project with that
    /// slug, or the inbox id when there is none.
    pub fn resolve_project(&self, slug: &str) -> (r: String)
        ensures
            r@ == resolved_project_id(self.projects@, slug@),
    {
        match self.project_with_slug(slug) {
            Some(i) => {
                proof {
                    let k = choose|k: int| first_with_slug(self.projects@, slug@, k);
                    if k < i {
                        assert(self.projects@[k].slug@ != slug@);
                    } else if k > i {
                        assert(self.projects@[i as int].slug@ != slug@);
                    }
                }
                self.projects[i].id.clone()
            },
            None => INBOX_ID.to_owned(),
        }
    }
}

} // verus!
