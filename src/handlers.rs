//! Mutations of a document: creating projects, tasks and log entries,
//! completing and archiving tasks.
use crate::model::{
    first_task_with_id, first_with_slug, no_slug, no_task_id, resolved_project_id, same_project,
    Document, LogEntry, Project, Task, DEFAULT_COLOR, NO_EXTRA, STATUS_DONE, STATUS_TODO,
};
use crate::outside::{new_id, now_millis};
use vstd::prelude::*;

verus! {

/// Why a request was refused.
#[derive(Clone, Copy, Debug, PartialEq, Eq, Structural)]
pub enum ApiError {
    /// A project needs a non-empty name and slug.
    NameAndSlugRequired,
    /// A task or log entry needs non-empty content.
    ContentRequired,
    /// No task has the given id.
    TaskNotFound,
    /// No endpoint answers the method and path.
    NotFound,
}

/// The HTTP status that reports error `e`: 400 for a missing field, 404 for
/// something that does not exist.
pub open spec fn error_status(e: ApiError) -> u16 {
    match e {
        ApiError::NameAndSlugRequired | ApiError::ContentRequired => 400u16,
        ApiError::TaskNotFound | ApiError::NotFound => 404u16,
    }
}

impl ApiError {
    /// The HTTP status that reports this error.
    pub fn status(&self) -> (r: u16)
        ensures
            r == error_status(*self),
    {
        match self {
            ApiError::NameAndSlugRequired | ApiError::ContentRequired => 400,
            ApiError::TaskNotFound | ApiError::NotFound => 404,
        }
    }

    /// The message sent with this error.
    pub fn message(&self) -> (r: String)
        ensures
            r@ == match self {
                ApiError::NameAndSlugRequired => "name and slug required"@,
                ApiError::ContentRequired => "content required"@,
                ApiError::TaskNotFound => "task not found"@,
                ApiError::NotFound => "not found"@,
            },
    {
        match self {
            ApiError::NameAndSlugRequired => "name and slug required".to_owned(),
            ApiError::ContentRequired => "content required".to_owned(),
            ApiError::TaskNotFound => "task not found".to_owned(),
            ApiError::NotFound => "not found".to_owned(),
        }
    }
}

/// `p` is a new project with these values, a default color, no tasks, and not the inbox.
pub open spec fn new_project(p: Project, id: Seq<char>, name: Seq<char>, slug: Seq<char>, now: i64) -> bool {
    &&& p.id@ == id
    &&& p.name@ == name
    &&& p.slug@ == slug
    &&& p.color@ == DEFAULT_COLOR@
    &&& p.task_order@.len() == 0
    &&& p.created_at == now
    &&& !p.is_inbox
    &&& p.extra@ == NO_EXTRA@
}

/// `d1` is `d0` with project `p` appended.
pub open spec fn project_added(d0: Document, d1: Document, p: Project) -> bool {
    &&& d1.projects@.len() == d0.projects@.len() + 1
    &&& forall|i: int| 0 <= i < d0.projects@.len() ==> d1.projects@[i] == d0.projects@[i]
    &&& same_project(d1.projects@.last(), p)
    &&& d1.tasks == d0.tasks
    &&& d1.log_entries == d0.log_entries
    &&& d1.extra == d0.extra
}

/// What creating a project with `name` and `slug` under `id` at time `now` does to `d0`.
pub open spec fn creates_project(
    d0: Document,
    d1: Document,
    name: Seq<char>,
    slug: Seq<char>,
    id: Seq<char>,
    now: i64,
    r: Result<Project, ApiError>,
) -> bool {
    if name.len() == 0 || slug.len() == 0 {
        r == Err::<Project, ApiError>(ApiError::NameAndSlugRequired) && d1 == d0
    } else {
        r matches Ok(p) && new_project(p, id, name, slug, now) && project_added(d0, d1, p)
    }
}

/// `t` is a new task with these values: to do, not archived, at no depth.
pub open spec fn new_task(t: Task, id: Seq<char>, content: Seq<char>, project_id: Seq<char>, now: i64) -> bool {
    &&& t.id@ == id
    &&& t.content@ == content
    &&& !t.completed
    &&& t.status@ == STATUS_TODO@
    &&& !t.archived
    &&& t.project_id@ == project_id
    &&& t.parent_id is None
    &&& t.indent == 0
    &&& t.created_at == now
    &&& t.completed_at is None
    &&& t.due_at is None
    &&& t.scheduled is None
    &&& t.notes is None
    &&& t.recurrence is None
    &&& t.extra@ == NO_EXTRA@
}

/// `d1` is `d0` with task `t` appended and its id appended to the task order
/// of the first project with slug `slug`, if there is one.
pub open spec fn task_added(d0: Document, d1: Document, t: Task, slug: Seq<char>) -> bool {
    &&& d1.tasks@ == d0.tasks@.push(t)
    &&& d1.log_entries == d0.log_entries
    &&& d1.extra == d0.extra
    &&& no_slug(d0.projects@, slug) ==> d1.projects == d0.projects
    &&& forall|k: int|
        first_with_slug(d0.projects@, slug, k) ==> {
            &&& d1.projects@.len() == d0.projects@.len()
            &&& forall|i: int| 0 <= i < d0.projects@.len() && i != k ==> d1.projects@[i] == d0.projects@[i]
            &&& d1.projects@[k].task_order@ == d0.projects@[k].task_order@.push(t.id)
            &&& d1.projects@[k] == (Project { task_order: d1.projects@[k].task_order, ..d0.projects@[k] })
        }
}

/// What creating a task with `content` in the project of slug `slug` under
/// `id` at time `now` does to `d0`.
pub open spec fn creates_task(
    d0: Document,
    d1: Document,
    content: Seq<char>,
    slug: Seq<char>,
    id: Seq<char>,
    now: i64,
    r: Result<Task, ApiError>,
) -> bool {
    if content.len() == 0 {
        r == Err::<Task, ApiError>(ApiError::ContentRequired) && d1 == d0
    } else {
        r matches Ok(t) && new_task(t, id, content, resolved_project_id(d0.projects@, slug), now)
            && task_added(d0, d1, t, slug)
    }
}

/// `b` is task `a` completed at time `now`.
pub open spec fn completed_from(a: Task, b: Task, now: i64) -> bool {
    &&& b == (Task { completed: true, status: b.status, completed_at: Some(now), ..a })
    &&& b.status@ == STATUS_DONE@
}

/// `b` is task `a` archived.
pub open spec fn archived_from(a: Task, b: Task) -> bool {
    b == (Task { archived: true, ..a })
}

/// `d1` is `d0` with task `k` replaced by `t`.
pub open spec fn task_replaced(d0: Document, d1: Document, k: int, t: Task) -> bool {
    &&& d1.tasks@ == d0.tasks@.update(k, t)
    &&& d1.projects == d0.projects
    &&& d1.log_entries == d0.log_entries
    &&& d1.extra == d0.extra
}

/// What completing task `id` at time `now` does to `d0`.
pub open spec fn completes(d0: Document, d1: Document, id: Seq<char>, now: i64, r: Result<Task, ApiError>) -> bool {
    &&& no_task_id(d0.tasks@, id) ==> r == Err::<Task, ApiError>(ApiError::TaskNotFound) && d1 == d0
    &&& forall|k: int| first_task_with_id(d0.tasks@, id, k) ==>
        (r matches Ok(t) && completed_from(d0.tasks@[k], t, now) && task_replaced(d0, d1, k, t))
}

/// What archiving task `id` does to `d0`.
pub open spec fn archives(d0: Document, d1: Document, id: Seq<char>, r: Result<Task, ApiError>) -> bool {
    &&& no_task_id(d0.tasks@, id) ==> r == Err::<Task, ApiError>(ApiError::TaskNotFound) && d1 == d0
    &&& forall|k: int| first_task_with_id(d0.tasks@, id, k) ==>
        (r matches Ok(t) && archived_from(d0.tasks@[k], t) && task_replaced(d0, d1, k, t))
}

/// What creating a log entry with `content` in the project of slug `slug`
/// under `id` at time `now` does to `d0`.
pub open spec fn creates_log_entry(
    d0: Document,
    d1: Document,
    content: Seq<char>,
    slug: Seq<char>,
    id: Seq<char>,
    now: i64,
    r: Result<LogEntry, ApiError>,
) -> bool {
    if content.len() == 0 {
        r == Err::<LogEntry, ApiError>(ApiError::ContentRequired) && d1 == d0
    } else {
        &&& r matches Ok(e)
        &&& e.id@ == id
        &&& e.content@ == content
        &&& e.created_at == now
        &&& e.project_id@ == resolved_project_id(d0.projects@, slug)
        &&& e.extra@ == NO_EXTRA@
        &&& d1.log_entries@ == d0.log_entries@.push(e)
        &&& d1.projects == d0.projects
        &&& d1.tasks == d0.tasks
        &&& d1.extra == d0.extra
    }
}

impl Document {
    /// Creates a project under the given id and time.
    pub fn create_project_with(&mut self, name: &str, slug: &str, id: String, now: i64) -> (r: Result<
        Project,
        ApiError,
    >)
        ensures
            creates_project(*old(self), *final(self), name@, slug@, id@, now, r),
            old(self).wf() && (forall|j: int| 0 <= j < old(self).projects@.len() ==> (#[trigger] old(self).projects@[j]).id@ != id@)
                ==> final(self).wf(),
    {
        if name.unicode_len() == 0 || slug.unicode_len() == 0 {
            return Err(ApiError::NameAndSlugRequired);
        }
        let p = Project {
            id,
            name: name.to_owned(),
            slug: slug.to_owned(),
            color: DEFAULT_COLOR.to_owned(),
            task_order: Vec::new(),
            created_at: now,
            is_inbox: false,
            extra: NO_EXTRA.to_owned(),
        };
        let out = p.duplicate();
        self.projects.push(p);
        Ok(out)
    }

    /// Creates a project under a fresh random id, at the time now.
    pub fn create_project(&mut self, name: &str, slug: &str) -> (r: Result<Project, ApiError>)
        ensures
            exists|id: Seq<char>, now: i64|
                id.len() == 36 && creates_project(*old(self), *final(self), name@, slug@, id, now, r),
    {
        let id = new_id();
        let now = now_millis();
        self.create_project_with(name, slug, id, now)
    }

    /// Creates a task under the given id and time, in the project that `slug`
    /// resolves to, and appends it to that project's task order.
    pub fn create_task_with(&mut self, content: &str, slug: &str, id: String, now: i64) -> (r: Result<
        Task,
        ApiError,
    >)
        ensures
            creates_task(*old(self), *final(self), content@, slug@, id@, now, r),
            old(self).wf() && no_task_id(old(self).tasks@, id@) ==> final(self).wf(),
    {
        if content.unicode_len() == 0 {
            return Err(ApiError::ContentRequired);
        }
        let found = self.project_with_slug(slug);
        let project_id = self.resolve_project(slug);
        let t = Task {
            id: id.clone(),
            content: content.to_owned(),
            completed: false,
            status: STATUS_TODO.to_owned(),
            archived: false,
            project_id,
            parent_id: None,
            indent: 0,
            created_at: now,
            completed_at: None,
            due_at: None,
            scheduled: None,
            notes: None,
            recurrence: None,
            extra: NO_EXTRA.to_owned(),
        };
        let out = t.duplicate();
        self.tasks.push(t);
        match found {
            Some(k) => {
                let mut p = self.projects[k].duplicate();
                p.task_order.push(id);
                self.projects.set(k, p);
                proof {
                    let d0 = *old(self);
                    assert forall|j: int| first_with_slug(d0.projects@, slug@, j) implies j == k by {
                        if j < k {
                            assert(d0.projects@[j].slug@ != slug@);
                        } else if j > k {
                            assert(d0.projects@[k as int].slug@ != slug@);
                        }
                    }
                }
            },
            None => {},
        }
        Ok(out)
    }

    /// Creates a task under a fresh random id, at the time now.
    pub fn create_task(&mut self, content: &str, slug: &str) -> (r: Result<Task, ApiError>)
        ensures
            exists|id: Seq<char>, now: i64|
                id.len() == 36 && creates_task(*old(self), *final(self), content@, slug@, id, now, r),
    {
        let id = new_id();
        let now = now_millis();
        self.create_task_with(content, slug, id, now)
    }

    /// Marks task `id` done at time `now`.
    pub fn complete_task_with(&mut self, id: &str, now: i64) -> (r: Result<Task, ApiError>)
        ensures
            completes(*old(self), *final(self), id@, now, r),
            old(self).wf() ==> final(self).wf(),
    {
        match self.task_with_id(id) {
            None => Err(ApiError::TaskNotFound),
            Some(k) => {
                let mut t = self.tasks[k].duplicate();
                t.completed = true;
                t.status = STATUS_DONE.to_owned();
                t.completed_at = Some(now);
                let out = t.duplicate();
                self.tasks.set(k, t);
                proof {
                    let d0 = *old(self);
                    assert forall|j: int| first_task_with_id(d0.tasks@, id@, j) implies j == k by {
                        if j < k {
                            assert(d0.tasks@[j].id@ != id@);
                        } else if j > k {
                            assert(d0.tasks@[k as int].id@ != id@);
                        }
                    }
                }
                Ok(out)
            },
        }
    }

    /// Marks task `id` done at the time now.
    pub fn complete_task(&mut self, id: &str) -> (r: Result<Task, ApiError>)
        ensures
            exists|now: i64| completes(*old(self), *final(self), id@, now, r),
    {
        let now = now_millis();
        self.complete_task_with(id, now)
    }

    /// Archives task `id`.
    pub fn archive_task(&mut self, id: &str) -> (r: Result<Task, ApiError>)
        ensures
            archives(*old(self), *final(self), id@, r),
            old(self).wf() ==> final(self).wf(),
    {
        match self.task_with_id(id) {
            None => Err(ApiError::TaskNotFound),
            Some(k) => {
                let mut t = self.tasks[k].duplicate();
                t.archived = true;
                let out = t.duplicate();
                self.tasks.set(k, t);
                proof {
                    let d0 = *old(self);
                    assert forall|j: int| first_task_with_id(d0.tasks@, id@, j) implies j == k by {
                        if j < k {
                            assert(d0.tasks@[j].id@ != id@);
                        } else if j > k {
                            assert(d0.tasks@[k as int].id@ != id@);
                        }
                    }
                }
                Ok(out)
            },
        }
    }

    /// Appends a log entry under the given id and time, in the project that `slug` resolves to.
    pub fn create_log_entry_with(&mut self, content: &str, slug: &str, id: String, now: i64) -> (r: Result<
        LogEntry,
        ApiError,
    >)
        ensures
            creates_log_entry(*old(self), *final(self), content@, slug@, id@, now, r),
            old(self).wf() ==> final(self).wf(),
    {
        if content.unicode_len() == 0 {
            return Err(ApiError::ContentRequired);
        }
        let e = LogEntry {
            id,
            content: content.to_owned(),
            created_at: now,
            project_id: self.resolve_project(slug),
            extra: NO_EXTRA.to_owned(),
        };
        let out = e.duplicate();
        self.log_entries.push(e);
        Ok(out)
    }

    /// Appends a log entry under a fresh random id, at the time now.
    pub fn create_log_entry(&mut self, content: &str, slug: &str) -> (r: Result<LogEntry, ApiError>)
        ensures
            exists|id: Seq<char>, now: i64|
                id.len() == 36 && creates_log_entry(*old(self), *final(self), content@, slug@, id, now, r),
    {
        let id = new_id();
        let now = now_millis();
        self.create_log_entry_with(content, slug, id, now)
    }
}

} // verus!
