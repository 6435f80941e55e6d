//! Properties that relate the queries and mutations of a document.
use crate::handlers::{completes, creates_project, creates_task, error_status, ApiError};
use crate::model::{first_task_with_id, first_with_id, is_pending, no_slug, Document, Task, INBOX_ID};
use crate::query::{filtered, passes, status_filter_of, StatusFilter};
use vstd::prelude::*;

verus! {

/// Completing a task twice at the same time leaves it as the first completion
/// left it, with the same status text, and the task list as it was.
pub proof fn lemma_complete_idempotent(
    d0: Document,
    d1: Document,
    d2: Document,
    id: Seq<char>,
    now: i64,
    r1: Result<Task, ApiError>,
    r2: Result<Task, ApiError>,
    k: int,
)
    requires
        first_task_with_id(d0.tasks@, id, k),
        completes(d0, d1, id, now, r1),
        completes(d1, d2, id, now, r2),
    ensures
        r1 matches Ok(t1) && r2 matches Ok(t2) && t2 == (Task { status: t2.status, ..t1 })
            && t2.status@ == t1.status@,
        d2.tasks@.len() == d1.tasks@.len(),
        forall|i: int| 0 <= i < d1.tasks@.len() && i != k ==> d2.tasks@[i] == d1.tasks@[i],
        d2.projects == d1.projects,
        d2.log_entries == d1.log_entries,
{
    assert forall|j: int| 0 <= j < k implies (#[trigger] d1.tasks@[j]).id@ != id by {
        assert(d1.tasks@[j] == d0.tasks@[j]);
    }
    assert(first_task_with_id(d1.tasks@, id, k));
}

/// The status query `pending` keeps exactly the tasks that are neither
/// archived nor completed, whatever their status text.
pub proof fn lemma_pending_filter(d: Document, f: StatusFilter, t: Task)
    requires
        status_filter_of("pending"@, f),
    ensures
        filtered(d, None, Some(f)).contains(t) <==> (d.tasks@.contains(t) && is_pending(t)),
{
    let pred = |u: Task| passes(d.projects@, u, None, Some(f));
    if d.tasks@.contains(t) && is_pending(t) {
        let i = choose|i: int| 0 <= i < d.tasks@.len() && d.tasks@[i] == t;
        d.tasks@.lemma_filter_contains(pred, i);
    }
    if filtered(d, None, Some(f)).contains(t) {
        let i = choose|i: int| 0 <= i < d.tasks@.filter(pred).len() && d.tasks@.filter(pred)[i] == t;
        d.tasks@.lemma_filter_pred(pred, i);
        d.tasks@.lemma_filter_contains_rev(pred, t);
    }
}

/// A task whose project id names no project is left out by every project filter.
pub proof fn lemma_unknown_project_excluded(
    d: Document,
    slug: Seq<char>,
    status: Option<StatusFilter>,
    t: Task,
)
    requires
        forall|j: int| 0 <= j < d.projects@.len() ==> (#[trigger] d.projects@[j]).id@ != t.project_id@,
    ensures
        !filtered(d, Some(slug), status).contains(t),
{
    let pred = |u: Task| passes(d.projects@, u, Some(slug), status);
    if filtered(d, Some(slug), status).contains(t) {
        let i = choose|i: int| 0 <= i < d.tasks@.filter(pred).len() && d.tasks@.filter(pred)[i] == t;
        d.tasks@.lemma_filter_pred(pred, i);
        let k = choose|k: int| first_with_id(d.projects@, t.project_id@, k) && d.projects@[k].slug@ == slug;
        assert(d.projects@[k].id@ != t.project_id@);
    }
}

/// Creating a project with an empty slug is refused as a bad request and adds no project.
pub proof fn lemma_empty_slug_refused(
    d0: Document,
    d1: Document,
    name: Seq<char>,
    id: Seq<char>,
    now: i64,
    r: Result<crate::model::Project, ApiError>,
)
    requires
        creates_project(d0, d1, name, Seq::empty(), id, now, r),
    ensures
        r matches Err(e) && error_status(e) == 400,
        d1.projects@.len() == d0.projects@.len(),
{
}

/// A task created for the inbox slug while no project has that slug gets the
/// inbox id, and no listing by that slug holds it.
pub proof fn lemma_inbox_fallback(
    d0: Document,
    d1: Document,
    content: Seq<char>,
    id: Seq<char>,
    now: i64,
    r: Result<Task, ApiError>,
    status: Option<StatusFilter>,
)
    requires
        content.len() > 0,
        no_slug(d0.projects@, INBOX_ID@),
        creates_task(d0, d1, content, INBOX_ID@, id, now, r),
    ensures
        r matches Ok(t) && t.project_id@ == INBOX_ID@ && d1.tasks@.contains(t)
            && !filtered(d1, Some(INBOX_ID@), status).contains(t),
{
    let t = r->Ok_0;
    assert(!exists|i: int| crate::model::first_with_slug(d0.projects@, INBOX_ID@, i));
    assert(d1.tasks@.last() == t);
    let pred = |u: Task| passes(d1.projects@, u, Some(INBOX_ID@), status);
    if filtered(d1, Some(INBOX_ID@), status).contains(t) {
        let i = choose|i: int| 0 <= i < d1.tasks@.filter(pred).len() && d1.tasks@.filter(pred)[i] == t;
        d1.tasks@.lemma_filter_pred(pred, i);
        let k = choose|k: int|
            first_with_id(d1.projects@, t.project_id@, k) && d1.projects@[k].slug@ == INBOX_ID@;
        assert(d0.projects@[k].slug@ != INBOX_ID@);
    }
}

} // verus!
