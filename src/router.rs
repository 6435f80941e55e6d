//! Requests: splitting the URL, reading the query, choosing the endpoint, and
//! answering it from a document.
use crate::handlers::{archives, completes, creates_log_entry, creates_project, creates_task, ApiError};
use crate::model::{same_projects, Document, LogEntry, Project, Task, INBOX_ID};
use crate::outside::{json_string_member, new_id, now_millis, string_member};
use crate::query::{filtered, opt_view, pending_count, status_filter_of, StatusFilter, Summary};
use crate::text::{
    chars_of, ends_with, find_in, first_index_of, has_prefix, has_suffix, lemma_first_index_of_bound,
    same_text, starts_with, substring, trim_end_matches, trim_prefix_all, trim_start_matches,
    trim_suffix_all,
};
use vstd::prelude::*;

verus! {

/// Path of every task endpoint that names a task.
pub const TASK_PREFIX: &'static str = "/api/tasks/";

/// Path ending of the endpoint that completes a task.
pub const COMPLETE_SUFFIX: &'static str = "/complete";

/// Path ending of the endpoint that archives a task.
pub const ARCHIVE_SUFFIX: &'static str = "/archive";

/// The path of a URL: what stands before the first `?`.
pub open spec fn path_of(url: Seq<char>) -> Seq<char> {
    url.subrange(0, first_index_of(url, '?') as int)
}

/// The query of a URL: what follows the first `?`, empty when there is none.
pub open spec fn query_of(url: Seq<char>) -> Seq<char> {
    let i = first_index_of(url, '?');
    if i < url.len() {
        url.subrange(i as int + 1, url.len() as int)
    } else {
        Seq::empty()
    }
}

/// The value of the first `key=value` pair of a query whose key is `key`.
/// Pairs are separated by `&`; a pair without `=` is skipped.
pub open spec fn query_value(q: Seq<char>, key: Seq<char>) -> Option<Seq<char>>
    decreases q.len(),
{
    let end = first_index_of(q, '&');
    let seg = q.subrange(0, end as int);
    let eq = first_index_of(seg, '=');
    if eq < seg.len() && seg.subrange(0, eq as int) == key {
        Some(seg.subrange(eq as int + 1, seg.len() as int))
    } else if end < q.len() {
        query_value(q.subrange(end as int + 1, q.len() as int), key)
    } else {
        None
    }
}

/// The id named by a task path: the path without its leading `/api/tasks/`
/// repetitions and its trailing `suffix` repetitions.
pub open spec fn task_id_of(path: Seq<char>, suffix: Seq<char>) -> Seq<char> {
    trim_suffix_all(trim_prefix_all(path, TASK_PREFIX@), suffix)
}

/// An endpoint with what its path and query carry.
#[derive(Clone, Debug)]
pub enum Route {
    Preflight,
    Status,
    ListProjects,
    CreateProject,
    ListTasks { project: Option<String>, status: Option<String> },
    CreateTask,
    CompleteTask(String),
    ArchiveTask(String),
    ListLog,
    CreateLog,
    Unknown,
}

/// The view of an optional string.
pub open spec fn opt_string_view(o: Option<String>) -> Option<Seq<char>> {
    match o {
        Some(s) => Some(s@),
        None => None,
    }
}

/// `r` is the endpoint that method `m` on `url` asks for.
pub open spec fn routes_to(m: Seq<char>, url: Seq<char>, r: Route) -> bool {
    let p = path_of(url);
    let q = query_of(url);
    if m == "OPTIONS"@ {
        r is Preflight
    } else if m == "GET"@ && p == "/api/status"@ {
        r is Status
    } else if m == "GET"@ && p == "/api/projects"@ {
        r is ListProjects
    } else if m == "POST"@ && p == "/api/projects"@ {
        r is CreateProject
    } else if m == "GET"@ && p == "/api/tasks"@ {
        r matches Route::ListTasks { project, status } && opt_string_view(project) == query_value(
            q,
            "project"@,
        ) && opt_string_view(status) == query_value(q, "status"@)
    } else if m == "POST"@ && p == "/api/tasks"@ {
        r is CreateTask
    } else if m == "PUT"@ && has_prefix(p, TASK_PREFIX@) && has_suffix(p, COMPLETE_SUFFIX@) {
        r matches Route::CompleteTask(id) && id@ == task_id_of(p, COMPLETE_SUFFIX@)
    } else if m == "PUT"@ && has_prefix(p, TASK_PREFIX@) && has_suffix(p, ARCHIVE_SUFFIX@) {
        r matches Route::ArchiveTask(id) && id@ == task_id_of(p, ARCHIVE_SUFFIX@)
    } else if m == "GET"@ && p == "/api/log"@ {
        r is ListLog
    } else if m == "POST"@ && p == "/api/log"@ {
        r is CreateLog
    } else {
        r is Unknown
    }
}

/// Splits a URL into its path and its query.
pub fn split_url(url: &str) -> (r: (String, String))
    ensures
        r.0@ == path_of(url@),
        r.1@ == query_of(url@),
{
    let cs = chars_of(url);
    let n = cs.len();
    let i = find_in(&cs, '?', 0, n);
    proof {
        assert(url@.subrange(0, n as int) =~= url@);
        lemma_first_index_of_bound(url@, '?');
    }
    if i < n {
        (substring(url, 0, i), substring(url, i + 1, n))
    } else {
        (substring(url, 0, i), String::new())
    }
}

/// The value of the first pair of query `q` whose key is `key`.
pub fn query_param(q: &str, key: &str) -> (r: Option<String>)
    ensures
        opt_string_view(r) == query_value(q@, key@),
{
    let cs = chars_of(q);
    let n = cs.len();
    let mut start: usize = 0;
    assert(q@.subrange(0, n as int) =~= q@);
    loop
        invariant
            n == q@.len(),
            cs@ == q@,
            start <= n,
            query_value(q@, key@) == query_value(q@.subrange(start as int, n as int), key@),
        decreases n - start,
    {
        let ghost rest = q@.subrange(start as int, n as int);
        let end = find_in(&cs, '&', start, n);
        let eq = find_in(&cs, '=', start, end);
        proof {
            assert(cs@.subrange(start as int, n as int) == rest);
            let seg = rest.subrange(0, end - start);
            assert(seg =~= cs@.subrange(start as int, end as int));
            lemma_first_index_of_bound(seg, '=');
            if end < n {
                assert(rest.subrange(end - start + 1, rest.len() as int) =~= q@.subrange(
                    end + 1,
                    n as int,
                ));
            }
            assert(seg.subrange(0, eq - start) =~= q@.subrange(start as int, eq as int));
            if eq < end {
                assert(seg.subrange(eq - start + 1, seg.len() as int) =~= q@.subrange(
                    eq + 1,
                    end as int,
                ));
            }
        }
        if eq < end && same_text(substring(q, start, eq).as_str(), key) {
            return Some(substring(q, eq + 1, end));
        }
        if end == n {
            return None;
        }
        start = end + 1;
    }
}

/// The endpoint that `method` on `url` asks for.
pub fn parse_route(method: &str, url: &str) -> (r: Route)
    ensures
        routes_to(method@, url@, r),
{
    let (path, query) = split_url(url);
    let p = path.as_str();
    let is_get = same_text(method, "GET");
    let is_post = same_text(method, "POST");
    let is_put = same_text(method, "PUT");
    if same_text(method, "OPTIONS") {
        Route::Preflight
    } else if is_get && same_text(p, "/api/status") {
        Route::Status
    } else if is_get && same_text(p, "/api/projects") {
        Route::ListProjects
    } else if is_post && same_text(p, "/api/projects") {
        Route::CreateProject
    } else if is_get && same_text(p, "/api/tasks") {
        Route::ListTasks {
            project: query_param(query.as_str(), "project"),
            status: query_param(query.as_str(), "status"),
        }
    } else if is_post && same_text(p, "/api/tasks") {
        Route::CreateTask
    } else if is_put && starts_with(p, TASK_PREFIX) && ends_with(p, COMPLETE_SUFFIX) {
        let rest = trim_start_matches(p, TASK_PREFIX);
        Route::CompleteTask(trim_end_matches(rest.as_str(), COMPLETE_SUFFIX))
    } else if is_put && starts_with(p, TASK_PREFIX) && ends_with(p, ARCHIVE_SUFFIX) {
        let rest = trim_start_matches(p, TASK_PREFIX);
        Route::ArchiveTask(trim_end_matches(rest.as_str(), ARCHIVE_SUFFIX))
    } else if is_get && same_text(p, "/api/log") {
        Route::ListLog
    } else if is_post && same_text(p, "/api/log") {
        Route::CreateLog
    } else {
        Route::Unknown
    }
}

} // verus!

verus! {

/// The body of a response.
#[derive(Clone, Debug)]
pub enum Reply {
    Empty,
    Summary(Summary),
    Projects(Vec<Project>),
    Project(Project),
    Tasks(Vec<Task>),
    Task(Task),
    Log(Vec<LogEntry>),
    Entry(LogEntry),
    Error(ApiError),
}

/// The answer to a request. `changed` says that the document was modified
/// and must be saved, and the change announced once the save succeeded.
#[derive(Clone, Debug)]
pub struct Response {
    pub status: u16,
    pub reply: Reply,
    pub changed: bool,
}

/// The string member `key` of the JSON body, or `default` when it has none.
pub open spec fn body_field(body: Seq<char>, key: Seq<char>, default: Seq<char>) -> Seq<char> {
    match json_string_member(body, key) {
        Some(v) => v,
        None => default,
    }
}

/// `r` reports the outcome `res` of a creation.
pub open spec fn reports_created<T>(res: Result<T, ApiError>, r: Response, same: spec_fn(Reply, T) -> bool) -> bool {
    match res {
        Ok(v) => r.status == 201 && r.changed && same(r.reply, v),
        Err(e) => r.status == crate::handlers::error_status(e) && r.reply == Reply::Error(e) && !r.changed,
    }
}

/// `r` reports the outcome `res` of a change to a task.
pub open spec fn reports_updated(res: Result<Task, ApiError>, r: Response) -> bool {
    match res {
        Ok(t) => r.status == 200 && r.changed && r.reply == Reply::Task(t),
        Err(e) => r.status == crate::handlers::error_status(e) && r.reply == Reply::Error(e) && !r.changed,
    }
}

/// `r` is a successful answer that leaves the document as it was.
pub open spec fn reads(d0: Document, d1: Document, r: Response) -> bool {
    d1 == d0 && r.status == 200 && !r.changed
}

/// What answering `route`, with request body `body`, under `id` at time `now`,
/// does to `d0` and answers.
pub open spec fn answers(
    d0: Document,
    d1: Document,
    route: Route,
    body: Seq<char>,
    id: Seq<char>,
    now: i64,
    r: Response,
) -> bool {
    match route {
        Route::Preflight => d1 == d0 && r.status == 204 && r.reply is Empty && !r.changed,
        Route::Status => reads(d0, d1, r) && (r.reply matches Reply::Summary(s) && s.tasks
            == d0.tasks@.len() && s.projects == d0.projects@.len() && s.pending == pending_count(d0)),
        Route::ListProjects => reads(d0, d1, r) && (r.reply matches Reply::Projects(ps)
            && same_projects(ps@, d0.projects@)),
        Route::CreateProject => exists|res: Result<Project, ApiError>|
            creates_project(d0, d1, body_field(body, "name"@, Seq::empty()), body_field(body, "slug"@, Seq::empty()), id, now, res)
                && reports_created(res, r, |rep: Reply, p: Project| rep matches Reply::Project(q) && crate::model::same_project(q, p)),
        Route::ListTasks { project, status } => reads(d0, d1, r) && (r.reply matches Reply::Tasks(ts)
            && exists|f: Option<StatusFilter>|
            {
                &&& match status {
                    Some(s) => f matches Some(g) && status_filter_of(s@, g),
                    None => f is None,
                }
                &&& ts@ == filtered(d0, opt_string_view(project), f)
            }),
        Route::CreateTask => exists|res: Result<Task, ApiError>|
            creates_task(d0, d1, body_field(body, "content"@, Seq::empty()), body_field(body, "project"@, INBOX_ID@), id, now, res)
                && reports_created(res, r, |rep: Reply, t: Task| rep == Reply::Task(t)),
        Route::CompleteTask(tid) => exists|res: Result<Task, ApiError>|
            completes(d0, d1, tid@, now, res) && reports_updated(res, r),
        Route::ArchiveTask(tid) => exists|res: Result<Task, ApiError>|
            archives(d0, d1, tid@, res) && reports_updated(res, r),
        Route::ListLog => reads(d0, d1, r) && (r.reply matches Reply::Log(es) && es@ == d0.log_entries@),
        Route::CreateLog => exists|res: Result<LogEntry, ApiError>|
            creates_log_entry(d0, d1, body_field(body, "content"@, Seq::empty()), body_field(body, "project"@, INBOX_ID@), id, now, res)
                && reports_created(res, r, |rep: Reply, e: LogEntry| rep == Reply::Entry(e)),
        Route::Unknown => d1 == d0 && r.status == 404 && r.reply == Reply::Error(ApiError::NotFound) && !r.changed,
    }
}

/// The string member `key` of the JSON body, or `default` when it has none.
pub fn body_string(body: &str, key: &str, default: &str) -> (r: String)
    ensures
        r@ == body_field(body@, key@, default@),
{
    match string_member(body, key) {
        Some(v) => v,
        None => default.to_owned(),
    }
}

/// A response that reports an error.
fn error_response(e: ApiError) -> (r: Response)
    ensures
        r.status == crate::handlers::error_status(e),
        r.reply == Reply::Error(e),
        !r.changed,
{
    Response { status: e.status(), reply: Reply::Error(e), changed: false }
}

impl Document {
    /// Answers `route` with request body `body`, giving a created record the
    /// id `id` and stamping creations and completions with `now`.
    pub fn answer_with(&mut self, route: &Route, body: &str, id: String, now: i64) -> (r: Response)
        ensures
            answers(*old(self), *final(self), *route, body@, id@, now, r),
    {
        match route {
            Route::Preflight => Response { status: 204, reply: Reply::Empty, changed: false },
            Route::Status => Response {
                status: 200,
                reply: Reply::Summary(self.status_summary()),
                changed: false,
            },
            Route::ListProjects => Response {
                status: 200,
                reply: Reply::Projects(self.list_projects()),
                changed: false,
            },
            Route::CreateProject => {
                let name = body_string(body, "name", "");
                let slug = body_string(body, "slug", "");
                proof {
                    reveal_strlit("");
                    assert(""@ =~= Seq::<char>::empty());
                }
                let res = self.create_project_with(name.as_str(), slug.as_str(), id, now);
                match res {
                    Ok(p) => Response { status: 201, reply: Reply::Project(p), changed: true },
                    Err(e) => error_response(e),
                }
            },
            Route::ListTasks { project, status } => {
                let p = match project {
                    Some(s) => Some(s.as_str()),
                    None => None,
                };
                let f = match status {
                    Some(s) => Some(crate::query::status_filter(s.as_str())),
                    None => None,
                };
                let ts = self.filter_tasks(p, &f);
                assert(opt_view(p) == opt_string_view(*project));
                assert(ts@ == filtered(*self, opt_string_view(*project), f));
                Response { status: 200, reply: Reply::Tasks(ts), changed: false }
            },
            Route::CreateTask => {
                let content = body_string(body, "content", "");
                let slug = body_string(body, "project", INBOX_ID);
                proof {
                    reveal_strlit("");
                    assert(""@ =~= Seq::<char>::empty());
                }
                let res = self.create_task_with(content.as_str(), slug.as_str(), id, now);
                match res {
                    Ok(t) => Response { status: 201, reply: Reply::Task(t), changed: true },
                    Err(e) => error_response(e),
                }
            },
            Route::CompleteTask(tid) => {
                let res = self.complete_task_with(tid.as_str(), now);
                let ghost witness = res;
                let r = match res {
                    Ok(t) => Response { status: 200, reply: Reply::Task(t), changed: true },
                    Err(e) => error_response(e),
                };
                assert(reports_updated(witness, r));
                assert(completes(*old(self), *self, tid@, now, witness));
                r
            },
            Route::ArchiveTask(tid) => {
                let res = self.archive_task(tid.as_str());
                let ghost witness = res;
                let r = match res {
                    Ok(t) => Response { status: 200, reply: Reply::Task(t), changed: true },
                    Err(e) => error_response(e),
                };
                assert(reports_updated(witness, r));
                assert(archives(*old(self), *self, tid@, witness));
                r
            },
            Route::ListLog => Response {
                status: 200,
                reply: Reply::Log(self.list_log()),
                changed: false,
            },
            Route::CreateLog => {
                let content = body_string(body, "content", "");
                let slug = body_string(body, "project", INBOX_ID);
                proof {
                    reveal_strlit("");
                    assert(""@ =~= Seq::<char>::empty());
                }
                let res = self.create_log_entry_with(content.as_str(), slug.as_str(), id, now);
                match res {
                    Ok(e) => Response { status: 201, reply: Reply::Entry(e), changed: true },
                    Err(e) => error_response(e),
                }
            },
            Route::Unknown => error_response(ApiError::NotFound),
        }
    }

    /// Answers `method` on `url` with request body `body`; a created record
    /// gets a fresh random id, and creations and completions the time now.
    pub fn answer(&mut self, method: &str, url: &str, body: &str) -> (r: Response)
        ensures
            exists|route: Route, id: Seq<char>, now: i64|
                routes_to(method@, url@, route) && id.len() == 36
                    && answers(*old(self), *final(self), route, body@, id, now, r),
    {
        let route = parse_route(method, url);
        let id = new_id();
        let now = now_millis();
        self.answer_with(&route, body, id, now)
    }
}

} // verus!
