use visor::handlers::ApiError;
use visor::model::{Document, Task};
use visor::query::{status_filter, StatusFilter};
use visor::router::{parse_route, query_param, split_url, Reply, Route};
use visor::text::{trim_end_matches, trim_start_matches};

fn project_id_of(r: &Reply) -> String {
    match r {
        Reply::Project(p) => p.id.clone(),
        other => panic!("expected a project, got {:?}", other),
    }
}

fn task_of(r: &Reply) -> Task {
    match r {
        Reply::Task(t) => t.clone(),
        other => panic!("expected a task, got {:?}", other),
    }
}

fn tasks_of(r: &Reply) -> Vec<Task> {
    match r {
        Reply::Tasks(ts) => ts.clone(),
        other => panic!("expected tasks, got {:?}", other),
    }
}

#[test]
fn project_then_task_in_it() {
    let mut doc = Document::empty();
    let r = doc.answer("POST", "/api/projects", r#"{"name":"Work","slug":"work"}"#);
    assert_eq!(r.status, 201);
    assert!(r.changed);
    let pid = project_id_of(&r.reply);
    assert_eq!(pid.len(), 36);
    let r = doc.answer("POST", "/api/tasks", r#"{"content":"write spec","project":"work"}"#);
    assert_eq!(r.status, 201);
    let t = task_of(&r.reply);
    assert_eq!(t.project_id, pid);
    assert_eq!(t.status, "TODO");
    assert_eq!(t.content, "write spec");
    let work = &doc.projects[0];
    assert_eq!(work.name, "Work");
    assert_eq!(work.color, "#83a598");
    assert!(!work.is_inbox);
    assert_eq!(work.task_order.iter().filter(|x| **x == t.id).count(), 1);
    assert_eq!(work.task_order.len(), 1);
}

#[test]
fn complete_unknown_task_is_not_found() {
    let mut doc = Document::empty();
    doc.create_task_with("a", "inbox", "t1".to_string(), 5).unwrap();
    let before = format!("{:?}", doc);
    let r = doc.answer("PUT", "/api/tasks/nope/complete", "");
    assert_eq!(r.status, 404);
    assert!(!r.changed);
    match r.reply {
        Reply::Error(e) => {
            assert_eq!(e, ApiError::TaskNotFound);
            assert_eq!(e.message(), "task not found");
        }
        other => panic!("unexpected {:?}", other),
    }
    assert_eq!(format!("{:?}", doc), before);
}

#[test]
fn two_task_creations_both_persist() {
    let mut doc = Document::empty();
    let n = doc.tasks.len();
    let a = doc.answer("POST", "/api/tasks", r#"{"content":"one"}"#);
    let b = doc.answer("POST", "/api/tasks", r#"{"content":"two"}"#);
    assert_eq!(a.status, 201);
    assert_eq!(b.status, 201);
    assert_eq!(doc.tasks.len(), n + 2);
    assert_ne!(doc.tasks[0].id, doc.tasks[1].id);
}

#[test]
fn complete_twice_is_stable() {
    let mut doc = Document::empty();
    doc.create_task_with("a", "inbox", "t1".to_string(), 5).unwrap();
    let first = doc.complete_task_with("t1", 9).unwrap();
    let second = doc.complete_task_with("t1", 9).unwrap();
    assert_eq!(format!("{:?}", first), format!("{:?}", second));
    assert!(second.completed);
    assert_eq!(second.status, "DONE");
    assert_eq!(second.completed_at, Some(9));
    assert_eq!(doc.tasks.len(), 1);
}

#[test]
fn pending_ignores_status_text() {
    let mut doc = Document::empty();
    doc.create_task_with("a", "inbox", "t1".to_string(), 1).unwrap();
    doc.create_task_with("b", "inbox", "t2".to_string(), 1).unwrap();
    doc.create_task_with("c", "inbox", "t3".to_string(), 1).unwrap();
    doc.create_task_with("d", "inbox", "t4".to_string(), 1).unwrap();
    doc.tasks[0].status = "DONE".to_string();
    doc.complete_task_with("t2", 2).unwrap();
    doc.archive_task("t3").unwrap();
    let got = doc.list_tasks(None, Some("pending"));
    let ids: Vec<String> = got.iter().map(|t| t.id.clone()).collect();
    assert_eq!(ids, vec!["t1".to_string(), "t4".to_string()]);
    let s = doc.status_summary();
    assert_eq!((s.tasks, s.projects, s.pending), (4, 0, 2));
}

#[test]
fn status_filter_upper_cases() {
    let mut doc = Document::empty();
    doc.create_task_with("a", "inbox", "t1".to_string(), 1).unwrap();
    doc.create_task_with("b", "inbox", "t2".to_string(), 1).unwrap();
    doc.complete_task_with("t2", 2).unwrap();
    let got = doc.list_tasks(None, Some("done"));
    assert_eq!(got.len(), 1);
    assert_eq!(got[0].id, "t2");
    let got = doc.list_tasks(None, Some("todo"));
    assert_eq!(got.len(), 1);
    assert_eq!(got[0].id, "t1");
    match status_filter("done") {
        StatusFilter::Exactly(s) => assert_eq!(s, "DONE"),
        StatusFilter::Pending => panic!("not pending"),
    }
    assert!(matches!(status_filter("pending"), StatusFilter::Pending));
}

#[test]
fn unknown_project_excluded_by_any_slug() {
    let mut doc = Document::empty();
    doc.create_project_with("Work", "work", "w1".to_string(), 1).unwrap();
    doc.create_task_with("a", "work", "t1".to_string(), 1).unwrap();
    doc.create_task_with("b", "work", "t2".to_string(), 1).unwrap();
    doc.tasks[1].project_id = "gone".to_string();
    assert_eq!(doc.list_tasks(Some("work"), None).len(), 1);
    assert_eq!(doc.list_tasks(Some(""), None).len(), 0);
    assert_eq!(doc.list_tasks(Some("other"), None).len(), 0);
    assert_eq!(doc.list_tasks(None, None).len(), 2);
}

#[test]
fn empty_slug_is_refused() {
    let mut doc = Document::empty();
    let r = doc.answer("POST", "/api/projects", r#"{"name":"Work","slug":""}"#);
    assert_eq!(r.status, 400);
    assert!(!r.changed);
    assert_eq!(doc.projects.len(), 0);
    let r = doc.answer("POST", "/api/projects", "not json");
    assert_eq!(r.status, 400);
    match r.reply {
        Reply::Error(e) => assert_eq!(e.message(), "name and slug required"),
        other => panic!("unexpected {:?}", other),
    }
    assert_eq!(doc.projects.len(), 0);
}

#[test]
fn inbox_fallback_is_not_listed_by_slug() {
    let mut doc = Document::empty();
    doc.create_project_with("Work", "work", "w1".to_string(), 1).unwrap();
    let t = doc.create_task_with("a", "inbox", "t1".to_string(), 1).unwrap();
    assert_eq!(t.project_id, "inbox");
    assert!(doc.projects[0].task_order.is_empty());
    let r = doc.answer("GET", "/api/tasks?project=inbox", "");
    assert_eq!(tasks_of(&r.reply).len(), 0);
    doc.create_project_with("Inbox", "inbox", "inbox".to_string(), 1).unwrap();
    let r = doc.answer("GET", "/api/tasks?project=inbox", "");
    assert_eq!(tasks_of(&r.reply).len(), 1);
}

#[test]
fn task_without_project_goes_to_inbox() {
    let mut doc = Document::empty();
    let r = doc.answer("POST", "/api/tasks", r#"{"content":"x"}"#);
    assert_eq!(task_of(&r.reply).project_id, "inbox");
    let r = doc.answer("POST", "/api/tasks", r#"{"content":""}"#);
    assert_eq!(r.status, 400);
    match r.reply {
        Reply::Error(e) => assert_eq!(e.message(), "content required"),
        other => panic!("unexpected {:?}", other),
    }
    assert_eq!(doc.tasks.len(), 1);
}

#[test]
fn log_entries_in_order() {
    let mut doc = Document::empty();
    doc.create_project_with("Work", "work", "w1".to_string(), 1).unwrap();
    let r = doc.answer("POST", "/api/log", r#"{"content":"first","project":"work"}"#);
    assert_eq!(r.status, 201);
    doc.create_log_entry_with("second", "nowhere", "e2".to_string(), 7).unwrap();
    assert_eq!(doc.create_log_entry_with("", "work", "e3".to_string(), 7).unwrap_err(), ApiError::ContentRequired);
    let r = doc.answer("GET", "/api/log", "");
    match r.reply {
        Reply::Log(es) => {
            assert_eq!(es.len(), 2);
            assert_eq!(es[0].content, "first");
            assert_eq!(es[0].project_id, "w1");
            assert_eq!(es[1].project_id, "inbox");
            assert_eq!(es[1].created_at, 7);
        }
        other => panic!("unexpected {:?}", other),
    }
}

#[test]
fn archive_sets_flag_only() {
    let mut doc = Document::empty();
    doc.create_task_with("a", "inbox", "t1".to_string(), 1).unwrap();
    let r = doc.answer("PUT", "/api/tasks/t1/archive", "");
    assert_eq!(r.status, 200);
    assert!(r.changed);
    let t = task_of(&r.reply);
    assert!(t.archived);
    assert!(!t.completed);
    assert_eq!(t.status, "TODO");
    assert_eq!(doc.archive_task("t9").unwrap_err().status(), 404);
}

#[test]
fn routes_and_misc_answers() {
    assert!(matches!(parse_route("OPTIONS", "/whatever"), Route::Preflight));
    assert!(matches!(parse_route("GET", "/api/status?x=1"), Route::Status));
    assert!(matches!(parse_route("DELETE", "/api/tasks"), Route::Unknown));
    match parse_route("GET", "/api/tasks?status=pending&&project=work&bad") {
        Route::ListTasks { project, status } => {
            assert_eq!(project.as_deref(), Some("work"));
            assert_eq!(status.as_deref(), Some("pending"));
        }
        other => panic!("unexpected {:?}", other),
    }
    match parse_route("PUT", "/api/tasks/abc/complete") {
        Route::CompleteTask(id) => assert_eq!(id, "abc"),
        other => panic!("unexpected {:?}", other),
    }
    match parse_route("PUT", "/api/tasks/abc/archive/archive") {
        Route::ArchiveTask(id) => assert_eq!(id, "abc"),
        other => panic!("unexpected {:?}", other),
    }
    let mut doc = Document::empty();
    let r = doc.answer("OPTIONS", "/api/tasks", "");
    assert_eq!(r.status, 204);
    let r = doc.answer("GET", "/nope", "");
    assert_eq!(r.status, 404);
    match r.reply {
        Reply::Error(e) => assert_eq!(e.message(), "not found"),
        other => panic!("unexpected {:?}", other),
    }
    let r = doc.answer("GET", "/api/status", "");
    match r.reply {
        Reply::Summary(s) => assert_eq!((s.tasks, s.projects, s.pending), (0, 0, 0)),
        other => panic!("unexpected {:?}", other),
    }
}

#[test]
fn url_and_query_pieces() {
    let (p, q) = split_url("/api/tasks?a=1?b");
    assert_eq!(p, "/api/tasks");
    assert_eq!(q, "a=1?b");
    let (p, q) = split_url("/api/log");
    assert_eq!(p, "/api/log");
    assert_eq!(q, "");
    assert_eq!(query_param("a=1&b=2&a=3", "a").as_deref(), Some("1"));
    assert_eq!(query_param("a&b=2", "a"), None);
    assert_eq!(query_param("x=a=b", "x").as_deref(), Some("a=b"));
    assert_eq!(query_param("", "x"), None);
    assert_eq!(trim_start_matches("abababc", "ab"), "c");
    assert_eq!(trim_end_matches("x/c/c", "/c"), "x");
    assert_eq!(trim_start_matches("abc", ""), "abc");
}

#[test]
fn list_projects_and_complete_by_route() {
    let mut doc = Document::empty();
    doc.create_project_with("Work", "work", "w1".to_string(), 3).unwrap();
    doc.create_project_with("Home", "home", "h1".to_string(), 4).unwrap();
    let r = doc.answer("GET", "/api/projects", "");
    assert_eq!(r.status, 200);
    match r.reply {
        Reply::Projects(ps) => {
            let slugs: Vec<String> = ps.iter().map(|p| p.slug.clone()).collect();
            assert_eq!(slugs, vec!["work".to_string(), "home".to_string()]);
            assert_eq!(ps[1].created_at, 4);
        }
        other => panic!("unexpected {:?}", other),
    }
    doc.create_task_with("a", "home", "t1".to_string(), 5).unwrap();
    let r = doc.answer("PUT", "/api/tasks/t1/complete", "");
    assert_eq!(r.status, 200);
    assert!(r.changed);
    let t = task_of(&r.reply);
    assert!(t.completed);
    assert_eq!(t.status, "DONE");
    assert!(t.completed_at.is_some());
    assert_eq!(t.project_id, "h1");
    assert_eq!(doc.projects[1].task_order, vec!["t1".to_string()]);
    let r = doc.answer("GET", "/api/tasks?project=home&status=done", "");
    assert_eq!(tasks_of(&r.reply).len(), 1);
    let r = doc.answer("GET", "/api/tasks?status=pending", "");
    assert_eq!(tasks_of(&r.reply).len(), 0);
}
