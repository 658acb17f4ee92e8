use task_api::auth::{bearer_token, ensure_auth_at, requires_auth, AuthConfig, HttpMethod};
use task_api::error::AppError;
use task_api::handlers::{
    create_task, delete_task, found, get_task, list_tasks, removal_outcome, task_from_row, update_task,
};
use task_api::task::{merge_update, validate_create, validate_update, CreateTask, TaskStore, UpdateTask};
use task_api::text::is_blank;
use task_api::token::{login_at, TOKEN_VALIDITY_HOURS, TOKEN_VALIDITY_SECS};

const STAMP: &str = "2024-01-01 00:00:00";

fn open_config() -> AuthConfig {
    AuthConfig { secret: None, read_only_without_auth: true }
}

fn secured_config() -> AuthConfig {
    AuthConfig { secret: Some("s3cret".to_string()), read_only_without_auth: true }
}

fn now_secs() -> i64 {
    std::time::SystemTime::now().duration_since(std::time::UNIX_EPOCH).unwrap().as_secs() as i64
}

fn create(store: &mut TaskStore, title: &str) -> i64 {
    store.create(&CreateTask { title: title.to_string() }, STAMP).unwrap().id
}

#[test]
fn create_yields_open_task_with_fresh_id() {
    let mut store = TaskStore::new();
    let a = store.create(&CreateTask { title: "write docs".to_string() }, STAMP).unwrap();
    assert_eq!(a.title, "write docs");
    assert!(!a.completed);
    assert_eq!(a.created_at, STAMP);
    let b = store.create(&CreateTask { title: "ship".to_string() }, STAMP).unwrap();
    assert_ne!(a.id, b.id);
    store.delete(b.id).unwrap();
    let c = store.create(&CreateTask { title: "again".to_string() }, STAMP).unwrap();
    assert_ne!(c.id, b.id);
    assert_ne!(c.id, a.id);
}

#[test]
fn blank_title_is_rejected_and_nothing_stored() {
    let mut store = TaskStore::new();
    for title in ["", "   ", "\t\n"] {
        let r = store.create(&CreateTask { title: title.to_string() }, STAMP);
        assert!(matches!(r, Err(AppError::BadRequest(_))));
    }
    assert!(store.list().is_empty());
    assert_eq!(create(&mut store, "x"), 1);
}

#[test]
fn get_after_create_returns_same_task() {
    let mut store = TaskStore::new();
    let t = store.create(&CreateTask { title: "read".to_string() }, STAMP).unwrap();
    let g = store.get(t.id).unwrap();
    assert_eq!(g.id, t.id);
    assert_eq!(g.title, "read");
    assert!(!g.completed);
}

#[test]
fn update_completed_only_keeps_title() {
    let mut store = TaskStore::new();
    let id = create(&mut store, "keep me");
    let u = store.update(id, &UpdateTask { title: None, completed: Some(true) }).unwrap();
    assert_eq!(u.title, "keep me");
    assert!(u.completed);
    let g = store.get(id).unwrap();
    assert_eq!(g.title, "keep me");
    assert!(g.completed);
}

#[test]
fn update_title_only_keeps_completed() {
    let mut store = TaskStore::new();
    let id = create(&mut store, "old");
    store.update(id, &UpdateTask { title: None, completed: Some(true) }).unwrap();
    let u = store.update(id, &UpdateTask { title: Some("new".to_string()), completed: None }).unwrap();
    assert_eq!(u.title, "new");
    assert!(u.completed);
}

#[test]
fn update_missing_id_is_not_found() {
    let mut store = TaskStore::new();
    create(&mut store, "a");
    let r = store.update(42, &UpdateTask { title: None, completed: Some(true) });
    assert_eq!(r.unwrap_err(), AppError::NotFound);
}

#[test]
fn update_with_empty_title_is_bad_request() {
    let mut store = TaskStore::new();
    let id = create(&mut store, "a");
    let r = store.update(id, &UpdateTask { title: Some(String::new()), completed: None });
    assert!(matches!(r, Err(AppError::BadRequest(_))));
    assert_eq!(store.get(id).unwrap().title, "a");
}

#[test]
fn delete_then_get_is_not_found() {
    let mut store = TaskStore::new();
    let id = create(&mut store, "gone");
    assert_eq!(store.delete(id), Ok(()));
    assert_eq!(store.get(id).unwrap_err(), AppError::NotFound);
    assert_eq!(store.delete(id), Err(AppError::NotFound));
}

#[test]
fn list_is_newest_first() {
    let mut store = TaskStore::new();
    assert!(store.list().is_empty());
    assert_eq!(create(&mut store, "one"), 1);
    assert_eq!(create(&mut store, "two"), 2);
    assert_eq!(create(&mut store, "three"), 3);
    let ids: Vec<i64> = store.list().iter().map(|t| t.id).collect();
    assert_eq!(ids, vec![3, 2, 1]);
}

#[test]
fn open_server_needs_no_token() {
    let config = open_config();
    let mut store = TaskStore::new();
    let t = create_task(&config, None, now_secs(), &mut store, &CreateTask { title: "a".to_string() }, STAMP).unwrap();
    assert_eq!(list_tasks(&config, None, now_secs(), &store).unwrap().len(), 1);
    assert_eq!(get_task(&config, None, now_secs(), &store, t.id).unwrap().title, "a");
    let upd = UpdateTask { title: Some("b".to_string()), completed: Some(true) };
    assert_eq!(update_task(&config, None, now_secs(), &mut store, t.id, &upd).unwrap().title, "b");
    assert_eq!(delete_task(&config, None, now_secs(), &mut store, t.id), Ok(()));
    for m in [HttpMethod::Get, HttpMethod::Post, HttpMethod::Put, HttpMethod::Delete] {
        assert!(!requires_auth(false, false, m));
        assert_eq!(ensure_auth_at(&config, m, None, now_secs()), Ok(()));
    }
}

#[test]
fn reads_open_and_writes_gated_when_secured() {
    let config = secured_config();
    let mut store = TaskStore::new();
    let id = create(&mut store, "seed");
    assert!(list_tasks(&config, None, now_secs(), &store).is_ok());
    assert!(get_task(&config, None, now_secs(), &store, id).is_ok());
    let r = create_task(&config, None, now_secs(), &mut store, &CreateTask { title: "a".to_string() }, STAMP);
    assert_eq!(r.unwrap_err(), AppError::Unauthorized);
    let upd = UpdateTask { title: None, completed: Some(true) };
    assert_eq!(update_task(&config, None, now_secs(), &mut store, id, &upd).unwrap_err(), AppError::Unauthorized);
    assert_eq!(delete_task(&config, Some("Bearer nonsense"), now_secs(), &mut store, id), Err(AppError::Unauthorized));
    assert_eq!(delete_task(&config, Some("Basic abc"), now_secs(), &mut store, id), Err(AppError::Unauthorized));
    assert_eq!(store.list().len(), 1);
    assert!(!store.get(id).unwrap().completed);
}

#[test]
fn reads_gated_when_not_exempt() {
    let config = AuthConfig { secret: Some("k".to_string()), read_only_without_auth: false };
    let store = TaskStore::new();
    assert!(requires_auth(true, false, HttpMethod::Get));
    assert!(!requires_auth(true, true, HttpMethod::Get));
    assert!(requires_auth(true, true, HttpMethod::Post));
    assert_eq!(list_tasks(&config, None, now_secs(), &store).unwrap_err(), AppError::Unauthorized);
}

#[test]
fn login_token_passes_gate_until_expiry() {
    let config = secured_config();
    let resp = login_at(&config, "alice", "pw", now_secs()).unwrap();
    assert_eq!(resp.expires_in_hours, 12);
    assert!(!resp.token.is_empty());
    let header = format!("Bearer {}", resp.token);
    assert_eq!(ensure_auth_at(&config, HttpMethod::Post, Some(header.as_str()), now_secs()), Ok(()));
    let mut store = TaskStore::new();
    let t = create_task(&config, Some(header.as_str()), now_secs(), &mut store, &CreateTask { title: "t".to_string() }, STAMP);
    assert!(t.is_ok());

    let stale = login_at(&config, "alice", "pw", now_secs() - TOKEN_VALIDITY_SECS - 3600).unwrap();
    let stale_header = format!("Bearer {}", stale.token);
    assert_eq!(ensure_auth_at(&config, HttpMethod::Post, Some(stale_header.as_str()), now_secs()), Err(AppError::Unauthorized));
}

#[test]
fn token_under_another_secret_is_refused() {
    let other = AuthConfig { secret: Some("other".to_string()), read_only_without_auth: true };
    let resp = login_at(&other, "alice", "pw", now_secs()).unwrap();
    let header = format!("Bearer {}", resp.token);
    assert_eq!(ensure_auth_at(&secured_config(), HttpMethod::Put, Some(header.as_str()), now_secs()), Err(AppError::Unauthorized));
    assert_eq!(ensure_auth_at(&other, HttpMethod::Put, Some(header.as_str()), now_secs()), Ok(()));
}

#[test]
fn login_rejects_blank_credentials() {
    let config = secured_config();
    let a = login_at(&config, "", "pw", now_secs()).err().unwrap();
    assert_eq!(a, AppError::Unauthorized);
    assert_eq!(a.status_code(), 401);
    assert_eq!(login_at(&config, "alice", "", now_secs()).err().unwrap(), AppError::Unauthorized);
    assert_eq!(login_at(&config, "  ", "pw", now_secs()).err().unwrap(), AppError::Unauthorized);
}

#[test]
fn login_disabled_is_bad_request() {
    let e = login_at(&open_config(), "alice", "pw", now_secs()).err().unwrap();
    assert!(matches!(e, AppError::BadRequest(_)));
    assert_eq!(e.status_code(), 400);
}

#[test]
fn login_issues_twelve_hour_token() {
    let resp = login_at(&secured_config(), "alice", "pw", now_secs()).unwrap();
    assert_eq!(resp.expires_in_hours, TOKEN_VALIDITY_HOURS);
    assert_eq!(resp.token.split('.').count(), 3);
    let same = login_at(&secured_config(), "alice", "pw", 1_700_000_000).unwrap();
    let again = login_at(&secured_config(), "alice", "pw", 1_700_000_000).unwrap();
    assert_eq!(same.token, again.token);
    let later = login_at(&secured_config(), "alice", "pw", 1_700_000_001).unwrap();
    assert_ne!(same.token, later.token);
}

#[test]
fn error_statuses_and_messages() {
    let e = AppError::BadRequest("bad".to_string());
    assert_eq!((e.status_code(), e.message()), (400, "bad".to_string()));
    assert_eq!((AppError::NotFound.status_code(), AppError::NotFound.message()), (404, "Not Found".to_string()));
    assert_eq!(AppError::Unauthorized.status_code(), 401);
    assert_eq!(AppError::Unauthorized.message(), "Unauthorized");
    let i = AppError::Internal("boom".to_string());
    assert_eq!((i.status_code(), i.message()), (500, "boom".to_string()));
}

#[test]
fn bearer_header_parsing() {
    assert_eq!(bearer_token(Some("Bearer abc.def")), Some("abc.def"));
    assert_eq!(bearer_token(Some("Bearer ")), Some(""));
    assert_eq!(bearer_token(Some("bearer abc")), None);
    assert_eq!(bearer_token(Some("Basic abc")), None);
    assert_eq!(bearer_token(None), None);
}

#[test]
fn auth_decisions_at_fixed_time() {
    let c = secured_config();
    let t0: i64 = 1_700_000_000;
    let resp = login_at(&c, "alice", "pw", t0).unwrap();
    let header = format!("Bearer {}", resp.token);
    let h = Some(header.as_str());
    assert_eq!(ensure_auth_at(&c, HttpMethod::Post, h, t0), Ok(()));
    assert_eq!(ensure_auth_at(&c, HttpMethod::Post, h, t0 + TOKEN_VALIDITY_SECS - 1), Ok(()));
    assert_eq!(ensure_auth_at(&c, HttpMethod::Post, h, t0 + TOKEN_VALIDITY_SECS), Err(AppError::Unauthorized));
    assert_eq!(ensure_auth_at(&c, HttpMethod::Post, h, t0 + TOKEN_VALIDITY_SECS + 1), Err(AppError::Unauthorized));
    assert_eq!(ensure_auth_at(&c, HttpMethod::Post, None, t0), Err(AppError::Unauthorized));
    assert_eq!(ensure_auth_at(&c, HttpMethod::Post, Some("Bearer garbage"), t0), Err(AppError::Unauthorized));
    assert_eq!(ensure_auth_at(&c, HttpMethod::Get, None, t0), Ok(()));
    assert_eq!(ensure_auth_at(&open_config(), HttpMethod::Delete, None, t0), Ok(()));
}

#[test]
fn expired_token_refused_without_leeway() {
    let c = secured_config();
    let stale = login_at(&c, "alice", "pw", now_secs() - TOKEN_VALIDITY_SECS - 5).unwrap();
    let header = format!("Bearer {}", stale.token);
    assert_eq!(ensure_auth_at(&c, HttpMethod::Put, Some(header.as_str()), now_secs()), Err(AppError::Unauthorized));
}

#[test]
fn gated_handlers_refuse_bad_token_before_validation() {
    let c = secured_config();
    let mut store = TaskStore::new();
    let id = create(&mut store, "seed");
    let bad = Some("Bearer not.a.token");
    let r = create_task(&c, bad, now_secs(), &mut store, &CreateTask { title: String::new() }, STAMP);
    assert_eq!(r.unwrap_err(), AppError::Unauthorized);
    let upd = UpdateTask { title: Some(String::new()), completed: None };
    assert_eq!(update_task(&c, bad, now_secs(), &mut store, id, &upd).unwrap_err(), AppError::Unauthorized);
    assert_eq!(store.list().len(), 1);
}

#[test]
fn whitespace_title_update_is_written_or_not_found() {
    let mut store = TaskStore::new();
    let id = create(&mut store, "a");
    let upd = UpdateTask { title: Some("   ".to_string()), completed: None };
    assert_eq!(store.update(99, &upd).unwrap_err(), AppError::NotFound);
    assert_eq!(store.update(id, &upd).unwrap().title, "   ");
}

#[test]
fn login_far_future_clock_is_internal() {
    let e = login_at(&secured_config(), "alice", "pw", i64::MAX).err().unwrap();
    assert_eq!(e.status_code(), 500);
    assert_eq!(e.message(), "Failed to sign token");
}

#[test]
fn blank_detection() {
    assert!(is_blank(""));
    assert!(is_blank(" \t\n "));
    assert!(!is_blank(" a "));
    assert!(validate_create(&CreateTask { title: " x".to_string() }).is_ok());
    assert!(validate_update(&UpdateTask { title: None, completed: None }).is_ok());
    assert!(validate_update(&UpdateTask { title: Some(" ".to_string()), completed: None }).is_ok());
    assert!(validate_update(&UpdateTask { title: Some(String::new()), completed: None }).is_err());
}

#[test]
fn row_helpers() {
    let t = task_from_row(7, "t".to_string(), 1, STAMP.to_string());
    assert!(t.completed);
    assert!(!task_from_row(7, "t".to_string(), 0, STAMP.to_string()).completed);
    let m = merge_update(&t, &UpdateTask { title: Some("u".to_string()), completed: Some(false) });
    assert_eq!((m.id, m.title.as_str(), m.completed), (7, "u", false));
    assert_eq!(found(None).unwrap_err(), AppError::NotFound);
    assert_eq!(found(Some(t)).unwrap().id, 7);
    assert_eq!(removal_outcome(0), Err(AppError::NotFound));
    assert_eq!(removal_outcome(1), Ok(()));
}
