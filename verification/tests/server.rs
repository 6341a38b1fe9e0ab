use epoch::api::{StopRequest, UpdateEntryRequest};
use epoch::auth::{authorization_value, authorized};
use epoch::routes::{
    delete_entry, entry_to_response, list_entries, start_timer, stop_timer, timer_status,
    update_entry, Body, DbCall, DbError, DbReply, Entry, Response, RouteStep,
};
use epoch::settings::{server_settings, SettingsError};
use epoch::time::Timestamp;

fn row(id: u128, description: Option<&str>, stopped: Option<i64>) -> Entry {
    Entry {
        id,
        description: description.map(|d| d.to_string()),
        started_at: Timestamp::new(1000, 5),
        stopped_at: stopped.map(|s| Timestamp::new(s, 0)),
    }
}

fn failure(message: &str) -> DbError {
    DbError { message: message.to_string() }
}

fn response(step: RouteStep) -> Response {
    match step {
        RouteStep::Respond(r) => r,
        RouteStep::Query(q) => panic!("expected an answer, got query {:?}", q),
    }
}

fn error_of(step: RouteStep) -> (u16, String) {
    let r = response(step);
    match r.body {
        Body::Error(e) => (r.status, e.error),
        other => panic!("expected an error body, got {:?}", other),
    }
}

#[test]
fn start_asks_for_one_conditional_insert() {
    assert!(matches!(start_timer(None), RouteStep::Query(DbCall::StartEntry)));
}

#[test]
fn start_refused_while_running() {
    let step = start_timer(Some(DbReply::Started(Ok(None))));
    assert_eq!(error_of(step), (409, "A timer is already running".to_string()));
}

#[test]
fn start_fails_when_database_fails() {
    assert_eq!(
        error_of(start_timer(Some(DbReply::Started(Err(failure("down")))))),
        (500, "down".to_string())
    );
}

#[test]
fn start_answers_created_entry() {
    let r = response(start_timer(Some(DbReply::Started(Ok(Some(row(9, None, None)))))));
    assert_eq!(r.status, 201);
    match r.body {
        Body::Entry(e) => {
            assert_eq!(e.id, 9);
            assert_eq!(e.description, None);
            assert_eq!(e.started_at, Timestamp::new(1000, 5));
            assert_eq!(e.stopped_at, None);
        }
        other => panic!("unexpected {:?}", other),
    }
}

#[test]
fn stop_flow() {
    let body = StopRequest { description: "writing docs".to_string() };
    match stop_timer(&body, None) {
        RouteStep::Query(DbCall::StopEntry { description }) => assert_eq!(description, "writing docs"),
        other => panic!("unexpected {:?}", other),
    }
    let r = response(stop_timer(&body, Some(DbReply::Stopped(Ok(Some(row(3, Some("writing docs"), Some(2000))))))));
    assert_eq!(r.status, 200);
    match r.body {
        Body::Entry(e) => {
            assert_eq!(e.id, 3);
            assert_eq!(e.description.as_deref(), Some("writing docs"));
            assert_eq!(e.stopped_at, Some(Timestamp::new(2000, 0)));
        }
        other => panic!("unexpected {:?}", other),
    }
    assert_eq!(
        error_of(stop_timer(&body, Some(DbReply::Stopped(Ok(None))))),
        (404, "No running timer".to_string())
    );
    assert_eq!(
        error_of(stop_timer(&body, Some(DbReply::Stopped(Err(failure("x")))))),
        (500, "x".to_string())
    );
}

#[test]
fn status_flow() {
    assert!(matches!(timer_status(None), RouteStep::Query(DbCall::GetRunning)));
    let r = response(timer_status(Some(DbReply::Running(Ok(Some(row(4, None, None)))))));
    assert_eq!(r.status, 200);
    match r.body {
        Body::Status(s) => {
            assert!(s.running);
            assert_eq!(s.entry.map(|e| e.id), Some(4));
        }
        other => panic!("unexpected {:?}", other),
    }
    let r = response(timer_status(Some(DbReply::Running(Ok(None)))));
    assert_eq!(r.status, 200);
    match r.body {
        Body::Status(s) => {
            assert!(!s.running);
            assert!(s.entry.is_none());
        }
        other => panic!("unexpected {:?}", other),
    }
    assert_eq!(
        error_of(timer_status(Some(DbReply::Running(Err(failure("gone")))))),
        (200, "gone".to_string())
    );
}

#[test]
fn list_flow() {
    assert!(matches!(list_entries(None), RouteStep::Query(DbCall::ListEntriesToday)));
    let rows = vec![row(2, None, None), row(1, Some("a"), Some(1500))];
    let r = response(list_entries(Some(DbReply::Listed(Ok(rows)))));
    assert_eq!(r.status, 200);
    match r.body {
        Body::Entries(es) => {
            assert_eq!(es.len(), 2);
            assert_eq!(es[0].id, 2);
            assert_eq!(es[1].id, 1);
            assert_eq!(es[1].description.as_deref(), Some("a"));
            assert_eq!(es[1].stopped_at, Some(Timestamp::new(1500, 0)));
        }
        other => panic!("unexpected {:?}", other),
    }
    let r = response(list_entries(Some(DbReply::Listed(Ok(vec![])))));
    assert!(matches!(r.body, Body::Entries(ref es) if es.is_empty()));
    assert_eq!(
        error_of(list_entries(Some(DbReply::Listed(Err(failure("q")))))),
        (500, "q".to_string())
    );
}

#[test]
fn delete_flow() {
    assert!(matches!(delete_entry(5, None), RouteStep::Query(DbCall::DeleteEntry { id: 5 })));
    let r = response(delete_entry(5, Some(DbReply::Deleted(Ok(true)))));
    assert_eq!(r.status, 204);
    assert!(matches!(r.body, Body::Empty));
    assert_eq!(
        error_of(delete_entry(5, Some(DbReply::Deleted(Ok(false))))),
        (404, "Entry not found".to_string())
    );
    assert_eq!(
        error_of(delete_entry(5, Some(DbReply::Deleted(Err(failure("e")))))),
        (500, "e".to_string())
    );
}

#[test]
fn update_flow() {
    let missing = UpdateEntryRequest { description: None };
    assert_eq!(error_of(update_entry(6, &missing, None)), (400, "description is required".to_string()));
    let body = UpdateEntryRequest { description: Some("renamed".to_string()) };
    match update_entry(6, &body, None) {
        RouteStep::Query(DbCall::UpdateEntry { id, description }) => {
            assert_eq!(id, 6);
            assert_eq!(description, "renamed");
        }
        other => panic!("unexpected {:?}", other),
    }
    let r = response(update_entry(6, &body, Some(DbReply::Updated(Ok(Some(row(6, Some("renamed"), None)))))));
    assert_eq!(r.status, 200);
    assert!(matches!(r.body, Body::Entry(ref e) if e.description.as_deref() == Some("renamed")));
    assert_eq!(
        error_of(update_entry(6, &body, Some(DbReply::Updated(Ok(None))))),
        (404, "Entry not found".to_string())
    );
    assert_eq!(
        error_of(update_entry(6, &body, Some(DbReply::Updated(Err(failure("u")))))),
        (500, "u".to_string())
    );
}

#[test]
fn entry_copied_to_response() {
    let r = entry_to_response(row(11, Some("d"), Some(1200)));
    assert_eq!(r.id, 11);
    assert_eq!(r.description.as_deref(), Some("d"));
    assert_eq!(r.started_at, Timestamp::new(1000, 5));
    assert_eq!(r.stopped_at, Some(Timestamp::new(1200, 0)));
}

#[test]
fn bearer_tokens() {
    assert!(authorized(Some("Bearer secret"), "secret"));
    assert!(!authorized(Some("Bearer secret"), "other"));
    assert!(!authorized(Some("bearer secret"), "secret"));
    assert!(!authorized(Some("secret"), "secret"));
    assert!(!authorized(None, "secret"));
    assert!(authorized(None, ""));
    assert!(authorized(Some("Basic x"), ""));
    assert!(authorized(Some("Bearer "), ""));
    assert!(authorized(Some("Bearer ключ"), "ключ"));
    assert_eq!(authorization_value("k3y"), "Bearer k3y");
    assert!(authorized(Some(&authorization_value("k3y")), "k3y"));
    assert!(!authorized(Some(&authorization_value("k3y")), "k3"));
}

#[test]
fn settings_from_environment() {
    let s = |v: &str| Some(v.to_string());
    assert_eq!(server_settings(None, s("k"), None).unwrap_err(), SettingsError::MissingDatabaseUrl);
    assert_eq!(server_settings(s("db"), None, s("1")).unwrap_err(), SettingsError::MissingApiKey);
    assert_eq!(server_settings(s("db"), s(""), None).unwrap_err(), SettingsError::EmptyApiKey);
    let ok = server_settings(s("postgres://x"), s("k"), None).unwrap();
    assert_eq!(ok.database_url, "postgres://x");
    assert_eq!(ok.api_key, "k");
    assert_eq!(ok.listen_addr, "0.0.0.0:3000");
    let ok = server_settings(s("db"), s("k"), s("8080")).unwrap();
    assert_eq!(ok.listen_addr, "0.0.0.0:8080");
    assert_eq!(SettingsError::MissingDatabaseUrl.message(), "DATABASE_URL must be set");
    assert_eq!(SettingsError::MissingApiKey.message(), "API_KEY must be set");
    assert_eq!(SettingsError::EmptyApiKey.message(), "API_KEY must not be empty");
}
