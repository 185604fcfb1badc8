use crewlist::config::{bind_or_default, required};
use crewlist::detail::{TaskDetail, SCHEMA_VERSION};
use crewlist::dto::{default_true, ComponentHealth, DeleteQuery, HealthResponse, ListQuery};
use crewlist::error::ErrorCode;
use crewlist::store::StoreError;
use crewlist::task::{trim, validate_title, Timestamp, TITLE_MAX_CHARS};

fn now() -> Timestamp {
    Timestamp { secs: 1_785_247_331, nanos: 0 }
}

#[test]
fn unit_title_is_trimmed() {
    assert_eq!(validate_title("  find a tree service \t\n").unwrap(), "find a tree service");
    assert_eq!(trim("\u{3000}x y\u{a0}"), "x y");
    assert_eq!(trim("plain"), "plain");
}

#[test]
fn blank_titles_are_rejected() {
    for title in ["", "   ", "\t\n"] {
        let err = validate_title(title).unwrap_err();
        assert_eq!(err.code(), ErrorCode::Validation);
        assert_eq!(err.exit_code(), 6);
        assert_eq!(err.to_string(), "title must not be blank");
    }
}

#[test]
fn title_length_boundary() {
    assert_eq!(TITLE_MAX_CHARS, 500);
    let ok = "a".repeat(500);
    assert_eq!(validate_title(&ok).unwrap(), ok);
    let padded = format!("  {ok}  ");
    assert_eq!(validate_title(&padded).unwrap(), ok);
    let long = "a".repeat(501);
    let err = validate_title(&long).unwrap_err();
    assert_eq!(err.exit_code(), 6);
    assert_eq!(err.to_string(), "title must be at most 500 characters");
    let wide = "é".repeat(500);
    assert_eq!(validate_title(&wide).unwrap(), wide);
}

#[test]
fn empty_detail_is_fully_defaulted() {
    let d = TaskDetail::empty_for(1, now());
    assert_eq!(d.task_id, 1);
    assert_eq!(d.schema_version, 1);
    assert_eq!(d.schema_version, SCHEMA_VERSION);
    assert_eq!(d.description, "");
    assert!(d.notes.is_empty());
    assert!(d.sources.is_empty());
    assert!(d.contacts.is_empty());
    assert_eq!(d.summary, None);
    assert_eq!(d.created_at, now());
    assert_eq!(d.updated_at, now());
}

#[test]
fn unit_unknown_schema_version_rejected() {
    let d = TaskDetail::empty_for(3, now());
    assert_eq!(d.clone().check_version().unwrap(), d);

    let mut future = TaskDetail::empty_for(3, now());
    future.schema_version = 2;
    let err = future.check_version().unwrap_err();
    assert_eq!(err.code(), ErrorCode::Validation);
    assert_eq!(err.to_string(), "unsupported detail schema_version 2");

    let mut old = TaskDetail::empty_for(3, now());
    old.schema_version = -7;
    assert_eq!(
        old.check_version().unwrap_err().to_string(),
        "unsupported detail schema_version -7"
    );
}

#[test]
fn request_defaults() {
    assert!(default_true());
    let q = ListQuery::default();
    assert_eq!(q.queue, None);
    assert_eq!(q.status, None);
    assert!(!q.all);
    assert!(!DeleteQuery::default().force);
}

#[test]
fn component_health_constructors() {
    let ok = ComponentHealth::ok();
    assert!(ok.ok);
    assert_eq!(ok.version, None);
    assert_eq!(ok.message, None);

    let v = ComponentHealth::ok_with_version("0.1.0");
    assert!(v.ok);
    assert_eq!(v.version.as_deref(), Some("0.1.0"));
    assert_eq!(v.message, None);

    let f = ComponentHealth::failed("connection refused");
    assert!(!f.ok);
    assert_eq!(f.message.as_deref(), Some("connection refused"));
    assert_eq!(f.version, None);
}

#[test]
fn health_is_ok_only_when_everything_is_up() {
    let up = HealthResponse::from_pings(&Ok(()), &Ok(()), "0.1.0");
    assert!(up.all_ok());
    assert_eq!(up.server.version.as_deref(), Some("0.1.0"));
    assert_eq!(up.postgres.message, None);
    assert_eq!(up.mongo.message, None);

    let pg_down = HealthResponse::from_pings(
        &Err(StoreError::Query { store: "postgres", source: "connection refused".into() }),
        &Ok(()),
        "0.1.0",
    );
    assert!(!pg_down.all_ok());
    assert!(!pg_down.postgres.ok);
    assert_eq!(
        pg_down.postgres.message.as_deref(),
        Some("postgres query failed: connection refused")
    );
    assert!(pg_down.mongo.ok);

    let mongo_down = HealthResponse::from_pings(
        &Ok(()),
        &Err(StoreError::Query { store: "mongo", source: "no primary".into() }),
        "0.1.0",
    );
    assert!(!mongo_down.all_ok());
    assert_eq!(mongo_down.mongo.message.as_deref(), Some("mongo query failed: no primary"));
    assert!(mongo_down.postgres.ok);
}

#[test]
fn server_binds_loopback_by_default() {
    assert_eq!(bind_or_default(None), "127.0.0.1:8787");
    assert_eq!(bind_or_default(Some("0.0.0.0:9000".to_string())), "0.0.0.0:9000");
}

#[test]
fn required_settings() {
    assert_eq!(
        required("CREWLIST_POSTGRES_URL", None).unwrap_err(),
        "CREWLIST_POSTGRES_URL must be set"
    );
    assert_eq!(
        required("CREWLIST_MONGO_URL", Some("mongodb://mongo:27017".into())).unwrap(),
        "mongodb://mongo:27017"
    );
}

#[test]
fn whitespace_matches_std_on_every_char() {
    for u in 0u32..=0x10FFFF {
        if let Some(c) = char::from_u32(u) {
            assert_eq!(crewlist::task::is_whitespace(c), c.is_whitespace(), "U+{u:04X}");
        }
    }
}
