use at_unlock::{session_path_from_id, SessionId, SessionIdParseError, SessionRecord};

#[test]
fn parse_accepts_non_empty_and_displays_it() {
    for s in ["1", "c2", "session 7", "  ", "\t", "ünïcode"] {
        let id = SessionId::parse(s).unwrap();
        assert_eq!(id.to_string(), s);
        assert_eq!(id.as_str(), s);
    }
}

#[test]
fn parse_rejects_empty() {
    assert_eq!(SessionId::parse(""), Err(SessionIdParseError::NonEmptyString));
}

#[test]
fn from_str_matches_parse() {
    let id: SessionId = "42".parse().unwrap();
    assert_eq!(id, SessionId::parse("42").unwrap());
    assert_eq!("".parse::<SessionId>(), Err(SessionIdParseError::NonEmptyString));
}

#[test]
fn equality_is_by_text() {
    assert_eq!(SessionId::parse("a").unwrap(), SessionId::parse("a").unwrap());
    assert_ne!(SessionId::parse("a").unwrap(), SessionId::parse("b").unwrap());
    assert_ne!(SessionId::parse("a").unwrap(), SessionId::parse("a ").unwrap());
}

#[test]
fn error_message() {
    assert_eq!(
        SessionIdParseError::NonEmptyString.to_string(),
        "Session Id must be a non-empty string"
    );
}

#[test]
fn is_named_by_compares_text() {
    let id = SessionId::parse("3").unwrap();
    assert!(id.is_named_by("3"));
    assert!(!id.is_named_by(""));
    assert!(!id.is_named_by("33"));
}

fn record(id: &str, path: &str) -> SessionRecord {
    SessionRecord {
        session_id: id.to_string(),
        uid: 1000,
        user_name: "user".to_string(),
        seat: "seat0".to_string(),
        object_path: path.to_string(),
    }
}

#[test]
fn lookup_finds_first_matching_session() {
    let sessions = vec![
        record("", "/org/freedesktop/login1/session/_empty"),
        record("1", "/org/freedesktop/login1/session/_31"),
        record("2", "/org/freedesktop/login1/session/_32"),
        record("2", "/org/freedesktop/login1/session/second"),
    ];
    let path = session_path_from_id(&sessions, SessionId::parse("2").unwrap());
    assert_eq!(path, Some("/org/freedesktop/login1/session/_32".to_string()));
}

#[test]
fn lookup_reports_missing_session() {
    let sessions = vec![record("1", "/a"), record("", "/b")];
    assert_eq!(session_path_from_id(&sessions, SessionId::parse("9").unwrap()), None);
    assert_eq!(session_path_from_id(&Vec::new(), SessionId::parse("1").unwrap()), None);
}
