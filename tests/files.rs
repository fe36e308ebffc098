use rpg_editor::files::{CreateAction, CreateEvent, CreateState, ReadFileResponse};

#[test]
fn read_of_missing_path_reports_the_error_text() {
    let error = "No such file or directory (os error 2)".to_string();
    let r = ReadFileResponse::from_read(Err(error.clone()));
    assert!(!r.ok);
    assert_eq!(r.content, error);
}

#[test]
fn successful_read_returns_the_text() {
    let r = ReadFileResponse::from_read(Ok("{\"maps\":[{\"id\":1}]}".to_string()));
    assert!(r.ok);
    assert_eq!(r.content, "{\"maps\":[{\"id\":1}]}");
}

#[test]
fn successful_read_of_empty_file_is_ok() {
    let r = ReadFileResponse::from_read(Ok(String::new()));
    assert!(r.ok);
    assert_eq!(r.content, "");
}

#[test]
fn create_starts_by_checking_the_path() {
    let (s, a) = CreateState::start("/m.json".to_string(), "{}".to_string());
    assert_eq!(a, CreateAction::CheckFile { path: "/m.json".to_string() });
    assert_eq!(s.created(), None);
}

#[test]
fn create_over_existing_file_fails_without_writing() {
    let (s, _) = CreateState::start("/m.json".to_string(), "{}".to_string());
    let (s, a) = s.step(CreateEvent::Checked { is_file: true });
    assert_eq!(a, CreateAction::Wait);
    assert_eq!(s.created(), Some(false));
    let (s, a) = s.step(CreateEvent::Written { ok: true });
    assert_eq!(a, CreateAction::Wait);
    assert_eq!(s.created(), Some(false));
}

#[test]
fn create_at_free_path_writes_the_body() {
    let (s, _) = CreateState::start("/new.json".to_string(), "{\"maps\":[]}".to_string());
    let (s, a) = s.step(CreateEvent::Checked { is_file: false });
    assert_eq!(
        a,
        CreateAction::WriteFile { path: "/new.json".to_string(), body: "{\"maps\":[]}".to_string() }
    );
    assert_eq!(s.created(), None);
    let (s, a) = s.step(CreateEvent::Written { ok: true });
    assert_eq!(a, CreateAction::Wait);
    assert_eq!(s.created(), Some(true));
}

#[test]
fn create_reports_a_failed_write() {
    let (s, _) = CreateState::start("/ro/x.json".to_string(), "x".to_string());
    let (s, _) = s.step(CreateEvent::Checked { is_file: false });
    let (s, a) = s.step(CreateEvent::Written { ok: false });
    assert_eq!(a, CreateAction::Wait);
    assert_eq!(s.created(), Some(false));
}

#[test]
fn create_ignores_an_event_out_of_turn() {
    let (s, _) = CreateState::start("/a".to_string(), "b".to_string());
    let (s, a) = s.step(CreateEvent::Written { ok: true });
    assert_eq!(a, CreateAction::Wait);
    assert_eq!(s, CreateState::Checking { path: "/a".to_string(), body: "b".to_string() });
}
