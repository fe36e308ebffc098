use rpg_editor::open::{
    default_manifest_body, manifest_file_name, OpenAction, OpenEvent, OpenKind, OpenPayload,
    OpenState, Outcome,
};

fn s(t: &str) -> String {
    t.to_string()
}

fn payload(path: &str, body: &str) -> OpenPayload<String> {
    OpenPayload { path: s(path), body: s(body) }
}

#[test]
fn constants_of_the_workspace_layout() {
    assert_eq!(manifest_file_name(), "project.json");
    assert_eq!(default_manifest_body(), "{\"maps\":[]}");
    assert_eq!(OpenKind::Workspace.channel(), "open_workspace");
    assert_eq!(OpenKind::JsonFile.channel(), "open_json_file");
}

#[test]
fn start_shows_the_picker() {
    let (st, a) = OpenState::start(OpenKind::Workspace);
    assert_eq!(a, OpenAction::Pick { kind: OpenKind::Workspace });
    assert_eq!(st.outcome(), None);
    let (_, a) = OpenState::start(OpenKind::JsonFile);
    assert_eq!(a, OpenAction::Pick { kind: OpenKind::JsonFile });
}

#[test]
fn workspace_without_manifest_opens_default() {
    let (st, _) = OpenState::start(OpenKind::Workspace);
    let (st, a) = st.step(OpenEvent::Picked { path: Some(s("/ws")) });
    assert_eq!(a, OpenAction::CheckFolder { folder: s("/ws") });
    let (st, a) = st.step(OpenEvent::FolderChecked { is_dir: true });
    assert_eq!(a, OpenAction::CheckManifest { folder: s("/ws") });
    let (st, a) = st.step(OpenEvent::ManifestChecked { is_file: false });
    assert_eq!(a, OpenAction::Emit { kind: OpenKind::Workspace, payload: payload("/ws", "{\"maps\":[]}") });
    let (st, a) = st.step(OpenEvent::EmitDone { result: Ok(()) });
    assert_eq!(a, OpenAction::Wait);
    assert_eq!(st.outcome(), Some(Outcome::Opened { payload: payload("/ws", "{\"maps\":[]}") }));
}

#[test]
fn workspace_with_manifest_opens_its_text() {
    let content = "{\"maps\":[{\"id\":7}],\n \"name\":\"w\"}";
    let (st, _) = OpenState::start(OpenKind::Workspace);
    let (st, _) = st.step(OpenEvent::Picked { path: Some(s("/ws")) });
    let (st, _) = st.step(OpenEvent::FolderChecked { is_dir: true });
    let (st, a) = st.step(OpenEvent::ManifestChecked { is_file: true });
    assert_eq!(a, OpenAction::ReadManifest { folder: s("/ws") });
    let (st, a) = st.step(OpenEvent::ReadDone { result: Ok(s(content)) });
    assert_eq!(a, OpenAction::Emit { kind: OpenKind::Workspace, payload: payload("/ws", content) });
    let (st, _) = st.step(OpenEvent::EmitDone { result: Ok(()) });
    assert_eq!(st.outcome(), Some(Outcome::Opened { payload: payload("/ws", content) }));
}

#[test]
fn json_file_opens_verbatim() {
    let (st, _) = OpenState::start(OpenKind::JsonFile);
    let (st, a) = st.step(OpenEvent::Picked { path: Some(s("/m.json")) });
    assert_eq!(a, OpenAction::ReadFile { path: s("/m.json") });
    let (st, a) = st.step(OpenEvent::ReadDone { result: Ok(s("{\"maps\":[{\"id\":1}]}")) });
    assert_eq!(
        a,
        OpenAction::Emit { kind: OpenKind::JsonFile, payload: payload("/m.json", "{\"maps\":[{\"id\":1}]}") }
    );
    let (st, a) = st.step(OpenEvent::EmitDone { result: Ok(()) });
    assert_eq!(a, OpenAction::Wait);
    assert_eq!(
        st.outcome(),
        Some(Outcome::Opened { payload: payload("/m.json", "{\"maps\":[{\"id\":1}]}") })
    );
}

#[test]
fn dismissed_pickers_stay_silent() {
    for kind in [OpenKind::Workspace, OpenKind::JsonFile] {
        let (st, _) = OpenState::start(kind);
        let (st, a) = st.step(OpenEvent::Picked { path: None });
        assert_eq!(a, OpenAction::Wait);
        let (st, a) = st.step(OpenEvent::EmitDone { result: Err(s("gone")) });
        assert_eq!(a, OpenAction::Wait);
        assert_eq!(st.outcome(), Some(Outcome::Cancelled));
    }
}

#[test]
fn vanished_folder_is_an_invalid_path() {
    let (st, _) = OpenState::start(OpenKind::Workspace);
    let (st, _) = st.step(OpenEvent::Picked { path: Some(s("/gone")) });
    let (st, a) = st.step(OpenEvent::FolderChecked { is_dir: false });
    assert_eq!(a, OpenAction::Report { message: s("/goneにディレクトリが存在しません。") });
    let (st, a) = st.step(OpenEvent::ManifestChecked { is_file: true });
    assert_eq!(a, OpenAction::Wait);
    assert_eq!(st.outcome(), Some(Outcome::PathInvalid));
}

#[test]
fn unreadable_manifest_is_reported_with_the_folder() {
    let (st, _) = OpenState::start(OpenKind::Workspace);
    let (st, _) = st.step(OpenEvent::Picked { path: Some(s("/ws")) });
    let (st, _) = st.step(OpenEvent::FolderChecked { is_dir: true });
    let (st, _) = st.step(OpenEvent::ManifestChecked { is_file: true });
    let (st, a) = st.step(OpenEvent::ReadDone { result: Err(s("Permission denied (os error 13)")) });
    assert_eq!(
        a,
        OpenAction::Report {
            message: s("/wsのproject.jsonを読み込めません：Permission denied (os error 13)")
        }
    );
    assert_eq!(st.outcome(), Some(Outcome::ReadFailed));
}

#[test]
fn unreadable_file_is_reported_with_its_path() {
    let (st, _) = OpenState::start(OpenKind::JsonFile);
    let (st, _) = st.step(OpenEvent::Picked { path: Some(s("/m.json")) });
    let (st, a) = st.step(OpenEvent::ReadDone {
        result: Err(s("stream did not contain valid UTF-8")),
    });
    assert_eq!(
        a,
        OpenAction::Report { message: s("/m.jsonを読み込めません：stream did not contain valid UTF-8") }
    );
    assert_eq!(st.outcome(), Some(Outcome::ReadFailed));
}

#[test]
fn failed_delivery_is_reported() {
    let (st, _) = OpenState::start(OpenKind::Workspace);
    let (st, _) = st.step(OpenEvent::Picked { path: Some(s("/ws")) });
    let (st, _) = st.step(OpenEvent::FolderChecked { is_dir: true });
    let (st, _) = st.step(OpenEvent::ManifestChecked { is_file: false });
    let (st, a) = st.step(OpenEvent::EmitDone { result: Err(s("window closed")) });
    assert_eq!(a, OpenAction::Report { message: s("ワークスペース'/ws'のロードに失敗：window closed") });
    assert_eq!(st.outcome(), Some(Outcome::EmitFailed));

    let (st, _) = OpenState::start(OpenKind::JsonFile);
    let (st, _) = st.step(OpenEvent::Picked { path: Some(s("/m.json")) });
    let (st, _) = st.step(OpenEvent::ReadDone { result: Ok(s("{}")) });
    let (st, a) = st.step(OpenEvent::EmitDone { result: Err(s("window closed")) });
    assert_eq!(a, OpenAction::Report { message: s("ファイル'/m.json'のロードに失敗：window closed") });
    assert_eq!(st.outcome(), Some(Outcome::EmitFailed));
}

#[test]
fn event_out_of_turn_changes_nothing() {
    let (st, _) = OpenState::start(OpenKind::Workspace);
    let (st, a) = st.step(OpenEvent::FolderChecked { is_dir: true });
    assert_eq!(a, OpenAction::Wait);
    assert_eq!(st, OpenState::Picking { kind: OpenKind::Workspace });
    let (st, _) = st.step(OpenEvent::Picked { path: Some(s("/ws")) });
    let (st, a) = st.step(OpenEvent::ReadDone { result: Ok(s("x")) });
    assert_eq!(a, OpenAction::Wait);
    assert_eq!(st, OpenState::CheckingFolder { folder: s("/ws") });
}
