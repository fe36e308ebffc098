//! The open protocol: a picker, a check of what was picked, a read with a
//! fallback default, and one event to the frontend or one message to the user.
//!
//! The flow is a state machine. The application performs each action it is
//! given, reports the result as an event, and stops at `Wait`.
use vstd::prelude::*;
use vstd::string::StringExecFns;

verus! {

/// Which of the two open flows runs.
#[derive(Clone, Copy, Debug, PartialEq, Eq, Structural)]
pub enum OpenKind {
    /// A folder picker; the folder's manifest is read, or a default is used.
    Workspace,
    /// A file picker filtered to JSON; the picked file is read as it is.
    JsonFile,
}

/// What the frontend receives once something is opened. `S` is `String` in
/// running code and `Seq<char>` in its model.
#[derive(Clone, Debug, PartialEq, Eq)]
pub struct OpenPayload<S> {
    pub path: S,
    pub body: S,
}

/// How an open flow ended.
#[derive(Clone, Debug, PartialEq, Eq)]
pub enum Outcome<S> {
    /// The picker was dismissed: nothing is shown and nothing is sent.
    Cancelled,
    /// The picked folder is not an existing directory.
    PathInvalid,
    /// The file that was to be read could not be read.
    ReadFailed,
    /// The event could not be delivered to the frontend.
    EmitFailed,
    /// The payload was delivered.
    Opened { payload: OpenPayload<S> },
}

/// Where an open flow stands.
#[derive(Clone, Debug, PartialEq, Eq)]
pub enum OpenState<S> {
    /// Waiting for the user to pick a folder or a file.
    Picking { kind: OpenKind },
    /// Waiting to learn whether the picked folder is a directory.
    CheckingFolder { folder: S },
    /// Waiting to learn whether the folder holds a manifest file.
    CheckingManifest { folder: S },
    /// Waiting for the folder's manifest to be read.
    ReadingManifest { folder: S },
    /// Waiting for the picked file to be read.
    ReadingFile { path: S },
    /// Waiting for the payload's delivery to be confirmed.
    Emitting { kind: OpenKind, payload: OpenPayload<S> },
    /// Finished.
    Done { outcome: Outcome<S> },
}

/// What the application reports back to an open flow.
#[derive(Debug, PartialEq, Eq)]
pub enum OpenEvent<S> {
    /// The picker closed, with the chosen path or `None` when dismissed.
    Picked { path: Option<S> },
    /// Whether the picked folder is an existing directory.
    FolderChecked { is_dir: bool },
    /// Whether the folder's manifest is an existing file.
    ManifestChecked { is_file: bool },
    /// The text read, or the system's error text.
    ReadDone { result: Result<S, S> },
    /// Whether the event reached the frontend, or the error's text.
    EmitDone { result: Result<(), S> },
}

/// What an open flow asks the application to do next.
#[derive(Clone, Debug, PartialEq, Eq)]
pub enum OpenAction<S> {
    /// Show the picker of this kind.
    Pick { kind: OpenKind },
    /// Find out whether `folder` is an existing directory.
    CheckFolder { folder: S },
    /// Find out whether the manifest inside `folder` is an existing file.
    CheckManifest { folder: S },
    /// Read the manifest inside `folder` as text.
    ReadManifest { folder: S },
    /// Read the file at `path` as text.
    ReadFile { path: S },
    /// Send `payload` to the frontend on the channel of `kind`.
    Emit { kind: OpenKind, payload: OpenPayload<S> },
    /// Show `message` to the user in a dialog.
    Report { message: S },
    /// Nothing is left to do.
    Wait,
}

impl View for OpenPayload<String> {
    type V = OpenPayload<Seq<char>>;

    open spec fn view(&self) -> OpenPayload<Seq<char>> {
        OpenPayload { path: self.path@, body: self.body@ }
    }
}

impl View for Outcome<String> {
    type V = Outcome<Seq<char>>;

    open spec fn view(&self) -> Outcome<Seq<char>> {
        match self {
            Outcome::Cancelled => Outcome::Cancelled,
            Outcome::PathInvalid => Outcome::PathInvalid,
            Outcome::ReadFailed => Outcome::ReadFailed,
            Outcome::EmitFailed => Outcome::EmitFailed,
            Outcome::Opened { payload } => Outcome::Opened { payload: payload@ },
        }
    }
}

impl View for OpenState<String> {
    type V = OpenState<Seq<char>>;

    open spec fn view(&self) -> OpenState<Seq<char>> {
        match self {
            OpenState::Picking { kind } => OpenState::Picking { kind: *kind },
            OpenState::CheckingFolder { folder } => OpenState::CheckingFolder { folder: folder@ },
            OpenState::CheckingManifest { folder } => OpenState::CheckingManifest { folder: folder@ },
            OpenState::ReadingManifest { folder } => OpenState::ReadingManifest { folder: folder@ },
            OpenState::ReadingFile { path } => OpenState::ReadingFile { path: path@ },
            OpenState::Emitting { kind, payload } => OpenState::Emitting { kind: *kind, payload: payload@ },
            OpenState::Done { outcome } => OpenState::Done { outcome: outcome@ },
        }
    }
}

impl View for OpenEvent<String> {
    type V = OpenEvent<Seq<char>>;

    open spec fn view(&self) -> OpenEvent<Seq<char>> {
        match self {
            OpenEvent::Picked { path } => OpenEvent::Picked {
                path: match path {
                    Some(p) => Some(p@),
                    None => None,
                },
            },
            OpenEvent::FolderChecked { is_dir } => OpenEvent::FolderChecked { is_dir: *is_dir },
            OpenEvent::ManifestChecked { is_file } => OpenEvent::ManifestChecked { is_file: *is_file },
            OpenEvent::ReadDone { result } => OpenEvent::ReadDone {
                result: match result {
                    Ok(t) => Ok(t@),
                    Err(m) => Err(m@),
                },
            },
            OpenEvent::EmitDone { result } => OpenEvent::EmitDone {
                result: match result {
                    Ok(u) => Ok(*u),
                    Err(m) => Err(m@),
                },
            },
        }
    }
}

impl View for OpenAction<String> {
    type V = OpenAction<Seq<char>>;

    open spec fn view(&self) -> OpenAction<Seq<char>> {
        match self {
            OpenAction::Pick { kind } => OpenAction::Pick { kind: *kind },
            OpenAction::CheckFolder { folder } => OpenAction::CheckFolder { folder: folder@ },
            OpenAction::CheckManifest { folder } => OpenAction::CheckManifest { folder: folder@ },
            OpenAction::ReadManifest { folder } => OpenAction::ReadManifest { folder: folder@ },
            OpenAction::ReadFile { path } => OpenAction::ReadFile { path: path@ },
            OpenAction::Emit { kind, payload } => OpenAction::Emit { kind: *kind, payload: payload@ },
            OpenAction::Report { message } => OpenAction::Report { message: message@ },
            OpenAction::Wait => OpenAction::Wait,
        }
    }
}

/// The name of the workspace manifest inside a workspace folder.
pub open spec fn manifest_name() -> Seq<char> {
    "project.json"@
}

/// The manifest body used for a folder that has none yet.
pub open spec fn default_body() -> Seq<char> {
    "{\"maps\":[]}"@
}

/// The channel on which a flow of `kind` delivers its payload.
pub open spec fn channel_of(kind: OpenKind) -> Seq<char> {
    match kind {
        OpenKind::Workspace => "open_workspace"@,
        OpenKind::JsonFile => "open_json_file"@,
    }
}

/// The message for a picked folder that is not an existing directory.
pub open spec fn missing_folder_text(folder: Seq<char>) -> Seq<char> {
    folder + "にディレクトリが存在しません。"@
}

/// The message for a workspace manifest that could not be read.
pub open spec fn manifest_read_text(folder: Seq<char>, error: Seq<char>) -> Seq<char> {
    folder + "の"@ + manifest_name() + "を読み込めません："@ + error
}

/// The message for a picked file that could not be read.
pub open spec fn file_read_text(path: Seq<char>, error: Seq<char>) -> Seq<char> {
    path + "を読み込めません："@ + error
}

/// The message for a payload that could not be delivered to the frontend.
pub open spec fn emit_failed_text(kind: OpenKind, path: Seq<char>, error: Seq<char>) -> Seq<char> {
    match kind {
        OpenKind::Workspace => "ワークスペース'"@ + path + "'のロードに失敗："@ + error,
        OpenKind::JsonFile => "ファイル'"@ + path + "'のロードに失敗："@ + error,
    }
}

/// One step of an open flow. A dismissed picker ends it silently; every
/// failure ends it with one message that names the path; an event that does
/// not belong to the current state changes nothing.
pub open spec fn open_next(s: OpenState<Seq<char>>, e: OpenEvent<Seq<char>>) -> (OpenState<Seq<char>>, OpenAction<Seq<char>>) {
    match (s, e) {
        (OpenState::Picking { kind }, OpenEvent::Picked { path }) => match path {
            None => (OpenState::Done { outcome: Outcome::Cancelled }, OpenAction::Wait),
            Some(p) => match kind {
                OpenKind::Workspace => (
                    OpenState::CheckingFolder { folder: p },
                    OpenAction::CheckFolder { folder: p },
                ),
                OpenKind::JsonFile => (OpenState::ReadingFile { path: p }, OpenAction::ReadFile { path: p }),
            },
        },
        (OpenState::CheckingFolder { folder }, OpenEvent::FolderChecked { is_dir }) =>
            if is_dir {
                (OpenState::CheckingManifest { folder }, OpenAction::CheckManifest { folder })
            } else {
                (
                    OpenState::Done { outcome: Outcome::PathInvalid },
                    OpenAction::Report { message: missing_folder_text(folder) },
                )
            },
        (OpenState::CheckingManifest { folder }, OpenEvent::ManifestChecked { is_file }) =>
            if is_file {
                (OpenState::ReadingManifest { folder }, OpenAction::ReadManifest { folder })
            } else {
                let payload = OpenPayload { path: folder, body: default_body() };
                (
                    OpenState::Emitting { kind: OpenKind::Workspace, payload },
                    OpenAction::Emit { kind: OpenKind::Workspace, payload },
                )
            },
        (OpenState::ReadingManifest { folder }, OpenEvent::ReadDone { result }) => match result {
            Ok(body) => {
                let payload = OpenPayload { path: folder, body };
                (
                    OpenState::Emitting { kind: OpenKind::Workspace, payload },
                    OpenAction::Emit { kind: OpenKind::Workspace, payload },
                )
            },
            Err(error) => (
                OpenState::Done { outcome: Outcome::ReadFailed },
                OpenAction::Report { message: manifest_read_text(folder, error) },
            ),
        },
        (OpenState::ReadingFile { path }, OpenEvent::ReadDone { result }) => match result {
            Ok(body) => {
                let payload = OpenPayload { path, body };
                (
                    OpenState::Emitting { kind: OpenKind::JsonFile, payload },
                    OpenAction::Emit { kind: OpenKind::JsonFile, payload },
                )
            },
            Err(error) => (
                OpenState::Done { outcome: Outcome::ReadFailed },
                OpenAction::Report { message: file_read_text(path, error) },
            ),
        },
        (OpenState::Emitting { kind, payload }, OpenEvent::EmitDone { result }) => match result {
            Ok(_) => (OpenState::Done { outcome: Outcome::Opened { payload } }, OpenAction::Wait),
            Err(error) => (
                OpenState::Done { outcome: Outcome::EmitFailed },
                OpenAction::Report { message: emit_failed_text(kind, payload.path, error) },
            ),
        },
        _ => (s, OpenAction::Wait),
    }
}

/// The state after `events`, and the actions asked for on the way.
pub open spec fn open_run(s: OpenState<Seq<char>>, events: Seq<OpenEvent<Seq<char>>>) -> (OpenState<Seq<char>>, Seq<OpenAction<Seq<char>>>)
    decreases events.len(),
{
    if events.len() == 0 {
        (s, Seq::empty())
    } else {
        let (s1, a) = open_next(s, events[0]);
        let (s2, rest) = open_run(s1, events.drop_first());
        (s2, seq![a] + rest)
    }
}

/// The name of the workspace manifest inside a workspace folder.
pub fn manifest_file_name() -> (r: &'static str)
    ensures
        r@ == manifest_name(),
{
    "project.json"
}

/// The manifest body used for a folder that has none yet: a workspace
/// without maps.
pub fn default_manifest_body() -> (r: String)
    ensures
        r@ == default_body(),
{
    String::from_str("{\"maps\":[]}")
}

impl OpenKind {
    /// The name of the event that delivers a payload of this flow.
    pub fn channel(self) -> (r: &'static str)
        ensures
            r@ == channel_of(self),
    {
        match self {
            OpenKind::Workspace => "open_workspace",
            OpenKind::JsonFile => "open_json_file",
        }
    }
}

fn missing_folder_message(folder: &String) -> (r: String)
    ensures
        r@ == missing_folder_text(folder@),
{
    let mut m = folder.clone();
    m.append("にディレクトリが存在しません。");
    m
}

fn manifest_read_message(folder: &String, error: &String) -> (r: String)
    ensures
        r@ == manifest_read_text(folder@, error@),
{
    let mut m = folder.clone();
    m.append("の");
    m.append(manifest_file_name());
    m.append("を読み込めません：");
    m.append(error.as_str());
    m
}

fn file_read_message(path: &String, error: &String) -> (r: String)
    ensures
        r@ == file_read_text(path@, error@),
{
    let mut m = path.clone();
    m.append("を読み込めません：");
    m.append(error.as_str());
    m
}

fn emit_failed_message(kind: OpenKind, path: &String, error: &String) -> (r: String)
    ensures
        r@ == emit_failed_text(kind, path@, error@),
{
    let mut m = match kind {
        OpenKind::Workspace => String::from_str("ワークスペース'"),
        OpenKind::JsonFile => String::from_str("ファイル'"),
    };
    m.append(path.as_str());
    m.append("'のロードに失敗：");
    m.append(error.as_str());
    m
}

impl OpenState<String> {
    /// Start an open flow of `kind`: first show its picker.
    pub fn start(kind: OpenKind) -> (r: (OpenState<String>, OpenAction<String>))
        ensures
            r.0@ == (OpenState::<Seq<char>>::Picking { kind }),
            r.1@ == (OpenAction::<Seq<char>>::Pick { kind }),
    {
        (OpenState::Picking { kind }, OpenAction::Pick { kind })
    }

    /// Take in what the application reports and say what comes next.
    pub fn step(self, e: OpenEvent<String>) -> (r: (OpenState<String>, OpenAction<String>))
        ensures
            (r.0@, r.1@) == open_next(self@, e@),
    {
        match (self, e) {
            (OpenState::Picking { kind }, OpenEvent::Picked { path }) => match path {
                None => (OpenState::Done { outcome: Outcome::Cancelled }, OpenAction::Wait),
                Some(p) => match kind {
                    OpenKind::Workspace => {
                        let folder = p.clone();
                        (OpenState::CheckingFolder { folder: p }, OpenAction::CheckFolder { folder })
                    },
                    OpenKind::JsonFile => {
                        let path = p.clone();
                        (OpenState::ReadingFile { path: p }, OpenAction::ReadFile { path })
                    },
                },
            },
            (OpenState::CheckingFolder { folder }, OpenEvent::FolderChecked { is_dir }) => {
                if is_dir {
                    let f = folder.clone();
                    (OpenState::CheckingManifest { folder }, OpenAction::CheckManifest { folder: f })
                } else {
                    let message = missing_folder_message(&folder);
                    (OpenState::Done { outcome: Outcome::PathInvalid }, OpenAction::Report { message })
                }
            },
            (OpenState::CheckingManifest { folder }, OpenEvent::ManifestChecked { is_file }) => {
                if is_file {
                    let f = folder.clone();
                    (OpenState::ReadingManifest { folder }, OpenAction::ReadManifest { folder: f })
                } else {
                    let body = default_manifest_body();
                    let sent = OpenPayload { path: folder.clone(), body: body.clone() };
                    let kept = OpenPayload { path: folder, body };
                    (
                        OpenState::Emitting { kind: OpenKind::Workspace, payload: kept },
                        OpenAction::Emit { kind: OpenKind::Workspace, payload: sent },
                    )
                }
            },
            (OpenState::ReadingManifest { folder }, OpenEvent::ReadDone { result }) => match result {
                Ok(body) => {
                    let sent = OpenPayload { path: folder.clone(), body: body.clone() };
                    let kept = OpenPayload { path: folder, body };
                    (
                        OpenState::Emitting { kind: OpenKind::Workspace, payload: kept },
                        OpenAction::Emit { kind: OpenKind::Workspace, payload: sent },
                    )
                },
                Err(error) => {
                    let message = manifest_read_message(&folder, &error);
                    (OpenState::Done { outcome: Outcome::ReadFailed }, OpenAction::Report { message })
                },
            },
            (OpenState::ReadingFile { path }, OpenEvent::ReadDone { result }) => match result {
                Ok(body) => {
                    let sent = OpenPayload { path: path.clone(), body: body.clone() };
                    let kept = OpenPayload { path, body };
                    (
                        OpenState::Emitting { kind: OpenKind::JsonFile, payload: kept },
                        OpenAction::Emit { kind: OpenKind::JsonFile, payload: sent },
                    )
                },
                Err(error) => {
                    let message = file_read_message(&path, &error);
                    (OpenState::Done { outcome: Outcome::ReadFailed }, OpenAction::Report { message })
                },
            },
            (OpenState::Emitting { kind, payload }, OpenEvent::EmitDone { result }) => match result {
                Ok(_) => (OpenState::Done { outcome: Outcome::Opened { payload } }, OpenAction::Wait),
                Err(error) => {
                    let message = emit_failed_message(kind, &payload.path, &error);
                    (OpenState::Done { outcome: Outcome::EmitFailed }, OpenAction::Report { message })
                },
            },
            (s, _) => (s, OpenAction::Wait),
        }
    }

    /// How the flow ended, once it has.
    pub fn outcome(self) -> (r: Option<Outcome<String>>)
        ensures
            r matches Some(o) ==> self@ == (OpenState::Done { outcome: o@ }),
            r is None <==> !(self@ is Done),
    {
        match self {
            OpenState::Done { outcome } => Some(outcome),
            _ => None,
        }
    }
}

/// Once done, an open flow stays done and asks for nothing more.
pub proof fn lemma_open_done_is_final(outcome: Outcome<Seq<char>>, events: Seq<OpenEvent<Seq<char>>>)
    ensures
        open_run(OpenState::Done { outcome }, events).0 == (OpenState::Done { outcome }),
        open_run(OpenState::Done { outcome }, events).1.len() == events.len(),
        forall|i: int| 0 <= i < events.len() ==>
            #[trigger] open_run(OpenState::Done { outcome }, events).1[i] == OpenAction::<Seq<char>>::Wait,
    decreases events.len(),
{
    if events.len() > 0 {
        lemma_open_done_is_final(outcome, events.drop_first());
    }
}

/// Dismissing either picker ends the flow as cancelled: no event is sent and
/// no message is shown, whatever is reported afterwards.
pub proof fn lemma_dismissed_picker_is_silent(kind: OpenKind, events: Seq<OpenEvent<Seq<char>>>)
    ensures
        ({
            let (s, actions) = open_run(
                OpenState::Picking { kind },
                seq![OpenEvent::Picked { path: None }] + events,
            );
            &&& s == OpenState::<Seq<char>>::Done { outcome: Outcome::Cancelled }
            &&& forall|i: int| 0 <= i < actions.len() ==> #[trigger] actions[i] == OpenAction::<Seq<char>>::Wait
        }),
{
    let all = seq![OpenEvent::Picked { path: None }] + events;
    assert(all.drop_first() =~= events);
    lemma_open_done_is_final(Outcome::Cancelled, events);
    let actions = open_run(OpenState::Picking { kind }, all).1;
    assert forall|i: int| 0 <= i < actions.len() implies #[trigger] actions[i] == OpenAction::<Seq<char>>::Wait by {
        if i > 0 {
            assert(actions[i] == open_run(OpenState::Done { outcome: Outcome::Cancelled }, events).1[i - 1]);
        }
    }
}

/// A picked folder that is no longer a directory when it is checked ends the
/// flow as an invalid path: one message that names the folder, and no event
/// to the frontend, whatever is reported afterwards.
pub proof fn lemma_vanished_folder_is_path_invalid(folder: Seq<char>, events: Seq<OpenEvent<Seq<char>>>)
    ensures
        ({
            let (s, actions) = open_run(
                OpenState::Picking { kind: OpenKind::Workspace },
                seq![OpenEvent::Picked { path: Some(folder) }, OpenEvent::FolderChecked { is_dir: false }] + events,
            );
            &&& s == OpenState::<Seq<char>>::Done { outcome: Outcome::PathInvalid }
            &&& actions.len() == events.len() + 2
            &&& actions[0] == OpenAction::CheckFolder { folder }
            &&& actions[1] == OpenAction::Report { message: missing_folder_text(folder) }
            &&& missing_folder_text(folder).subrange(0, folder.len() as int) == folder
            &&& forall|i: int| 2 <= i < actions.len() ==> #[trigger] actions[i] == OpenAction::<Seq<char>>::Wait
            &&& forall|i: int| 0 <= i < actions.len() ==> !(#[trigger] actions[i] is Emit)
        }),
{
    let all = seq![OpenEvent::Picked { path: Some(folder) }, OpenEvent::FolderChecked { is_dir: false }] + events;
    assert(all.drop_first().drop_first() =~= events);
    lemma_open_done_is_final(Outcome::PathInvalid, events);
    let tail = open_run(OpenState::Done { outcome: Outcome::PathInvalid }, events).1;
    let mid = open_run(OpenState::CheckingFolder { folder }, all.drop_first()).1;
    let actions = open_run(OpenState::Picking { kind: OpenKind::Workspace }, all).1;
    assert forall|i: int| 2 <= i < actions.len() implies #[trigger] actions[i] == OpenAction::<Seq<char>>::Wait by {
        assert(actions[i] == mid[i - 1]);
        assert(mid[i - 1] == tail[i - 2]);
    }
    assert forall|i: int| 0 <= i < actions.len() implies !(#[trigger] actions[i] is Emit) by {
        if i >= 2 {
            assert(actions[i] == mid[i - 1]);
            assert(mid[i - 1] == tail[i - 2]);
        }
    }
    assert(missing_folder_text(folder).subrange(0, folder.len() as int) =~= folder);
}

/// A workspace folder without a manifest opens with the default body. The
/// flow only checks, then sends: nothing is read and no file is written.
pub proof fn lemma_absent_manifest_opens_default(folder: Seq<char>)
    ensures
        ({
            let payload = OpenPayload { path: folder, body: default_body() };
            open_run(
                OpenState::Picking { kind: OpenKind::Workspace },
                seq![
                    OpenEvent::Picked { path: Some(folder) },
                    OpenEvent::FolderChecked { is_dir: true },
                    OpenEvent::ManifestChecked { is_file: false },
                    OpenEvent::EmitDone { result: Ok(()) },
                ],
            ) == (
                OpenState::Done { outcome: Outcome::Opened { payload } },
                seq![
                    OpenAction::CheckFolder { folder },
                    OpenAction::CheckManifest { folder },
                    OpenAction::Emit { kind: OpenKind::Workspace, payload },
                    OpenAction::Wait,
                ],
            )
        }),
{
    let payload = OpenPayload { path: folder, body: default_body() };
    let events = seq![
        OpenEvent::Picked { path: Some(folder) },
        OpenEvent::FolderChecked { is_dir: true },
        OpenEvent::ManifestChecked { is_file: false },
        OpenEvent::EmitDone { result: Ok(()) },
    ];
    let e1 = events.drop_first();
    let e2 = e1.drop_first();
    let e3 = e2.drop_first();
    let e4 = e3.drop_first();
    assert(e4 =~= Seq::<OpenEvent<Seq<char>>>::empty());
    let done = OpenState::Done { outcome: Outcome::Opened { payload } };
    assert(open_run(done, e4).1 =~= Seq::<OpenAction<Seq<char>>>::empty());
    let emitting = OpenState::Emitting { kind: OpenKind::Workspace, payload };
    assert(open_run(emitting, e3).1 =~= seq![OpenAction::<Seq<char>>::Wait]);
    assert(open_run(OpenState::CheckingManifest { folder }, e2).1 =~= seq![
        OpenAction::Emit { kind: OpenKind::Workspace, payload },
        OpenAction::Wait,
    ]);
    assert(open_run(OpenState::CheckingFolder { folder }, e1).1 =~= seq![
        OpenAction::CheckManifest { folder },
        OpenAction::Emit { kind: OpenKind::Workspace, payload },
        OpenAction::Wait,
    ]);
    assert(open_run(OpenState::Picking { kind: OpenKind::Workspace }, events).1 =~= seq![
        OpenAction::CheckFolder { folder },
        OpenAction::CheckManifest { folder },
        OpenAction::Emit { kind: OpenKind::Workspace, payload },
        OpenAction::Wait,
    ]);
}

/// A workspace folder with a manifest opens with the manifest's text exactly
/// as it was read.
pub proof fn lemma_manifest_opens_verbatim(folder: Seq<char>, content: Seq<char>)
    ensures
        ({
            let payload = OpenPayload { path: folder, body: content };
            open_run(
                OpenState::Picking { kind: OpenKind::Workspace },
                seq![
                    OpenEvent::Picked { path: Some(folder) },
                    OpenEvent::FolderChecked { is_dir: true },
                    OpenEvent::ManifestChecked { is_file: true },
                    OpenEvent::ReadDone { result: Ok(content) },
                    OpenEvent::EmitDone { result: Ok(()) },
                ],
            ) == (
                OpenState::Done { outcome: Outcome::Opened { payload } },
                seq![
                    OpenAction::CheckFolder { folder },
                    OpenAction::CheckManifest { folder },
                    OpenAction::ReadManifest { folder },
                    OpenAction::Emit { kind: OpenKind::Workspace, payload },
                    OpenAction::Wait,
                ],
            )
        }),
{
    let payload = OpenPayload { path: folder, body: content };
    let events = seq![
        OpenEvent::Picked { path: Some(folder) },
        OpenEvent::FolderChecked { is_dir: true },
        OpenEvent::ManifestChecked { is_file: true },
        OpenEvent::ReadDone { result: Ok(content) },
        OpenEvent::EmitDone { result: Ok(()) },
    ];
    let e1 = events.drop_first();
    let e2 = e1.drop_first();
    let e3 = e2.drop_first();
    let e4 = e3.drop_first();
    let e5 = e4.drop_first();
    assert(e5 =~= Seq::<OpenEvent<Seq<char>>>::empty());
    let done = OpenState::Done { outcome: Outcome::Opened { payload } };
    assert(open_run(done, e5).1 =~= Seq::<OpenAction<Seq<char>>>::empty());
    let emitting = OpenState::Emitting { kind: OpenKind::Workspace, payload };
    assert(open_run(emitting, e4).1 =~= seq![OpenAction::<Seq<char>>::Wait]);
    assert(open_run(OpenState::ReadingManifest { folder }, e3).1 =~= seq![
        OpenAction::Emit { kind: OpenKind::Workspace, payload },
        OpenAction::Wait,
    ]);
    assert(open_run(OpenState::CheckingManifest { folder }, e2).1 =~= seq![
        OpenAction::ReadManifest { folder },
        OpenAction::Emit { kind: OpenKind::Workspace, payload },
        OpenAction::Wait,
    ]);
    assert(open_run(OpenState::CheckingFolder { folder }, e1).1 =~= seq![
        OpenAction::CheckManifest { folder },
        OpenAction::ReadManifest { folder },
        OpenAction::Emit { kind: OpenKind::Workspace, payload },
        OpenAction::Wait,
    ]);
    assert(open_run(OpenState::Picking { kind: OpenKind::Workspace }, events).1 =~= seq![
        OpenAction::CheckFolder { folder },
        OpenAction::CheckManifest { folder },
        OpenAction::ReadManifest { folder },
        OpenAction::Emit { kind: OpenKind::Workspace, payload },
        OpenAction::Wait,
    ]);
}


/// An open flow shows the user at most one message: every failure ends it.
pub proof fn lemma_at_most_one_report(s: OpenState<Seq<char>>, events: Seq<OpenEvent<Seq<char>>>)
    ensures
        forall|i: int, j: int|
            0 <= i < j < open_run(s, events).1.len() && (#[trigger] open_run(s, events).1[i]) is Report
                ==> !((#[trigger] open_run(s, events).1[j]) is Report),
    decreases events.len(),
{
    if events.len() > 0 {
        let (s1, a) = open_next(s, events[0]);
        let tail = events.drop_first();
        lemma_at_most_one_report(s1, tail);
        if a is Report {
            lemma_open_done_is_final(s1->outcome, tail);
        }
        let actions = open_run(s, events).1;
        let rest = open_run(s1, tail).1;
        assert forall|i: int, j: int|
            0 <= i < j < actions.len() && (#[trigger] actions[i]) is Report
                implies !((#[trigger] actions[j]) is Report) by {
            assert(actions[j] == rest[j - 1]);
            if i > 0 {
                assert(actions[i] == rest[i - 1]);
            }
        }
    }
}

/// While a payload is on its way, no second one is sent.
proof fn lemma_emitting_sends_no_more(kind: OpenKind, payload: OpenPayload<Seq<char>>, events: Seq<OpenEvent<Seq<char>>>)
    ensures
        forall|i: int| 0 <= i < open_run(OpenState::Emitting { kind, payload }, events).1.len()
            ==> !((#[trigger] open_run(OpenState::Emitting { kind, payload }, events).1[i]) is Emit),
    decreases events.len(),
{
    if events.len() > 0 {
        let s = OpenState::Emitting { kind, payload };
        let (s1, a) = open_next(s, events[0]);
        let tail = events.drop_first();
        if s1 is Done {
            lemma_open_done_is_final(s1->outcome, tail);
        } else {
            lemma_emitting_sends_no_more(kind, payload, tail);
        }
        let actions = open_run(s, events).1;
        let rest = open_run(s1, tail).1;
        assert forall|i: int| 0 <= i < actions.len() implies !((#[trigger] actions[i]) is Emit) by {
            if i > 0 {
                assert(actions[i] == rest[i - 1]);
            }
        }
    }
}

/// An open flow sends at most one event to the frontend: a failed delivery
/// is not retried.
pub proof fn lemma_at_most_one_emit(s: OpenState<Seq<char>>, events: Seq<OpenEvent<Seq<char>>>)
    ensures
        forall|i: int, j: int|
            0 <= i < j < open_run(s, events).1.len() && (#[trigger] open_run(s, events).1[i]) is Emit
                ==> !((#[trigger] open_run(s, events).1[j]) is Emit),
    decreases events.len(),
{
    if events.len() > 0 {
        let (s1, a) = open_next(s, events[0]);
        let tail = events.drop_first();
        lemma_at_most_one_emit(s1, tail);
        if a is Emit {
            lemma_emitting_sends_no_more(s1->Emitting_kind, s1->Emitting_payload, tail);
        }
        let actions = open_run(s, events).1;
        let rest = open_run(s1, tail).1;
        assert forall|i: int, j: int|
            0 <= i < j < actions.len() && (#[trigger] actions[i]) is Emit
                implies !((#[trigger] actions[j]) is Emit) by {
            assert(actions[j] == rest[j - 1]);
            if i > 0 {
                assert(actions[i] == rest[i - 1]);
            }
        }
    }
}
} // verus!
