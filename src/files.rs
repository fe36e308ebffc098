//! The file commands that the frontend invokes directly: the reply to a read,
//! and creating a file only where none exists yet.
use vstd::prelude::*;

verus! {

/// The frontend's view of a read: the text read, or the error's text.
#[derive(Clone, Debug, PartialEq, Eq)]
pub struct ReadFileResponse {
    pub ok: bool,
    pub content: String,
}

impl ReadFileResponse {
    /// The reply for a read that ended in `read`: on success the text read,
    /// on failure the system's error text, never a fault.
    pub fn from_read(read: Result<String, String>) -> (r: ReadFileResponse)
        ensures
            r.ok == read is Ok,
            r.content@ == (match read {
                Ok(text) => text@,
                Err(message) => message@,
            }),
    {
        match read {
            Ok(content) => ReadFileResponse { ok: true, content },
            Err(content) => ReadFileResponse { ok: false, content },
        }
    }
}

/// Where creating a file stands. `S` is `String` in running code and
/// `Seq<char>` in its model.
#[derive(Clone, Debug, PartialEq, Eq)]
pub enum CreateState<S> {
    /// Waiting to learn whether a file is already at `path`.
    Checking { path: S, body: S },
    /// Waiting for the write to end.
    Writing,
    /// Finished; `created` tells whether the file was written.
    Done { created: bool },
}

/// What the outside world reports back to the create flow.
#[derive(Clone, Copy, Debug, PartialEq, Eq, Structural)]
pub enum CreateEvent {
    /// Whether a file is at the path.
    Checked { is_file: bool },
    /// Whether the whole body was written.
    Written { ok: bool },
}

/// What the create flow asks the application to do next.
#[derive(Clone, Debug, PartialEq, Eq)]
pub enum CreateAction<S> {
    /// Find out whether a file is at `path`.
    CheckFile { path: S },
    /// Write `body` to `path` as a whole.
    WriteFile { path: S, body: S },
    /// Nothing is left to do.
    Wait,
}

impl View for CreateState<String> {
    type V = CreateState<Seq<char>>;

    open spec fn view(&self) -> CreateState<Seq<char>> {
        match self {
            CreateState::Checking { path, body } => CreateState::Checking { path: path@, body: body@ },
            CreateState::Writing => CreateState::Writing,
            CreateState::Done { created } => CreateState::Done { created: *created },
        }
    }
}

impl View for CreateAction<String> {
    type V = CreateAction<Seq<char>>;

    open spec fn view(&self) -> CreateAction<Seq<char>> {
        match self {
            CreateAction::CheckFile { path } => CreateAction::CheckFile { path: path@ },
            CreateAction::WriteFile { path, body } => CreateAction::WriteFile { path: path@, body: body@ },
            CreateAction::Wait => CreateAction::Wait,
        }
    }
}

/// One step of the create flow: a file already there ends it unwritten; an
/// event that does not belong to the current state changes nothing.
pub open spec fn create_next(s: CreateState<Seq<char>>, e: CreateEvent) -> (CreateState<Seq<char>>, CreateAction<Seq<char>>) {
    match (s, e) {
        (CreateState::Checking { path, body }, CreateEvent::Checked { is_file }) =>
            if is_file {
                (CreateState::Done { created: false }, CreateAction::Wait)
            } else {
                (CreateState::Writing, CreateAction::WriteFile { path, body })
            },
        (CreateState::Writing, CreateEvent::Written { ok }) =>
            (CreateState::Done { created: ok }, CreateAction::Wait),
        _ => (s, CreateAction::Wait),
    }
}

/// The state after `events`, and the actions asked for on the way.
pub open spec fn create_run(s: CreateState<Seq<char>>, events: Seq<CreateEvent>) -> (CreateState<Seq<char>>, Seq<CreateAction<Seq<char>>>)
    decreases events.len(),
{
    if events.len() == 0 {
        (s, Seq::empty())
    } else {
        let (s1, a) = create_next(s, events[0]);
        let (s2, rest) = create_run(s1, events.drop_first());
        (s2, seq![a] + rest)
    }
}

impl CreateState<String> {
    /// Start creating a file with `body` at `path`: first look at what is there.
    pub fn start(path: String, body: String) -> (r: (CreateState<String>, CreateAction<String>))
        ensures
            r.0@ == (CreateState::Checking { path: path@, body: body@ }),
            r.1@ == (CreateAction::CheckFile { path: path@ }),
    {
        let p = path.clone();
        (CreateState::Checking { path, body }, CreateAction::CheckFile { path: p })
    }

    /// Take in what the application reports and say what comes next.
    pub fn step(self, e: CreateEvent) -> (r: (CreateState<String>, CreateAction<String>))
        ensures
            (r.0@, r.1@) == create_next(self@, e),
    {
        match (self, e) {
            (CreateState::Checking { path, body }, CreateEvent::Checked { is_file }) => {
                if is_file {
                    (CreateState::Done { created: false }, CreateAction::Wait)
                } else {
                    (CreateState::Writing, CreateAction::WriteFile { path, body })
                }
            },
            (CreateState::Writing, CreateEvent::Written { ok }) => {
                (CreateState::Done { created: ok }, CreateAction::Wait)
            },
            (s, _) => (s, CreateAction::Wait),
        }
    }

    /// The result once the flow is done: whether the file was created.
    pub fn created(&self) -> (r: Option<bool>)
        ensures
            r == (match self@ {
                CreateState::Done { created } => Some(created),
                _ => None,
            }),
    {
        match self {
            CreateState::Done { created } => Some(*created),
            _ => None,
        }
    }
}

/// Once done, the create flow stays done and asks for nothing more.
pub proof fn lemma_create_done_is_final(created: bool, events: Seq<CreateEvent>)
    ensures
        create_run(CreateState::Done { created }, events).0 == (CreateState::<Seq<char>>::Done { created }),
        forall|i: int| 0 <= i < events.len() ==>
            #[trigger] create_run(CreateState::Done { created }, events).1[i] == CreateAction::<Seq<char>>::Wait,
        create_run(CreateState::Done { created }, events).1.len() == events.len(),
    decreases events.len(),
{
    if events.len() > 0 {
        lemma_create_done_is_final(created, events.drop_first());
    }
}

/// Creating a file where one already exists fails, and nothing is written
/// there, whatever is reported afterwards.
pub proof fn lemma_existing_file_is_kept(path: Seq<char>, body: Seq<char>, events: Seq<CreateEvent>)
    ensures
        ({
            let (s, actions) = create_run(
                CreateState::Checking { path, body },
                seq![CreateEvent::Checked { is_file: true }] + events,
            );
            &&& s == CreateState::<Seq<char>>::Done { created: false }
            &&& forall|i: int| 0 <= i < actions.len() ==> !(#[trigger] actions[i] is WriteFile)
        }),
{
    let all = seq![CreateEvent::Checked { is_file: true }] + events;
    assert(all.drop_first() =~= events);
    lemma_create_done_is_final(false, events);
    let actions = create_run(CreateState::Checking { path, body }, all).1;
    assert forall|i: int| 0 <= i < actions.len() implies !(#[trigger] actions[i] is WriteFile) by {
        if i > 0 {
            assert(actions[i] == create_run(CreateState::Done { created: false }, events).1[i - 1]);
        }
    }
}

/// Where no file is at the path, the body is written there as it is, and the
/// flow reports exactly whether that write succeeded.
pub proof fn lemma_absent_file_is_written(path: Seq<char>, body: Seq<char>, ok: bool)
    ensures
        create_run(
            CreateState::Checking { path, body },
            seq![CreateEvent::Checked { is_file: false }, CreateEvent::Written { ok }],
        ) == (
            CreateState::<Seq<char>>::Done { created: ok },
            seq![CreateAction::WriteFile { path, body }, CreateAction::<Seq<char>>::Wait],
        ),
{
    let events = seq![CreateEvent::Checked { is_file: false }, CreateEvent::Written { ok }];
    assert(events.drop_first() =~= seq![CreateEvent::Written { ok }]);
    assert(events.drop_first().drop_first() =~= Seq::<CreateEvent>::empty());
    let last = create_run(CreateState::Writing, events.drop_first());
    assert(create_run(CreateState::Done { created: ok }, events.drop_first().drop_first()).1 =~= Seq::empty());
    assert(last.1 =~= seq![CreateAction::<Seq<char>>::Wait]);
    let r = create_run(CreateState::Checking { path, body }, events);
    assert(r.1 =~= seq![CreateAction::WriteFile { path, body }, CreateAction::<Seq<char>>::Wait]);
}

} // verus!
