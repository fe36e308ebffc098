//! Native menu entries and what each one asks of the application.
use vstd::prelude::*;
use vstd::string::StringExecFns;
use crate::open::OpenKind;

verus! {

/// The entries of the application's menu that carry a command.
#[derive(Clone, Copy, Debug, PartialEq, Eq, Structural)]
pub enum MenuCommand {
    OpenWorkspace,
    OpenFile,
    NewMap,
    Save,
    Export,
}

/// A bare notification for the frontend: an event without payload.
#[derive(Clone, Copy, Debug, PartialEq, Eq, Structural)]
pub enum Notice {
    NewMap,
    Save,
    Export,
}

/// What the application does when a menu entry is chosen.
#[derive(Clone, Copy, Debug, PartialEq, Eq, Structural)]
pub enum MenuReaction {
    /// Start one of the open flows.
    Open { kind: OpenKind },
    /// Send a notification event to the frontend.
    Notify { notice: Notice },
}

/// The identifier under which a command's entry is registered.
pub open spec fn menu_id(c: MenuCommand) -> Seq<char> {
    match c {
        MenuCommand::OpenWorkspace => "openproject"@,
        MenuCommand::OpenFile => "openfile"@,
        MenuCommand::NewMap => "newmap"@,
        MenuCommand::Save => "save"@,
        MenuCommand::Export => "export"@,
    }
}

/// The command registered under `id`, if any.
pub open spec fn command_for(id: Seq<char>) -> Option<MenuCommand> {
    if id == menu_id(MenuCommand::OpenWorkspace) {
        Some(MenuCommand::OpenWorkspace)
    } else if id == menu_id(MenuCommand::OpenFile) {
        Some(MenuCommand::OpenFile)
    } else if id == menu_id(MenuCommand::NewMap) {
        Some(MenuCommand::NewMap)
    } else if id == menu_id(MenuCommand::Save) {
        Some(MenuCommand::Save)
    } else if id == menu_id(MenuCommand::Export) {
        Some(MenuCommand::Export)
    } else {
        None
    }
}

/// What choosing the entry of `c` sets off.
pub open spec fn reaction_of(c: MenuCommand) -> MenuReaction {
    match c {
        MenuCommand::OpenWorkspace => MenuReaction::Open { kind: OpenKind::Workspace },
        MenuCommand::OpenFile => MenuReaction::Open { kind: OpenKind::JsonFile },
        MenuCommand::NewMap => MenuReaction::Notify { notice: Notice::NewMap },
        MenuCommand::Save => MenuReaction::Notify { notice: Notice::Save },
        MenuCommand::Export => MenuReaction::Notify { notice: Notice::Export },
    }
}

/// The name of the event that carries notice `n`.
pub open spec fn notice_event(n: Notice) -> Seq<char> {
    match n {
        Notice::NewMap => "new_map"@,
        Notice::Save => "save"@,
        Notice::Export => "export"@,
    }
}

/// Whether two texts are equal, character for character.
fn same_text(a: &str, b: &str) -> (r: bool)
    ensures
        r == (a@ == b@),
{
    String::from_str(a) == String::from_str(b)
}

impl MenuCommand {
    /// Every command, in the order the menu lists them.
    pub fn all() -> (r: Vec<MenuCommand>)
        ensures
            r@ == seq![
                MenuCommand::OpenWorkspace,
                MenuCommand::OpenFile,
                MenuCommand::NewMap,
                MenuCommand::Save,
                MenuCommand::Export,
            ],
    {
        let r = vec![
            MenuCommand::OpenWorkspace,
            MenuCommand::OpenFile,
            MenuCommand::NewMap,
            MenuCommand::Save,
            MenuCommand::Export,
        ];
        assert(r@ =~= seq![
            MenuCommand::OpenWorkspace,
            MenuCommand::OpenFile,
            MenuCommand::NewMap,
            MenuCommand::Save,
            MenuCommand::Export,
        ]);
        r
    }

    /// The identifier under which this command's entry is registered.
    pub fn id(self) -> (r: &'static str)
        ensures
            r@ == menu_id(self),
    {
        match self {
            MenuCommand::OpenWorkspace => "openproject",
            MenuCommand::OpenFile => "openfile",
            MenuCommand::NewMap => "newmap",
            MenuCommand::Save => "save",
            MenuCommand::Export => "export",
        }
    }

    /// The command registered under `id`; `None` for an entry without one.
    pub fn from_id(id: &str) -> (r: Option<MenuCommand>)
        ensures
            r == command_for(id@),
    {
        if same_text(id, MenuCommand::OpenWorkspace.id()) {
            Some(MenuCommand::OpenWorkspace)
        } else if same_text(id, MenuCommand::OpenFile.id()) {
            Some(MenuCommand::OpenFile)
        } else if same_text(id, MenuCommand::NewMap.id()) {
            Some(MenuCommand::NewMap)
        } else if same_text(id, MenuCommand::Save.id()) {
            Some(MenuCommand::Save)
        } else if same_text(id, MenuCommand::Export.id()) {
            Some(MenuCommand::Export)
        } else {
            None
        }
    }

    /// What choosing this entry sets off.
    pub fn reaction(self) -> (r: MenuReaction)
        ensures
            r == reaction_of(self),
    {
        match self {
            MenuCommand::OpenWorkspace => MenuReaction::Open { kind: OpenKind::Workspace },
            MenuCommand::OpenFile => MenuReaction::Open { kind: OpenKind::JsonFile },
            MenuCommand::NewMap => MenuReaction::Notify { notice: Notice::NewMap },
            MenuCommand::Save => MenuReaction::Notify { notice: Notice::Save },
            MenuCommand::Export => MenuReaction::Notify { notice: Notice::Export },
        }
    }
}

impl Notice {
    /// The name of the event that carries this notice.
    pub fn event_name(self) -> (r: &'static str)
        ensures
            r@ == notice_event(self),
    {
        match self {
            Notice::NewMap => "new_map",
            Notice::Save => "save",
            Notice::Export => "export",
        }
    }
}

/// Looking up a command's own identifier gives that command back: the
/// identifiers are distinct.
pub proof fn lemma_menu_id_round_trip(c: MenuCommand)
    ensures
        command_for(menu_id(c)) == Some(c),
{
    reveal_strlit("openproject");
    reveal_strlit("openfile");
    reveal_strlit("newmap");
    reveal_strlit("save");
    reveal_strlit("export");
    assert("newmap"@[0] != "export"@[0]);
    assert("openproject"@.len() != "openfile"@.len());
}

/// Reacting to the entry found under an identifier: `None` where no command is
/// registered under it.
pub fn dispatch(id: &str) -> (r: Option<MenuReaction>)
    ensures
        r == (match command_for(id@) {
            Some(c) => Some(reaction_of(c)),
            None => None,
        }),
{
    match MenuCommand::from_id(id) {
        Some(c) => Some(c.reaction()),
        None => None,
    }
}

} // verus!
