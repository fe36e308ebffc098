use rpg_editor::menu::{dispatch, MenuCommand, MenuReaction, Notice};
use rpg_editor::open::OpenKind;

#[test]
fn menu_ids_are_the_registered_names() {
    assert_eq!(MenuCommand::OpenWorkspace.id(), "openproject");
    assert_eq!(MenuCommand::OpenFile.id(), "openfile");
    assert_eq!(MenuCommand::NewMap.id(), "newmap");
    assert_eq!(MenuCommand::Save.id(), "save");
    assert_eq!(MenuCommand::Export.id(), "export");
}

#[test]
fn every_command_is_found_under_its_id() {
    for c in MenuCommand::all() {
        assert_eq!(MenuCommand::from_id(c.id()), Some(c));
    }
    assert_eq!(MenuCommand::all().len(), 5);
}

#[test]
fn unknown_menu_id_has_no_command() {
    assert_eq!(MenuCommand::from_id("quit"), None);
    assert_eq!(MenuCommand::from_id(""), None);
    assert_eq!(MenuCommand::from_id("Save"), None);
    assert_eq!(dispatch("openprojec"), None);
}

#[test]
fn open_entries_start_the_open_flows() {
    assert_eq!(dispatch("openproject"), Some(MenuReaction::Open { kind: OpenKind::Workspace }));
    assert_eq!(dispatch("openfile"), Some(MenuReaction::Open { kind: OpenKind::JsonFile }));
}

#[test]
fn other_entries_send_bare_notices() {
    assert_eq!(dispatch("newmap"), Some(MenuReaction::Notify { notice: Notice::NewMap }));
    assert_eq!(dispatch("save"), Some(MenuReaction::Notify { notice: Notice::Save }));
    assert_eq!(dispatch("export"), Some(MenuReaction::Notify { notice: Notice::Export }));
    assert_eq!(Notice::NewMap.event_name(), "new_map");
    assert_eq!(Notice::Save.event_name(), "save");
    assert_eq!(Notice::Export.event_name(), "export");
}
