use xmarkdown_shell::command::CommandId;
use xmarkdown_shell::dispatch::{dispatch, dispatch_command, DispatchAction};

fn all_commands() -> Vec<CommandId> {
    vec![
        CommandId::New,
        CommandId::Open,
        CommandId::OpenFolder,
        CommandId::Save,
        CommandId::SaveAs,
        CommandId::Quit,
        CommandId::Undo,
        CommandId::Redo,
        CommandId::Cut,
        CommandId::Copy,
        CommandId::Paste,
        CommandId::SelectAll,
        CommandId::Settings,
        CommandId::ToggleSidebar,
        CommandId::ViewEditor,
        CommandId::ViewSplit,
        CommandId::ViewPreview,
        CommandId::ToggleSyncScroll,
        CommandId::About,
    ]
}

#[test]
fn command_names() {
    let names: Vec<&str> = all_commands().into_iter().map(|c| c.as_str()).collect();
    assert_eq!(
        names,
        vec![
            "new",
            "open",
            "open_folder",
            "save",
            "save_as",
            "quit",
            "undo",
            "redo",
            "cut",
            "copy",
            "paste",
            "select_all",
            "settings",
            "toggle_sidebar",
            "view_editor",
            "view_split",
            "view_preview",
            "toggle_sync_scroll",
            "about",
        ]
    );
}

#[test]
fn command_names_are_distinct() {
    let all = all_commands();
    for (i, a) in all.iter().enumerate() {
        for (j, b) in all.iter().enumerate() {
            assert_eq!(a.as_str() == b.as_str(), i == j);
        }
    }
}

#[test]
fn parse_finds_every_command_by_its_name() {
    for c in all_commands() {
        assert_eq!(CommandId::parse(c.as_str()), Some(c));
    }
}

#[test]
fn parse_rejects_what_names_no_command() {
    for id in ["", "New", "new ", " new", "save-as", "saveas", "view", "menu-new", "退出", "exit"] {
        assert_eq!(CommandId::parse(id), None);
    }
}

#[test]
fn dispatch_table() {
    let expected = vec![
        ("new", DispatchAction::Forward("menu-new")),
        ("open", DispatchAction::Forward("menu-open")),
        ("open_folder", DispatchAction::Forward("menu-open-folder")),
        ("save", DispatchAction::Forward("menu-save")),
        ("save_as", DispatchAction::Forward("menu-save-as")),
        ("quit", DispatchAction::Terminate),
        ("undo", DispatchAction::Forward("menu-undo")),
        ("redo", DispatchAction::Forward("menu-redo")),
        ("cut", DispatchAction::Forward("menu-cut")),
        ("copy", DispatchAction::Forward("menu-copy")),
        ("paste", DispatchAction::Forward("menu-paste")),
        ("select_all", DispatchAction::Forward("menu-select-all")),
        ("settings", DispatchAction::Forward("menu-settings")),
        ("toggle_sidebar", DispatchAction::Forward("menu-toggle-sidebar")),
        ("view_split", DispatchAction::ForwardWithPayload("menu-view", "split")),
        ("view_editor", DispatchAction::ForwardWithPayload("menu-view", "editor")),
        ("view_preview", DispatchAction::ForwardWithPayload("menu-view", "preview")),
        ("toggle_sync_scroll", DispatchAction::Forward("menu-toggle-sync-scroll")),
        ("about", DispatchAction::Forward("menu-about")),
    ];
    assert_eq!(expected.len(), 19);
    for (id, action) in expected {
        assert_eq!(dispatch(id), action);
    }
}

#[test]
fn dispatch_by_name_agrees_with_dispatch_by_command() {
    for c in all_commands() {
        assert_eq!(dispatch(c.as_str()), dispatch_command(c));
    }
}

#[test]
fn quit_terminates_and_forwards_nothing() {
    assert_eq!(dispatch("quit"), DispatchAction::Terminate);
    assert_eq!(dispatch_command(CommandId::Quit), DispatchAction::Terminate);
    assert!(!matches!(dispatch("quit"), DispatchAction::Forward(_)));
    assert!(!matches!(dispatch("quit"), DispatchAction::ForwardWithPayload(_, _)));
}

#[test]
fn only_quit_terminates() {
    for c in all_commands() {
        assert_eq!(dispatch_command(c) == DispatchAction::Terminate, c == CommandId::Quit);
    }
}

#[test]
fn view_modes_carry_their_payload() {
    assert_eq!(dispatch("view_split"), DispatchAction::ForwardWithPayload("menu-view", "split"));
    assert_eq!(dispatch("view_editor"), DispatchAction::ForwardWithPayload("menu-view", "editor"));
    assert_eq!(
        dispatch("view_preview"),
        DispatchAction::ForwardWithPayload("menu-view", "preview")
    );
}

#[test]
fn no_other_command_sends_menu_view() {
    for c in all_commands() {
        let is_view_mode =
            c == CommandId::ViewSplit || c == CommandId::ViewEditor || c == CommandId::ViewPreview;
        match dispatch_command(c) {
            DispatchAction::Forward(event) => {
                assert!(!is_view_mode);
                assert_ne!(event, "menu-view");
            }
            DispatchAction::ForwardWithPayload(event, payload) => {
                assert!(is_view_mode);
                assert_eq!(event, "menu-view");
                assert!(payload == "split" || payload == "editor" || payload == "preview");
            }
            DispatchAction::Terminate => assert_eq!(c, CommandId::Quit),
            DispatchAction::NoOp => panic!("a command was dispatched as nothing"),
        }
    }
}

#[test]
fn eighteen_commands_forward_an_event() {
    let mut events: Vec<&str> = Vec::new();
    for c in all_commands() {
        match dispatch_command(c) {
            DispatchAction::Forward(event) => events.push(event),
            DispatchAction::ForwardWithPayload(event, _) => events.push(event),
            _ => {}
        }
    }
    assert_eq!(events.len(), 18);
    for event in events {
        assert!(event.starts_with("menu-"));
    }
}

#[test]
fn unrecognised_identifier_is_a_no_op() {
    for id in ["", "Quit", "QUIT", "quit ", "menu-new", "view", "view_", "reload", "退出"] {
        assert_eq!(dispatch(id), DispatchAction::NoOp);
    }
}
