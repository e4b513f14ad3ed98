//! What the shell does when the host windowing system reports an invoked
//! menu command.

use vstd::prelude::*;
use crate::command::{CommandId, lemma_names_are_distinct};

verus! {

/// What the shell does in response to one invoked command.
#[derive(Clone, Copy, Debug, PartialEq, Eq)]
pub enum DispatchAction {
    /// Send the named event, without payload, to the presentation surface.
    Forward(&'static str),
    /// Send the named event with a string payload.
    ForwardWithPayload(&'static str, &'static str),
    /// End the host process with success status.
    Terminate,
    /// Do nothing.
    NoOp,
}

/// The mathematical content of a [`DispatchAction`].
pub enum Action {
    Forward(Seq<char>),
    ForwardWithPayload(Seq<char>, Seq<char>),
    Terminate,
    NoOp,
}

impl View for DispatchAction {
    type V = Action;

    open spec fn view(&self) -> Action {
        match *self {
            DispatchAction::Forward(event) => Action::Forward(event@),
            DispatchAction::ForwardWithPayload(event, payload) => Action::ForwardWithPayload(
                event@,
                payload@,
            ),
            DispatchAction::Terminate => Action::Terminate,
            DispatchAction::NoOp => Action::NoOp,
        }
    }
}

impl Action {
    /// The event that the action sends, if it sends one.
    pub open spec fn event(self) -> Option<Seq<char>> {
        match self {
            Action::Forward(event) => Some(event),
            Action::ForwardWithPayload(event, _) => Some(event),
            Action::Terminate => None,
            Action::NoOp => None,
        }
    }
}

/// The action that each command stands for.
pub open spec fn action_of(command: CommandId) -> Action {
    match command {
        CommandId::New => Action::Forward("menu-new"@),
        CommandId::Open => Action::Forward("menu-open"@),
        CommandId::OpenFolder => Action::Forward("menu-open-folder"@),
        CommandId::Save => Action::Forward("menu-save"@),
        CommandId::SaveAs => Action::Forward("menu-save-as"@),
        CommandId::Quit => Action::Terminate,
        CommandId::Undo => Action::Forward("menu-undo"@),
        CommandId::Redo => Action::Forward("menu-redo"@),
        CommandId::Cut => Action::Forward("menu-cut"@),
        CommandId::Copy => Action::Forward("menu-copy"@),
        CommandId::Paste => Action::Forward("menu-paste"@),
        CommandId::SelectAll => Action::Forward("menu-select-all"@),
        CommandId::Settings => Action::Forward("menu-settings"@),
        CommandId::ToggleSidebar => Action::Forward("menu-toggle-sidebar"@),
        CommandId::ViewSplit => Action::ForwardWithPayload("menu-view"@, "split"@),
        CommandId::ViewEditor => Action::ForwardWithPayload("menu-view"@, "editor"@),
        CommandId::ViewPreview => Action::ForwardWithPayload("menu-view"@, "preview"@),
        CommandId::ToggleSyncScroll => Action::Forward("menu-toggle-sync-scroll"@),
        CommandId::About => Action::Forward("menu-about"@),
    }
}

/// The action for an identifier as the host reports it: that of the command
/// it names, and nothing where it names none.
pub open spec fn action_for(id: Seq<char>) -> Action {
    if exists|c: CommandId| c.name() == id {
        action_of(choose|c: CommandId| c.name() == id)
    } else {
        Action::NoOp
    }
}

/// The action for a command.
pub fn dispatch_command(command: CommandId) -> (action: DispatchAction)
    ensures
        action@ == action_of(command),
{
    match command {
        CommandId::New => DispatchAction::Forward("menu-new"),
        CommandId::Open => DispatchAction::Forward("menu-open"),
        CommandId::OpenFolder => DispatchAction::Forward("menu-open-folder"),
        CommandId::Save => DispatchAction::Forward("menu-save"),
        CommandId::SaveAs => DispatchAction::Forward("menu-save-as"),
        CommandId::Quit => DispatchAction::Terminate,
        CommandId::Undo => DispatchAction::Forward("menu-undo"),
        CommandId::Redo => DispatchAction::Forward("menu-redo"),
        CommandId::Cut => DispatchAction::Forward("menu-cut"),
        CommandId::Copy => DispatchAction::Forward("menu-copy"),
        CommandId::Paste => DispatchAction::Forward("menu-paste"),
        CommandId::SelectAll => DispatchAction::Forward("menu-select-all"),
        CommandId::Settings => DispatchAction::Forward("menu-settings"),
        CommandId::ToggleSidebar => DispatchAction::Forward("menu-toggle-sidebar"),
        CommandId::ViewSplit => DispatchAction::ForwardWithPayload("menu-view", "split"),
        CommandId::ViewEditor => DispatchAction::ForwardWithPayload("menu-view", "editor"),
        CommandId::ViewPreview => DispatchAction::ForwardWithPayload("menu-view", "preview"),
        CommandId::ToggleSyncScroll => DispatchAction::Forward("menu-toggle-sync-scroll"),
        CommandId::About => DispatchAction::Forward("menu-about"),
    }
}

/// The action for an identifier reported by the host windowing system.
/// An identifier that names no command yields [`DispatchAction::NoOp`].
pub fn dispatch(id: &str) -> (action: DispatchAction)
    ensures
        action@ == action_for(id@),
{
    match CommandId::parse(id) {
        Some(command) => {
            proof {
                let chosen = choose|c: CommandId| c.name() == id@;
                lemma_names_are_distinct(chosen, command);
            }
            dispatch_command(command)
        },
        None => DispatchAction::NoOp,
    }
}

/// An identifier that names a command is dispatched as that command.
pub proof fn lemma_named_command_is_dispatched(command: CommandId)
    ensures
        action_for(command.name()) == action_of(command),
{
    let chosen = choose|c: CommandId| c.name() == command.name();
    lemma_names_are_distinct(chosen, command);
}

/// A recognised identifier never yields `NoOp`, and an identifier that names
/// no command always does.
pub proof fn lemma_noop_means_unrecognised(id: Seq<char>)
    ensures
        action_for(id) is NoOp <==> (forall|c: CommandId| c.name() != id),
{
    if exists|c: CommandId| c.name() == id {
        let chosen = choose|c: CommandId| c.name() == id;
        assert(!(action_of(chosen) is NoOp));
    }
}

/// `quit` ends the process and sends no event; no other command ends it.
pub proof fn lemma_only_quit_terminates(command: CommandId)
    ensures
        action_of(CommandId::Quit) == Action::Terminate,
        action_of(CommandId::Quit).event() is None,
        action_for("quit"@) == Action::Terminate,
        action_of(command) is Terminate <==> command == CommandId::Quit,
{
    lemma_named_command_is_dispatched(CommandId::Quit);
}

/// The three view-mode commands send `menu-view` with the payloads `split`,
/// `editor` and `preview`; no other command sends `menu-view`, and no other
/// command sends a payload.
pub proof fn lemma_view_event_belongs_to_view_modes(command: CommandId)
    ensures
        action_of(CommandId::ViewSplit) == Action::ForwardWithPayload("menu-view"@, "split"@),
        action_of(CommandId::ViewEditor) == Action::ForwardWithPayload("menu-view"@, "editor"@),
        action_of(CommandId::ViewPreview) == Action::ForwardWithPayload(
            "menu-view"@,
            "preview"@,
        ),
        action_of(command).event() == Some("menu-view"@) <==> (command == CommandId::ViewSplit
            || command == CommandId::ViewEditor || command == CommandId::ViewPreview),
        action_of(command) is ForwardWithPayload <==> (command == CommandId::ViewSplit || command
            == CommandId::ViewEditor || command == CommandId::ViewPreview),
{
    reveal_strlit("menu-view");
    reveal_strlit("menu-new");
    reveal_strlit("menu-open");
    reveal_strlit("menu-open-folder");
    reveal_strlit("menu-save");
    reveal_strlit("menu-save-as");
    reveal_strlit("menu-undo");
    reveal_strlit("menu-redo");
    reveal_strlit("menu-cut");
    reveal_strlit("menu-copy");
    reveal_strlit("menu-paste");
    reveal_strlit("menu-select-all");
    reveal_strlit("menu-settings");
    reveal_strlit("menu-toggle-sidebar");
    reveal_strlit("menu-toggle-sync-scroll");
    reveal_strlit("menu-about");
    let view = "menu-view"@;
    match action_of(command).event() {
        Some(event) => {
            if event == view {
                assert(event.len() == view.len());
                assert(event[5] == view[5]);
                assert(event[6] == view[6]);
            }
        },
        None => {},
    }
}

} // verus!
