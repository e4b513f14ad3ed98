//! The closed set of menu commands and their stable, locale-independent names.

use vstd::prelude::*;
use crate::text::str_eq;

verus! {

/// A command that a menu item invokes. The set is fixed: it does not depend
/// on the locale and does not change between menu rebuilds.
#[derive(Clone, Copy, Debug, PartialEq, Eq, Structural)]
pub enum CommandId {
    New,
    Open,
    OpenFolder,
    Save,
    SaveAs,
    Quit,
    Undo,
    Redo,
    Cut,
    Copy,
    Paste,
    SelectAll,
    Settings,
    ToggleSidebar,
    ViewEditor,
    ViewSplit,
    ViewPreview,
    ToggleSyncScroll,
    About,
}

impl CommandId {
    /// The identifier under which the host windowing system knows the command.
    pub open spec fn name(self) -> Seq<char> {
        match self {
            CommandId::New => "new"@,
            CommandId::Open => "open"@,
            CommandId::OpenFolder => "open_folder"@,
            CommandId::Save => "save"@,
            CommandId::SaveAs => "save_as"@,
            CommandId::Quit => "quit"@,
            CommandId::Undo => "undo"@,
            CommandId::Redo => "redo"@,
            CommandId::Cut => "cut"@,
            CommandId::Copy => "copy"@,
            CommandId::Paste => "paste"@,
            CommandId::SelectAll => "select_all"@,
            CommandId::Settings => "settings"@,
            CommandId::ToggleSidebar => "toggle_sidebar"@,
            CommandId::ViewEditor => "view_editor"@,
            CommandId::ViewSplit => "view_split"@,
            CommandId::ViewPreview => "view_preview"@,
            CommandId::ToggleSyncScroll => "toggle_sync_scroll"@,
            CommandId::About => "about"@,
        }
    }

    /// The command's identifier as a string slice.
    pub fn as_str(self) -> (s: &'static str)
        ensures
            s@ == self.name(),
    {
        match self {
            CommandId::New => "new",
            CommandId::Open => "open",
            CommandId::OpenFolder => "open_folder",
            CommandId::Save => "save",
            CommandId::SaveAs => "save_as",
            CommandId::Quit => "quit",
            CommandId::Undo => "undo",
            CommandId::Redo => "redo",
            CommandId::Cut => "cut",
            CommandId::Copy => "copy",
            CommandId::Paste => "paste",
            CommandId::SelectAll => "select_all",
            CommandId::Settings => "settings",
            CommandId::ToggleSidebar => "toggle_sidebar",
            CommandId::ViewEditor => "view_editor",
            CommandId::ViewSplit => "view_split",
            CommandId::ViewPreview => "view_preview",
            CommandId::ToggleSyncScroll => "toggle_sync_scroll",
            CommandId::About => "about",
        }
    }

    /// The command named `id`, if there is one. A string that names no
    /// command is not an error: the caller treats it as nothing to do.
    pub fn parse(id: &str) -> (found: Option<CommandId>)
        ensures
            match found {
                Some(c) => c.name() == id@,
                None => forall|c: CommandId| c.name() != id@,
            },
    {
        let found = if str_eq(id, "new") {
            Some(CommandId::New)
        } else if str_eq(id, "open") {
            Some(CommandId::Open)
        } else if str_eq(id, "open_folder") {
            Some(CommandId::OpenFolder)
        } else if str_eq(id, "save") {
            Some(CommandId::Save)
        } else if str_eq(id, "save_as") {
            Some(CommandId::SaveAs)
        } else if str_eq(id, "quit") {
            Some(CommandId::Quit)
        } else if str_eq(id, "undo") {
            Some(CommandId::Undo)
        } else if str_eq(id, "redo") {
            Some(CommandId::Redo)
        } else if str_eq(id, "cut") {
            Some(CommandId::Cut)
        } else if str_eq(id, "copy") {
            Some(CommandId::Copy)
        } else if str_eq(id, "paste") {
            Some(CommandId::Paste)
        } else if str_eq(id, "select_all") {
            Some(CommandId::SelectAll)
        } else if str_eq(id, "settings") {
            Some(CommandId::Settings)
        } else if str_eq(id, "toggle_sidebar") {
            Some(CommandId::ToggleSidebar)
        } else if str_eq(id, "view_editor") {
            Some(CommandId::ViewEditor)
        } else if str_eq(id, "view_split") {
            Some(CommandId::ViewSplit)
        } else if str_eq(id, "view_preview") {
            Some(CommandId::ViewPreview)
        } else if str_eq(id, "toggle_sync_scroll") {
            Some(CommandId::ToggleSyncScroll)
        } else if str_eq(id, "about") {
            Some(CommandId::About)
        } else {
            None
        };
        found
    }
}

/// No two commands share a name.
pub proof fn lemma_names_are_distinct(a: CommandId, b: CommandId)
    requires
        a.name() == b.name(),
    ensures
        a == b,
{
    reveal_strlit("new");
    reveal_strlit("open");
    reveal_strlit("open_folder");
    reveal_strlit("save");
    reveal_strlit("save_as");
    reveal_strlit("quit");
    reveal_strlit("undo");
    reveal_strlit("redo");
    reveal_strlit("cut");
    reveal_strlit("copy");
    reveal_strlit("paste");
    reveal_strlit("select_all");
    reveal_strlit("settings");
    reveal_strlit("toggle_sidebar");
    reveal_strlit("view_editor");
    reveal_strlit("view_split");
    reveal_strlit("view_preview");
    reveal_strlit("toggle_sync_scroll");
    reveal_strlit("about");
    let n = a.name();
    let m = b.name();
    assert(n.len() == m.len());
    assert(n[0] == m[0]);
    assert(n[1] == m[1]);
    assert(n[2] == m[2]);
    if n.len() > 5 {
        assert(n[5] == m[5]);
    }
}

} // verus!
