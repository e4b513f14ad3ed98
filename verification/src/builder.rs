//! The fixed menu: which submenus exist, which entries each holds, in which
//! order, and which command and accelerator belongs to each entry. Only the
//! labels come from the locale.

use vstd::prelude::*;
use crate::command::CommandId;
use crate::labels::{MenuTexts, labels_of, get_menu_texts};
use crate::locale::Locale;
use crate::menu::{Accelerator, Key, MenuNode, MenuTree, Node, models, lemma_submenu_model};

verus! {

/// The accelerator bound to each command. `toggle_sync_scroll` has none.
pub open spec fn accelerator_of(id: CommandId) -> Option<Accelerator> {
    match id {
        CommandId::New => Some(Accelerator::primary(Key::N)),
        CommandId::Open => Some(Accelerator::primary(Key::O)),
        CommandId::OpenFolder => Some(Accelerator::primary_shift(Key::O)),
        CommandId::Save => Some(Accelerator::primary(Key::S)),
        CommandId::SaveAs => Some(Accelerator::primary_shift(Key::S)),
        CommandId::Quit => Some(Accelerator::primary(Key::Q)),
        CommandId::Undo => Some(Accelerator::primary(Key::Z)),
        CommandId::Redo => Some(Accelerator::primary(Key::Y)),
        CommandId::Cut => Some(Accelerator::primary(Key::X)),
        CommandId::Copy => Some(Accelerator::primary(Key::C)),
        CommandId::Paste => Some(Accelerator::primary(Key::V)),
        CommandId::SelectAll => Some(Accelerator::primary(Key::A)),
        CommandId::Settings => Some(Accelerator::primary(Key::Comma)),
        CommandId::ToggleSidebar => Some(Accelerator::primary(Key::B)),
        CommandId::ViewEditor => Some(Accelerator::primary(Key::Digit1)),
        CommandId::ViewSplit => Some(Accelerator::primary(Key::Digit2)),
        CommandId::ViewPreview => Some(Accelerator::primary(Key::Digit3)),
        CommandId::ToggleSyncScroll => None,
        CommandId::About => Some(Accelerator::primary(Key::I)),
    }
}

/// An enabled entry for `id` with its accelerator.
pub open spec fn item(label: Seq<char>, id: CommandId) -> Node {
    Node::Item { label, id, accelerator: accelerator_of(id), enabled: true }
}

/// An enabled submenu.
pub open spec fn submenu(label: Seq<char>, children: Seq<Node>) -> Node {
    Node::Submenu { label, enabled: true, children }
}

/// The File submenu.
pub open spec fn file_menu(t: MenuTexts) -> Node {
    submenu(
        t.file@,
        seq![
            item(t.new@, CommandId::New),
            item(t.open@, CommandId::Open),
            item(t.open_folder@, CommandId::OpenFolder),
            Node::Separator,
            item(t.save@, CommandId::Save),
            item(t.save_as@, CommandId::SaveAs),
            Node::Separator,
            item(t.quit@, CommandId::Quit),
        ],
    )
}

/// The Edit submenu.
pub open spec fn edit_menu(t: MenuTexts) -> Node {
    submenu(
        t.edit@,
        seq![
            item(t.undo@, CommandId::Undo),
            item(t.redo@, CommandId::Redo),
            Node::Separator,
            item(t.cut@, CommandId::Cut),
            item(t.copy@, CommandId::Copy),
            item(t.paste@, CommandId::Paste),
            item(t.select_all@, CommandId::SelectAll),
            Node::Separator,
            item(t.settings@, CommandId::Settings),
        ],
    )
}

/// The View submenu.
pub open spec fn view_menu(t: MenuTexts) -> Node {
    submenu(
        t.view@,
        seq![
            item(t.toggle_sidebar@, CommandId::ToggleSidebar),
            Node::Separator,
            item(t.editor_only@, CommandId::ViewEditor),
            item(t.split_view@, CommandId::ViewSplit),
            item(t.preview_only@, CommandId::ViewPreview),
            Node::Separator,
            item(t.sync_scroll@, CommandId::ToggleSyncScroll),
        ],
    )
}

/// The About submenu.
pub open spec fn about_menu(t: MenuTexts) -> Node {
    submenu(
        t.about@,
        seq![
            item(t.about@, CommandId::About),
        ],
    )
}

/// The whole menu for a label set: File, Edit, View, About, in that order.
pub open spec fn menu_of(t: MenuTexts) -> Seq<Node> {
    seq![file_menu(t), edit_menu(t), view_menu(t), about_menu(t)]
}

impl CommandId {
    /// The accelerator bound to the command, if it has one.
    pub fn accelerator(self) -> (bound: Option<Accelerator>)
        ensures
            bound == accelerator_of(self),
    {
        match self {
            CommandId::New => Some(Accelerator { shift: false, key: Key::N }),
            CommandId::Open => Some(Accelerator { shift: false, key: Key::O }),
            CommandId::OpenFolder => Some(Accelerator { shift: true, key: Key::O }),
            CommandId::Save => Some(Accelerator { shift: false, key: Key::S }),
            CommandId::SaveAs => Some(Accelerator { shift: true, key: Key::S }),
            CommandId::Quit => Some(Accelerator { shift: false, key: Key::Q }),
            CommandId::Undo => Some(Accelerator { shift: false, key: Key::Z }),
            CommandId::Redo => Some(Accelerator { shift: false, key: Key::Y }),
            CommandId::Cut => Some(Accelerator { shift: false, key: Key::X }),
            CommandId::Copy => Some(Accelerator { shift: false, key: Key::C }),
            CommandId::Paste => Some(Accelerator { shift: false, key: Key::V }),
            CommandId::SelectAll => Some(Accelerator { shift: false, key: Key::A }),
            CommandId::Settings => Some(Accelerator { shift: false, key: Key::Comma }),
            CommandId::ToggleSidebar => Some(Accelerator { shift: false, key: Key::B }),
            CommandId::ViewEditor => Some(Accelerator { shift: false, key: Key::Digit1 }),
            CommandId::ViewSplit => Some(Accelerator { shift: false, key: Key::Digit2 }),
            CommandId::ViewPreview => Some(Accelerator { shift: false, key: Key::Digit3 }),
            CommandId::ToggleSyncScroll => None,
            CommandId::About => Some(Accelerator { shift: false, key: Key::I }),
        }
    }
}

impl MenuNode {
    /// An enabled entry labelled `label` that invokes `id`.
    pub fn entry(label: &'static str, id: CommandId) -> (node: MenuNode)
        ensures
            node@ == item(label@, id),
    {
        MenuNode::Item { label, id, accelerator: id.accelerator(), enabled: true }
    }

    /// An enabled submenu labelled `label` that holds `children` in order.
    pub fn group(label: &'static str, children: Vec<MenuNode>) -> (node: MenuNode)
        ensures
            node@ == submenu(label@, models(children@)),
    {
        proof {
            lemma_submenu_model(label, true, children);
        }
        MenuNode::Submenu { label, enabled: true, children }
    }
}

/// Builds the File submenu with the labels of `t`.
pub fn build_file_menu(t: &MenuTexts) -> (node: MenuNode)
    ensures
        node@ == file_menu(*t),
{
    let mut children: Vec<MenuNode> = Vec::new();
    children.push(MenuNode::entry(t.new, CommandId::New));
    children.push(MenuNode::entry(t.open, CommandId::Open));
    children.push(MenuNode::entry(t.open_folder, CommandId::OpenFolder));
    children.push(MenuNode::Separator);
    children.push(MenuNode::entry(t.save, CommandId::Save));
    children.push(MenuNode::entry(t.save_as, CommandId::SaveAs));
    children.push(MenuNode::Separator);
    children.push(MenuNode::entry(t.quit, CommandId::Quit));
    let node = MenuNode::group(t.file, children);
    proof {
        assert(models(children@) =~= file_menu(*t)->Submenu_children);
    }
    node
}

/// Builds the Edit submenu with the labels of `t`.
pub fn build_edit_menu(t: &MenuTexts) -> (node: MenuNode)
    ensures
        node@ == edit_menu(*t),
{
    let mut children: Vec<MenuNode> = Vec::new();
    children.push(MenuNode::entry(t.undo, CommandId::Undo));
    children.push(MenuNode::entry(t.redo, CommandId::Redo));
    children.push(MenuNode::Separator);
    children.push(MenuNode::entry(t.cut, CommandId::Cut));
    children.push(MenuNode::entry(t.copy, CommandId::Copy));
    children.push(MenuNode::entry(t.paste, CommandId::Paste));
    children.push(MenuNode::entry(t.select_all, CommandId::SelectAll));
    children.push(MenuNode::Separator);
    children.push(MenuNode::entry(t.settings, CommandId::Settings));
    let node = MenuNode::group(t.edit, children);
    proof {
        assert(models(children@) =~= edit_menu(*t)->Submenu_children);
    }
    node
}

/// Builds the View submenu with the labels of `t`.
pub fn build_view_menu(t: &MenuTexts) -> (node: MenuNode)
    ensures
        node@ == view_menu(*t),
{
    let mut children: Vec<MenuNode> = Vec::new();
    children.push(MenuNode::entry(t.toggle_sidebar, CommandId::ToggleSidebar));
    children.push(MenuNode::Separator);
    children.push(MenuNode::entry(t.editor_only, CommandId::ViewEditor));
    children.push(MenuNode::entry(t.split_view, CommandId::ViewSplit));
    children.push(MenuNode::entry(t.preview_only, CommandId::ViewPreview));
    children.push(MenuNode::Separator);
    children.push(MenuNode::entry(t.sync_scroll, CommandId::ToggleSyncScroll));
    let node = MenuNode::group(t.view, children);
    proof {
        assert(models(children@) =~= view_menu(*t)->Submenu_children);
    }
    node
}

/// Builds the About submenu with the labels of `t`.
pub fn build_about_menu(t: &MenuTexts) -> (node: MenuNode)
    ensures
        node@ == about_menu(*t),
{
    let mut children: Vec<MenuNode> = Vec::new();
    children.push(MenuNode::entry(t.about, CommandId::About));
    let node = MenuNode::group(t.about, children);
    proof {
        assert(models(children@) =~= about_menu(*t)->Submenu_children);
    }
    node
}

/// Builds a fresh menu tree with the labels of `t`.
pub fn build(t: &MenuTexts) -> (tree: MenuTree)
    ensures
        tree@ == menu_of(*t),
        tree.well_formed(),
{
    let mut submenus: Vec<MenuNode> = Vec::new();
    submenus.push(build_file_menu(t));
    submenus.push(build_edit_menu(t));
    submenus.push(build_view_menu(t));
    submenus.push(build_about_menu(t));
    let tree = MenuTree { submenus };
    proof {
        assert(tree@ =~= menu_of(*t));
    }
    tree
}

/// Builds the menu for a locale tag: the fixed structure with the labels
/// that the tag selects.
pub fn create_menu_with_lang(lang: &str) -> (tree: MenuTree)
    ensures
        tree@ == menu_of(labels_of(Locale::of(lang@))),
        tree.well_formed(),
{
    let t = get_menu_texts(lang);
    build(&t)
}

} // verus!
