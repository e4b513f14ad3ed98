//! What is the same in every menu, whatever its labels: the grouping, the
//! order, the commands and the accelerators.

use vstd::prelude::*;
use crate::builder::{about_menu, edit_menu, file_menu, item, menu_of, view_menu};
use crate::command::CommandId;
use crate::labels::{MenuTexts, labels_of};
use crate::locale::Locale;
use crate::menu::Node;

verus! {

impl Node {
    /// The node with every label in it erased. What stays is the structure:
    /// grouping, order, commands, accelerators and enabled flags.
    pub open spec fn unlabelled(self) -> Node
        decreases self,
    {
        match self {
            Node::Submenu { label, enabled, children } => Node::Submenu {
                label: Seq::empty(),
                enabled,
                children: Seq::new(
                    children.len(),
                    |i: int|
                        if 0 <= i < children.len() {
                            children[i].unlabelled()
                        } else {
                            Node::Separator
                        },
                ),
            },
            Node::Item { label, id, accelerator, enabled } => Node::Item {
                label: Seq::empty(),
                id,
                accelerator,
                enabled,
            },
            Node::Separator => Node::Separator,
        }
    }

    /// The command that the node invokes: that of an item, none otherwise.
    pub open spec fn command(self) -> Option<CommandId> {
        match self {
            Node::Item { id, .. } => Some(id),
            _ => None,
        }
    }

    /// The nodes directly below this one: those of a submenu, none otherwise.
    pub open spec fn children(self) -> Seq<Node> {
        match self {
            Node::Submenu { children, .. } => children,
            _ => Seq::empty(),
        }
    }

    /// For each node directly below this one, in order, the command it
    /// invokes; `None` stands for a separator or a nested submenu.
    pub open spec fn outline(self) -> Seq<Option<CommandId>> {
        Seq::new(self.children().len(), |i: int| self.children()[i].command())
    }
}

/// The structure of a menu: its nodes, in order, with every label erased.
pub open spec fn structure(menu: Seq<Node>) -> Seq<Node> {
    Seq::new(menu.len(), |i: int| menu[i].unlabelled())
}

/// The structure of every menu that the builder produces.
pub open spec fn fixed_structure() -> Seq<Node> {
    structure(menu_of(labels_of(Locale::fallback())))
}

/// Erasing the labels of a submenu erases those of its children, in order.
pub proof fn lemma_unlabelled_submenu(label: Seq<char>, enabled: bool, children: Seq<Node>)
    ensures
        (Node::Submenu { label, enabled, children }).unlabelled() == (Node::Submenu {
            label: Seq::empty(),
            enabled,
            children: structure(children),
        }),
{
    let node = Node::Submenu { label, enabled, children };
    assert(node.unlabelled()->Submenu_children =~= structure(children));
}

/// Every menu has four submenus, File, Edit, View and About in that order,
/// labelled from the label set; each holds its entries and separators in
/// the fixed order, and every separator stands where the outline has `None`.
pub proof fn lemma_menu_layout(t: MenuTexts)
    ensures
        menu_of(t).len() == 4,
        forall|i: int| 0 <= i < 4 ==> (#[trigger] menu_of(t)[i]) is Submenu,
        menu_of(t)[0]->Submenu_label == t.file@,
        menu_of(t)[1]->Submenu_label == t.edit@,
        menu_of(t)[2]->Submenu_label == t.view@,
        menu_of(t)[3]->Submenu_label == t.about@,
        menu_of(t)[0].outline() == seq![
            Some(CommandId::New),
            Some(CommandId::Open),
            Some(CommandId::OpenFolder),
            None,
            Some(CommandId::Save),
            Some(CommandId::SaveAs),
            None,
            Some(CommandId::Quit),
        ],
        menu_of(t)[1].outline() == seq![
            Some(CommandId::Undo),
            Some(CommandId::Redo),
            None,
            Some(CommandId::Cut),
            Some(CommandId::Copy),
            Some(CommandId::Paste),
            Some(CommandId::SelectAll),
            None,
            Some(CommandId::Settings),
        ],
        menu_of(t)[2].outline() == seq![
            Some(CommandId::ToggleSidebar),
            None,
            Some(CommandId::ViewEditor),
            Some(CommandId::ViewSplit),
            Some(CommandId::ViewPreview),
            None,
            Some(CommandId::ToggleSyncScroll),
        ],
        menu_of(t)[3].outline() == seq![Some(CommandId::About)],
        forall|i: int, j: int|
            0 <= i < 4 && 0 <= j < menu_of(t)[i].children().len() ==> (
            #[trigger] menu_of(t)[i].children()[j] is Separator <==> menu_of(t)[i].outline()[j]
                is None),
{
    let menu = menu_of(t);
    assert(menu[0] == file_menu(t));
    assert(menu[1] == edit_menu(t));
    assert(menu[2] == view_menu(t));
    assert(menu[3] == about_menu(t));
    assert(menu[0].outline() =~= seq![
        Some(CommandId::New),
        Some(CommandId::Open),
        Some(CommandId::OpenFolder),
        None,
        Some(CommandId::Save),
        Some(CommandId::SaveAs),
        None,
        Some(CommandId::Quit),
    ]);
    assert(menu[1].outline() =~= seq![
        Some(CommandId::Undo),
        Some(CommandId::Redo),
        None,
        Some(CommandId::Cut),
        Some(CommandId::Copy),
        Some(CommandId::Paste),
        Some(CommandId::SelectAll),
        None,
        Some(CommandId::Settings),
    ]);
    assert(menu[2].outline() =~= seq![
        Some(CommandId::ToggleSidebar),
        None,
        Some(CommandId::ViewEditor),
        Some(CommandId::ViewSplit),
        Some(CommandId::ViewPreview),
        None,
        Some(CommandId::ToggleSyncScroll),
    ]);
    assert(menu[3].outline() =~= seq![Some(CommandId::About)]);
}

/// Two submenus with the same enabled flag whose children agree, one by one,
/// once labels are erased, agree themselves once labels are erased.
pub proof fn lemma_submenus_alike(x: Node, y: Node)
    requires
        x is Submenu,
        y is Submenu,
        x->Submenu_enabled == y->Submenu_enabled,
        x.children().len() == y.children().len(),
        forall|j: int|
            0 <= j < x.children().len() ==> (#[trigger] x.children()[j]).unlabelled()
                == y.children()[j].unlabelled(),
    ensures
        x.unlabelled() == y.unlabelled(),
{
    lemma_unlabelled_submenu(x->Submenu_label, x->Submenu_enabled, x.children());
    lemma_unlabelled_submenu(y->Submenu_label, y->Submenu_enabled, y.children());
    assert(structure(x.children()) =~= structure(y.children()));
}

/// Only the labels of a menu depend on the label set: the menus of any two
/// label sets have the same structure.
pub proof fn lemma_structure_ignores_labels(a: MenuTexts, b: MenuTexts)
    ensures
        structure(menu_of(a)) == structure(menu_of(b)),
{
    lemma_submenus_alike(file_menu(a), file_menu(b));
    lemma_submenus_alike(edit_menu(a), edit_menu(b));
    lemma_submenus_alike(view_menu(a), view_menu(b));
    lemma_submenus_alike(about_menu(a), about_menu(b));
    assert(structure(menu_of(a)) =~= structure(menu_of(b)));
}

/// The menus of any two locale tags, recognised or not, differ in their
/// labels alone, and each has the one fixed structure.
pub proof fn lemma_structure_is_locale_independent(first: Seq<char>, second: Seq<char>)
    ensures
        structure(menu_of(labels_of(Locale::of(first)))) == structure(
            menu_of(labels_of(Locale::of(second))),
        ),
        structure(menu_of(labels_of(Locale::of(first)))) == fixed_structure(),
{
    lemma_structure_ignores_labels(
        labels_of(Locale::of(first)),
        labels_of(Locale::of(second)),
    );
    lemma_structure_ignores_labels(labels_of(Locale::of(first)), labels_of(Locale::fallback()));
}

/// Where each command stands in the menu: the index of its submenu and its
/// index within that submenu.
pub open spec fn position_of(id: CommandId) -> (int, int) {
    match id {
        CommandId::New => (0, 0),
        CommandId::Open => (0, 1),
        CommandId::OpenFolder => (0, 2),
        CommandId::Save => (0, 4),
        CommandId::SaveAs => (0, 5),
        CommandId::Quit => (0, 7),
        CommandId::Undo => (1, 0),
        CommandId::Redo => (1, 1),
        CommandId::Cut => (1, 3),
        CommandId::Copy => (1, 4),
        CommandId::Paste => (1, 5),
        CommandId::SelectAll => (1, 6),
        CommandId::Settings => (1, 8),
        CommandId::ToggleSidebar => (2, 0),
        CommandId::ViewEditor => (2, 2),
        CommandId::ViewSplit => (2, 3),
        CommandId::ViewPreview => (2, 4),
        CommandId::ToggleSyncScroll => (2, 6),
        CommandId::About => (3, 0),
    }
}

/// Every command has exactly one entry in every menu: it stands at its
/// position, enabled and with its accelerator, and nowhere else.
pub proof fn lemma_every_command_has_one_entry(t: MenuTexts, id: CommandId)
    ensures
        ({
            let (i, j) = position_of(id);
            &&& 0 <= i < menu_of(t).len()
            &&& 0 <= j < menu_of(t)[i].children().len()
            &&& menu_of(t)[i].children()[j] == item(menu_of(t)[i].children()[j]->Item_label, id)
        }),
        forall|i: int, j: int|
            0 <= i < menu_of(t).len() && 0 <= j < menu_of(t)[i].children().len() && (
            #[trigger] menu_of(t)[i].children()[j]).command() == Some(id) ==> (i, j)
                == position_of(id),
{
    let menu = menu_of(t);
    assert(menu[0] == file_menu(t));
    assert(menu[1] == edit_menu(t));
    assert(menu[2] == view_menu(t));
    assert(menu[3] == about_menu(t));
}

} // verus!
