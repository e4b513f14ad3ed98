//! The menu tree: its nodes, their mathematical model, and keyboard
//! accelerators.

use vstd::prelude::*;
use vstd::string::*;
use crate::command::CommandId;

verus! {

/// The key of an accelerator.
#[derive(Clone, Copy, Debug, PartialEq, Eq, Structural)]
pub enum Key {
    A,
    B,
    C,
    I,
    N,
    O,
    Q,
    S,
    V,
    X,
    Y,
    Z,
    Digit1,
    Digit2,
    Digit3,
    Comma,
}

/// A platform-neutral key combination: the platform's primary modifier
/// (Command or Control), optionally Shift, and a key.
#[derive(Clone, Copy, Debug, PartialEq, Eq, Structural)]
pub struct Accelerator {
    pub shift: bool,
    pub key: Key,
}

/// One node of a menu.
#[derive(Debug, PartialEq, Eq)]
pub enum MenuNode {
    /// A labelled group of nodes, in display order.
    Submenu { label: &'static str, enabled: bool, children: Vec<MenuNode> },
    /// A labelled entry that invokes a command.
    Item {
        label: &'static str,
        id: CommandId,
        accelerator: Option<Accelerator>,
        enabled: bool,
    },
    /// A dividing line.
    Separator,
}

/// The mathematical content of a [`MenuNode`].
pub enum Node {
    Submenu { label: Seq<char>, enabled: bool, children: Seq<Node> },
    Item { label: Seq<char>, id: CommandId, accelerator: Option<Accelerator>, enabled: bool },
    Separator,
}

impl MenuNode {
    /// The node's mathematical content.
    pub open spec fn model(self) -> Node
        decreases self,
    {
        match self {
            MenuNode::Submenu { label, enabled, children } => Node::Submenu {
                label: label@,
                enabled,
                children: Seq::new(
                    children@.len(),
                    |i: int|
                        if 0 <= i < children@.len() {
                            children@[i].model()
                        } else {
                            Node::Separator
                        },
                ),
            },
            MenuNode::Item { label, id, accelerator, enabled } => Node::Item {
                label: label@,
                id,
                accelerator,
                enabled,
            },
            MenuNode::Separator => Node::Separator,
        }
    }
}

impl View for MenuNode {
    type V = Node;

    open spec fn view(&self) -> Node {
        self.model()
    }
}

/// The models of a sequence of nodes, in order.
pub open spec fn models(nodes: Seq<MenuNode>) -> Seq<Node> {
    Seq::new(nodes.len(), |i: int| nodes[i]@)
}

/// The model of a submenu holds the models of its children, in order.
pub proof fn lemma_submenu_model(label: &'static str, enabled: bool, children: Vec<MenuNode>)
    ensures
        (MenuNode::Submenu { label, enabled, children })@ == (Node::Submenu {
            label: label@,
            enabled,
            children: models(children@),
        }),
{
    let node = MenuNode::Submenu { label, enabled, children };
    assert(node@->Submenu_children =~= models(children@));
}

/// A whole menu: the top-level submenus, in display order.
#[derive(Debug, PartialEq, Eq)]
pub struct MenuTree {
    pub submenus: Vec<MenuNode>,
}

impl View for MenuTree {
    type V = Seq<Node>;

    open spec fn view(&self) -> Seq<Node> {
        models(self.submenus@)
    }
}

impl MenuTree {
    /// Whether every node at the top of the tree is a submenu.
    pub open spec fn well_formed(&self) -> bool {
        forall|i: int| 0 <= i < self@.len() ==> (#[trigger] self@[i]) is Submenu
    }
}

impl Key {
    /// The key's name in an accelerator descriptor.
    pub open spec fn name(self) -> Seq<char> {
        match self {
            Key::A => "A"@,
            Key::B => "B"@,
            Key::C => "C"@,
            Key::I => "I"@,
            Key::N => "N"@,
            Key::O => "O"@,
            Key::Q => "Q"@,
            Key::S => "S"@,
            Key::V => "V"@,
            Key::X => "X"@,
            Key::Y => "Y"@,
            Key::Z => "Z"@,
            Key::Digit1 => "1"@,
            Key::Digit2 => "2"@,
            Key::Digit3 => "3"@,
            Key::Comma => "Comma"@,
        }
    }

    /// The key's name as a string slice.
    pub fn as_str(self) -> (s: &'static str)
        ensures
            s@ == self.name(),
    {
        match self {
            Key::A => "A",
            Key::B => "B",
            Key::C => "C",
            Key::I => "I",
            Key::N => "N",
            Key::O => "O",
            Key::Q => "Q",
            Key::S => "S",
            Key::V => "V",
            Key::X => "X",
            Key::Y => "Y",
            Key::Z => "Z",
            Key::Digit1 => "1",
            Key::Digit2 => "2",
            Key::Digit3 => "3",
            Key::Comma => "Comma",
        }
    }
}

impl Accelerator {
    /// The combination of the primary modifier and `key`.
    pub open spec fn primary(key: Key) -> Accelerator {
        Accelerator { shift: false, key }
    }

    /// The combination of the primary modifier, Shift and `key`.
    pub open spec fn primary_shift(key: Key) -> Accelerator {
        Accelerator { shift: true, key }
    }

    /// The descriptor that the host windowing system reads: the modifiers
    /// and the key, joined by `+`.
    pub open spec fn text(self) -> Seq<char> {
        "CmdOrCtrl+"@ + (if self.shift {
            "Shift+"@
        } else {
            Seq::<char>::empty()
        }) + self.key.name()
    }

    /// The accelerator's descriptor.
    pub fn descriptor(&self) -> (s: String)
        ensures
            s@ == self.text(),
    {
        let mut s = String::from_str("CmdOrCtrl+");
        if self.shift {
            s.append("Shift+");
        }
        s.append(self.key.as_str());
        s
    }
}

} // verus!
