//! The window actions and the parameters they take.

use vstd::prelude::*;

use crate::text::str_equals;

verus! {

/// A window action, named by the `action` parameter.
#[derive(Clone, Copy, Debug, PartialEq, Eq, Structural)]
pub enum Action {
    List,
    Focus,
    Close,
    Minimize,
    Maximize,
    SwitchWorkspace,
    MoveToWorkspace,
    GetGeometry,
    SetGeometry,
    SetPosition,
    SetSize,
    Snap,
}

/// An optional parameter that some actions require.
#[derive(Clone, Copy, Debug, PartialEq, Eq, Structural)]
pub enum Param {
    WindowId,
    Workspace,
    X,
    Y,
    Width,
    Height,
    Position,
}

impl Action {
    /// The name by which the `action` parameter selects this action.
    pub open spec fn spec_name(self) -> Seq<char> {
        match self {
            Action::List => "list"@,
            Action::Focus => "focus"@,
            Action::Close => "close"@,
            Action::Minimize => "minimize"@,
            Action::Maximize => "maximize"@,
            Action::SwitchWorkspace => "switch_workspace"@,
            Action::MoveToWorkspace => "move_to_workspace"@,
            Action::GetGeometry => "get_geometry"@,
            Action::SetGeometry => "set_geometry"@,
            Action::SetPosition => "set_position"@,
            Action::SetSize => "set_size"@,
            Action::Snap => "snap"@,
        }
    }

    /// The action that `text` names, if any; names are matched exactly.
    pub open spec fn spec_parse(text: Seq<char>) -> Option<Action> {
        if text == "list"@ {
            Some(Action::List)
        } else if text == "focus"@ {
            Some(Action::Focus)
        } else if text == "close"@ {
            Some(Action::Close)
        } else if text == "minimize"@ {
            Some(Action::Minimize)
        } else if text == "maximize"@ {
            Some(Action::Maximize)
        } else if text == "switch_workspace"@ {
            Some(Action::SwitchWorkspace)
        } else if text == "move_to_workspace"@ {
            Some(Action::MoveToWorkspace)
        } else if text == "get_geometry"@ {
            Some(Action::GetGeometry)
        } else if text == "set_geometry"@ {
            Some(Action::SetGeometry)
        } else if text == "set_position"@ {
            Some(Action::SetPosition)
        } else if text == "set_size"@ {
            Some(Action::SetSize)
        } else if text == "snap"@ {
            Some(Action::Snap)
        } else {
            None
        }
    }

    /// The name of this action.
    pub fn name(&self) -> (r: &'static str)
        ensures
            r@ == self.spec_name(),
    {
        match self {
            Action::List => "list",
            Action::Focus => "focus",
            Action::Close => "close",
            Action::Minimize => "minimize",
            Action::Maximize => "maximize",
            Action::SwitchWorkspace => "switch_workspace",
            Action::MoveToWorkspace => "move_to_workspace",
            Action::GetGeometry => "get_geometry",
            Action::SetGeometry => "set_geometry",
            Action::SetPosition => "set_position",
            Action::SetSize => "set_size",
            Action::Snap => "snap",
        }
    }

    /// The action that `text` names, if any.
    pub fn parse(text: &str) -> (r: Option<Action>)
        ensures
            r == Action::spec_parse(text@),
    {
        if str_equals(text, "list") {
            Some(Action::List)
        } else if str_equals(text, "focus") {
            Some(Action::Focus)
        } else if str_equals(text, "close") {
            Some(Action::Close)
        } else if str_equals(text, "minimize") {
            Some(Action::Minimize)
        } else if str_equals(text, "maximize") {
            Some(Action::Maximize)
        } else if str_equals(text, "switch_workspace") {
            Some(Action::SwitchWorkspace)
        } else if str_equals(text, "move_to_workspace") {
            Some(Action::MoveToWorkspace)
        } else if str_equals(text, "get_geometry") {
            Some(Action::GetGeometry)
        } else if str_equals(text, "set_geometry") {
            Some(Action::SetGeometry)
        } else if str_equals(text, "set_position") {
            Some(Action::SetPosition)
        } else if str_equals(text, "set_size") {
            Some(Action::SetSize)
        } else if str_equals(text, "snap") {
            Some(Action::Snap)
        } else {
            None
        }
    }
}

impl Param {
    /// The name of the parameter, as callers write it.
    pub open spec fn spec_name(self) -> Seq<char> {
        match self {
            Param::WindowId => "window_id"@,
            Param::Workspace => "workspace"@,
            Param::X => "x"@,
            Param::Y => "y"@,
            Param::Width => "width"@,
            Param::Height => "height"@,
            Param::Position => "position"@,
        }
    }

    /// The name of the parameter.
    pub fn name(&self) -> (r: &'static str)
        ensures
            r@ == self.spec_name(),
    {
        match self {
            Param::WindowId => "window_id",
            Param::Workspace => "workspace",
            Param::X => "x",
            Param::Y => "y",
            Param::Width => "width",
            Param::Height => "height",
            Param::Position => "position",
        }
    }
}

/// Every action is selected by its own name: parsing the name of an action
/// gives that action back, so the twelve names are all accepted and no two
/// actions share a name.
pub proof fn lemma_action_name_selects_action(a: Action)
    ensures
        Action::spec_parse(a.spec_name()) == Some(a),
{
    reveal_strlit("list");
    reveal_strlit("focus");
    reveal_strlit("close");
    reveal_strlit("minimize");
    reveal_strlit("maximize");
    reveal_strlit("switch_workspace");
    reveal_strlit("move_to_workspace");
    reveal_strlit("get_geometry");
    reveal_strlit("set_geometry");
    reveal_strlit("set_position");
    reveal_strlit("set_size");
    reveal_strlit("snap");
    assert("list"@[0] == 'l');
    assert("list"@[1] == 'i');
    assert("focus"@[0] == 'f');
    assert("focus"@[1] == 'o');
    assert("focus"@[4] == 's');
    assert("close"@[0] == 'c');
    assert("close"@[1] == 'l');
    assert("close"@[4] == 'e');
    assert("minimize"@[0] == 'm');
    assert("minimize"@[1] == 'i');
    assert("minimize"@[4] == 'm');
    assert("maximize"@[0] == 'm');
    assert("maximize"@[1] == 'a');
    assert("maximize"@[4] == 'm');
    assert("switch_workspace"@[0] == 's');
    assert("switch_workspace"@[1] == 'w');
    assert("switch_workspace"@[4] == 'c');
    assert("move_to_workspace"@[0] == 'm');
    assert("move_to_workspace"@[1] == 'o');
    assert("move_to_workspace"@[4] == '_');
    assert("get_geometry"@[0] == 'g');
    assert("get_geometry"@[1] == 'e');
    assert("get_geometry"@[4] == 'g');
    assert("set_geometry"@[0] == 's');
    assert("set_geometry"@[1] == 'e');
    assert("set_geometry"@[4] == 'g');
    assert("set_position"@[0] == 's');
    assert("set_position"@[1] == 'e');
    assert("set_position"@[4] == 'p');
    assert("set_size"@[0] == 's');
    assert("set_size"@[1] == 'e');
    assert("set_size"@[4] == 's');
    assert("snap"@[0] == 's');
    assert("snap"@[1] == 'n');
}

/// A text selects no action exactly when it is the name of no action.
pub proof fn lemma_unknown_action(text: Seq<char>)
    ensures
        Action::spec_parse(text) is None <==> forall|a: Action| text != #[trigger] a.spec_name(),
{
    if Action::spec_parse(text) is None {
        assert forall|a: Action| text != #[trigger] a.spec_name() by {
            lemma_action_name_selects_action(a);
        }
    } else {
        let a = Action::spec_parse(text)->0;
        assert(text == a.spec_name());
    }
}

} // verus!
