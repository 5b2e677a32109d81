use vstd::prelude::*;

verus! {

/// The side panel: where it stands and which menu is open.
#[derive(Debug, Clone, Copy, PartialEq)]
pub struct Sidebar {
    pub position: Position,
    pub active_menu: Option<Menu>,
}

impl Sidebar {
    /// Opens `new_menu`.
    pub fn set_menu(&mut self, new_menu: Menu)
        ensures
            final(self).active_menu == Some(new_menu),
            final(self).position == old(self).position,
    {
        self.active_menu = Some(new_menu);
    }

    /// Moves the panel to `position`.
    pub fn set_position(&mut self, position: Position)
        ensures
            final(self).position == position,
            final(self).active_menu == old(self).active_menu,
    {
        self.position = position;
    }

    /// Whether `menu` is the open menu.
    pub fn is_menu_active(&self, menu: Menu) -> (b: bool)
        ensures
            b == (self.active_menu == Some(menu)),
    {
        match self.active_menu {
            Some(m) => m == menu,
            None => false,
        }
    }

    /// A panel on the left with no menu open.
    pub fn default_sidebar() -> (s: Self)
        ensures
            s.position == Position::Left,
            s.active_menu is None,
    {
        Sidebar { position: Position::Left, active_menu: None }
    }
}

/// Opening a menu makes it, and only it, the active menu.
pub proof fn law_set_menu_then_active(s: Sidebar, opened: Menu, asked: Menu)
    ensures
        (Sidebar { active_menu: Some(opened), ..s }).active_menu == Some(asked) <==> opened
            == asked,
{
}

/// The side of the window the panel stands on.
#[derive(Default, Debug, Clone, PartialEq, Copy, Structural)]
pub enum Position {
    #[default]
    Left,
    Right,
}

impl Position {
    /// The name shown for the position.
    pub fn label(&self) -> (s: &'static str)
        ensures
            s@ == (match self {
                Position::Left => "Left"@,
                Position::Right => "Right"@,
            }),
    {
        match self {
            Position::Left => "Left",
            Position::Right => "Right",
        }
    }
}

/// A menu of the side panel.
#[derive(Debug, Copy, Clone, PartialEq, Eq, Structural)]
pub enum Menu {
    Layout,
    Settings,
    Audio,
    ThemeEditor,
}

} // verus!
