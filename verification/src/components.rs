//! Shared vocabulary of the UI components.

use vstd::prelude::*;

verus! {

/// A vertical scrolling request.
#[derive(Copy, Clone)]
pub enum ScrollType {
    Up,
    Down,
    Home,
    End,
    PageUp,
    PageDown,
}

/// A horizontal scrolling request.
#[derive(Copy, Clone)]
pub enum HorizontalScrollType {
    Left,
    Right,
}

/// A movement direction.
#[derive(Copy, Clone)]
pub enum Direction {
    Up,
    Down,
}

/// Whether a component consumes the command flow or passes it on.
#[derive(PartialEq, Eq)]
pub enum CommandBlocking {
    Blocking,
    PassingOn,
}

/// Base behavior of a UI component: visibility and focus.  Implementors
/// override what they need; an error string from `show` reports why a
/// component could not be displayed.
pub trait Component {
    /// Whether the component has focus.
    fn focused(&self) -> bool {
        false
    }

    /// Focus or unfocus this component depending on the parameter.
    fn focus(&mut self, _focus: bool) {
    }

    /// Whether the component is shown.
    fn is_visible(&self) -> bool {
        true
    }

    /// Stops showing the component.
    fn conceal(&mut self) {
    }

    /// Starts showing the component.
    fn show(&mut self) -> Result<(), String> {
        Ok(())
    }

    /// Hides a visible component and shows a hidden one.
    fn toggle_visible(&mut self) -> Result<(), String> {
        if self.is_visible() {
            self.conceal();
            Ok(())
        } else {
            self.show()
        }
    }
}

} // verus!
