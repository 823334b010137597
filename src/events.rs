//! Events the dispatch loop consumes, and the inputs they come from.
use vstd::prelude::*;

verus! {

/// A semantic action, produced from input and consumed by `App::dispatch`.
#[derive(Clone, Copy, Debug, PartialEq, Eq, Structural)]
pub enum AppEvent {
    Quit,
    /// Load the shotgun; the size comes from the round counter when it is dispatched.
    Reload,
    Shoot,
    ShowData,
    ShowLog,
    ShowInventory,
    ShowPlayer,
    FocusShotgun,
    ScrollUp,
    ScrollDown,
    ChangeFocus,
    ChangeFocusBack,
    /// An action the dispatcher has no rule for; it is logged and skipped.
    Unhandled,
}

/// The key of a key press.
#[derive(Clone, Copy, Debug, PartialEq, Eq, Structural)]
pub enum KeyCode {
    Char(char),
    Esc,
    Tab,
    Other,
}

/// A key press; `control` is set when Control is the only modifier held.
#[derive(Clone, Copy, Debug, PartialEq, Eq, Structural)]
pub struct KeyInput {
    pub code: KeyCode,
    pub control: bool,
}

/// The mouse actions the game reacts to.
#[derive(Clone, Copy, Debug, PartialEq, Eq, Structural)]
pub enum MouseInput {
    ScrollUp,
    DragLeft,
    DragOther,
    Other,
}

/// One item of the merged event stream.
#[derive(Clone, Copy, Debug, PartialEq, Eq, Structural)]
pub enum Event {
    /// The periodic timer fired.
    Tick,
    Key(KeyInput),
    Mouse(MouseInput),
    Resize(u16, u16),
    App(AppEvent),
}

/// The action a key press asks for; `j` and `k` scroll only while the log has the focus.
pub open spec fn key_action(key: KeyInput, log_focused: bool) -> Option<AppEvent> {
    match key.code {
        KeyCode::Esc => Some(AppEvent::Quit),
        KeyCode::Tab => if key.control {
            Some(AppEvent::ChangeFocusBack)
        } else {
            Some(AppEvent::ChangeFocus)
        },
        KeyCode::Char(c) => if c == 'q' || c == 'Q' {
            Some(AppEvent::Quit)
        } else if c == 'c' && key.control {
            Some(AppEvent::Quit)
        } else if c == 'd' || c == 'D' {
            Some(AppEvent::ShowData)
        } else if c == 'l' || c == 'L' {
            Some(AppEvent::ShowLog)
        } else if c == 'p' || c == 'P' {
            Some(AppEvent::ShowPlayer)
        } else if c == 's' || c == 'S' {
            Some(AppEvent::FocusShotgun)
        } else if c == 'k' && log_focused {
            Some(AppEvent::ScrollUp)
        } else if c == 'j' && log_focused {
            Some(AppEvent::ScrollDown)
        } else if c == 'r' || c == 'R' {
            Some(AppEvent::Reload)
        } else if c == ' ' {
            Some(AppEvent::Shoot)
        } else {
            None
        },
        KeyCode::Other => None,
    }
}

/// The action a key press asks for, given whether the log has the focus.
pub fn translate_key(key: KeyInput, log_focused: bool) -> (r: Option<AppEvent>)
    ensures
        r == key_action(key, log_focused),
{
    match key.code {
        KeyCode::Esc => Some(AppEvent::Quit),
        KeyCode::Tab => {
            if key.control {
                Some(AppEvent::ChangeFocusBack)
            } else {
                Some(AppEvent::ChangeFocus)
            }
        },
        KeyCode::Char(c) => {
            if c == 'q' || c == 'Q' {
                Some(AppEvent::Quit)
            } else if c == 'c' && key.control {
                Some(AppEvent::Quit)
            } else if c == 'd' || c == 'D' {
                Some(AppEvent::ShowData)
            } else if c == 'l' || c == 'L' {
                Some(AppEvent::ShowLog)
            } else if c == 'p' || c == 'P' {
                Some(AppEvent::ShowPlayer)
            } else if c == 's' || c == 'S' {
                Some(AppEvent::FocusShotgun)
            } else if c == 'k' && log_focused {
                Some(AppEvent::ScrollUp)
            } else if c == 'j' && log_focused {
                Some(AppEvent::ScrollDown)
            } else if c == 'r' || c == 'R' {
                Some(AppEvent::Reload)
            } else if c == ' ' {
                Some(AppEvent::Shoot)
            } else {
                None
            }
        },
        KeyCode::Other => None,
    }
}

} // verus!
