use vstd::prelude::*;

verus! {

/// The keys the dashboard tells apart; every other key is `Other`.
#[derive(Clone, Copy, Debug, PartialEq, Eq)]
pub enum KeyCode {
    Char(char),
    Up,
    Down,
    Esc,
    Backspace,
    F(u8),
    Other,
}

/// The modifier held with a key: none, Control alone, Shift alone, or
/// anything else.
#[derive(Clone, Copy, Debug, PartialEq, Eq)]
pub enum KeyModifiers {
    Unmodified,
    Control,
    Shift,
    Other,
}

/// Whether a key went down, is held, or came up.
#[derive(Clone, Copy, Debug, PartialEq, Eq)]
pub enum KeyEventKind {
    Press,
    Repeat,
    Release,
}

#[derive(Clone, Copy, Debug, PartialEq, Eq)]
pub struct KeyEvent {
    pub code: KeyCode,
    pub modifiers: KeyModifiers,
    pub kind: KeyEventKind,
}

/// What the terminal reports: a key, or something the dashboard has no use
/// for (a resize, the mouse, a paste).
#[derive(Clone, Copy, Debug, PartialEq, Eq)]
pub enum InputEvent {
    Key(KeyEvent),
    Other,
}

/// What the control loop is woken by.
#[derive(Clone, Copy, Debug, PartialEq, Eq)]
pub enum Event {
    Input(InputEvent),
    Tick,
}

/// What a key asks for while the table is browsed.
#[derive(Clone, Copy, Debug, PartialEq, Eq)]
pub enum NormalAction {
    Quit,
    ToggleThreads,
    MoveDown,
    MoveUp,
    EnterFilter,
    Deactivate,
    ToggleSort,
    Kill,
    GoToLast,
    Ignore,
}

/// What a key asks for while the filter text is typed.
#[derive(Clone, Copy, Debug, PartialEq, Eq)]
pub enum FilterAction {
    Leave,
    Type(char),
    Erase,
    Ignore,
}

/// The key map of normal mode.
pub open spec fn normal_action(key: KeyEvent) -> NormalAction {
    match key.modifiers {
        KeyModifiers::Unmodified => match key.code {
            KeyCode::Char(c) => if c == 'q' {
                NormalAction::Quit
            } else if c == 't' {
                NormalAction::ToggleThreads
            } else if c == 'j' {
                NormalAction::MoveDown
            } else if c == 'k' {
                NormalAction::MoveUp
            } else if c == '/' {
                NormalAction::EnterFilter
            } else {
                NormalAction::Ignore
            },
            KeyCode::Down => NormalAction::MoveDown,
            KeyCode::Up => NormalAction::MoveUp,
            KeyCode::Esc => NormalAction::Deactivate,
            KeyCode::F(n) => if n == 4 {
                NormalAction::EnterFilter
            } else if n == 5 {
                NormalAction::ToggleThreads
            } else if n == 6 {
                NormalAction::ToggleSort
            } else if n == 9 {
                NormalAction::Kill
            } else {
                NormalAction::Ignore
            },
            _ => NormalAction::Ignore,
        },
        KeyModifiers::Control => if key.code == KeyCode::Char('c') {
            NormalAction::Quit
        } else {
            NormalAction::Ignore
        },
        KeyModifiers::Shift => if key.code == KeyCode::Char('G') {
            NormalAction::GoToLast
        } else {
            NormalAction::Ignore
        },
        KeyModifiers::Other => NormalAction::Ignore,
    }
}

/// The key map of filter mode: Escape leaves, Backspace erases, a character
/// typed plain or with Shift goes into the text.
pub open spec fn filter_action(key: KeyEvent) -> FilterAction {
    match key.modifiers {
        KeyModifiers::Unmodified => match key.code {
            KeyCode::Esc => FilterAction::Leave,
            KeyCode::Char(c) => FilterAction::Type(c),
            KeyCode::Backspace => FilterAction::Erase,
            _ => FilterAction::Ignore,
        },
        KeyModifiers::Shift => match key.code {
            KeyCode::Char(c) => FilterAction::Type(c),
            _ => FilterAction::Ignore,
        },
        _ => FilterAction::Ignore,
    }
}

/// What `key` asks for in normal mode.
pub fn normal_mode_action(key: &KeyEvent) -> (action: NormalAction)
    ensures
        action == normal_action(*key),
{
    match key.modifiers {
        KeyModifiers::Unmodified => match key.code {
            KeyCode::Char(c) => {
                if c == 'q' {
                    NormalAction::Quit
                } else if c == 't' {
                    NormalAction::ToggleThreads
                } else if c == 'j' {
                    NormalAction::MoveDown
                } else if c == 'k' {
                    NormalAction::MoveUp
                } else if c == '/' {
                    NormalAction::EnterFilter
                } else {
                    NormalAction::Ignore
                }
            },
            KeyCode::Down => NormalAction::MoveDown,
            KeyCode::Up => NormalAction::MoveUp,
            KeyCode::Esc => NormalAction::Deactivate,
            KeyCode::F(n) => {
                if n == 4 {
                    NormalAction::EnterFilter
                } else if n == 5 {
                    NormalAction::ToggleThreads
                } else if n == 6 {
                    NormalAction::ToggleSort
                } else if n == 9 {
                    NormalAction::Kill
                } else {
                    NormalAction::Ignore
                }
            },
            _ => NormalAction::Ignore,
        },
        KeyModifiers::Control => match key.code {
            KeyCode::Char(c) => {
                if c == 'c' {
                    NormalAction::Quit
                } else {
                    NormalAction::Ignore
                }
            },
            _ => NormalAction::Ignore,
        },
        KeyModifiers::Shift => match key.code {
            KeyCode::Char(c) => {
                if c == 'G' {
                    NormalAction::GoToLast
                } else {
                    NormalAction::Ignore
                }
            },
            _ => NormalAction::Ignore,
        },
        KeyModifiers::Other => NormalAction::Ignore,
    }
}

/// What `key` asks for in filter mode.
pub fn filter_mode_action(key: &KeyEvent) -> (action: FilterAction)
    ensures
        action == filter_action(*key),
{
    match key.modifiers {
        KeyModifiers::Unmodified => match key.code {
            KeyCode::Esc => FilterAction::Leave,
            KeyCode::Char(c) => FilterAction::Type(c),
            KeyCode::Backspace => FilterAction::Erase,
            _ => FilterAction::Ignore,
        },
        KeyModifiers::Shift => match key.code {
            KeyCode::Char(c) => FilterAction::Type(c),
            _ => FilterAction::Ignore,
        },
        _ => FilterAction::Ignore,
    }
}

} // verus!
