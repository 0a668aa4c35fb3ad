use vstd::prelude::*;

verus! {

/// The keys the wizard tells apart.
#[derive(PartialEq, Eq, Structural, Clone, Copy, Debug)]
pub enum KeyCode {
    Up,
    Down,
    Enter,
    Char(char),
    Other,
}

/// One key press, with whether the Control modifier was held.
#[derive(PartialEq, Eq, Structural, Clone, Copy, Debug)]
pub struct KeyPress {
    pub code: KeyCode,
    pub ctrl: bool,
}

/// A terminal input event: a key press, or anything else (resize, mouse, ...).
#[derive(PartialEq, Eq, Structural, Clone, Copy, Debug)]
pub enum InputEvent {
    Key(KeyPress),
    Other,
}

/// The key combination that ends the session: Control-C.
pub open spec fn is_quit_input(ev: InputEvent) -> bool {
    ev is Key && ev->Key_0.code == KeyCode::Char('c') && ev->Key_0.ctrl
}

/// Whether `ev` is the key combination that ends the session.
pub fn is_quit(ev: &InputEvent) -> (r: bool)
    ensures
        r == is_quit_input(*ev),
{
    match ev {
        InputEvent::Key(k) => k.ctrl && match k.code {
            KeyCode::Char(c) => c == 'c',
            _ => false,
        },
        InputEvent::Other => false,
    }
}

} // verus!
