use vstd::prelude::*;

use crate::chain::Event;

verus! {

/// The main key of a shortcut.
#[derive(Clone, Copy, Debug, PartialEq, Eq, Structural)]
pub enum KeyCode {
    /// A letter key, written as its lower-case letter.
    Letter(char),
    /// Any key that is not a letter.
    Other,
}

/// A key combination as the global-shortcut layer reports it.
#[derive(Clone, Copy, Debug, PartialEq, Eq, Structural)]
pub struct Combo {
    pub alt: bool,
    pub ctrl: bool,
    pub shift: bool,
    pub meta: bool,
    pub key: KeyCode,
}

/// The two global shortcuts that the application registers.
#[derive(Clone, Copy, Debug, PartialEq, Eq, Structural)]
pub enum Hotkey {
    /// Alt+Ctrl+C: start the copy, delete and read chain.
    StartChain,
    /// Alt+Ctrl+N: show the window.
    ShowWindow,
}

pub open spec fn alt_ctrl(letter: char) -> Combo {
    Combo { alt: true, ctrl: true, shift: false, meta: false, key: KeyCode::Letter(letter) }
}

pub open spec fn combo_of(h: Hotkey) -> Combo {
    match h {
        Hotkey::StartChain => alt_ctrl('c'),
        Hotkey::ShowWindow => alt_ctrl('n'),
    }
}

pub open spec fn accelerator_text(h: Hotkey) -> Seq<char> {
    match h {
        Hotkey::StartChain => "alt+ctrl+c"@,
        Hotkey::ShowWindow => "alt+ctrl+n"@,
    }
}

pub open spec fn event_of(h: Hotkey) -> Event {
    match h {
        Hotkey::StartChain => Event::Copy,
        Hotkey::ShowWindow => Event::Window,
    }
}

/// The event published for a shortcut report: a press of a registered
/// combination publishes that hotkey's event; a release, or any other
/// combination, publishes nothing.
pub open spec fn shortcut_event(c: Combo, pressed: bool) -> Option<Event> {
    if !pressed {
        None
    } else if c == combo_of(Hotkey::StartChain) {
        Some(event_of(Hotkey::StartChain))
    } else if c == combo_of(Hotkey::ShowWindow) {
        Some(event_of(Hotkey::ShowWindow))
    } else {
        None
    }
}

/// The accelerator string under which a hotkey is registered.
pub fn accelerator(h: Hotkey) -> (r: &'static str)
    ensures
        r@ == accelerator_text(h),
{
    match h {
        Hotkey::StartChain => "alt+ctrl+c",
        Hotkey::ShowWindow => "alt+ctrl+n",
    }
}

/// The key combination of a hotkey.
pub fn combo(h: Hotkey) -> (r: Combo)
    ensures
        r == combo_of(h),
{
    let letter = match h {
        Hotkey::StartChain => 'c',
        Hotkey::ShowWindow => 'n',
    };
    Combo { alt: true, ctrl: true, shift: false, meta: false, key: KeyCode::Letter(letter) }
}

/// The hotkeys to register, in registration order.
pub fn hotkeys() -> (r: Vec<Hotkey>)
    ensures
        r@ == seq![Hotkey::StartChain, Hotkey::ShowWindow],
{
    let r = vec![Hotkey::StartChain, Hotkey::ShowWindow];
    assert(r@ =~= seq![Hotkey::StartChain, Hotkey::ShowWindow]);
    r
}

/// Decides which event, if any, a shortcut report publishes.
pub fn event_for_shortcut(c: Combo, pressed: bool) -> (r: Option<Event>)
    ensures
        r == shortcut_event(c, pressed),
        pressed && c == alt_ctrl('c') ==> r == Some(Event::Copy),
        pressed && c == alt_ctrl('n') ==> r == Some(Event::Window),
        !pressed ==> r.is_none(),
{
    if !pressed {
        return None;
    }
    if c == combo(Hotkey::StartChain) {
        Some(Event::Copy)
    } else if c == combo(Hotkey::ShowWindow) {
        Some(Event::Window)
    } else {
        None
    }
}

} // verus!
