//! Keyboard to joypad: which host key presses which button, and which keys
//! went down or up between two polls of the keyboard.
//!
//! Default bindings: Z → A, X → B, Enter → Start, Backspace → Select,
//! arrow keys → D-pad.

use crate::input::Button;
use vstd::prelude::*;

verus! {

/// A host keyboard key, as the front end reads it: the bound keys, the
/// emulator's control keys, and a few others.
#[derive(Debug, Clone, Copy, PartialEq, Eq, Structural)]
pub enum Key {
    A,
    Z,
    X,
    Enter,
    Backspace,
    Space,
    Escape,
    Right,
    Left,
    Up,
    Down,
    F1,
    F2,
    F3,
    F5,
    F7,
    /// Any other key.
    Other,
}

/// The button bound to `key`.
pub open spec fn key_button(key: Key) -> Option<Button> {
    match key {
        Key::Z => Some(Button::A),
        Key::X => Some(Button::B),
        Key::Enter => Some(Button::Start),
        Key::Backspace => Some(Button::Select),
        Key::Right => Some(Button::Right),
        Key::Left => Some(Button::Left),
        Key::Up => Some(Button::Up),
        Key::Down => Some(Button::Down),
        _ => None,
    }
}

/// The keys of `a` (in order) that are not in `b`.
pub open spec fn difference(a: Seq<Key>, b: Seq<Key>) -> Seq<Key> {
    a.filter(|k: Key| !b.contains(k))
}

/// The button bound to `key`, if any.
pub fn key_to_button(key: Key) -> (r: Option<Button>)
    ensures
        r == key_button(key),
{
    match key {
        Key::Z => Some(Button::A),
        Key::X => Some(Button::B),
        Key::Enter => Some(Button::Start),
        Key::Backspace => Some(Button::Select),
        Key::Right => Some(Button::Right),
        Key::Left => Some(Button::Left),
        Key::Up => Some(Button::Up),
        Key::Down => Some(Button::Down),
        _ => None,
    }
}

/// Whether `key` is among `keys`.
fn holds_key(keys: &[Key], key: Key) -> (r: bool)
    ensures
        r == keys@.contains(key),
{
    let mut i: usize = 0;
    while i < keys.len()
        invariant
            i <= keys@.len(),
            forall|j: int| 0 <= j < i ==> keys@[j] != key,
        decreases keys@.len() - i,
    {
        if keys[i] == key {
            assert(keys@[i as int] == key);
            return true;
        }
        i = i + 1;
    }
    false
}

/// The keys of `a`, in order, that are not in `b`.
fn keys_not_in(a: &[Key], b: &[Key]) -> (r: Vec<Key>)
    ensures
        r@ == difference(a@, b@),
{
    let mut out: Vec<Key> = Vec::new();
    let mut i: usize = 0;
    while i < a.len()
        invariant
            i <= a@.len(),
            out@ == difference(a@.take(i as int), b@),
        decreases a@.len() - i,
    {
        let k = a[i];
        proof {
            reveal(Seq::filter);
            assert(a@.take(i + 1).drop_last() =~= a@.take(i as int));
            assert(a@.take(i + 1).last() == k);
        }
        if !holds_key(b, k) {
            out.push(k);
        }
        i = i + 1;
    }
    assert(a@.take(a@.len() as int) =~= a@);
    out
}

/// Keys down now that were not down at the previous poll, in the order of
/// `current`.
pub fn newly_pressed(current: &[Key], previous: &[Key]) -> (r: Vec<Key>)
    ensures
        r@ == difference(current@, previous@),
{
    keys_not_in(current, previous)
}

/// Keys down at the previous poll that are no longer down, in the order of
/// `previous`.
pub fn newly_released(previous: &[Key], current: &[Key]) -> (r: Vec<Key>)
    ensures
        r@ == difference(previous@, current@),
{
    keys_not_in(previous, current)
}

/// No key is both newly pressed and newly released: a newly pressed key is
/// down now and was not before, a newly released one the other way round.
pub proof fn lemma_pressed_released_disjoint(current: Seq<Key>, previous: Seq<Key>, key: Key)
    ensures
        difference(current, previous).contains(key) ==> current.contains(key) && !previous.contains(key),
        difference(previous, current).contains(key) ==> previous.contains(key) && !current.contains(key),
        !(difference(current, previous).contains(key) && difference(previous, current).contains(key)),
{
    broadcast use vstd::seq_lib::group_filter_ensures;

    if difference(current, previous).contains(key) {
        current.lemma_filter_contains_rev(|k: Key| !previous.contains(k), key);
        let i = choose|i: int| 0 <= i < difference(current, previous).len() && difference(current, previous)[i] == key;
        current.lemma_filter_pred(|k: Key| !previous.contains(k), i);
    }
    if difference(previous, current).contains(key) {
        previous.lemma_filter_contains_rev(|k: Key| !current.contains(k), key);
        let i = choose|i: int| 0 <= i < difference(previous, current).len() && difference(previous, current)[i] == key;
        previous.lemma_filter_pred(|k: Key| !current.contains(k), i);
    }
}

/// The eight bound keys press eight different buttons.
pub proof fn lemma_bindings_distinct(k1: Key, k2: Key)
    ensures
        key_button(k1) is Some && key_button(k1) == key_button(k2) ==> k1 == k2,
{
}

} // verus!
