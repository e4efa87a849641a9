//! The window's background, and the key that repaints it.

use vstd::prelude::*;
use bevy::input::keyboard::KeyCode;
use bevy::input::Input;
use std::hash::Hash;
use crate::color::Rgb;

verus! {

/// The keys that the program listens to.
#[derive(Clone, Copy, Debug, PartialEq, Eq, Structural)]
pub enum Key {
    /// The right-arrow key.
    Right,
}

/// The engine's record of the buttons of one device: which are held, and
/// which went down or came up since the record was last cleared.
#[verifier::external_type_specification]
#[verifier::external_body]
#[verifier::reject_recursive_types(T)]
pub struct ExInput<T: Eq + Hash>(Input<T>);

/// The engine's codes for the keys of a keyboard.
#[verifier::external_type_specification]
#[verifier::external_body]
pub struct ExKeyCode(KeyCode);

/// The keys that `input` holds as just pressed: those that went down since
/// the engine last cleared the record and were not held at the time.
pub uninterp spec fn fresh_keys(input: Input<KeyCode>) -> Set<Key>;

/// `Input::just_pressed`, asked of the engine's code for `key`: whether the
/// key is among those just pressed.
#[verifier::external_body]
fn just_pressed(input: &Input<KeyCode>, key: Key) -> (fresh: bool)
    ensures
        fresh == fresh_keys(*input).contains(key),
{
    let code = match key {
        Key::Right => KeyCode::Right,
    };
    input.just_pressed(code)
}

/// The background before any key is pressed: black.
pub open spec fn start_color() -> Rgb {
    Rgb { red: 0, green: 0, blue: 0 }
}

/// The background that a press of the right-arrow key paints: olive.
pub open spec fn key_color() -> Rgb {
    Rgb { red: 50, green: 50, blue: 10 }
}

/// The background after a frame that began with `before`.
/// `right_just_pressed` says whether the right-arrow key went down during
/// the frame; a key that is merely held gives `false`.
pub open spec fn background_after(before: Rgb, right_just_pressed: bool) -> Rgb {
    if right_just_pressed {
        key_color()
    } else {
        before
    }
}

/// The background after a run of frames that began with `start`; `presses`
/// holds, frame by frame, whether the right-arrow key went down.
pub open spec fn background_over(start: Rgb, presses: Seq<bool>) -> Rgb
    decreases presses.len(),
{
    if presses.len() == 0 {
        start
    } else {
        background_after(background_over(start, presses.drop_last()), presses.last())
    }
}

/// After any run of frames the background shows `key_color()` if the
/// right-arrow key went down on one of them, however often, and its first
/// colour if it went down on none.
pub proof fn lemma_background_over(start: Rgb, presses: Seq<bool>)
    ensures
        background_over(start, presses) == if presses.contains(true) {
            key_color()
        } else {
            start
        },
    decreases presses.len(),
{
    if presses.len() > 0 {
        let earlier = presses.drop_last();
        lemma_background_over(start, earlier);
        if presses.last() {
            assert(presses[presses.len() - 1]);
        } else if earlier.contains(true) {
            let at = choose|i: int| 0 <= i < earlier.len() && earlier[i];
            assert(presses[at]);
        } else if presses.contains(true) {
            let at = choose|i: int| 0 <= i < presses.len() && presses[i];
            assert(earlier[at]);
        }
    }
}

/// On how many frames of a run the background is painted; `presses` holds,
/// frame by frame, whether the right-arrow key went down.
pub open spec fn paints_over(presses: Seq<bool>) -> nat
    decreases presses.len(),
{
    if presses.len() == 0 {
        0
    } else {
        paints_over(presses.drop_last()) + if presses.last() {
            1nat
        } else {
            0nat
        }
    }
}

/// Whether a key goes down on frame `at` of a run; `held` holds, frame by
/// frame, whether the key is down. It goes down on a frame on which it is
/// down and before which it was up.
pub open spec fn goes_down(held: Seq<bool>, at: int) -> bool {
    0 <= at < held.len() && held[at] && (at == 0 || !held[at - 1])
}

/// Frame by frame, whether the key goes down.
pub open spec fn press_edges(held: Seq<bool>) -> Seq<bool> {
    Seq::new(held.len(), |at: int| goes_down(held, at))
}

/// Every frame of a run either paints or leaves the background as it
/// found it: a frame on which the right-arrow key went down sets the
/// background to `key_color()` and adds one to the frames painted, and any
/// other frame changes neither the background nor that number.
pub proof fn lemma_frame_paints_or_leaves(start: Rgb, presses: Seq<bool>, at: int)
    requires
        0 <= at < presses.len(),
    ensures
        background_over(start, presses.take(at + 1)) == background_after(
            background_over(start, presses.take(at)),
            presses[at],
        ),
        presses[at] ==> background_over(start, presses.take(at + 1)) == key_color(),
        presses[at] ==> paints_over(presses.take(at + 1)) == paints_over(presses.take(at)) + 1,
        !presses[at] ==> background_over(start, presses.take(at + 1)) == background_over(
            start,
            presses.take(at),
        ),
        !presses[at] ==> paints_over(presses.take(at + 1)) == paints_over(presses.take(at)),
{
    assert(presses.take(at + 1).drop_last() =~= presses.take(at));
    assert(presses.take(at + 1).last() == presses[at]);
}

/// A run on which the right-arrow key never goes down paints on no frame.
pub proof fn lemma_no_press_no_paint(presses: Seq<bool>)
    requires
        forall|at: int| 0 <= at < presses.len() ==> !presses[at],
    ensures
        paints_over(presses) == 0,
    decreases presses.len(),
{
    if presses.len() > 0 {
        lemma_no_press_no_paint(presses.drop_last());
    }
}

/// A run on which the right-arrow key goes down on the frame `only` and on
/// no other paints on one frame.
pub proof fn lemma_one_press_one_paint(presses: Seq<bool>, only: int)
    requires
        0 <= only < presses.len(),
        forall|at: int| 0 <= at < presses.len() ==> (presses[at] <==> at == only),
    ensures
        paints_over(presses) == 1,
    decreases presses.len(),
{
    let earlier = presses.drop_last();
    if only == presses.len() - 1 {
        lemma_no_press_no_paint(earlier);
    } else {
        lemma_one_press_one_paint(earlier, only);
    }
}

/// A key that is pressed once and held from the frame `from` up to the
/// frame `to` goes down on the frame `from` alone, so the run paints on
/// that one frame, however long the key is held.
pub proof fn lemma_held_key_paints_once(held: Seq<bool>, from: int, to: int)
    requires
        0 <= from < to <= held.len(),
        forall|at: int| 0 <= at < held.len() ==> (held[at] <==> from <= at < to),
    ensures
        forall|at: int| 0 <= at < held.len() ==> (press_edges(held)[at] <==> at == from),
        paints_over(press_edges(held)) == 1,
{
    let edges = press_edges(held);
    assert forall|at: int| 0 <= at < held.len() implies (edges[at] <==> at == from) by {
        if at > 0 {
            assert(held[at - 1] <==> from <= at - 1 < to);
        }
    }
    lemma_one_press_one_paint(edges, from);
}

/// The key whose press repaints the background.
pub fn repaint_key() -> (key: Key)
    ensures
        key == Key::Right,
{
    Key::Right
}

/// The background that the window starts with.
pub fn clear_color_at_start() -> (color: Rgb)
    ensures
        color == start_color(),
        color.wf(),
{
    Rgb::grey(0)
}

/// One frame of the background, given whether the right-arrow key went
/// down on it: a fresh press paints the background `key_color()`, and a
/// frame without one leaves it as it was. The answer says whether the frame
/// painted.
pub fn repaint(right_just_pressed: bool, clear_color: &mut Rgb) -> (painted: bool)
    ensures
        painted == right_just_pressed,
        *final(clear_color) == background_after(*old(clear_color), right_just_pressed),
        right_just_pressed ==> *final(clear_color) == key_color(),
        !right_just_pressed ==> *final(clear_color) == *old(clear_color),
        old(clear_color).wf() ==> final(clear_color).wf(),
{
    if right_just_pressed {
        *clear_color = Rgb { red: 50, green: 50, blue: 10 };
    }
    right_just_pressed
}

/// One frame of the background: paints it `key_color()` when `input` holds
/// the right-arrow key as just pressed, and leaves it as it was when the
/// key is held, up, or was never touched. The answer says whether the
/// frame painted.
pub fn change_clear_color(input: &Input<KeyCode>, clear_color: &mut Rgb) -> (painted: bool)
    ensures
        painted == fresh_keys(*input).contains(Key::Right),
        *final(clear_color) == background_after(*old(clear_color), painted),
        painted ==> *final(clear_color) == key_color(),
        !painted ==> *final(clear_color) == *old(clear_color),
        old(clear_color).wf() ==> final(clear_color).wf(),
{
    let fresh = just_pressed(input, repaint_key());
    repaint(fresh, clear_color)
}

} // verus!
