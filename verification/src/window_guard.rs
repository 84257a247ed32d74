//! Window key guard: ignore Escape while the window is fullscreen.
//!
//! The platform offers no supported way to keep a window fullscreen when Escape
//! is pressed, so the shell sees each key press first and asks this guard. It
//! consumes Escape only while the window is actually fullscreen, because Escape
//! still has to reach the page in a normal window.

use vstd::prelude::*;

verus! {

/// Escape's virtual key code on macOS.
pub const ESCAPE_KEY_CODE: u16 = 53;

/// The guard of the window.
pub struct WindowGuard {
    /// How many Escape presses have been consumed, modulo the range of the type.
    pub swallowed: u64,
}

impl WindowGuard {
    /// A guard that has consumed nothing.
    pub fn new() -> (guard: WindowGuard)
        ensures
            guard.swallowed == 0,
    {
        WindowGuard { swallowed: 0 }
    }
}

/// How many Escape presses the guard has consumed so far.
pub fn escapes_swallowed(guard: &WindowGuard) -> (count: u64)
    ensures
        count == guard.swallowed,
{
    guard.swallowed
}

/// A key press: the key, and whether the window is fullscreen, if that is known.
pub struct KeyPress {
    pub key_code: u16,
    pub fullscreen: Option<bool>,
}

/// Whether a key press is consumed: it is Escape, and the window is known to be
/// fullscreen.
pub open spec fn consumed(press: KeyPress) -> bool {
    press.key_code == ESCAPE_KEY_CODE && press.fullscreen == Some(true)
}

/// How many of the key presses are consumed.
pub open spec fn consumed_count(presses: Seq<KeyPress>) -> nat
    decreases presses.len(),
{
    if presses.len() == 0 {
        0
    } else {
        consumed_count(presses.drop_last()) + if consumed(presses.last()) {
            1nat
        } else {
            0nat
        }
    }
}

/// What the count of consumed presses is after one more press.
pub open spec fn count_after(count: u64, press: KeyPress) -> u64 {
    if consumed(press) {
        (if count == u64::MAX {
            0
        } else {
            count + 1
        }) as u64
    } else {
        count
    }
}

/// What the count is after several presses.
pub open spec fn count_after_all(count: u64, presses: Seq<KeyPress>) -> u64
    decreases presses.len(),
{
    if presses.len() == 0 {
        count
    } else {
        count_after(count_after_all(count, presses.drop_last()), presses.last())
    }
}

/// Decides one key press: whether it is consumed, so that neither the window
/// nor the page sees it.
pub fn on_key_down(guard: &mut WindowGuard, press: KeyPress) -> (swallow: bool)
    ensures
        swallow == consumed(press),
        final(guard).swallowed == count_after(old(guard).swallowed, press),
{
    let fullscreen = match press.fullscreen {
        Some(fullscreen) => fullscreen,
        None => false,
    };
    if press.key_code == ESCAPE_KEY_CODE && fullscreen {
        guard.swallowed = guard.swallowed.wrapping_add(1);
        true
    } else {
        false
    }
}

/// The guard counts exactly the Escape presses that it consumed: after any
/// presses its count has grown by their number, modulo the range of the count.
pub proof fn law_count_is_exact(count: u64, presses: Seq<KeyPress>)
    ensures
        count_after_all(count, presses) as int == (count + consumed_count(presses)) % (u64::MAX
            + 1),
    decreases presses.len(),
{
    if presses.len() > 0 {
        law_count_is_exact(count, presses.drop_last());
    }
}

/// In a window that is not fullscreen every key reaches the page, Escape too.
pub proof fn law_normal_window_sees_every_key(press: KeyPress)
    requires
        press.fullscreen != Some(true),
    ensures
        !consumed(press),
{
}

/// A key other than Escape reaches the page and is not counted, in a fullscreen
/// window too; and so does every key in a window that is not known to be
/// fullscreen.
pub proof fn law_other_keys_pass(guard: &mut WindowGuard, press: KeyPress, swallow: bool)
    requires
        call_ensures(on_key_down, (guard, press), swallow),
        press.key_code != ESCAPE_KEY_CODE || press.fullscreen != Some(true),
    ensures
        !swallow,
        final(guard).swallowed == old(guard).swallowed,
{
}

/// Escape in a fullscreen window is consumed, and the count that is told
/// afterwards is one more than before; past its range it begins at zero again.
pub proof fn law_escape_keeps_fullscreen(
    guard: &mut WindowGuard,
    press: KeyPress,
    swallow: bool,
    count: u64,
)
    requires
        call_ensures(on_key_down, (guard, press), swallow),
        call_ensures(escapes_swallowed, (final(guard),), count),
        press.key_code == ESCAPE_KEY_CODE,
        press.fullscreen == Some(true),
    ensures
        swallow,
        old(guard).swallowed < u64::MAX ==> count == old(guard).swallowed + 1,
        old(guard).swallowed == u64::MAX ==> count == 0,
{
}

/// Whether a key is consumed rests on the press alone, not on what was consumed
/// before, and a new guard has consumed nothing.
pub proof fn law_guard_has_no_memory(
    first: &mut WindowGuard,
    second: &mut WindowGuard,
    press: KeyPress,
    swallow_first: bool,
    swallow_second: bool,
    fresh: WindowGuard,
)
    requires
        call_ensures(on_key_down, (first, press), swallow_first),
        call_ensures(on_key_down, (second, press), swallow_second),
        call_ensures(WindowGuard::new, (), fresh),
    ensures
        swallow_first == swallow_second,
        fresh.swallowed == 0,
{
}

} // verus!
