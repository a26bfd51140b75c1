//! Decisions of the input-relay direction: every keystroke chunk is
//! forwarded unmodified, but two fixed byte signatures in it may request a
//! hook. The relay loop reads a chunk, asks these functions, performs the
//! requested side effects fire-and-forget, and writes the chunk through.

use crate::state::VimMode;
use vstd::prelude::*;

verus! {

/// The idle-reset trigger (the Alt+I key chord, `ESC i`) starts at `i`.
pub open spec fn idle_reset_at(s: Seq<u8>, i: int) -> bool {
    0 <= i && i + 2 <= s.len() && s[i] == 0x1b && s[i + 1] == 0x69
}

/// Whether an input chunk contains the idle-reset trigger sequence.
pub open spec fn has_idle_reset(s: Seq<u8>) -> bool {
    exists|i: int| idle_reset_at(s, i)
}

/// A chunk that is exactly one escape byte: a lone ESC keypress. Escape
/// sequences sent for special keys arrive as multi-byte reads and do not
/// qualify.
pub open spec fn is_standalone_esc(s: Seq<u8>) -> bool {
    s.len() == 1 && s[0] == 0x1b
}

/// Whether an input chunk asks for the idle-reset hook. The answer depends
/// on the chunk alone, never on the classifier's state or the editor mode.
pub fn contains_idle_reset(data: &[u8]) -> (r: bool)
    ensures
        r == has_idle_reset(data@),
{
    let n = data.len();
    if n < 2 {
        return false;
    }
    let mut i: usize = 0;
    while i <= n - 2
        invariant
            n == data@.len(),
            2 <= n,
            forall|j: int| 0 <= j < i ==> !idle_reset_at(data@, j),
        decreases n - i,
    {
        if data[i] == 0x1b && data[i + 1] == 0x69 {
            assert(idle_reset_at(data@, i as int));
            return true;
        }
        i += 1;
    }
    false
}

/// Whether an input chunk is a lone ESC pressed while the editor is in
/// Normal mode, the condition for the escape hook.
pub fn standalone_esc_in_normal(data: &[u8], mode: VimMode) -> (r: bool)
    ensures
        r == (is_standalone_esc(data@) && mode is Normal),
{
    data.len() == 1 && data[0] == 0x1b && mode == VimMode::Normal
}

} // verus!
