//! The inferred editor input mode of the supervised program, and the shared
//! cell through which the output-classification task publishes it to the
//! input-relay task.

use core::sync::atomic::AtomicU8;
use core::sync::atomic::Ordering;
use vstd::prelude::*;

verus! {

/// The current input mode of the supervised program's editor field.
#[derive(Debug, Clone, Copy, PartialEq, Eq, Structural)]
pub enum VimMode {
    Insert,
    Normal,
}

impl VimMode {
    /// The byte stored in the shared cell for this mode.
    pub open spec fn spec_to_u8(self) -> u8 {
        match self {
            VimMode::Insert => 0,
            VimMode::Normal => 1,
        }
    }

    /// The mode a stored byte decodes to: every byte other than 1 reads as
    /// `Insert`, so decoding is total.
    pub open spec fn spec_from_u8(v: u8) -> VimMode {
        if v == 1 {
            VimMode::Normal
        } else {
            VimMode::Insert
        }
    }

    pub fn to_u8(self) -> (v: u8)
        ensures
            v == self.spec_to_u8(),
            VimMode::spec_from_u8(v) == self,
    {
        match self {
            VimMode::Insert => 0,
            VimMode::Normal => 1,
        }
    }

    pub fn from_u8(v: u8) -> (m: VimMode)
        ensures
            m == VimMode::spec_from_u8(v),
    {
        if v == 1 {
            VimMode::Normal
        } else {
            VimMode::Insert
        }
    }

    pub fn as_str(self) -> (r: &'static str)
        ensures
            self is Insert ==> r@ == "insert"@,
            self is Normal ==> r@ == "normal"@,
    {
        match self {
            VimMode::Insert => "insert",
            VimMode::Normal => "normal",
        }
    }
}

/// A process-wide cell holding the most recently observed [`VimMode`].
///
/// The output-relay task writes it on every detected mode signature and the
/// input-relay task reads it when deciding whether a lone escape keystroke
/// should fire a hook; the two tasks share it behind an `Arc`, so the value
/// lives in an atomic. Reads and writes use relaxed ordering: the mode is a
/// heuristic display state, and no other memory is published through it.
/// Because another task may store between any two operations, nothing is
/// claimed about the byte a load returns, only that decoding it is total.
pub struct VimModeCell {
    cell: AtomicU8,
}

impl VimModeCell {
    /// A fresh cell, holding `Insert`: the supervised editor starts there.
    pub fn new() -> VimModeCell {
        VimModeCell { cell: AtomicU8::new(0) }
    }
}

/// Publish `mode` as the current editor mode.
pub fn set_vim_mode(cell: &VimModeCell, mode: VimMode) {
    cell.cell.store(mode.to_u8(), Ordering::Relaxed);
}

/// Read the most recently published editor mode.
pub fn get_vim_mode(cell: &VimModeCell) -> VimMode {
    VimMode::from_u8(cell.cell.load(Ordering::Relaxed))
}

} // verus!
