//! The narrow contract the scheduler consumes the emulated hardware through.
//!
//! The engine itself — instruction decoding, graphics, sound — is an external
//! collaborator. The scheduler only ever advances it, asks whether a frame is
//! ready, snapshots the frame buffer, applies key state, and resynchronizes
//! audio, so the trait records exactly that surface, together with an abstract
//! history of the operations applied to it, in order. Contracts elsewhere in
//! the crate are stated over that history.

use vstd::prelude::*;

use crate::events::KeypadKey;
use crate::FRAME_SIZE;

verus! {

/// One observable operation applied to an engine.
#[derive(Clone, Copy, PartialEq, Eq, Structural, Debug)]
pub enum EngineOp {
    /// The engine ran one step and reported this many cycles.
    Advance(u32),
    /// A key changed state; the flag is true for key-down.
    Key(KeypadKey, bool),
    /// The engine discarded accumulated audio lag.
    Resync,
}

/// Cycles contributed by one history entry.
pub open spec fn cycles_of(op: EngineOp) -> int {
    match op {
        EngineOp::Advance(c) => c as int,
        _ => 0,
    }
}

/// Total cycles over a history segment.
pub open spec fn advance_total(ops: Seq<EngineOp>) -> int
    decreases ops.len(),
{
    if ops.len() == 0 {
        0
    } else {
        advance_total(ops.drop_last()) + cycles_of(ops.last())
    }
}

/// True when a history segment consists of advance steps only.
pub open spec fn all_advances(ops: Seq<EngineOp>) -> bool {
    forall|i: int| 0 <= i < ops.len() ==> (#[trigger] ops[i]) is Advance
}

/// The pacing-relevant surface of the emulated hardware.
///
/// `history()` is the ordered record of operations applied so far and
/// `step_bound()` the most cycles one step may report; both are abstract,
/// and every implementation says how its state realizes them.
pub trait Engine: Sized {
    /// Well-formedness an implementation establishes at construction and
    /// every operation preserves.
    spec fn wf(&self) -> bool;

    /// The operations applied to the engine so far, in order.
    spec fn history(&self) -> Seq<EngineOp>;

    /// An upper bound on the cycles one `advance_cycles` step reports.
    spec fn step_bound(&self) -> u32;

    /// Runs the engine for one step and reports the cycles it consumed.
    fn advance_cycles(&mut self) -> (c: u32)
        requires
            old(self).wf(),
        ensures
            final(self).wf(),
            1 <= c <= old(self).step_bound(),
            final(self).step_bound() == old(self).step_bound(),
            final(self).history() == old(self).history().push(EngineOp::Advance(c)),
    ;

    /// Reports whether a newly rendered frame is ready, clearing the flag.
    fn frame_ready(&mut self) -> (b: bool)
        requires
            old(self).wf(),
        ensures
            final(self).wf(),
            final(self).step_bound() == old(self).step_bound(),
            final(self).history() == old(self).history(),
    ;

    /// Copies the current frame buffer, always at the fixed hardware size.
    fn snapshot_frame(&self) -> (frame: Vec<u8>)
        requires
            self.wf(),
        ensures
            frame@.len() == FRAME_SIZE,
    ;

    /// Applies one key transition; the flag is true for key-down.
    fn apply_key(&mut self, key: KeypadKey, pressed: bool)
        requires
            old(self).wf(),
        ensures
            final(self).wf(),
            final(self).step_bound() == old(self).step_bound(),
            final(self).history() == old(self).history().push(EngineOp::Key(key, pressed)),
    ;

    /// Discards accumulated audio lag after fast-forward is switched off.
    fn resync_audio(&mut self)
        requires
            old(self).wf(),
        ensures
            final(self).wf(),
            final(self).step_bound() == old(self).step_bound(),
            final(self).history() == old(self).history().push(EngineOp::Resync),
    ;
}

} // verus!
