//! Error taxonomy of the synthesis core.

use vstd::prelude::*;

verus! {

/// A parameter rejected at the mutating call: a quality of zero, a
/// frequency at or above the Nyquist limit, a zero sample rate, or a
/// table length outside the supported range. The call leaves the prior
/// valid state untouched.
///
/// Running out of free voices is deliberately not an error: the voice
/// pool drops the event silently, since the real-time path must never
/// propagate recoverable errors upward mid-buffer.
#[derive(Clone, Copy, Debug, PartialEq, Eq, Structural)]
pub enum SynthError {
    InvalidParameter,
}

} // verus!
