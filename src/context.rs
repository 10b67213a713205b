use vstd::prelude::*;

verus! {

/// The audio-context constructor that the host environment offers.
#[derive(Clone, Copy, Debug, PartialEq, Eq, Structural)]
pub enum ContextConstructor {
    /// The standard `AudioContext`.
    Standard,
    /// The vendor-prefixed `webkitAudioContext`.
    Webkit,
}

/// The constructor to use: the standard one where it exists, else the
/// prefixed one, else none (an unsupported platform).
pub open spec fn spec_context_constructor(has_standard: bool, has_webkit: bool) -> Option<
    ContextConstructor,
> {
    if has_standard {
        Some(ContextConstructor::Standard)
    } else if has_webkit {
        Some(ContextConstructor::Webkit)
    } else {
        None
    }
}

/// Picks the audio-context constructor from what the host environment offers.
pub fn select_context_constructor(has_standard: bool, has_webkit: bool) -> (r: Option<
    ContextConstructor,
>)
    ensures
        r == spec_context_constructor(has_standard, has_webkit),
        r is None <==> (!has_standard && !has_webkit),
        r == Some(ContextConstructor::Standard) <==> has_standard,
{
    if has_standard {
        Some(ContextConstructor::Standard)
    } else if has_webkit {
        Some(ContextConstructor::Webkit)
    } else {
        None
    }
}

} // verus!
