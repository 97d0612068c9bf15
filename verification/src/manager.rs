//! The manager of the voice clients of an application.

use vstd::prelude::*;

verus! {

/// The manager of the voice clients of an application. It holds nothing.
#[derive(Clone, Copy, Debug, PartialEq, Eq, Structural)]
pub struct VoiceManager {}

impl VoiceManager {
    /// A manager.
    pub fn new() -> (manager: Self)
        ensures
            manager == (VoiceManager {  }),
    {
        VoiceManager {  }
    }
}

} // verus!
