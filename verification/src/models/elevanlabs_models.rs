//! Model identifiers, as the service spells them.

use vstd::prelude::*;

verus! {

/// The third generation of the model, the one that renders dialogue.
pub const ELEVEN_V3: &'static str = "eleven_v3";

} // verus!
