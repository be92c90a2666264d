//! Character data. The stat block (health, attack and so on) is dead data
//! kept outside the verified core because it is floating point; only the
//! character's display name lives here.

use vstd::prelude::*;

verus! {

/// A character's display name.
#[derive(Clone, Debug)]
pub struct CharacterName(pub String);

} // verus!
