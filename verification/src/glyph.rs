//! Glyph numbers of code page 437, the character set of the render surface.

use vstd::prelude::*;

verus! {

/// The glyph number that `rltk::to_cp437` gives for a character.
pub uninterp spec fn cp437(c: char) -> u16;

/// `rltk::to_cp437`: looks the character up in a fixed table of code page
/// 437. The result depends on the character alone.
#[verifier::external_body]
pub(crate) fn to_cp437(c: char) -> (glyph: u16)
    ensures
        glyph == cp437(c),
{
    rltk::to_cp437(c)
}

} // verus!
