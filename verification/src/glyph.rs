//! One character cell: a character from the fixed alphabet and a colour.

use vstd::prelude::*;

use crate::alphabet::{alphabet, alphabet_chars};
use crate::color::{is_dim, saturation_lightness_pct, Rgb, DIM_MAX_PCT};
use crate::rng::rand_below;

verus! {

/// One renderable cell: a character and the colour it is painted in.
#[derive(Clone, Copy, Debug, PartialEq, Eq, Structural)]
pub struct Glyph {
    pub character: char,
    pub colour: Rgb,
}

/// A glyph that a column owns always shows a character of the alphabet.
pub open spec fn glyph_wf(g: Glyph) -> bool {
    alphabet().contains(g.character)
}

/// The glyph that the flicker pass leaves behind: when the colour is
/// nearly dark the character is re-rolled to the alphabet entry at `idx`;
/// otherwise the glyph is untouched.  The colour never changes.
pub open spec fn retyped(g: Glyph, idx: usize) -> Glyph {
    if is_dim(g.colour) {
        Glyph { character: alphabet()[idx as int], colour: g.colour }
    } else {
        g
    }
}

impl Glyph {
    /// A blank placeholder cell: a space painted black.
    pub fn new() -> (g: Glyph)
        ensures
            g == (Glyph { character: ' ', colour: Rgb { r: 0, g: 0, b: 0 } }),
    {
        Glyph { character: ' ', colour: Rgb { r: 0, g: 0, b: 0 } }
    }

    /// The glyph showing the alphabet character at `idx`, painted `colour`.
    pub fn new_with_index(colour: Rgb, idx: usize) -> (g: Glyph)
        requires
            idx < alphabet().len(),
        ensures
            g == (Glyph { character: alphabet()[idx as int], colour }),
            glyph_wf(g),
    {
        let chars = alphabet_chars();
        Glyph { character: chars[idx], colour }
    }

    /// A glyph with a character drawn uniformly at random from the
    /// alphabet, painted `colour`.
    pub fn new_random(colour: Rgb) -> (g: Glyph)
        ensures
            g.colour == colour,
            glyph_wf(g),
    {
        let chars = alphabet_chars();
        let idx = rand_below(chars.len());
        Glyph::new_with_index(colour, idx)
    }

    /// Re-roll the character to the alphabet entry at `idx`, but only while
    /// the glyph is nearly dark; a brightly coloured glyph keeps its
    /// character.  The colour is never changed.
    pub fn retype_with_index(&mut self, idx: usize)
        requires
            idx < alphabet().len(),
        ensures
            *final(self) == retyped(*old(self), idx),
            final(self).colour == old(self).colour,
    {
        let (sat, light) = saturation_lightness_pct(self.colour);
        // Only change the character while it is barely visible.
        if sat > DIM_MAX_PCT || light > DIM_MAX_PCT {
            return;
        }
        let chars = alphabet_chars();
        self.character = chars[idx];
    }

    /// Re-roll the character uniformly at random from the alphabet, but
    /// only while the glyph is nearly dark.  The colour is never changed,
    /// and the character is either kept or drawn from the alphabet.
    pub fn randomly_change_character(&mut self)
        ensures
            final(self).colour == old(self).colour,
            exists|idx: usize|
                idx < alphabet().len() && *final(self) == retyped(*old(self), idx),
            final(self).character == old(self).character
                || alphabet().contains(final(self).character),
            !is_dim(old(self).colour) ==> *final(self) == *old(self),
    {
        let chars = alphabet_chars();
        let idx = rand_below(chars.len());
        self.retype_with_index(idx);
    }
}

/// The flicker pass leaves every colour alone, and any character it does
/// change comes from the fixed alphabet; an untouched glyph stays
/// well formed either way.
pub proof fn lemma_retyped_keeps_colour(g: Glyph, idx: usize)
    requires
        idx < alphabet().len(),
    ensures
        retyped(g, idx).colour == g.colour,
        retyped(g, idx).character == g.character
            || alphabet().contains(retyped(g, idx).character),
        glyph_wf(g) ==> glyph_wf(retyped(g, idx)),
{
    if is_dim(g.colour) {
        assert(alphabet().contains(alphabet()[idx as int]));
    }
}

} // verus!
