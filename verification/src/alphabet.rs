//! The fixed alphabet of glyph characters.
//!
//! Every glyph that a column ever shows (other than the blank placeholder)
//! draws its character from this sequence: half-width katakana, a handful of
//! digits and letters, and a few punctuation and box-drawing symbols.

use vstd::prelude::*;

verus! {

/// The fixed alphabet, in the order characters are indexed by random draws.
pub open spec fn alphabet() -> Seq<char> {
    seq![
        'ﾊ', 'ﾐ', 'ﾋ', 'ｰ', 'ｳ', 'ｼ', 'ﾅ', 'ﾓ', 'ﾆ', 'ｻ',
        'ﾜ', 'ﾂ', 'ｵ', 'ﾘ', 'ｱ', 'ﾎ', 'ﾃ', 'ﾏ', 'ｹ', 'ﾒ',
        'ｴ', 'ｶ', 'ｷ', 'ﾑ', 'ﾕ', 'ﾗ', 'ｾ', 'ﾈ', 'ｽ', 'ﾀ',
        'ﾇ', 'ﾍ', 'ｦ', 'ｲ', 'ｸ', 'ｺ', 'ｿ', 'ﾁ', 'ﾄ', 'ﾉ',
        'ﾌ', 'ﾔ', 'ﾖ', 'ﾙ', 'ﾚ', 'ﾛ', 'ﾝ', '0', '1', '2',
        '3', '4', '5', '7', '8', '9', 'Z', ':', '.', '"',
        '=', '*', '+', '-', '<', '>', '¦', '╌', 'ç',
    ]
}

/// The characters of [`alphabet`], as an executable vector in the same order.
#[verifier::rlimit(60)]
pub fn alphabet_chars() -> (v: Vec<char>)
    ensures
        v@ == alphabet(),
{
    let mut v: Vec<char> = Vec::new();
    v.push('ﾊ');
    v.push('ﾐ');
    v.push('ﾋ');
    v.push('ｰ');
    v.push('ｳ');
    v.push('ｼ');
    v.push('ﾅ');
    v.push('ﾓ');
    v.push('ﾆ');
    v.push('ｻ');
    v.push('ﾜ');
    v.push('ﾂ');
    v.push('ｵ');
    v.push('ﾘ');
    v.push('ｱ');
    v.push('ﾎ');
    v.push('ﾃ');
    v.push('ﾏ');
    v.push('ｹ');
    v.push('ﾒ');
    v.push('ｴ');
    v.push('ｶ');
    v.push('ｷ');
    v.push('ﾑ');
    v.push('ﾕ');
    v.push('ﾗ');
    v.push('ｾ');
    v.push('ﾈ');
    v.push('ｽ');
    v.push('ﾀ');
    v.push('ﾇ');
    v.push('ﾍ');
    v.push('ｦ');
    v.push('ｲ');
    v.push('ｸ');
    v.push('ｺ');
    v.push('ｿ');
    v.push('ﾁ');
    v.push('ﾄ');
    v.push('ﾉ');
    v.push('ﾌ');
    v.push('ﾔ');
    v.push('ﾖ');
    v.push('ﾙ');
    v.push('ﾚ');
    v.push('ﾛ');
    v.push('ﾝ');
    v.push('0');
    v.push('1');
    v.push('2');
    v.push('3');
    v.push('4');
    v.push('5');
    v.push('7');
    v.push('8');
    v.push('9');
    v.push('Z');
    v.push(':');
    v.push('.');
    v.push('"');
    v.push('=');
    v.push('*');
    v.push('+');
    v.push('-');
    v.push('<');
    v.push('>');
    v.push('¦');
    v.push('╌');
    v.push('ç');
    proof {
        assert(v@ =~= alphabet());
    }
    v
}

/// Whether `ch` is one of the alphabet's characters.
pub fn alphabet_contains(ch: char) -> (b: bool)
    ensures
        b == alphabet().contains(ch),
{
    let chars = alphabet_chars();
    let mut i: usize = 0;
    while i < chars.len()
        invariant
            i <= chars.len(),
            chars@ == alphabet(),
            forall|j: int| 0 <= j < i ==> alphabet()[j] != ch,
        decreases chars.len() - i,
    {
        if chars[i] == ch {
            return true;
        }
        i += 1;
    }
    false
}

} // verus!
