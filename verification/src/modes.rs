//! The flags that steer a translation.
//!
//! A mode is a bit mask: flags are combined with `|`, and `0` asks for the
//! ordinary, contracting translation.

use vstd::prelude::*;

verus! {

/// A combination of translation flags.
pub type TranslationModes = i32;

/// The engine's flag for reading and writing dot patterns.
pub const DOTS_IO: TranslationModes = 4;

/// The engine's flag for writing dot patterns as Unicode Braille.
pub const UC_BRL: TranslationModes = 64;

/// Write the Braille as Unicode dot patterns.
pub const DOTS_UNICODE: TranslationModes = DOTS_IO | UC_BRL;

/// Write the Braille as dot patterns in the engine's own encoding.
pub const DOTS_LOUIS: TranslationModes = DOTS_IO;

/// Translate without contractions.
pub const NO_CONTRACTIONS: TranslationModes = 1;

/// Take the input of a back-translation for an unfinished word: rules that
/// hold only for whole words or at the end of a word are left out. Meant for
/// a rough preview of what is being typed on a Braille keyboard.
pub const PARTIAL_TRANS: TranslationModes = 256;

/// True if every bit of `flag` is set in `mode`.
pub open spec fn has_flag(mode: TranslationModes, flag: TranslationModes) -> bool {
    mode & flag == flag
}

/// The four modes are told apart by their bits: Unicode dots include the
/// engine's own dots, and nothing else includes anything else.
pub proof fn lemma_modes_are_distinct()
    ensures
        DOTS_UNICODE == 68,
        has_flag(DOTS_UNICODE, DOTS_LOUIS),
        !has_flag(DOTS_LOUIS, DOTS_UNICODE),
        NO_CONTRACTIONS & DOTS_UNICODE == 0,
        PARTIAL_TRANS & DOTS_UNICODE == 0,
        NO_CONTRACTIONS & PARTIAL_TRANS == 0,
{
    assert(4i32 | 64i32 == 68i32) by (bit_vector);
    assert(68i32 & 4i32 == 4i32) by (bit_vector);
    assert(4i32 & 68i32 == 4i32) by (bit_vector);
    assert(1i32 & 68i32 == 0i32) by (bit_vector);
    assert(256i32 & 68i32 == 0i32) by (bit_vector);
    assert(1i32 & 256i32 == 0i32) by (bit_vector);
}

} // verus!
