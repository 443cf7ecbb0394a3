//! Text in the engine's wide-character form.
//!
//! The engine reads and writes buffers of fixed-width code units, 16 or 32
//! bits wide depending on how it was built. This module says what the code
//! units of a text are, and converts both ways through `widestring`.

use vstd::prelude::*;

verus! {

/// How wide one code unit of the engine is.
#[derive(Clone, Copy, Debug, PartialEq, Eq, Structural)]
pub enum CodeUnitWidth {
    /// 16 bits: the engine reads and writes UTF-16.
    Bits16,
    /// 32 bits: the engine reads and writes UTF-32.
    Bits32,
}

/// A text that has no wide-character form, or code units that are no text.
#[derive(Clone, Copy, Debug, PartialEq, Eq, Structural)]
pub struct EncodingError;

impl CodeUnitWidth {
    /// The number of bytes of one code unit.
    pub open spec fn spec_bytes(self) -> int {
        match self {
            CodeUnitWidth::Bits16 => 2,
            CodeUnitWidth::Bits32 => 4,
        }
    }

    /// The number of bytes of one code unit.
    pub fn bytes(self) -> (n: usize)
        ensures
            n == self.spec_bytes(),
    {
        match self {
            CodeUnitWidth::Bits16 => 2,
            CodeUnitWidth::Bits32 => 4,
        }
    }

    /// The width whose code units take `n` bytes, if the engine can have it.
    pub fn from_bytes(n: usize) -> (width: Option<CodeUnitWidth>)
        ensures
            match width {
                Some(w) => w.spec_bytes() == n,
                None => n != 2 && n != 4,
            },
    {
        if n == 2 {
            Some(CodeUnitWidth::Bits16)
        } else if n == 4 {
            Some(CodeUnitWidth::Bits32)
        } else {
            None
        }
    }
}

/// The UTF-16 code units of one character: itself below U+10000, else a
/// high and a low surrogate.
pub open spec fn utf16_of_char(c: char) -> Seq<u16> {
    let v = c as int;
    if v < 0x10000 {
        seq![v as u16]
    } else {
        seq![(0xD800 + (v - 0x10000) / 0x400) as u16, (0xDC00 + (v - 0x10000) % 0x400) as u16]
    }
}

/// The UTF-16 code units of a text.
pub open spec fn utf16_units(text: Seq<char>) -> Seq<u16>
    decreases text.len(),
{
    if text.len() == 0 {
        Seq::empty()
    } else {
        utf16_units(text.drop_last()) + utf16_of_char(text.last())
    }
}

/// The UTF-32 code units of a text: one per character.
pub open spec fn utf32_units(text: Seq<char>) -> Seq<u32> {
    Seq::new(text.len(), |i: int| text[i] as u32)
}

/// 16-bit code units, each held in 32 bits.
pub open spec fn widen(units: Seq<u16>) -> Seq<u32> {
    Seq::new(units.len(), |i: int| units[i] as u32)
}

/// The code units that the engine is handed for a text, each held in 32 bits.
pub open spec fn wide_units(text: Seq<char>, width: CodeUnitWidth) -> Seq<u32> {
    match width {
        CodeUnitWidth::Bits16 => widen(utf16_units(text)),
        CodeUnitWidth::Bits32 => utf32_units(text),
    }
}

/// True of code units that are the wide form of a text without a nul.
pub open spec fn is_wide_text(units: Seq<u32>, width: CodeUnitWidth) -> bool {
    &&& !units.contains(0u32)
    &&& exists|text: Seq<char>| #[trigger] wide_units(text, width) == units
}

/// The text whose wide form the code units are.
pub open spec fn wide_text(units: Seq<u32>, width: CodeUnitWidth) -> Seq<char> {
    choose|text: Seq<char>| #[trigger] wide_units(text, width) == units
}

/// A nul-terminated string of 16-bit code units, kept by `widestring`.
#[verifier::external_body]
pub struct Wide16 {
    inner: widestring::UCString<u16>,
}

/// A nul-terminated string of 32-bit code units, kept by `widestring`.
#[verifier::external_body]
pub struct Wide32 {
    inner: widestring::UCString<u32>,
}

/// The error of `widestring` for data that is not valid UTF-32.
#[verifier::external_type_specification]
#[verifier::external_body]
pub struct ExFromUtf32Error(widestring::FromUtf32Error);

/// The error of std for data that is not valid UTF-16.
#[verifier::external_type_specification]
#[verifier::external_body]
pub struct ExFromUtf16Error(std::string::FromUtf16Error);

/// The code units that a 16-bit wide string holds, without its terminator.
pub uninterp spec fn wide16_units(wide: Wide16) -> Seq<u16>;

/// The code units that a 32-bit wide string holds, without its terminator.
pub uninterp spec fn wide32_units(wide: Wide32) -> Seq<u32>;

/// `UCString::<u16>::from_str`: encodes a text as UTF-16 and refuses it when
/// a code unit is nul.
#[verifier::external_body]
fn wide16_from_str(text: &str) -> (wide: Option<Wide16>)
    ensures
        wide is Some <==> !utf16_units(text@).contains(0u16),
        wide matches Some(w) ==> wide16_units(w) == utf16_units(text@),
{
    match widestring::UCString::<u16>::from_str(text) {
        Ok(inner) => Some(Wide16 { inner }),
        Err(_) => None,
    }
}

/// `UCString::<u32>::from_str`: encodes a text as UTF-32 and refuses it when
/// a code unit is nul.
#[verifier::external_body]
fn wide32_from_str(text: &str) -> (wide: Option<Wide32>)
    ensures
        wide is Some <==> !utf32_units(text@).contains(0u32),
        wide matches Some(w) ==> wide32_units(w) == utf32_units(text@),
{
    match widestring::UCString::<u32>::from_str(text) {
        Ok(inner) => Some(Wide32 { inner }),
        Err(_) => None,
    }
}

/// `UCString::new` on 16-bit data: takes the code units over and refuses them
/// when one is nul.
#[verifier::external_body]
fn wide16_new(units: Vec<u16>) -> (wide: Option<Wide16>)
    ensures
        wide is Some <==> !units@.contains(0u16),
        wide matches Some(w) ==> wide16_units(w) == units@,
{
    match widestring::UCString::<u16>::new(units) {
        Ok(inner) => Some(Wide16 { inner }),
        Err(_) => None,
    }
}

/// `UCString::new` on 32-bit data: takes the code units over and refuses them
/// when one is nul.
#[verifier::external_body]
fn wide32_new(units: Vec<u32>) -> (wide: Option<Wide32>)
    ensures
        wide is Some <==> !units@.contains(0u32),
        wide matches Some(w) ==> wide32_units(w) == units@,
{
    match widestring::UCString::<u32>::new(units) {
        Ok(inner) => Some(Wide32 { inner }),
        Err(_) => None,
    }
}

/// `UCString::into_vec` on 16-bit data: the code units without the terminator.
#[verifier::external_body]
fn wide16_into_vec(wide: Wide16) -> (units: Vec<u16>)
    ensures
        units@ == wide16_units(wide),
{
    wide.inner.into_vec()
}

/// `UCString::into_vec` on 32-bit data: the code units without the terminator.
#[verifier::external_body]
fn wide32_into_vec(wide: Wide32) -> (units: Vec<u32>)
    ensures
        units@ == wide32_units(wide),
{
    wide.inner.into_vec()
}

/// `UCStr::<u16>::to_string`: the text whose UTF-16 encoding the code units
/// are, and an error when they are the encoding of no text.
#[verifier::external_body]
fn wide16_to_string(wide: &Wide16) -> (text: Result<String, std::string::FromUtf16Error>)
    ensures
        text matches Ok(t) ==> utf16_units(t@) == wide16_units(*wide),
        text is Err ==> forall|t: Seq<char>| #[trigger] utf16_units(t) != wide16_units(*wide),
{
    wide.inner.to_string()
}

/// `UCStr::<u32>::to_string`: the text whose UTF-32 encoding the code units
/// are, and an error when they are the encoding of no text.
#[verifier::external_body]
fn wide32_to_string(wide: &Wide32) -> (text: Result<String, widestring::FromUtf32Error>)
    ensures
        text matches Ok(t) ==> utf32_units(t@) == wide32_units(*wide),
        text is Err ==> forall|t: Seq<char>| #[trigger] utf32_units(t) != wide32_units(*wide),
{
    wide.inner.to_string()
}

/// Holds 16-bit code units in 32 bits each.
fn widen_units(narrow: &Vec<u16>) -> (units: Vec<u32>)
    ensures
        units@ == widen(narrow@),
{
    let mut units: Vec<u32> = Vec::new();
    let mut i: usize = 0;
    while i < narrow.len()
        invariant
            i <= narrow.len(),
            units@ == widen(narrow@.take(i as int)),
        decreases narrow.len() - i,
    {
        units.push(narrow[i] as u32);
        i += 1;
        assert(units@ =~= widen(narrow@.take(i as int)));
    }
    assert(narrow@.take(i as int) =~= narrow@);
    units
}

/// Brings code units back to 16 bits, if each of them fits.
fn narrow_units(units: &Vec<u32>) -> (narrow: Option<Vec<u16>>)
    ensures
        match narrow {
            Some(n) => widen(n@) == units@,
            None => exists|i: int| 0 <= i < units.len() && units[i] > 0xFFFF,
        },
{
    let mut narrow: Vec<u16> = Vec::new();
    let mut i: usize = 0;
    while i < units.len()
        invariant
            i <= units.len(),
            narrow.len() == i,
            widen(narrow@) == units@.take(i as int),
        decreases units.len() - i,
    {
        let unit: u32 = units[i];
        if unit > 0xFFFF {
            return None;
        }
        let ghost before = narrow@;
        narrow.push(unit as u16);
        i += 1;
        proof {
            assert forall|j: int| 0 <= j < i implies widen(narrow@)[j] == units@[j] by {
                if j < i - 1 {
                    assert(widen(before)[j] == units@.take(i - 1)[j]);
                }
            }
            assert(widen(narrow@) =~= units@.take(i as int));
        }
    }
    assert(units@.take(i as int) =~= units@);
    Some(narrow)
}

/// Encodes a text into the code units that the engine reads.
///
/// A text with a nul character has no wide form: the engine would take the
/// nul for the end of the text.
pub fn encode(text: &str, width: CodeUnitWidth) -> (units: Result<Vec<u32>, EncodingError>)
    ensures
        units is Ok <==> !text@.contains('\0'),
        units matches Ok(u) ==> u@ == wide_units(text@, width),
{
    match width {
        CodeUnitWidth::Bits16 => {
            proof {
                lemma_utf16_nul(text@);
            }
            match wide16_from_str(text) {
                Some(wide) => {
                    let narrow = wide16_into_vec(wide);
                    Ok(widen_units(&narrow))
                },
                None => Err(EncodingError),
            }
        },
        CodeUnitWidth::Bits32 => {
            proof {
                lemma_utf32_nul(text@);
            }
            match wide32_from_str(text) {
                Some(wide) => Ok(wide32_into_vec(wide)),
                None => Err(EncodingError),
            }
        },
    }
}

/// Decodes code units that the engine wrote into the text they stand for.
///
/// Code units with a nul among them, or that are not the wide form of any
/// text, are refused.
pub fn decode(units: &Vec<u32>, width: CodeUnitWidth) -> (text: Result<String, EncodingError>)
    ensures
        text is Ok <==> is_wide_text(units@, width),
        text matches Ok(t) ==> t@ == wide_text(units@, width) && wide_units(t@, width) == units@,
{
    match width {
        CodeUnitWidth::Bits16 => {
            let narrow = match narrow_units(units) {
                Some(narrow) => narrow,
                None => {
                    proof {
                        let i = choose|i: int| 0 <= i < units.len() && units[i] > 0xFFFF;
                        assert forall|t: Seq<char>| #[trigger]
                            wide_units(t, width) != units@ by {
                            if wide_units(t, width) == units@ {
                                assert(widen(utf16_units(t))[i] == units[i]);
                            }
                        }
                    }
                    return Err(EncodingError);
                },
            };
            let ghost narrow_seq = narrow@;
            proof {
                lemma_widen_nul(narrow_seq);
            }
            let wide = match wide16_new(narrow) {
                Some(wide) => wide,
                None => {
                    return Err(EncodingError);
                },
            };
            match wide16_to_string(&wide) {
                Ok(t) => {
                    proof {
                        assert(wide_units(t@, width) == units@);
                        lemma_wide_units_injective(wide_text(units@, width), t@, width);
                    }
                    Ok(t)
                },
                Err(_) => {
                    proof {
                        assert forall|t: Seq<char>| #[trigger]
                            wide_units(t, width) != units@ by {
                            if wide_units(t, width) == units@ {
                                lemma_widen_injective(utf16_units(t), narrow_seq);
                            }
                        }
                    }
                    Err(EncodingError)
                },
            }
        },
        CodeUnitWidth::Bits32 => {
            let wide = match wide32_new(units.clone()) {
                Some(wide) => wide,
                None => {
                    return Err(EncodingError);
                },
            };
            match wide32_to_string(&wide) {
                Ok(t) => {
                    proof {
                        assert(wide_units(t@, width) == units@);
                        lemma_wide_units_injective(wide_text(units@, width), t@, width);
                    }
                    Ok(t)
                },
                Err(_) => Err(EncodingError),
            }
        },
    }
}

/// A character takes one or two UTF-16 code units, and the last of them is a
/// low surrogate exactly when it takes two.
pub proof fn lemma_utf16_of_char(c: char)
    ensures
        (c as int) < 0x10000 ==> utf16_of_char(c).len() == 1 && utf16_of_char(c)[0] == c as int
            && !(0xD800 <= utf16_of_char(c)[0] <= 0xDFFF),
        (c as int) >= 0x10000 ==> utf16_of_char(c).len() == 2
            && 0xD800 <= utf16_of_char(c)[0] <= 0xDBFF
            && 0xDC00 <= utf16_of_char(c)[1] <= 0xDFFF
            && c as int == 0x10000 + (utf16_of_char(c)[0] - 0xD800) * 0x400 + (utf16_of_char(c)[1]
            - 0xDC00),
{
    let v = c as int;
    if v >= 0x10000 {
        let hi = 0xD800 + (v - 0x10000) / 0x400;
        let lo = 0xDC00 + (v - 0x10000) % 0x400;
        assert(0xD800 <= hi <= 0xDBFF);
        assert(0xDC00 <= lo <= 0xDFFF);
        assert(utf16_of_char(c)[0] == hi as u16);
        assert(utf16_of_char(c)[1] == lo as u16);
    } else {
        assert(utf16_of_char(c)[0] == v as u16);
    }
}

/// A text takes at least one and at most two UTF-16 code units per character.
pub proof fn lemma_utf16_len(text: Seq<char>)
    ensures
        text.len() <= utf16_units(text).len() <= 2 * text.len(),
    decreases text.len(),
{
    if text.len() > 0 {
        lemma_utf16_len(text.drop_last());
        lemma_utf16_of_char(text.last());
    }
}

/// The UTF-16 form of a text holds a nul exactly when the text does.
pub proof fn lemma_utf16_nul(text: Seq<char>)
    ensures
        utf16_units(text).contains(0u16) <==> text.contains('\0'),
    decreases text.len(),
{
    if text.len() > 0 {
        let head = text.drop_last();
        let last = text.last();
        let front = utf16_units(head);
        let back = utf16_of_char(last);
        lemma_utf16_nul(head);
        lemma_utf16_of_char(last);
        if utf16_units(text).contains(0u16) {
            let i = choose|i: int| 0 <= i < (front + back).len() && (front + back)[i] == 0u16;
            if i < front.len() {
                assert(front[i] == 0u16);
                let j = choose|j: int| 0 <= j < head.len() && head[j] == '\0';
                assert(text[j] == '\0');
            } else {
                assert(back[i - front.len()] == 0u16);
                assert(last == '\0');
                assert(text[text.len() - 1] == '\0');
            }
        }
        if text.contains('\0') {
            let j = choose|j: int| 0 <= j < text.len() && text[j] == '\0';
            if j < head.len() {
                assert(head[j] == '\0');
                let i = choose|i: int| 0 <= i < front.len() && front[i] == 0u16;
                assert((front + back)[i] == 0u16);
            } else {
                assert(back[0] == 0u16);
                assert((front + back)[front.len() as int] == 0u16);
            }
        }
    }
}

/// Two characters with the same UTF-32 code unit are the same character.
pub proof fn lemma_utf32_of_char(a: char, b: char)
    requires
        a as u32 == b as u32,
    ensures
        a == b,
{
}

/// The UTF-32 form of a text holds a nul exactly when the text does.
pub proof fn lemma_utf32_nul(text: Seq<char>)
    ensures
        utf32_units(text).contains(0u32) <==> text.contains('\0'),
{
    let units = utf32_units(text);
    if units.contains(0u32) {
        let i = choose|i: int| 0 <= i < units.len() && units[i] == 0u32;
        lemma_utf32_of_char(text[i], '\0');
        assert(text[i] == '\0');
    }
    if text.contains('\0') {
        let j = choose|j: int| 0 <= j < text.len() && text[j] == '\0';
        assert(units[j] == 0u32);
    }
}

/// Two texts with the same UTF-16 form are the same text.
pub proof fn lemma_utf16_injective(a: Seq<char>, b: Seq<char>)
    requires
        utf16_units(a) == utf16_units(b),
    ensures
        a == b,
    decreases a.len(),
{
    lemma_utf16_len(a);
    lemma_utf16_len(b);
    if a.len() == 0 {
        assert(a =~= b);
    } else {
        let (fa, fb) = (utf16_units(a.drop_last()), utf16_units(b.drop_last()));
        let (ca, cb) = (utf16_of_char(a.last()), utf16_of_char(b.last()));
        let units = utf16_units(a);
        lemma_utf16_of_char(a.last());
        lemma_utf16_of_char(b.last());
        assert(units == fa + ca);
        assert(units == fb + cb);
        assert(units.last() == ca.last());
        assert(units.last() == cb.last());
        assert(ca.len() == cb.len());
        if ca.len() == 2 {
            assert(units[units.len() - 2] == ca[0]);
            assert(units[units.len() - 2] == cb[0]);
        }
        assert(a.last() == b.last());
        assert(fa =~= units.subrange(0, units.len() - ca.len()));
        assert(fb =~= units.subrange(0, units.len() - cb.len()));
        lemma_utf16_injective(a.drop_last(), b.drop_last());
        assert(a =~= a.drop_last().push(a.last()));
        assert(b =~= b.drop_last().push(b.last()));
    }
}

/// Two code units that are the same when held in 32 bits are the same.
pub proof fn lemma_widen_one(a: u16, b: u16)
    requires
        a as u32 == b as u32,
    ensures
        a == b,
{
}

/// Code units that are the same when held in 32 bits are the same.
pub proof fn lemma_widen_injective(a: Seq<u16>, b: Seq<u16>)
    requires
        widen(a) == widen(b),
    ensures
        a == b,
{
    assert(widen(a).len() == a.len() && widen(b).len() == b.len());
    assert forall|i: int| 0 <= i < a.len() implies a[i] == b[i] by {
        assert(widen(a)[i] == a[i] as u32 && widen(b)[i] == b[i] as u32);
        lemma_widen_one(a[i], b[i]);
    }
    assert(a =~= b);
}

/// Code units held in 32 bits have a nul among them exactly when they have
/// one as they are.
pub proof fn lemma_widen_nul(units: Seq<u16>)
    ensures
        widen(units).contains(0u32) <==> units.contains(0u16),
{
    if widen(units).contains(0u32) {
        let i = choose|i: int| 0 <= i < widen(units).len() && widen(units)[i] == 0u32;
        lemma_widen_one(units[i], 0u16);
    }
    if units.contains(0u16) {
        let i = choose|i: int| 0 <= i < units.len() && units[i] == 0u16;
        assert(widen(units)[i] == 0u32);
    }
}

/// Two texts with the same wide form are the same text.
pub proof fn lemma_wide_units_injective(a: Seq<char>, b: Seq<char>, width: CodeUnitWidth)
    requires
        wide_units(a, width) == wide_units(b, width),
    ensures
        a == b,
{
    match width {
        CodeUnitWidth::Bits16 => {
            lemma_widen_injective(utf16_units(a), utf16_units(b));
            lemma_utf16_injective(a, b);
        },
        CodeUnitWidth::Bits32 => {
            assert(utf32_units(a).len() == utf32_units(b).len());
            assert forall|i: int| 0 <= i < a.len() implies a[i] == b[i] by {
                assert(utf32_units(a)[i] == utf32_units(b)[i]);
                lemma_utf32_of_char(a[i], b[i]);
            }
            assert(a =~= b);
        },
    }
}

/// The wide form of a text holds a nul exactly when the text does.
pub proof fn lemma_wide_units_nul(text: Seq<char>, width: CodeUnitWidth)
    ensures
        wide_units(text, width).contains(0u32) <==> text.contains('\0'),
{
    match width {
        CodeUnitWidth::Bits16 => {
            lemma_utf16_nul(text);
            lemma_widen_nul(utf16_units(text));
        },
        CodeUnitWidth::Bits32 => {
            lemma_utf32_nul(text);
        },
    }
}

/// Decoding the wide form of a text without a nul gives the text back.
pub proof fn lemma_round_trip(text: Seq<char>, width: CodeUnitWidth)
    requires
        !text.contains('\0'),
    ensures
        is_wide_text(wide_units(text, width), width),
        wide_text(wide_units(text, width), width) == text,
{
    lemma_wide_units_nul(text, width);
    let units = wide_units(text, width);
    assert(wide_units(text, width) == units);
    lemma_wide_units_injective(wide_text(units, width), text, width);
}

} // verus!
