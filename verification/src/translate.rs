//! One translation, split around the call into the engine.
//!
//! [`Translation::prepare`] settles everything the engine is called with: the
//! encoded input and the size of the buffer it may write to. The caller makes
//! the call and reports what came back in an [`EngineReply`], from which
//! [`Translation::finish`] reads the translated text.

use crate::modes::TranslationModes;
use crate::wide::{
    decode,
    encode,
    is_wide_text,
    lemma_round_trip,
    wide_text,
    wide_units,
    CodeUnitWidth,
};
use vstd::prelude::*;

verus! {

/// Why a translation gave no text.
#[derive(Clone, Copy, Debug, PartialEq, Eq, Structural)]
pub enum TranslateError {
    /// The input has no wide-character form that the engine could be handed,
    /// or what the engine wrote is not the wide form of any text.
    Encoding,
    /// The engine reported a failure, or an output that cannot be one.
    Translation,
}

/// A translation that is ready for the engine: what to call it with.
#[derive(Debug)]
pub struct Translation {
    tables: String,
    backwards: bool,
    mode: TranslationModes,
    width: CodeUnitWidth,
    input: Vec<u32>,
    capacity: i32,
}

/// What a [`Translation`] holds.
pub struct TranslationView {
    /// The comma-separated list of tables, as the caller gave it.
    pub tables: Seq<char>,
    /// Whether the engine is to translate Braille back into text.
    pub backwards: bool,
    /// The flags, as the caller gave them.
    pub mode: TranslationModes,
    /// The width of the engine's code units.
    pub width: CodeUnitWidth,
    /// The code units of the input.
    pub input: Seq<u32>,
    /// The number of code units that the output buffer must have room for.
    pub capacity: int,
}

/// What the engine reported of one call.
#[derive(Debug)]
pub struct EngineReply {
    /// The value the call returned: 0 for a failure.
    pub status: i32,
    /// The number of code units that the engine says it wrote.
    pub produced: i32,
    /// The output buffer after the call.
    pub output: Vec<u32>,
}

/// What an [`EngineReply`] holds.
pub struct EngineReplyView {
    pub status: i32,
    pub produced: i32,
    pub output: Seq<u32>,
}

impl View for EngineReply {
    type V = EngineReplyView;

    open spec fn view(&self) -> EngineReplyView {
        EngineReplyView { status: self.status, produced: self.produced, output: self.output@ }
    }
}

/// The room that the output needs for each code unit of input: four code
/// units and two more for every byte of a code unit.
pub open spec fn outlen_multiplier(width: CodeUnitWidth) -> int {
    4 + 2 * width.spec_bytes()
}

/// The translation that is prepared from a caller's arguments. A text with a
/// nul in it, or one so long that the engine cannot be told the size of its
/// output buffer, cannot be handed to the engine.
pub open spec fn prepared(
    table_names: Seq<char>,
    input: Seq<char>,
    backwards: bool,
    mode: TranslationModes,
    width: CodeUnitWidth,
) -> Result<TranslationView, TranslateError> {
    let units = wide_units(input, width);
    if input.contains('\0') || units.len() * outlen_multiplier(width) > i32::MAX {
        Err(TranslateError::Encoding)
    } else {
        Ok(
            TranslationView {
                tables: table_names,
                backwards,
                mode,
                width,
                input: units,
                capacity: units.len() * outlen_multiplier(width),
            },
        )
    }
}

/// True of a reply that can be a translation: the engine reported success,
/// the length it reported lies within the buffer, and it did not turn a text
/// into nothing.
pub open spec fn reply_accepted(pending: TranslationView, reply: EngineReplyView) -> bool {
    &&& reply.status != 0
    &&& 0 <= reply.produced <= pending.capacity
    &&& reply.produced <= reply.output.len()
    &&& reply.produced == 0 ==> pending.input.len() == 0
}

/// The outcome of a translation, given what the engine reported: the text
/// that the written part of the buffer stands for.
pub open spec fn finished(pending: TranslationView, reply: EngineReplyView) -> Result<
    Seq<char>,
    TranslateError,
> {
    if !reply_accepted(pending, reply) {
        Err(TranslateError::Translation)
    } else {
        let written = reply.output.take(reply.produced as int);
        if is_wide_text(written, pending.width) {
            Ok(wide_text(written, pending.width))
        } else {
            Err(TranslateError::Encoding)
        }
    }
}

/// Sizes the output buffer for an input of `input_units` code units, if the
/// size can be told to the engine.
pub fn output_capacity(input_units: usize, width: CodeUnitWidth) -> (capacity: Option<i32>)
    ensures
        match capacity {
            Some(c) => c == input_units * outlen_multiplier(width),
            None => input_units * outlen_multiplier(width) > i32::MAX,
        },
{
    let multiplier: usize = 4 + 2 * width.bytes();
    let most: usize = 0x7fff_ffff / multiplier;
    proof {
        match width {
            CodeUnitWidth::Bits16 => {
                assert(multiplier == 8 && most == 0x0fff_ffff);
            },
            CodeUnitWidth::Bits32 => {
                assert(multiplier == 12 && most == 0x0aaa_aaaa);
            },
        }
    }
    if input_units <= most {
        Some((input_units * multiplier) as i32)
    } else {
        None
    }
}

impl Translation {
    #[verifier::type_invariant]
    spec fn well_formed(self) -> bool {
        self.capacity == self.input@.len() * outlen_multiplier(self.width)
    }

    /// What the translation holds.
    pub closed spec fn view(&self) -> TranslationView {
        TranslationView {
            tables: self.tables@,
            backwards: self.backwards,
            mode: self.mode,
            width: self.width,
            input: self.input@,
            capacity: self.capacity as int,
        }
    }

    /// Encodes the input and sizes the output buffer.
    pub fn prepare(
        table_names: &str,
        input: &str,
        backwards: bool,
        mode: TranslationModes,
        width: CodeUnitWidth,
    ) -> (pending: Result<Translation, TranslateError>)
        ensures
            match pending {
                Ok(p) => prepared(table_names@, input@, backwards, mode, width) == Ok::<
                    TranslationView,
                    TranslateError,
                >(p@),
                Err(e) => prepared(table_names@, input@, backwards, mode, width) == Err::<
                    TranslationView,
                    TranslateError,
                >(e),
            },
    {
        let units = match encode(input, width) {
            Ok(units) => units,
            Err(_) => {
                return Err(TranslateError::Encoding);
            },
        };
        let capacity = match output_capacity(units.len(), width) {
            Some(capacity) => capacity,
            None => {
                return Err(TranslateError::Encoding);
            },
        };
        Ok(
            Translation {
                tables: table_names.to_owned(),
                backwards,
                mode,
                width,
                input: units,
                capacity,
            },
        )
    }

    /// Reads the translated text out of what the engine reported.
    ///
    /// Only the part of the buffer that the engine says it wrote is read.
    pub fn finish(self, reply: EngineReply) -> (text: Result<String, TranslateError>)
        ensures
            match text {
                Ok(t) => finished(self@, reply@) == Ok::<Seq<char>, TranslateError>(t@),
                Err(e) => finished(self@, reply@) == Err::<Seq<char>, TranslateError>(e),
            },
    {
        if reply.status == 0 || reply.produced < 0 || reply.produced > self.capacity {
            return Err(TranslateError::Translation);
        }
        let produced: usize = reply.produced as usize;
        if produced > reply.output.len() || (produced == 0 && self.input.len() > 0) {
            return Err(TranslateError::Translation);
        }
        let mut written = reply.output;
        written.truncate(produced);
        match decode(&written, self.width) {
            Ok(t) => Ok(t),
            Err(_) => Err(TranslateError::Encoding),
        }
    }

    /// The comma-separated list of tables to hand to the engine.
    pub fn tables(&self) -> (tables: &str)
        ensures
            tables@ == self@.tables,
    {
        self.tables.as_str()
    }

    /// Whether to enter the engine for backward translation.
    pub fn backwards(&self) -> (backwards: bool)
        ensures
            backwards == self@.backwards,
    {
        self.backwards
    }

    /// The flags to hand to the engine.
    pub fn mode(&self) -> (mode: TranslationModes)
        ensures
            mode == self@.mode,
    {
        self.mode
    }

    /// The width of the code units that the input is encoded in.
    pub fn width(&self) -> (width: CodeUnitWidth)
        ensures
            width == self@.width,
    {
        self.width
    }

    /// The code units of the input, without a terminator.
    pub fn input(&self) -> (input: &Vec<u32>)
        ensures
            input@ == self@.input,
    {
        &self.input
    }

    /// The number of code units of the input, as the engine is told it.
    pub fn input_len(&self) -> (len: i32)
        ensures
            len == self@.input.len(),
    {
        proof {
            use_type_invariant(self);
            assert(self.input@.len() <= self.input@.len() * outlen_multiplier(self.width))
                by (nonlinear_arith)
                requires
                    outlen_multiplier(self.width) >= 1,
            ;
        }
        self.input.len() as i32
    }

    /// The number of code units that the output buffer must have room for.
    pub fn capacity(&self) -> (capacity: i32)
        ensures
            capacity == self@.capacity,
    {
        self.capacity
    }
}

/// An empty input is always accepted, asks for an empty buffer, and comes
/// back as an empty text whenever the engine reports success.
pub proof fn lemma_empty_input_empty_output(
    table_names: Seq<char>,
    backwards: bool,
    mode: TranslationModes,
    width: CodeUnitWidth,
    reply: EngineReplyView,
)
    ensures
        prepared(table_names, Seq::<char>::empty(), backwards, mode, width) matches Ok(pending)
            && pending.input.len() == 0 && pending.capacity == 0 && (finished(pending, reply)
            == Ok::<Seq<char>, TranslateError>(Seq::<char>::empty()) <==> reply.status != 0
            && reply.produced == 0) && (finished(pending, reply) == Err::<
            Seq<char>,
            TranslateError,
        >(TranslateError::Translation) <==> !(reply.status != 0 && reply.produced == 0)),
{
    let nothing = Seq::<char>::empty();
    let units = wide_units(nothing, width);
    assert(units =~= Seq::<u32>::empty());
    assert(units.len() * outlen_multiplier(width) == 0) by (nonlinear_arith)
        requires
            units.len() == 0,
    ;
    lemma_round_trip(nothing, width);
    let pending = prepared(table_names, nothing, backwards, mode, width)->Ok_0;
    assert(pending.capacity == 0);
    if reply_accepted(pending, reply) {
        assert(reply.produced == 0);
        assert(reply.output.take(0) =~= units);
    }
}

/// The outcome of a prepared call depends on nothing but the status, the
/// length that the engine reported and the code units within that length.
pub proof fn lemma_translation_repeatable(
    pending: TranslationView,
    first: EngineReplyView,
    second: EngineReplyView,
)
    requires
        first.status == second.status,
        first.produced == second.produced,
        first.output.len() == second.output.len(),
        forall|i: int| 0 <= i < first.produced && i < first.output.len() ==> first.output[i] == second.output[i],
    ensures
        finished(pending, first) == finished(pending, second),
{
    if reply_accepted(pending, first) {
        assert(first.output.take(first.produced as int) =~= second.output.take(
            second.produced as int,
        ));
    }
}

} // verus!
