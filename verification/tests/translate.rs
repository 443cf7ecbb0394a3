use louis::logging::LevelFilter;
use louis::modes::{DOTS_UNICODE, NO_CONTRACTIONS};
use louis::token::AccessFlag;
use louis::translate::{output_capacity, EngineReply, TranslateError, Translation};
use louis::wide::CodeUnitWidth;
use louis::Louis;

const WIDTH: CodeUnitWidth = CodeUnitWidth::Bits32;

fn handle_for(width: CodeUnitWidth) -> Louis {
    let mut flag = AccessFlag::new();
    Louis::with_filter(&mut flag, LevelFilter::Info, width).unwrap().0
}

fn handle() -> Louis {
    handle_for(WIDTH)
}

/// What the engine leaves behind when it has written `text`: a buffer of
/// the size it was given, filled from the front.
fn engine_wrote(pending: &Translation, text: &str) -> EngineReply {
    let written: Vec<u32> = match pending.width() {
        CodeUnitWidth::Bits16 => text.encode_utf16().map(u32::from).collect(),
        CodeUnitWidth::Bits32 => text.chars().map(u32::from).collect(),
    };
    let produced = written.len() as i32;
    let mut output = written;
    output.resize(pending.capacity() as usize, 0xFFFF);
    EngineReply {
        status: 1,
        produced,
        output,
    }
}

#[test]
fn translate_simple_de() {
    let sentence = "Dies ist ein kurzer Satz.";
    let louis = handle();
    let pending = louis
        .translate_simple("de.tbl", sentence, false, 0)
        .unwrap();
    let reply = engine_wrote(&pending, "d0s } 6 kz7 sz.");
    assert_eq!(pending.finish(reply), Ok("d0s } 6 kz7 sz.".to_string()));
}

#[test]
fn translate_simple_en() {
    let sentence = "This is an example sentence with a rare word: syzygy.";
    let louis = handle();
    let pending = louis
        .translate_simple("en_US.tbl", sentence, false, 0)
        .unwrap();
    let reply = engine_wrote(&pending, ",? is an example s5t;e )a r>e ~w3 syzygy4");
    assert_eq!(
        pending.finish(reply),
        Ok(",? is an example s5t;e )a r>e ~w3 syzygy4".to_string())
    );
}

#[test]
fn translate_simple_escape_umlauts() {
    let sentence = "äöü";
    let louis = handle();
    let pending = louis
        .translate_simple("en_US.tbl", sentence, false, 0)
        .unwrap();
    assert_eq!(pending.input(), &vec![0xE4, 0xF6, 0xFC]);
    let reply = engine_wrote(&pending, "`a`o`u");
    assert_eq!(pending.finish(reply), Ok("`a`o`u".to_string()));
}

#[test]
fn translate_simple_miss_everything() {
    let sentence = "はたらく細胞";
    for width in [CodeUnitWidth::Bits16, CodeUnitWidth::Bits32] {
        let louis = handle_for(width);
        let pending = louis
            .translate_simple("en_US.tbl", sentence, false, 0)
            .unwrap();
        let reply = engine_wrote(
            &pending,
            r"'\x306f''\x305f''\x3089''\x304f''\x7d30''\x80de'",
        );
        // Eight characters of output for each of the six of input: this fills
        // the buffer of a 16-bit engine to the last unit.
        assert_eq!(reply.produced, 48);
        assert_eq!(
            pending.finish(reply),
            Ok(r"'\x306f''\x305f''\x3089''\x304f''\x7d30''\x80de'".to_string())
        );
    }
}

#[test]
fn translate_simple_dots_unicode() {
    let sentence = "Turn this sentence into braille dots please!";
    let louis = handle();
    let pending = louis
        .translate_simple("en_US.tbl", sentence, false, DOTS_UNICODE)
        .unwrap();
    assert_eq!(pending.mode(), 68);
    let reply = engine_wrote(&pending, "⠠⠞⠥⠗⠝⠀⠹⠀⠎⠢⠞⠰⠑⠀⠔⠖⠃⠗⠇⠀⠙⠕⠞⠎⠀⠏⠇⠂⠎⠑⠖");
    assert_eq!(
        pending.finish(reply),
        Ok("⠠⠞⠥⠗⠝⠀⠹⠀⠎⠢⠞⠰⠑⠀⠔⠖⠃⠗⠇⠀⠙⠕⠞⠎⠀⠏⠇⠂⠎⠑⠖".to_string())
    );
}

#[test]
fn translate_simple_empty() {
    let sentence = "";
    let louis = handle();
    let pending = louis
        .translate_simple("de.tbl", sentence, false, 0)
        .unwrap();
    assert_eq!(pending.input_len(), 0);
    assert_eq!(pending.capacity(), 0);
    let reply = engine_wrote(&pending, "");
    assert_eq!(pending.finish(reply), Ok("".to_string()));
}

#[test]
fn backward_translation_reproduces_the_french_sentence() {
    let braille = "¨l ;l û u sy d'é:iture tactile à pts s/|ôs.";
    let louis = handle();
    let pending = louis
        .translate_simple("fr-bfu-g2.ctb", braille, true, 0)
        .unwrap();
    assert!(pending.backwards());
    let reply = engine_wrote(
        &pending,
        "Le braille est un système d'écriture tactile à points saillants.",
    );
    assert_eq!(
        pending.finish(reply),
        Ok("Le braille est un système d'écriture tactile à points saillants.".to_string())
    );
}

#[test]
fn prepared_call_holds_what_the_caller_gave() {
    let louis = handle_for(CodeUnitWidth::Bits16);
    let pending = louis
        .translate_simple("unicode.dis,en_US.tbl", "It works!", true, NO_CONTRACTIONS)
        .unwrap();
    assert_eq!(pending.tables(), "unicode.dis,en_US.tbl");
    assert!(pending.backwards());
    assert_eq!(pending.mode(), 1);
    assert_eq!(pending.width(), CodeUnitWidth::Bits16);
    assert_eq!(
        pending.input(),
        &vec![0x49, 0x74, 0x20, 0x77, 0x6F, 0x72, 0x6B, 0x73, 0x21]
    );
    assert_eq!(pending.input_len(), 9);
    assert_eq!(pending.capacity(), 72);
}

#[test]
fn buffer_has_room_for_the_multiplier_times_the_input() {
    let sentence = "Dies ist ein kurzer Satz.";
    let narrow = Translation::prepare("de.tbl", sentence, false, 0, CodeUnitWidth::Bits16).unwrap();
    assert_eq!(narrow.input_len(), 25);
    assert_eq!(narrow.capacity(), 200);
    let wide = Translation::prepare("de.tbl", sentence, false, 0, CodeUnitWidth::Bits32).unwrap();
    assert_eq!(wide.input_len(), 25);
    assert_eq!(wide.capacity(), 300);
    // Two code units at 16 bits, one at 32.
    let high = "\u{1F46F}";
    let narrow = Translation::prepare("de.tbl", high, false, 0, CodeUnitWidth::Bits16).unwrap();
    assert_eq!((narrow.input_len(), narrow.capacity()), (2, 16));
    let wide = Translation::prepare("de.tbl", high, false, 0, CodeUnitWidth::Bits32).unwrap();
    assert_eq!((wide.input_len(), wide.capacity()), (1, 12));
}

#[test]
fn output_capacity_is_exact_up_to_the_limit() {
    assert_eq!(output_capacity(0, CodeUnitWidth::Bits16), Some(0));
    assert_eq!(output_capacity(0, CodeUnitWidth::Bits32), Some(0));
    assert_eq!(output_capacity(1, CodeUnitWidth::Bits16), Some(8));
    assert_eq!(output_capacity(1, CodeUnitWidth::Bits32), Some(12));
    assert_eq!(output_capacity(1000, CodeUnitWidth::Bits32), Some(12000));
    assert_eq!(
        output_capacity(268_435_455, CodeUnitWidth::Bits16),
        Some(2_147_483_640)
    );
    assert_eq!(output_capacity(268_435_456, CodeUnitWidth::Bits16), None);
    assert_eq!(
        output_capacity(178_956_970, CodeUnitWidth::Bits32),
        Some(2_147_483_640)
    );
    assert_eq!(output_capacity(178_956_971, CodeUnitWidth::Bits32), None);
    assert_eq!(output_capacity(usize::MAX, CodeUnitWidth::Bits16), None);
    assert_eq!(output_capacity(usize::MAX, CodeUnitWidth::Bits32), None);
}

#[test]
fn input_with_a_nul_is_an_encoding_error() {
    for width in [CodeUnitWidth::Bits16, CodeUnitWidth::Bits32] {
        let louis = handle_for(width);
        let pending = louis.translate_simple("de.tbl", "Dies\0ist", false, 0);
        assert_eq!(pending.err(), Some(TranslateError::Encoding));
    }
}

#[test]
fn table_names_are_not_looked_at() {
    let louis = handle();
    let pending = louis
        .translate_simple("no such table,,", "a", false, 0)
        .unwrap();
    assert_eq!(pending.tables(), "no such table,,");
}

#[test]
fn engine_failure_is_a_translation_error() {
    let pending = Translation::prepare("missing.tbl", "Satz", false, 0, WIDTH).unwrap();
    let mut reply = engine_wrote(&pending, "sz");
    reply.status = 0;
    assert_eq!(pending.finish(reply), Err(TranslateError::Translation));
}

#[test]
fn engine_failure_on_empty_input_is_a_translation_error() {
    let pending = Translation::prepare("missing.tbl", "", false, 0, WIDTH).unwrap();
    let reply = EngineReply {
        status: 0,
        produced: 0,
        output: vec![],
    };
    assert_eq!(pending.finish(reply), Err(TranslateError::Translation));
}

#[test]
fn empty_output_for_a_text_is_a_translation_error() {
    let pending = Translation::prepare("de.tbl", "Satz", false, 0, WIDTH).unwrap();
    let reply = engine_wrote(&pending, "");
    assert_eq!(reply.produced, 0);
    assert_eq!(pending.finish(reply), Err(TranslateError::Translation));
}

#[test]
fn reported_length_outside_the_buffer_is_a_translation_error() {
    let make = || Translation::prepare("de.tbl", "ab", false, 0, WIDTH).unwrap();
    let mut reply = engine_wrote(&make(), "xy");
    reply.produced = -1;
    assert_eq!(make().finish(reply), Err(TranslateError::Translation));
    let mut reply = engine_wrote(&make(), "xy");
    reply.produced = 25;
    reply.output.resize(30, 0x61);
    assert_eq!(make().finish(reply), Err(TranslateError::Translation));
    let mut reply = engine_wrote(&make(), "xy");
    reply.produced = i32::MAX;
    assert_eq!(make().finish(reply), Err(TranslateError::Translation));
    // More than was handed over, though not more than was asked for.
    let reply = EngineReply {
        status: 1,
        produced: 3,
        output: vec![0x61, 0x62],
    };
    assert_eq!(make().finish(reply), Err(TranslateError::Translation));
}

#[test]
fn output_may_fill_the_buffer_to_the_last_unit() {
    let pending = Translation::prepare("de.tbl", "ab", false, 0, WIDTH).unwrap();
    assert_eq!(pending.capacity(), 24);
    let reply = engine_wrote(&pending, "abcdefghijklmnopqrstuvwx");
    assert_eq!(reply.produced, 24);
    assert_eq!(
        pending.finish(reply),
        Ok("abcdefghijklmnopqrstuvwx".to_string())
    );
}

#[test]
fn only_the_reported_length_is_read() {
    let pending = Translation::prepare("de.tbl", "Satz", false, 0, WIDTH).unwrap();
    // No terminator, and beyond the length a nul and what is no character.
    let mut output = vec![0x73, 0x7A, 0, 0xD800, 0x110000];
    output.resize(pending.capacity() as usize, 0);
    let reply = EngineReply {
        status: 1,
        produced: 2,
        output,
    };
    assert_eq!(pending.finish(reply), Ok("sz".to_string()));
}

#[test]
fn status_counts_as_success_unless_zero() {
    let make = || Translation::prepare("de.tbl", "Satz", false, 0, WIDTH).unwrap();
    for status in [1, 2, -1, i32::MAX, i32::MIN] {
        let mut reply = engine_wrote(&make(), "sz");
        reply.status = status;
        assert_eq!(make().finish(reply), Ok("sz".to_string()));
    }
}

#[test]
fn output_that_is_no_text_is_an_encoding_error() {
    let make = |width| Translation::prepare("de.tbl", "Satz", false, 0, width).unwrap();
    let reply = |output: Vec<u32>| EngineReply {
        status: 1,
        produced: output.len() as i32,
        output,
    };
    assert_eq!(
        make(CodeUnitWidth::Bits16).finish(reply(vec![0x73, 0xD800])),
        Err(TranslateError::Encoding)
    );
    assert_eq!(
        make(CodeUnitWidth::Bits16).finish(reply(vec![0x73, 0x10000])),
        Err(TranslateError::Encoding)
    );
    assert_eq!(
        make(CodeUnitWidth::Bits32).finish(reply(vec![0x73, 0x110000])),
        Err(TranslateError::Encoding)
    );
    assert_eq!(
        make(CodeUnitWidth::Bits32).finish(reply(vec![0x73, 0, 0x7A])),
        Err(TranslateError::Encoding)
    );
}

#[test]
fn same_call_and_same_reply_give_the_same_text() {
    let make = || Translation::prepare("de.tbl", "Dies ist ein kurzer Satz.", false, 0, WIDTH).unwrap();
    let first = make();
    let second = make();
    assert_eq!(first.input(), second.input());
    assert_eq!(first.capacity(), second.capacity());
    let reply_first = engine_wrote(&first, "d0s } 6 kz7 sz.");
    let mut reply_second = engine_wrote(&second, "d0s } 6 kz7 sz.");
    // What lies beyond the reported length makes no difference.
    let last = reply_second.output.len() - 1;
    reply_second.output[last] = 0x41;
    assert_eq!(first.finish(reply_first), second.finish(reply_second));
}

#[test]
fn forward_translation_of_the_french_sentence() {
    let sentence = "Le braille est un système d'écriture tactile à points saillants.";
    for width in [CodeUnitWidth::Bits16, CodeUnitWidth::Bits32] {
        let louis = handle_for(width);
        let pending = louis
            .translate_simple("fr-bfu-g2.ctb", sentence, false, 0)
            .unwrap();
        assert!(!pending.backwards());
        assert_eq!(pending.input_len(), 64);
        let reply = engine_wrote(&pending, "¨l ;l û u sy d'é:iture tactile à pts s/|ôs.");
        assert_eq!(
            pending.finish(reply),
            Ok("¨l ;l û u sy d'é:iture tactile à pts s/|ôs.".to_string())
        );
    }
}
