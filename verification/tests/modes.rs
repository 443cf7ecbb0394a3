use louis::modes::{
    TranslationModes, DOTS_IO, DOTS_LOUIS, DOTS_UNICODE, NO_CONTRACTIONS, PARTIAL_TRANS, UC_BRL,
};

#[test]
fn modes_have_the_engine_values() {
    assert_eq!(NO_CONTRACTIONS, 1);
    assert_eq!(DOTS_IO, 4);
    assert_eq!(DOTS_LOUIS, 4);
    assert_eq!(UC_BRL, 64);
    assert_eq!(DOTS_UNICODE, 68);
    assert_eq!(PARTIAL_TRANS, 256);
}

#[test]
fn modes_combine_by_bitwise_or() {
    let mode: TranslationModes = DOTS_UNICODE | NO_CONTRACTIONS;
    assert_eq!(mode, 69);
    assert_eq!(mode & DOTS_UNICODE, DOTS_UNICODE);
    assert_eq!(mode & NO_CONTRACTIONS, NO_CONTRACTIONS);
    assert_eq!(mode & PARTIAL_TRANS, 0);
    let none: TranslationModes = 0;
    assert_eq!(none | PARTIAL_TRANS, 256);
}
