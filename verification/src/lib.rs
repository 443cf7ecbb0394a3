//! A verified core for safe bindings to the liblouis Braille translator.
//!
//! liblouis keeps global, thread-unsafe state. This crate holds everything
//! about driving it that can be decided without entering the engine: who may
//! enter it, what it is told about logging when a handle comes and goes, and
//! how text gets into and out of its wide-character buffers. The calls
//! themselves are made by the caller, who is told which ones to make.

use crate::logging::{
    filter_to_lou_loglevel,
    static_max_level,
    threshold_of,
    LevelFilter,
    LOU_LOG_INFO,
};
use crate::modes::TranslationModes;
use crate::tables::{is_base_name, kept_name, occurs_in, table_names};
use crate::token::{claim_outcome, release_outcome, AccessFlag, AccessToken};
use crate::translate::{prepared, TranslateError, Translation, TranslationView};
use crate::version::{parse_version, semver_parse, Version, VersionParseError};
use crate::wide::CodeUnitWidth;
use vstd::prelude::*;

pub mod logging;
pub mod modes;
pub mod tables;
pub mod token;
pub mod translate;
pub mod version;
pub mod wide;

verus! {

/// A call into the engine that changes its global state.
#[derive(Clone, Copy, Debug, PartialEq, Eq, Structural)]
pub enum EngineCall {
    /// Set the threshold below which the engine keeps its messages to itself.
    SetLogLevel(u32),
    /// Have the engine hand its messages to the log bridge.
    RegisterLogCallback,
    /// Have the engine write its messages where it does by default.
    UnregisterLogCallback,
    /// Have the engine drop the tables and buffers it has cached.
    Free,
}

/// A handle was asked for while another one is in use.
#[derive(Clone, Copy, Debug, PartialEq, Eq, Structural)]
pub struct AlreadyInUse;

/// The one handle through which the engine is entered.
///
/// liblouis is thread-unsafe, so at most one handle exists at a time: making
/// one takes the access token, and closing it gives the token back. Every
/// operation on the engine goes through a reference to the handle.
#[derive(Debug)]
pub struct Louis {
    token: AccessToken,
    width: CodeUnitWidth,
}

/// The calls that route the engine's messages into the host's log.
pub open spec fn logging_setup(filter: LevelFilter) -> Seq<EngineCall> {
    seq![EngineCall::SetLogLevel(threshold_of(filter)), EngineCall::RegisterLogCallback]
}

/// The calls that put the engine's logging back to its defaults.
pub open spec fn logging_reset() -> Seq<EngineCall> {
    seq![EngineCall::SetLogLevel(LOU_LOG_INFO), EngineCall::UnregisterLogCallback]
}

/// The calls that take a handle down: the logging is reset, then the engine
/// frees what it has cached.
pub open spec fn teardown() -> Seq<EngineCall> {
    logging_reset().push(EngineCall::Free)
}

impl Louis {
    /// The width of the code units of the engine that the handle is for.
    pub closed spec fn code_unit_width(&self) -> CodeUnitWidth {
        self.width
    }

    /// Tries to take the engine into use, with the logging set up for what
    /// the host's log was compiled to keep.
    ///
    /// `width` is the size of the code units that the engine was built for.
    /// On success the caller gets the handle and the calls that set up the
    /// logging, to be made in order before anything else. If a handle is in
    /// use already, nothing changes and no call is to be made.
    pub fn new(flag: &mut AccessFlag, width: CodeUnitWidth) -> (made: Result<
        (Louis, Vec<EngineCall>),
        AlreadyInUse,
    >)
        ensures
            claim_outcome(*old(flag), *final(flag), made is Ok),
            made matches Ok(pair) ==> pair.0.code_unit_width() == width && exists|
                filter: LevelFilter,
            | pair.1@ == #[trigger] logging_setup(filter),
    {
        Louis::with_filter(flag, static_max_level(), width)
    }

    /// Tries to take the engine into use, with the logging set up for a host
    /// whose log lets through what `filter` says.
    pub fn with_filter(flag: &mut AccessFlag, filter: LevelFilter, width: CodeUnitWidth) -> (made:
        Result<(Louis, Vec<EngineCall>), AlreadyInUse>)
        ensures
            claim_outcome(*old(flag), *final(flag), made is Ok),
            made matches Ok(pair) ==> pair.0.code_unit_width() == width && pair.1@
                == logging_setup(filter),
    {
        match AccessToken::claim(flag) {
            Some(token) => {
                let louis = Louis { token, width };
                let calls = louis.configure_logging(filter);
                Ok((louis, calls))
            },
            None => Err(AlreadyInUse),
        }
    }

    /// The width of the code units of the engine that the handle is for.
    pub fn width(&self) -> (width: CodeUnitWidth)
        ensures
            width == self.code_unit_width(),
    {
        self.width
    }

    /// Takes the handle down and gives the engine up for the next handle.
    ///
    /// The calls that are returned are to be made in order, and before the
    /// flag is offered to another claim: it is free as soon as this returns,
    /// but the engine is not until the last call is made.
    pub fn close(self, flag: &mut AccessFlag) -> (calls: Vec<EngineCall>)
        requires
            old(flag).is_claimed(),
        ensures
            release_outcome(*old(flag), *final(flag)),
            calls@ == teardown(),
    {
        let mut calls = self.reset_logging();
        calls.push(EngineCall::Free);
        self.token.release(flag);
        calls
    }

    /// Reads the version that the engine reported of itself.
    pub fn version(&self, reported: &str) -> (version: Result<Version, VersionParseError>)
        ensures
            match version {
                Ok(v) => semver_parse(reported@) == Some(v@),
                Err(_) => semver_parse(reported@) is None,
            },
    {
        parse_version(reported)
    }

    /// Lists the file names of the tables that the engine located.
    ///
    /// There is one name for each path, in the same order, and no name holds
    /// a directory. If one of the paths has no final component that is a
    /// name, there is no list at all.
    pub fn list_tables(&self, located: &Vec<String>) -> (names: Option<Vec<String>>)
        ensures
            names is Some <==> forall|i: int|
                0 <= i < located.len() ==> kept_name(#[trigger] located[i]@) is Some,
            names matches Some(n) ==> n.len() == located.len() && forall|i: int|
                0 <= i < n.len() ==> kept_name(located[i]@) == Some(#[trigger] n[i]@)
                    && is_base_name(n[i]@) && occurs_in(n[i]@, located[i]@),
    {
        table_names(located)
    }

    /// Prepares the translation of `input` by the tables in `table_names`.
    ///
    /// `table_names` is a comma-separated list; it is handed to the engine as
    /// it is. `mode` is 0 or a combination of the flags in [`modes`]. The
    /// caller makes the call that the result describes and hands the engine's
    /// reply to [`Translation::finish`].
    pub fn translate_simple(
        &self,
        table_names: &str,
        input: &str,
        backwards: bool,
        mode: TranslationModes,
    ) -> (pending: Result<Translation, TranslateError>)
        ensures
            match pending {
                Ok(p) => prepared(table_names@, input@, backwards, mode, self.code_unit_width())
                    == Ok::<TranslationView, TranslateError>(p@),
                Err(e) => prepared(table_names@, input@, backwards, mode, self.code_unit_width())
                    == Err::<TranslationView, TranslateError>(e),
            },
    {
        Translation::prepare(table_names, input, backwards, mode, self.width)
    }

    /// The calls that route the engine's messages into the host's log, at the
    /// threshold that stands for the host's filter.
    pub fn configure_logging(&self, filter: LevelFilter) -> (calls: Vec<EngineCall>)
        ensures
            calls@ == logging_setup(filter),
    {
        let mut calls: Vec<EngineCall> = Vec::new();
        calls.push(EngineCall::SetLogLevel(filter_to_lou_loglevel(filter)));
        calls.push(EngineCall::RegisterLogCallback);
        calls
    }

    /// The calls that put the engine's logging back to its defaults.
    pub fn reset_logging(&self) -> (calls: Vec<EngineCall>)
        ensures
            calls@ == logging_reset(),
    {
        let mut calls: Vec<EngineCall> = Vec::new();
        calls.push(EngineCall::SetLogLevel(LOU_LOG_INFO));
        calls.push(EngineCall::UnregisterLogCallback);
        calls
    }
}

} // verus!
