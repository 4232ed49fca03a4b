//! Translation of the engine's status codes into typed errors.
//!
//! Every fallible call of the engine returns a small integer.  Zero reports
//! success; each other value that the engine documents has a variant of
//! [`Error`] of its own, and any value beyond those is kept as
//! [`Error::Unknown`] with the raw code.  Nothing else in this crate looks at
//! a raw code.

use vstd::prelude::*;

verus! {

/// The call succeeded.
pub const IGRAPH_SUCCESS: u32 = 0;

/// Unspecified failure.
pub const IGRAPH_FAILURE: u32 = 1;

/// Memory could not be allocated.
pub const IGRAPH_ENOMEM: u32 = 2;

/// Input could not be parsed.
pub const IGRAPH_PARSEERROR: u32 = 3;

/// An argument has an invalid value.
pub const IGRAPH_EINVAL: u32 = 4;

/// The element to add exists already.
pub const IGRAPH_EXISTS: u32 = 5;

/// A vertex id is out of range.
pub const IGRAPH_EINVVID: u32 = 7;

/// An edge id is out of range.
pub const IGRAPH_EINVEID: u32 = 8;

/// A mode argument is not one of the accepted values.
pub const IGRAPH_EINVMODE: u32 = 9;

/// A file operation failed.
pub const IGRAPH_EFILE: u32 = 10;

/// The requested function is not implemented.
pub const IGRAPH_UNIMPLEMENTED: u32 = 12;

/// The computation was interrupted.
pub const IGRAPH_INTERRUPTED: u32 = 13;

/// A numerical algorithm did not converge.
pub const IGRAPH_DIVERGED: u32 = 14;

/// The eigenvalue solver failed.
pub const IGRAPH_EARPACK: u32 = 15;

/// A cycle of negative weight was found.
pub const IGRAPH_ENEGCYCLE: u32 = 37;

/// An internal consistency check failed.
pub const IGRAPH_EINTERNAL: u32 = 38;

/// Attributes could not be combined.
pub const IGRAPH_EATTRCOMBINE: u32 = 52;

/// An integer or floating-point value overflowed.
pub const IGRAPH_EOVERFLOW: u32 = 55;

/// A floating-point value underflowed.
pub const IGRAPH_EUNDERFLOW: u32 = 58;

/// A random walk could not leave a vertex.
pub const IGRAPH_ERWSTUCK: u32 = 59;

/// A callback asked the search to stop early.
pub const IGRAPH_STOP: u32 = 60;

/// A value is outside the supported range.
pub const IGRAPH_ERANGE: u32 = 61;

/// The problem has no solution.
pub const IGRAPH_ENOSOL: u32 = 62;

/// A failure reported by the engine.
///
/// The set is closed: a code without a variant of its own is carried in
/// `Unknown`, never folded into another kind.
#[derive(Debug, Clone, Copy, PartialEq, Eq, Structural)]
pub enum Error {
    Failure,
    NoMemory,
    ParseError,
    InvalidValue,
    Exists,
    InvalidVertexId,
    InvalidEdgeId,
    InvalidMode,
    FileError,
    Unimplemented,
    Interrupted,
    Diverged,
    ArpackError,
    NegativeCycle,
    Internal,
    AttributeCombine,
    Overflow,
    Underflow,
    RandomWalkStuck,
    Stop,
    Range,
    NoSolution,
    Unknown(u32),
}

/// Result of an operation at the boundary.
pub type Result<T> = core::result::Result<T, Error>;

/// Whether `code` is one of the failure codes that has a variant of its own.
pub open spec fn is_known_failure(code: u32) -> bool {
    ||| 1 <= code <= 5
    ||| 7 <= code <= 10
    ||| 12 <= code <= 15
    ||| 37 <= code <= 38
    ||| code == 52
    ||| code == 55
    ||| 58 <= code <= 62
}

/// The status code that an error stands for.
pub open spec fn code_of(e: Error) -> u32 {
    match e {
        Error::Failure => IGRAPH_FAILURE,
        Error::NoMemory => IGRAPH_ENOMEM,
        Error::ParseError => IGRAPH_PARSEERROR,
        Error::InvalidValue => IGRAPH_EINVAL,
        Error::Exists => IGRAPH_EXISTS,
        Error::InvalidVertexId => IGRAPH_EINVVID,
        Error::InvalidEdgeId => IGRAPH_EINVEID,
        Error::InvalidMode => IGRAPH_EINVMODE,
        Error::FileError => IGRAPH_EFILE,
        Error::Unimplemented => IGRAPH_UNIMPLEMENTED,
        Error::Interrupted => IGRAPH_INTERRUPTED,
        Error::Diverged => IGRAPH_DIVERGED,
        Error::ArpackError => IGRAPH_EARPACK,
        Error::NegativeCycle => IGRAPH_ENEGCYCLE,
        Error::Internal => IGRAPH_EINTERNAL,
        Error::AttributeCombine => IGRAPH_EATTRCOMBINE,
        Error::Overflow => IGRAPH_EOVERFLOW,
        Error::Underflow => IGRAPH_EUNDERFLOW,
        Error::RandomWalkStuck => IGRAPH_ERWSTUCK,
        Error::Stop => IGRAPH_STOP,
        Error::Range => IGRAPH_ERANGE,
        Error::NoSolution => IGRAPH_ENOSOL,
        Error::Unknown(code) => code,
    }
}

/// The error that a failure code is translated to.
pub open spec fn error_of(code: u32) -> Error {
    if code == IGRAPH_FAILURE {
        Error::Failure
    } else if code == IGRAPH_ENOMEM {
        Error::NoMemory
    } else if code == IGRAPH_PARSEERROR {
        Error::ParseError
    } else if code == IGRAPH_EINVAL {
        Error::InvalidValue
    } else if code == IGRAPH_EXISTS {
        Error::Exists
    } else if code == IGRAPH_EINVVID {
        Error::InvalidVertexId
    } else if code == IGRAPH_EINVEID {
        Error::InvalidEdgeId
    } else if code == IGRAPH_EINVMODE {
        Error::InvalidMode
    } else if code == IGRAPH_EFILE {
        Error::FileError
    } else if code == IGRAPH_UNIMPLEMENTED {
        Error::Unimplemented
    } else if code == IGRAPH_INTERRUPTED {
        Error::Interrupted
    } else if code == IGRAPH_DIVERGED {
        Error::Diverged
    } else if code == IGRAPH_EARPACK {
        Error::ArpackError
    } else if code == IGRAPH_ENEGCYCLE {
        Error::NegativeCycle
    } else if code == IGRAPH_EINTERNAL {
        Error::Internal
    } else if code == IGRAPH_EATTRCOMBINE {
        Error::AttributeCombine
    } else if code == IGRAPH_EOVERFLOW {
        Error::Overflow
    } else if code == IGRAPH_EUNDERFLOW {
        Error::Underflow
    } else if code == IGRAPH_ERWSTUCK {
        Error::RandomWalkStuck
    } else if code == IGRAPH_STOP {
        Error::Stop
    } else if code == IGRAPH_ERANGE {
        Error::Range
    } else if code == IGRAPH_ENOSOL {
        Error::NoSolution
    } else {
        Error::Unknown(code)
    }
}

/// What a status code means: success, or the error it is translated to.
pub open spec fn translate(code: u32) -> Result<()> {
    if code == IGRAPH_SUCCESS {
        Ok(())
    } else {
        Err(error_of(code))
    }
}

/// Translates the status code of a foreign call.
///
/// Total: every `u32` has a result, and the raw value of a code that is not
/// recognised is kept.
pub fn check(code: u32) -> (r: Result<()>)
    ensures
        r == translate(code),
{
    match code {
        IGRAPH_SUCCESS => Ok(()),
        IGRAPH_FAILURE => Err(Error::Failure),
        IGRAPH_ENOMEM => Err(Error::NoMemory),
        IGRAPH_PARSEERROR => Err(Error::ParseError),
        IGRAPH_EINVAL => Err(Error::InvalidValue),
        IGRAPH_EXISTS => Err(Error::Exists),
        IGRAPH_EINVVID => Err(Error::InvalidVertexId),
        IGRAPH_EINVEID => Err(Error::InvalidEdgeId),
        IGRAPH_EINVMODE => Err(Error::InvalidMode),
        IGRAPH_EFILE => Err(Error::FileError),
        IGRAPH_UNIMPLEMENTED => Err(Error::Unimplemented),
        IGRAPH_INTERRUPTED => Err(Error::Interrupted),
        IGRAPH_DIVERGED => Err(Error::Diverged),
        IGRAPH_EARPACK => Err(Error::ArpackError),
        IGRAPH_ENEGCYCLE => Err(Error::NegativeCycle),
        IGRAPH_EINTERNAL => Err(Error::Internal),
        IGRAPH_EATTRCOMBINE => Err(Error::AttributeCombine),
        IGRAPH_EOVERFLOW => Err(Error::Overflow),
        IGRAPH_EUNDERFLOW => Err(Error::Underflow),
        IGRAPH_ERWSTUCK => Err(Error::RandomWalkStuck),
        IGRAPH_STOP => Err(Error::Stop),
        IGRAPH_ERANGE => Err(Error::Range),
        IGRAPH_ENOSOL => Err(Error::NoSolution),
        other => Err(Error::Unknown(other)),
    }
}

/// The translation is exact in both directions.
///
/// Success is the only code that gives `Ok`; a known failure code gives the
/// one variant that stands for it, and that variant is not `Unknown`; any
/// other code gives `Unknown` with the code unchanged.
pub proof fn lemma_translate_exact(code: u32)
    ensures
        translate(code) is Ok <==> code == IGRAPH_SUCCESS,
        is_known_failure(code) ==> translate(code) == Err::<(), Error>(error_of(code))
            && !(error_of(code) is Unknown) && code_of(error_of(code)) == code,
        code != IGRAPH_SUCCESS && !is_known_failure(code) ==> translate(code) == Err::<(), Error>(
            Error::Unknown(code),
        ),
{
}

/// No two failure codes share an error: the code can be read back from it.
pub proof fn lemma_translate_injective(a: u32, b: u32)
    requires
        translate(a) == translate(b),
    ensures
        a == b,
{
    if a != IGRAPH_SUCCESS && b != IGRAPH_SUCCESS {
        assert(code_of(error_of(a)) == a);
        assert(code_of(error_of(b)) == b);
    }
}

/// Every error that a translation can give comes from exactly its own code.
pub proof fn lemma_error_has_code(e: Error)
    requires
        !(e is Unknown) || (e->Unknown_0 != IGRAPH_SUCCESS && !is_known_failure(e->Unknown_0)),
    ensures
        translate(code_of(e)) == Err::<(), Error>(e),
{
}

} // verus!
