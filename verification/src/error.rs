//! The error taxonomy, and the translation of native status codes into it.
//!
//! The native engine reports outcomes through several independent
//! integer domains: the parse-result codes returned when a torrent is
//! added, the per-torrent stat error codes, and the metainfo-builder
//! result codes. Each domain is mapped here, once, into the one closed
//! [`Error`] taxonomy; no raw native code travels past these functions.

use vstd::prelude::*;

verus! {

/// Different kinds of errors that can be produced by the native engine.
///
/// `NoError` is a sentinel meaning the translated native code indicated
/// success; it is never surfaced as the `Err` of a `Result`
/// (see [`Error::to_result`]).
#[derive(Clone, Copy, Debug, PartialEq, Eq, Structural)]
pub enum Error {
    /// A general state of non-error.
    NoError,
    /// For all errors with unknown causes.
    Unknown,
    /// An error occurred in file I/O.
    IOError,
    /// Error in parsing a torrent.
    ParseErr,
    /// When parsing a torrent, it was already present in the session.
    ParseDuplicate,
    /// Local error reported on a torrent's stats.
    StatLocal,
    /// Tracker error reported on a torrent's stats.
    StatTracker,
    /// Tracker warning reported on a torrent's stats.
    StatTrackerWarn,
    /// An error with the URL when building metainfo.
    MakeMetaUrl,
    /// Building metainfo was cancelled.
    MakeMetaCancelled,
}

/// Simple type for all results that use `Error`.
pub type TrResult<T> = Result<T, Error>;

/// The meaning of a native parse-result code: 0 is success, 1 a parse
/// failure, 2 a duplicate; every other value is out of the native range.
pub open spec fn parse_error_of(code: int) -> Error {
    if code == 0 {
        Error::NoError
    } else if code == 1 {
        Error::ParseErr
    } else if code == 2 {
        Error::ParseDuplicate
    } else {
        Error::Unknown
    }
}

/// The meaning of a native stat error code: 0 is success, 1 a tracker
/// warning, 2 a tracker error, 3 a local error; every other value is out
/// of the native range.
pub open spec fn stat_error_of(code: int) -> Error {
    if code == 0 {
        Error::NoError
    } else if code == 1 {
        Error::StatTrackerWarn
    } else if code == 2 {
        Error::StatTracker
    } else if code == 3 {
        Error::StatLocal
    } else {
        Error::Unknown
    }
}

/// The meaning of a native metainfo-builder result code: 0 is success,
/// 1 a bad URL, 2 a cancellation, 3 a read failure, 4 a write failure;
/// every other value is out of the native range.
pub open spec fn builder_error_of(code: int) -> Error {
    if code == 0 {
        Error::NoError
    } else if code == 1 {
        Error::MakeMetaUrl
    } else if code == 2 {
        Error::MakeMetaCancelled
    } else if code == 3 || code == 4 {
        Error::IOError
    } else {
        Error::Unknown
    }
}

impl From<i32> for Error {
    /// Translate a native parse-result code.
    fn from(code: i32) -> (r: Self) {
        if code == 0 {
            Error::NoError
        } else if code == 1 {
            Error::ParseErr
        } else if code == 2 {
            Error::ParseDuplicate
        } else {
            Error::Unknown
        }
    }
}

impl vstd::std_specs::convert::FromSpecImpl<i32> for Error {
    open spec fn obeys_from_spec() -> bool {
        true
    }

    open spec fn from_spec(code: i32) -> Error {
        parse_error_of(code as int)
    }
}

impl Error {
    /// Translate a native stat error code.
    pub fn from_stat_code(code: i32) -> (r: Self)
        ensures
            r == stat_error_of(code as int),
    {
        if code == 0 {
            Error::NoError
        } else if code == 1 {
            Error::StatTrackerWarn
        } else if code == 2 {
            Error::StatTracker
        } else if code == 3 {
            Error::StatLocal
        } else {
            Error::Unknown
        }
    }

    /// Translate a native metainfo-builder result code.
    pub fn from_builder_code(code: i32) -> (r: Self)
        ensures
            r == builder_error_of(code as int),
    {
        if code == 0 {
            Error::NoError
        } else if code == 1 {
            Error::MakeMetaUrl
        } else if code == 2 {
            Error::MakeMetaCancelled
        } else if code == 3 || code == 4 {
            Error::IOError
        } else {
            Error::Unknown
        }
    }

    /// Converts the `Error` to a `TrResult` where `NoError` causes `Ok`.
    ///
    /// This is the one place that turns the success sentinel into a
    /// success value; every translated native code goes through it, so
    /// `NoError` can never appear as the `Err` of a `TrResult`.
    pub fn to_result(self) -> (r: TrResult<()>)
        ensures
            r == (if self == Error::NoError {
                TrResult::<()>::Ok(())
            } else {
                TrResult::<()>::Err(self)
            }),
    {
        match self {
            Error::NoError => Ok(()),
            x => Err(x),
        }
    }

    /// A short description of the error, one per variant.
    pub fn message(&self) -> (s: &'static str)
        ensures
            s@ == match *self {
                Error::NoError => "NoError"@,
                Error::Unknown => "Unknown"@,
                Error::IOError => "IOError"@,
                Error::ParseErr => "ParseErr"@,
                Error::ParseDuplicate => "ParseDuplicate"@,
                Error::StatLocal => "StatLocal"@,
                Error::StatTracker => "StatTracker"@,
                Error::StatTrackerWarn => "StatTrackerWarn"@,
                Error::MakeMetaUrl => "MakeMetaUrl"@,
                Error::MakeMetaCancelled => "MakeMetaCancelled"@,
            },
    {
        match *self {
            Error::NoError => "NoError",
            Error::Unknown => "Unknown",
            Error::IOError => "IOError",
            Error::ParseErr => "ParseErr",
            Error::ParseDuplicate => "ParseDuplicate",
            Error::StatLocal => "StatLocal",
            Error::StatTracker => "StatTracker",
            Error::StatTrackerWarn => "StatTrackerWarn",
            Error::MakeMetaUrl => "MakeMetaUrl",
            Error::MakeMetaCancelled => "MakeMetaCancelled",
        }
    }
}

} // verus!
