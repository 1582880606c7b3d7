//! Error taxonomy: exit-code categories, run errors, and the mapping from
//! engine-reported failures to exit-code categories.

use vstd::prelude::*;

verus! {

/// Process exit categories. The numeric values are fixed for script
/// compatibility; `code` gives the number of each category.
#[derive(Clone, Copy, PartialEq, Eq, Structural, Debug)]
pub enum ExitCode {
    MissingArgument,
    ReadError,
    InvalidArgument,
    NotOverwritingError,
    WriteError,
    OutOfMemory,
    Unsupported,
    EncodingError,
    WrongInputColorType,
    InternalError,
    QualityTooLow,
}

impl ExitCode {
    /// The fixed number of each category.
    pub open spec fn spec_code(self) -> int {
        match self {
            ExitCode::MissingArgument => 1,
            ExitCode::ReadError => 2,
            ExitCode::InvalidArgument => 4,
            ExitCode::NotOverwritingError => 15,
            ExitCode::WriteError => 16,
            ExitCode::OutOfMemory => 17,
            ExitCode::Unsupported => 18,
            ExitCode::EncodingError => 25,
            ExitCode::WrongInputColorType => 26,
            ExitCode::InternalError => 35,
            ExitCode::QualityTooLow => 99,
        }
    }

    /// Numeric process exit status of this category.
    pub fn code(self) -> (c: i32)
        ensures
            c == self.spec_code(),
    {
        match self {
            ExitCode::MissingArgument => 1,
            ExitCode::ReadError => 2,
            ExitCode::InvalidArgument => 4,
            ExitCode::NotOverwritingError => 15,
            ExitCode::WriteError => 16,
            ExitCode::OutOfMemory => 17,
            ExitCode::Unsupported => 18,
            ExitCode::EncodingError => 25,
            ExitCode::WrongInputColorType => 26,
            ExitCode::InternalError => 35,
            ExitCode::QualityTooLow => 99,
        }
    }
}

/// Why a run, or a single file of a batch, failed.
#[derive(Debug)]
pub struct Error {
    pub code: ExitCode,
    pub msg: String,
}

impl Error {
    /// An error with the given message and exit-code category.
    pub fn new(msg: String, code: ExitCode) -> (e: Error)
        ensures
            e.code == code,
            e.msg == msg,
    {
        Error { code, msg }
    }
}

/// Failure category reported by the color-reduction engine. `Other` stands
/// for any category the engine may add later.
#[derive(Clone, Copy, PartialEq, Eq, Structural, Debug)]
pub enum LiqError {
    QualityTooLow,
    ValueOutOfRange,
    OutOfMemory,
    Aborted,
    InternalError,
    BufferTooSmall,
    InvalidPointer,
    Unsupported,
    Other,
}

impl LiqError {
    /// The engine's numeric category codes, as its source declares them.
    pub open spec fn spec_from_code(code: u32) -> LiqError {
        if code == 99 {
            LiqError::QualityTooLow
        } else if code == 100 {
            LiqError::ValueOutOfRange
        } else if code == 101 {
            LiqError::OutOfMemory
        } else if code == 102 {
            LiqError::Aborted
        } else if code == 103 {
            LiqError::InternalError
        } else if code == 104 {
            LiqError::BufferTooSmall
        } else if code == 105 {
            LiqError::InvalidPointer
        } else if code == 106 {
            LiqError::Unsupported
        } else {
            LiqError::Other
        }
    }

    /// The failure category behind one of the engine's numeric codes.
    pub fn from_code(code: u32) -> (r: LiqError)
        ensures
            r == LiqError::spec_from_code(code),
    {
        if code == 99 {
            LiqError::QualityTooLow
        } else if code == 100 {
            LiqError::ValueOutOfRange
        } else if code == 101 {
            LiqError::OutOfMemory
        } else if code == 102 {
            LiqError::Aborted
        } else if code == 103 {
            LiqError::InternalError
        } else if code == 104 {
            LiqError::BufferTooSmall
        } else if code == 105 {
            LiqError::InvalidPointer
        } else if code == 106 {
            LiqError::Unsupported
        } else {
            LiqError::Other
        }
    }

    /// Exit-code category of each engine failure.
    pub open spec fn spec_exit_code(self) -> ExitCode {
        match self {
            LiqError::QualityTooLow => ExitCode::QualityTooLow,
            LiqError::ValueOutOfRange => ExitCode::InvalidArgument,
            LiqError::OutOfMemory => ExitCode::OutOfMemory,
            LiqError::Aborted => ExitCode::NotOverwritingError,
            LiqError::InternalError => ExitCode::InternalError,
            LiqError::BufferTooSmall => ExitCode::WrongInputColorType,
            LiqError::InvalidPointer => ExitCode::InvalidArgument,
            LiqError::Unsupported => ExitCode::Unsupported,
            LiqError::Other => ExitCode::InvalidArgument,
        }
    }

    /// The exit-code category this engine failure maps to.
    pub fn exit_code(self) -> (c: ExitCode)
        ensures
            c == self.spec_exit_code(),
    {
        match self {
            LiqError::QualityTooLow => ExitCode::QualityTooLow,
            LiqError::ValueOutOfRange => ExitCode::InvalidArgument,
            LiqError::OutOfMemory => ExitCode::OutOfMemory,
            LiqError::Aborted => ExitCode::NotOverwritingError,
            LiqError::InternalError => ExitCode::InternalError,
            LiqError::BufferTooSmall => ExitCode::WrongInputColorType,
            LiqError::InvalidPointer => ExitCode::InvalidArgument,
            LiqError::Unsupported => ExitCode::Unsupported,
            LiqError::Other => ExitCode::InvalidArgument,
        }
    }

    /// `Error` carrying this engine failure's category and the given message.
    pub fn to_error(self, msg: String) -> (e: Error)
        ensures
            e.code == self.spec_exit_code(),
            e.msg == msg,
    {
        Error::new(msg, self.exit_code())
    }
}

} // verus!
