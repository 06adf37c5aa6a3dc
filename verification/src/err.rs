//! Classification of the decode engine's integer status codes into a closed
//! error taxonomy. Every integer maps to exactly one `Error`; unrecognized
//! codes keep their numeric value in the `Unknown` variant.

use vstd::prelude::*;

verus! {

/// The code the engine returns after a successful operation.
pub const CODE_SUCCESS: i32 = 0;

pub const CODE_UNSPECIFIED: i32 = -1;

pub const CODE_FILE_UNSUPPORTED: i32 = -2;

pub const CODE_REQUEST_FOR_NONEXISTENT_IMAGE: i32 = -3;

pub const CODE_OUT_OF_ORDER_CALL: i32 = -4;

pub const CODE_NO_THUMBNAIL: i32 = -5;

pub const CODE_UNSUPPORTED_THUMBNAIL: i32 = -6;

pub const CODE_INPUT_CLOSED: i32 = -7;

pub const CODE_NOT_IMPLEMENTED: i32 = -8;

pub const CODE_REQUEST_FOR_NONEXISTENT_THUMBNAIL: i32 = -9;

pub const CODE_UNSUFFICIENT_MEMORY: i32 = -100007;

pub const CODE_DATA_ERROR: i32 = -100008;

pub const CODE_IO_ERROR: i32 = -100009;

pub const CODE_CANCELLED_BY_CALLBACK: i32 = -100010;

pub const CODE_BAD_CROP: i32 = -100011;

pub const CODE_TOO_BIG: i32 = -100012;

pub const CODE_MEMPOOL_OVERFLOW: i32 = -100013;

/// The closed taxonomy of engine statuses. `Success` is not an error;
/// `Unknown` carries an unrecognized status code losslessly.
#[derive(Debug, Clone, PartialEq, Eq, Structural)]
pub enum Error {
    Success,
    Unspecified,
    FileUnsupported,
    RequestForNonexistentImage,
    OutOfOrderCall,
    NoThumbnail,
    UnsupportedThumbnail,
    InputClosed,
    NotImplemented,
    RequestForNonexistentThumbnail,
    UnsufficientMemory,
    Data,
    Io,
    CancelledByCallback,
    BadCrop,
    TooBig,
    MempoolOverflow,
    Unknown(i32),
}

/// Which taxonomy value a status code denotes.
pub open spec fn classify_spec(code: i32) -> Error {
    if code == CODE_SUCCESS {
        Error::Success
    } else if code == CODE_UNSPECIFIED {
        Error::Unspecified
    } else if code == CODE_FILE_UNSUPPORTED {
        Error::FileUnsupported
    } else if code == CODE_REQUEST_FOR_NONEXISTENT_IMAGE {
        Error::RequestForNonexistentImage
    } else if code == CODE_OUT_OF_ORDER_CALL {
        Error::OutOfOrderCall
    } else if code == CODE_NO_THUMBNAIL {
        Error::NoThumbnail
    } else if code == CODE_UNSUPPORTED_THUMBNAIL {
        Error::UnsupportedThumbnail
    } else if code == CODE_INPUT_CLOSED {
        Error::InputClosed
    } else if code == CODE_NOT_IMPLEMENTED {
        Error::NotImplemented
    } else if code == CODE_REQUEST_FOR_NONEXISTENT_THUMBNAIL {
        Error::RequestForNonexistentThumbnail
    } else if code == CODE_UNSUFFICIENT_MEMORY {
        Error::UnsufficientMemory
    } else if code == CODE_DATA_ERROR {
        Error::Data
    } else if code == CODE_IO_ERROR {
        Error::Io
    } else if code == CODE_CANCELLED_BY_CALLBACK {
        Error::CancelledByCallback
    } else if code == CODE_BAD_CROP {
        Error::BadCrop
    } else if code == CODE_TOO_BIG {
        Error::TooBig
    } else if code == CODE_MEMPOOL_OVERFLOW {
        Error::MempoolOverflow
    } else {
        Error::Unknown(code)
    }
}

/// Whether a status code belongs to the engine's published status set.
pub open spec fn is_known_code(code: i32) -> bool {
    !(classify_spec(code) is Unknown)
}

/// The fixed display tag of each taxonomy value. `Unknown` renders as a
/// generic tag whatever code it carries.
pub open spec fn tag_spec(e: Error) -> Seq<char> {
    match e {
        Error::Success => "Success"@,
        Error::Unspecified => "UnspecifiedError"@,
        Error::FileUnsupported => "FileUnsupported"@,
        Error::RequestForNonexistentImage => "RequestForNonexistentImage"@,
        Error::OutOfOrderCall => "OutOfOrderCall"@,
        Error::NoThumbnail => "NoThumbnail"@,
        Error::UnsupportedThumbnail => "UnsupportedThumbnail"@,
        Error::InputClosed => "InputClosed"@,
        Error::NotImplemented => "NotImplemented"@,
        Error::RequestForNonexistentThumbnail => "RequestForNonexistentThumbnail"@,
        Error::UnsufficientMemory => "UnsufficientMemory"@,
        Error::Data => "DataError"@,
        Error::Io => "IoError"@,
        Error::CancelledByCallback => "CancelledByCallback"@,
        Error::BadCrop => "BadCrop"@,
        Error::TooBig => "TooBig"@,
        Error::MempoolOverflow => "MempoolOverflow"@,
        Error::Unknown(_) => "Unknown"@,
    }
}

impl Error {
    /// Total classification: every status code yields exactly one taxonomy
    /// value, and codes outside the known set keep their value in `Unknown`.
    pub fn classify(code: i32) -> (r: Error)
        ensures
            r == classify_spec(code),
    {
        if code == CODE_SUCCESS {
            Error::Success
        } else if code == CODE_UNSPECIFIED {
            Error::Unspecified
        } else if code == CODE_FILE_UNSUPPORTED {
            Error::FileUnsupported
        } else if code == CODE_REQUEST_FOR_NONEXISTENT_IMAGE {
            Error::RequestForNonexistentImage
        } else if code == CODE_OUT_OF_ORDER_CALL {
            Error::OutOfOrderCall
        } else if code == CODE_NO_THUMBNAIL {
            Error::NoThumbnail
        } else if code == CODE_UNSUPPORTED_THUMBNAIL {
            Error::UnsupportedThumbnail
        } else if code == CODE_INPUT_CLOSED {
            Error::InputClosed
        } else if code == CODE_NOT_IMPLEMENTED {
            Error::NotImplemented
        } else if code == CODE_REQUEST_FOR_NONEXISTENT_THUMBNAIL {
            Error::RequestForNonexistentThumbnail
        } else if code == CODE_UNSUFFICIENT_MEMORY {
            Error::UnsufficientMemory
        } else if code == CODE_DATA_ERROR {
            Error::Data
        } else if code == CODE_IO_ERROR {
            Error::Io
        } else if code == CODE_CANCELLED_BY_CALLBACK {
            Error::CancelledByCallback
        } else if code == CODE_BAD_CROP {
            Error::BadCrop
        } else if code == CODE_TOO_BIG {
            Error::TooBig
        } else if code == CODE_MEMPOOL_OVERFLOW {
            Error::MempoolOverflow
        } else {
            Error::Unknown(code)
        }
    }

    /// Success test: `Ok` exactly on the success code, and every other code
    /// propagates its own classification as the failure value.
    pub fn check(code: i32) -> (r: Result<(), Error>)
        ensures
            code == CODE_SUCCESS ==> r == Ok::<(), Error>(()),
            code != CODE_SUCCESS ==> r == Err::<(), Error>(classify_spec(code)),
    {
        let err = Error::classify(code);
        match err {
            Error::Success => Ok(()),
            _ => Err(err),
        }
    }

    /// The fixed human-readable tag of this taxonomy value.
    pub fn repr(&self) -> (r: &'static str)
        ensures
            r@ == tag_spec(*self),
    {
        match self {
            Error::Success => "Success",
            Error::Unspecified => "UnspecifiedError",
            Error::FileUnsupported => "FileUnsupported",
            Error::RequestForNonexistentImage => "RequestForNonexistentImage",
            Error::OutOfOrderCall => "OutOfOrderCall",
            Error::NoThumbnail => "NoThumbnail",
            Error::UnsupportedThumbnail => "UnsupportedThumbnail",
            Error::InputClosed => "InputClosed",
            Error::NotImplemented => "NotImplemented",
            Error::RequestForNonexistentThumbnail => "RequestForNonexistentThumbnail",
            Error::UnsufficientMemory => "UnsufficientMemory",
            Error::Data => "DataError",
            Error::Io => "IoError",
            Error::CancelledByCallback => "CancelledByCallback",
            Error::BadCrop => "BadCrop",
            Error::TooBig => "TooBig",
            Error::MempoolOverflow => "MempoolOverflow",
            Error::Unknown(_) => "Unknown",
        }
    }
}

/// Classification loses nothing: a code outside the known set classifies to
/// `Unknown` carrying that very code, and a code never classifies to an
/// `Unknown` carrying any other value.
pub proof fn lemma_unknown_round_trip(code: i32)
    ensures
        !is_known_code(code) ==> classify_spec(code) == Error::Unknown(code),
        forall|c: i32| classify_spec(code) == Error::Unknown(c) ==> c == code,
{
}

} // verus!
