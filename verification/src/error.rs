//! The closed set of errors that the engine can report.

use vstd::prelude::*;
use vstd::std_specs::convert::FromSpecImpl;

verus! {

/// Result of an operation that may fail with a [`CodecError`].
pub type VPXResult<T> = Result<T, CodecError>;

/// Status code of an engine call that completed without error.
pub const VPX_CODEC_OK: u32 = 0;

/// Status code: unspecified error.
pub const VPX_CODEC_ERROR: u32 = 1;

/// Status code: memory operation failed.
pub const VPX_CODEC_MEM_ERROR: u32 = 2;

/// Status code: ABI version mismatch.
pub const VPX_CODEC_ABI_MISMATCH: u32 = 3;

/// Status code: algorithm does not have the required capability.
pub const VPX_CODEC_INCAPABLE: u32 = 4;

/// Status code: the bitstream could not be parsed at the highest level.
pub const VPX_CODEC_UNSUP_BITSTREAM: u32 = 5;

/// Status code: the bitstream uses a feature that is not implemented.
pub const VPX_CODEC_UNSUP_FEATURE: u32 = 6;

/// Status code: the coded data of the current frame is corrupt.
pub const VPX_CODEC_CORRUPT_FRAME: u32 = 7;

/// Status code: an application-supplied parameter is not valid.
pub const VPX_CODEC_INVALID_PARAM: u32 = 8;

/// Status code: an iterator reached the end of its list.
pub const VPX_CODEC_LIST_END: u32 = 9;

/// Corresponds to the `vpx_codec_err_t` enum of the engine, variant by
/// variant and in the same order.
#[derive(Clone, Copy, Eq, PartialEq, Debug, Structural)]
pub enum CodecError {
    /// Operation completed without error.
    NoError,
    /// Unspecified error.
    Unspecified,
    /// Memory operation failed.
    Mem,
    /// ABI version mismatch.
    AbiMismatch,
    /// Algorithm does not have required capability.
    Incapable,
    /// The bitstream was unable to be parsed at the highest level. The decoder is unable to
    /// proceed. This error SHOULD be treated as fatal to the stream.
    UnsupportedBitstream,
    /// The decoder does not implement a feature required by the encoder. This return code should
    /// only be used for features that prevent future pictures from being properly decoded. This
    /// error MAY be treated as fatal to the stream or MAY be treated as fatal to the current GOP.
    UnsupportedFrame,
    /// There was a problem decoding the current frame. This return code should only be used for
    /// failures that prevent future pictures from being properly decoded. This error MAY be
    /// treated as fatal to the stream or MAY be treated as fatal to the current GOP. If decoding
    /// is continued for the current GOP, artifacts may be present.
    CorruptFrame,
    /// An application-supplied parameter is not valid.
    InvalidParam,
    /// An iterator reached the end of list.
    ListEnd,
}

/// The variant that stands for a status code. The ten codes of the engine
/// are taken in order; any other number is an error of no known kind.
pub open spec fn error_of_status(status: u32) -> CodecError {
    if status == VPX_CODEC_OK {
        CodecError::NoError
    } else if status == VPX_CODEC_MEM_ERROR {
        CodecError::Mem
    } else if status == VPX_CODEC_ABI_MISMATCH {
        CodecError::AbiMismatch
    } else if status == VPX_CODEC_INCAPABLE {
        CodecError::Incapable
    } else if status == VPX_CODEC_UNSUP_BITSTREAM {
        CodecError::UnsupportedBitstream
    } else if status == VPX_CODEC_UNSUP_FEATURE {
        CodecError::UnsupportedFrame
    } else if status == VPX_CODEC_CORRUPT_FRAME {
        CodecError::CorruptFrame
    } else if status == VPX_CODEC_INVALID_PARAM {
        CodecError::InvalidParam
    } else if status == VPX_CODEC_LIST_END {
        CodecError::ListEnd
    } else {
        CodecError::Unspecified
    }
}

impl CodecError {
    /// The status code that the engine uses for this variant.
    pub open spec fn status(self) -> u32 {
        match self {
            CodecError::NoError => VPX_CODEC_OK,
            CodecError::Unspecified => VPX_CODEC_ERROR,
            CodecError::Mem => VPX_CODEC_MEM_ERROR,
            CodecError::AbiMismatch => VPX_CODEC_ABI_MISMATCH,
            CodecError::Incapable => VPX_CODEC_INCAPABLE,
            CodecError::UnsupportedBitstream => VPX_CODEC_UNSUP_BITSTREAM,
            CodecError::UnsupportedFrame => VPX_CODEC_UNSUP_FEATURE,
            CodecError::CorruptFrame => VPX_CODEC_CORRUPT_FRAME,
            CodecError::InvalidParam => VPX_CODEC_INVALID_PARAM,
            CodecError::ListEnd => VPX_CODEC_LIST_END,
        }
    }

    /// The sentence that describes this variant.
    pub open spec fn description_text(self) -> Seq<char> {
        match self {
            CodecError::NoError => "No error occurred"@,
            CodecError::Unspecified => "Unspecified error"@,
            CodecError::Mem => "Memory operation failed"@,
            CodecError::AbiMismatch => "ABI version mismatch"@,
            CodecError::Incapable => "Algorithm does not have required capability"@,
            CodecError::UnsupportedBitstream => "The given bitstream is not supported"@,
            CodecError::UnsupportedFrame => "Encoded bitstream uses an unsupported feature"@,
            CodecError::CorruptFrame => "The coded data for this stream is corrupt or incomplete"@,
            CodecError::InvalidParam => "An application-supplied parameter is not valid"@,
            CodecError::ListEnd => "An iterator reached the end of list"@,
        }
    }

    /// A short human-readable description of the error.
    pub fn description(&self) -> (text: &'static str)
        ensures
            text@ == self.description_text(),
    {
        match *self {
            CodecError::NoError => "No error occurred",
            CodecError::Unspecified => "Unspecified error",
            CodecError::Mem => "Memory operation failed",
            CodecError::AbiMismatch => "ABI version mismatch",
            CodecError::Incapable => "Algorithm does not have required capability",
            CodecError::UnsupportedBitstream => "The given bitstream is not supported",
            CodecError::UnsupportedFrame => "Encoded bitstream uses an unsupported feature",
            CodecError::CorruptFrame => "The coded data for this stream is corrupt or incomplete",
            CodecError::InvalidParam => "An application-supplied parameter is not valid",
            CodecError::ListEnd => "An iterator reached the end of list",
        }
    }
}

impl From<u32> for CodecError {
    /// The variant that a status code of the engine stands for.
    fn from(v: u32) -> (e: CodecError) {
        if v == VPX_CODEC_OK {
            CodecError::NoError
        } else if v == VPX_CODEC_MEM_ERROR {
            CodecError::Mem
        } else if v == VPX_CODEC_ABI_MISMATCH {
            CodecError::AbiMismatch
        } else if v == VPX_CODEC_INCAPABLE {
            CodecError::Incapable
        } else if v == VPX_CODEC_UNSUP_BITSTREAM {
            CodecError::UnsupportedBitstream
        } else if v == VPX_CODEC_UNSUP_FEATURE {
            CodecError::UnsupportedFrame
        } else if v == VPX_CODEC_CORRUPT_FRAME {
            CodecError::CorruptFrame
        } else if v == VPX_CODEC_INVALID_PARAM {
            CodecError::InvalidParam
        } else if v == VPX_CODEC_LIST_END {
            CodecError::ListEnd
        } else {
            CodecError::Unspecified
        }
    }
}

impl FromSpecImpl<u32> for CodecError {
    open spec fn obeys_from_spec() -> bool {
        true
    }

    open spec fn from_spec(v: u32) -> CodecError {
        error_of_status(v)
    }
}

/// Turns the status of an engine call into a result: the status itself when
/// it reports success, the matching error otherwise.
pub fn check_err(value: u32) -> (res: VPXResult<u32>)
    ensures
        value == VPX_CODEC_OK ==> res == Ok::<u32, CodecError>(value),
        value != VPX_CODEC_OK ==> res == Err::<u32, CodecError>(error_of_status(value)),
{
    if value != VPX_CODEC_OK {
        Err(CodecError::from(value))
    } else {
        Ok(value)
    }
}

/// Every status code of the engine stands for exactly one variant: the
/// variant of a known code leads back to that code, so no two known
/// codes share a variant, and every variant is the variant of its code.
pub proof fn lemma_status_mapping_exact(status: u32, e: CodecError)
    ensures
        status <= VPX_CODEC_LIST_END ==> error_of_status(status).status() == status,
        error_of_status(e.status()) == e,
        e.status() <= VPX_CODEC_LIST_END,
        status <= VPX_CODEC_LIST_END ==> (error_of_status(status) == e <==> status == e.status()),
{
}

/// The mapping is total: a number that is none of the engine's codes is
/// reported as an error of unspecified kind, and only the success code is
/// ever mapped to `NoError`.
pub proof fn lemma_status_mapping_total(status: u32)
    ensures
        status > VPX_CODEC_LIST_END ==> error_of_status(status) == CodecError::Unspecified,
        error_of_status(status) == CodecError::NoError <==> status == VPX_CODEC_OK,
        error_of_status(status) == CodecError::ListEnd <==> status == VPX_CODEC_LIST_END,
{
}

} // verus!
