use vpx::error::{check_err, CodecError};

#[test]
fn every_status_code_has_its_variant() {
    assert_eq!(CodecError::from(0), CodecError::NoError);
    assert_eq!(CodecError::from(1), CodecError::Unspecified);
    assert_eq!(CodecError::from(2), CodecError::Mem);
    assert_eq!(CodecError::from(3), CodecError::AbiMismatch);
    assert_eq!(CodecError::from(4), CodecError::Incapable);
    assert_eq!(CodecError::from(5), CodecError::UnsupportedBitstream);
    assert_eq!(CodecError::from(6), CodecError::UnsupportedFrame);
    assert_eq!(CodecError::from(7), CodecError::CorruptFrame);
    assert_eq!(CodecError::from(8), CodecError::InvalidParam);
    assert_eq!(CodecError::from(9), CodecError::ListEnd);
}

#[test]
fn no_two_status_codes_share_a_variant() {
    for a in 0u32..10 {
        for b in 0u32..10 {
            if a != b {
                assert_ne!(CodecError::from(a), CodecError::from(b));
            }
        }
    }
}

#[test]
fn unknown_status_codes_are_unspecified_errors() {
    assert_eq!(CodecError::from(10), CodecError::Unspecified);
    assert_eq!(CodecError::from(256), CodecError::Unspecified);
    assert_eq!(CodecError::from(u32::MAX), CodecError::Unspecified);
}

#[test]
fn check_err_passes_success_through() {
    assert_eq!(check_err(0), Ok(0));
}

#[test]
fn check_err_reports_every_failure() {
    assert_eq!(check_err(1), Err(CodecError::Unspecified));
    assert_eq!(check_err(2), Err(CodecError::Mem));
    assert_eq!(check_err(3), Err(CodecError::AbiMismatch));
    assert_eq!(check_err(4), Err(CodecError::Incapable));
    assert_eq!(check_err(5), Err(CodecError::UnsupportedBitstream));
    assert_eq!(check_err(6), Err(CodecError::UnsupportedFrame));
    assert_eq!(check_err(7), Err(CodecError::CorruptFrame));
    assert_eq!(check_err(8), Err(CodecError::InvalidParam));
    assert_eq!(check_err(9), Err(CodecError::ListEnd));
    assert_eq!(check_err(1000), Err(CodecError::Unspecified));
}

#[test]
fn descriptions_are_the_documented_sentences() {
    assert_eq!(CodecError::NoError.description(), "No error occurred");
    assert_eq!(CodecError::Unspecified.description(), "Unspecified error");
    assert_eq!(CodecError::Mem.description(), "Memory operation failed");
    assert_eq!(CodecError::AbiMismatch.description(), "ABI version mismatch");
    assert_eq!(
        CodecError::Incapable.description(),
        "Algorithm does not have required capability"
    );
    assert_eq!(
        CodecError::UnsupportedBitstream.description(),
        "The given bitstream is not supported"
    );
    assert_eq!(
        CodecError::UnsupportedFrame.description(),
        "Encoded bitstream uses an unsupported feature"
    );
    assert_eq!(
        CodecError::CorruptFrame.description(),
        "The coded data for this stream is corrupt or incomplete"
    );
    assert_eq!(
        CodecError::InvalidParam.description(),
        "An application-supplied parameter is not valid"
    );
    assert_eq!(
        CodecError::ListEnd.description(),
        "An iterator reached the end of list"
    );
}

#[test]
fn errors_print_as_their_names() {
    assert_eq!(format!("{:?}", CodecError::AbiMismatch), "AbiMismatch");
    assert_eq!(format!("{:?}", CodecError::ListEnd), "ListEnd");
}
