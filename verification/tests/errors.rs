use icinga2ctl::error::{exit_code, CtlError, ErrorClass, ErrorKind};

#[test]
fn errors_belong_to_four_classes() {
    assert_eq!(ErrorKind::Transport.class(), ErrorClass::Transport);
    assert_eq!(ErrorKind::Decode.class(), ErrorClass::Decode);
    for kind in [
        ErrorKind::StatusNotOk,
        ErrorKind::StatusNotOkOrServerError,
        ErrorKind::StatusNotOkForNamed,
    ] {
        assert_eq!(kind.class(), ErrorClass::UnexpectedStatus);
    }
    for kind in [
        ErrorKind::MissingSelector,
        ErrorKind::InvalidAckOption,
        ErrorKind::MissingComment,
        ErrorKind::NoEffectiveUser,
        ErrorKind::UserNameNotUnicode,
        ErrorKind::InvalidExpireTime,
        ErrorKind::InvalidStartTime,
        ErrorKind::InvalidEndTime,
        ErrorKind::InvalidCheckTime,
        ErrorKind::MissingStartTime,
        ErrorKind::MissingEndTime,
        ErrorKind::InvalidDuration,
        ErrorKind::NonPositiveDuration,
        ErrorKind::FlexibleWithoutDuration,
        ErrorKind::AllServicesWithService,
        ErrorKind::InvalidChildOption,
        ErrorKind::MissingNameOrSelector,
        ErrorKind::NameWithSelector,
        ErrorKind::MissingCommonName,
        ErrorKind::UnknownCommand,
        ErrorKind::NoConfigDirectory,
        ErrorKind::UnreadableConfiguration,
        ErrorKind::MissingUrl,
        ErrorKind::MissingAuthUser,
        ErrorKind::MissingAuthPassword,
        ErrorKind::MissingAuthCertificate,
        ErrorKind::InvalidAuthMethod,
        ErrorKind::InvalidAuthType,
        ErrorKind::InvalidBoolean,
        ErrorKind::InvalidUrl,
        ErrorKind::InvalidScheme,
        ErrorKind::MissingHost,
    ] {
        assert_eq!(kind.class(), ErrorClass::Validation);
        assert_eq!(CtlError::plain(kind).class(), ErrorClass::Validation);
    }
}

#[test]
fn message_is_the_kinds_words_around_the_detail() {
    let error = CtlError::new(ErrorKind::MissingComment, "Downtime");
    assert_eq!(error.kind, ErrorKind::MissingComment);
    assert_eq!(error.detail, "Downtime");
    assert_eq!(error.message(), "Downtime comment is mandatory");
    assert_eq!(
        format!("{}{}{}", error.kind.prefix(), error.detail, error.kind.suffix()),
        error.message()
    );
    let error = CtlError::new(ErrorKind::MissingSelector, " for status display");
    assert_eq!(error.message(), "Provide a host and/or service for status display");
    let error = CtlError::plain(ErrorKind::MissingHost);
    assert_eq!(error.detail, "");
    assert_eq!(error.message(), "Missing host in URL");
}

#[test]
fn errors_from_outside_speak_for_themselves() {
    let error = CtlError::new(ErrorKind::Transport, "connection refused");
    assert_eq!(error.message(), "connection refused");
    assert_eq!(error.error_line(), "Error: connection refused");
    assert_eq!(error.class(), ErrorClass::Transport);
    let error = CtlError::new(ErrorKind::Decode, "expected value at line 1 column 1");
    assert_eq!(error.message(), "expected value at line 1 column 1");
    assert_eq!(error.class(), ErrorClass::Decode);
    let error = CtlError::new(ErrorKind::UnreadableConfiguration, "No such file or directory");
    assert_eq!(error.message(), "No such file or directory");
}

#[test]
fn error_line_has_a_prefix() {
    let error = CtlError::new(ErrorKind::InvalidAckOption, "perhaps");
    assert_eq!(error.error_line(), "Error: Invalid value for acknowledgement option: perhaps");
}

#[test]
fn exit_code_is_zero_unless_the_command_failed() {
    assert_eq!(exit_code(&Ok(())), 0);
    for kind in [
        ErrorKind::MissingSelector,
        ErrorKind::Transport,
        ErrorKind::StatusNotOk,
        ErrorKind::Decode,
    ] {
        assert_eq!(exit_code(&Err(CtlError::plain(kind))), 1);
    }
}
