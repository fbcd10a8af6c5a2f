use icinga2ctl::command::add_ack::{self, AckFlags, AddAckOptions};
use icinga2ctl::command::add_comment::{self, AddCommentOptions};
use icinga2ctl::command::add_downtime::{
    self, check_duration, read_child_option, read_duration, service_scope, AddDowntimeOptions,
    ChildOption, ServiceScope, Window,
};
use icinga2ctl::command::author::{lookup_if_needed, resolve_author, UserLookup};
use icinga2ctl::command::del_ack::{self, DelAckOptions};
use icinga2ctl::command::del_comment;
use icinga2ctl::command::del_downtime;
use icinga2ctl::command::generate_ticket::{self, GenerateTicketOptions};
use icinga2ctl::command::payload::{push_bare_field, push_text_field, start_payload};
use icinga2ctl::command::removal::{self, Removable, RemovalOptions, RemovalTarget};
use icinga2ctl::command::reply::{
    interpret_status, unexpected_status, Command, Disposition, StatusPolicy,
};
use icinga2ctl::command::reschedule_check::{self, RescheduleCheckOptions};
use icinga2ctl::command::selector::{ObjectSelector, TargetKind};
use icinga2ctl::command::status::{self, query_request, StatusOptions};
use icinga2ctl::command::time::{epoch_seconds, read_optional_time, read_required_time};
use icinga2ctl::error::{ErrorClass, ErrorKind};

fn ack_options() -> AddAckOptions {
    AddAckOptions {
        host: "web1".to_string(),
        service: String::new(),
        comment: Some("maint".to_string()),
        author: Some("alice".to_string()),
        expire: String::new(),
        sticky: false,
        persistent: false,
        no_notification: false,
        warning: false,
        critical: false,
        unknown: false,
    }
}

fn downtime_options() -> AddDowntimeOptions {
    AddDowntimeOptions {
        host: "web1".to_string(),
        service: String::new(),
        comment: Some("kernel update".to_string()),
        author: Some("alice".to_string()),
        start: "2020-11-09T12:54:11Z".to_string(),
        end: "2020-11-09T23:11:12+02:00".to_string(),
        duration: None,
        all_services: false,
        fixed: true,
        trigger: String::new(),
        child_opts: None,
    }
}

fn removal_options(name: &str, host: &str, service: &str, author: &str) -> RemovalOptions {
    RemovalOptions {
        host: host.to_string(),
        service: service.to_string(),
        author: author.to_string(),
        name: name.to_string(),
    }
}

#[test]
fn rfc3339_becomes_epoch_seconds() {
    assert_eq!(
        epoch_seconds("2020-11-09T12:54:11Z", ErrorKind::InvalidStartTime).unwrap(),
        "1604926451"
    );
    assert_eq!(
        epoch_seconds("2020-11-09T23:11:12+02:00", ErrorKind::InvalidEndTime).unwrap(),
        "1604956272"
    );
    assert_eq!(
        epoch_seconds("2001-09-09T01:46:40Z", ErrorKind::InvalidCheckTime).unwrap(),
        "1000000000"
    );
}

#[test]
fn text_that_is_no_time_is_refused() {
    for text in ["tomorrow", "2020-11-09", "2020-11-09 12:54:11", "2020-13-09T12:54:11Z", ""] {
        let error = epoch_seconds(text, ErrorKind::InvalidExpireTime).unwrap_err();
        assert_eq!(error.kind, ErrorKind::InvalidExpireTime);
        assert!(!error.detail.is_empty());
        assert_eq!(
            error.message(),
            format!("Can't parse expiration time as RFC3339 time: {}", error.detail)
        );
    }
}

#[test]
fn times_may_or_must_be_given() {
    assert_eq!(read_optional_time("", ErrorKind::InvalidCheckTime).unwrap(), None);
    assert_eq!(
        read_optional_time("2021-01-01T00:00:00Z", ErrorKind::InvalidCheckTime).unwrap(),
        Some("1609459200".to_string())
    );
    assert_eq!(
        read_optional_time("soon", ErrorKind::InvalidCheckTime).unwrap_err().kind,
        ErrorKind::InvalidCheckTime
    );
    let error =
        read_required_time("", ErrorKind::MissingStartTime, ErrorKind::InvalidStartTime).unwrap_err();
    assert_eq!(error.kind, ErrorKind::MissingStartTime);
    assert_eq!(error.detail, "");
    assert_eq!(
        read_required_time("x", ErrorKind::MissingEndTime, ErrorKind::InvalidEndTime)
            .unwrap_err()
            .kind,
        ErrorKind::InvalidEndTime
    );
    assert_eq!(
        read_required_time(
            "2021-01-01T00:00:00Z",
            ErrorKind::MissingEndTime,
            ErrorKind::InvalidEndTime
        )
        .unwrap(),
        "1609459200"
    );
}

#[test]
fn given_author_is_taken() {
    let given = Some("alice".to_string());
    assert_eq!(resolve_author(&given, &UserLookup::Unavailable, "comment").unwrap(), "alice");
    assert_eq!(
        resolve_author(&given, &UserLookup::Name("root".to_string()), "comment").unwrap(),
        "alice"
    );
    assert!(matches!(lookup_if_needed(&given), UserLookup::Unavailable));
    let empty = Some(String::new());
    assert_eq!(resolve_author(&empty, &UserLookup::Unavailable, "comment").unwrap(), "");
}

#[test]
fn effective_user_is_the_default_author() {
    assert_eq!(
        resolve_author(&None, &UserLookup::Name("operator".to_string()), "downtime").unwrap(),
        "operator"
    );
}

#[test]
fn no_author_without_effective_user() {
    let error = resolve_author(&None, &UserLookup::Unavailable, "acknowledgement").unwrap_err();
    assert_eq!(error.kind, ErrorKind::NoEffectiveUser);
    assert_eq!(error.class(), ErrorClass::Validation);
    assert_eq!(
        error.message(),
        "Can't get effective user name from operating system. Please provide the author of the acknowledgement using the --author option"
    );
    let error =
        resolve_author(&None, &UserLookup::NotUnicode("\"op\\xFF\"".to_string()), "comment").unwrap_err();
    assert_eq!(error.kind, ErrorKind::UserNameNotUnicode);
    assert_eq!(
        error.message(),
        "Can't convert effective user name into a String: \"op\\xFF\""
    );
}

#[test]
fn lookup_of_effective_user_gives_some_answer() {
    match lookup_if_needed(&None) {
        UserLookup::Name(name) => {
            let opts = AddAckOptions { author: None, ..ack_options() };
            let with = add_ack::request_with(&opts, &UserLookup::Name(name.clone())).unwrap();
            assert!(with.body.contains(format!("\"author\":\"{}\"", name).as_str()));
        }
        UserLookup::NotUnicode(_) | UserLookup::Unavailable => {
            let opts = AddAckOptions { author: None, ..ack_options() };
            assert!(add_ack::request(&opts).is_err());
        }
    }
}

#[test]
fn add_ack_with_all_options() {
    let opts = AddAckOptions {
        host: "web*".to_string(),
        service: "disk".to_string(),
        expire: "2020-11-09T23:11:12+02:00".to_string(),
        sticky: true,
        persistent: true,
        no_notification: true,
        warning: true,
        critical: true,
        unknown: false,
        ..ack_options()
    };
    let request = add_ack::request(&opts).unwrap();
    assert_eq!(request.path, "/v1/actions/acknowledge-problem");
    assert_eq!(
        request.body,
        "{\"type\":\"Service\",\"filter\":\"match(\\\"web*\\\", host.name) && match(\\\"disk\\\", service.name) && service.state_type == 1 && (service.state ==1 || service.state ==2)\",\"author\":\"alice\",\"comment\":\"maint\",\"expiry\":1604956272,\"sticky\":true,\"notify\":false,\"persistent\":true}"
    );
}

#[test]
fn add_ack_payload_from_its_parts() {
    let flags = AckFlags { sticky: false, notify: true, persistent: false };
    assert_eq!(
        add_ack::payload(TargetKind::Host, "f", "a", "c", &None, flags),
        "{\"type\":\"Host\",\"filter\":\"f\",\"author\":\"a\",\"comment\":\"c\",\"sticky\":false,\"notify\":true,\"persistent\":false}"
    );
    assert_eq!(
        add_ack::payload(TargetKind::Service, "f", "a", "c", &Some("12".to_string()), flags),
        "{\"type\":\"Service\",\"filter\":\"f\",\"author\":\"a\",\"comment\":\"c\",\"expiry\":12,\"sticky\":false,\"notify\":true,\"persistent\":false}"
    );
}

#[test]
fn add_ack_checks_in_order() {
    let no_comment = AddAckOptions {
        comment: None,
        author: None,
        expire: "never".to_string(),
        host: String::new(),
        ..ack_options()
    };
    let error = add_ack::request_with(&no_comment, &UserLookup::Unavailable).unwrap_err();
    assert_eq!(error.kind, ErrorKind::MissingComment);
    assert_eq!(error.message(), "Acknowledgement comment is mandatory");

    let no_author = AddAckOptions { author: None, expire: "never".to_string(), ..ack_options() };
    let error = add_ack::request_with(&no_author, &UserLookup::Unavailable).unwrap_err();
    assert_eq!(error.kind, ErrorKind::NoEffectiveUser);
    assert_eq!(error.detail, "acknowledgement");

    let bad_expire = AddAckOptions { expire: "never".to_string(), host: String::new(), ..ack_options() };
    let error = add_ack::request(&bad_expire).unwrap_err();
    assert_eq!(error.kind, ErrorKind::InvalidExpireTime);

    let no_selector = AddAckOptions { host: String::new(), ..ack_options() };
    let error = add_ack::request(&no_selector).unwrap_err();
    assert_eq!(error.kind, ErrorKind::MissingSelector);
    assert_eq!(error.message(), "Provide a host and/or service for status display");
}

#[test]
fn add_ack_by_effective_user() {
    let opts = AddAckOptions { author: None, ..ack_options() };
    let request = add_ack::request_with(&opts, &UserLookup::Name("operator".to_string())).unwrap();
    assert_eq!(
        request.body,
        "{\"type\":\"Host\",\"filter\":\"match(\\\"web1\\\", host.name) && host.state_type == 1\",\"author\":\"operator\",\"comment\":\"maint\",\"sticky\":false,\"notify\":true,\"persistent\":false}"
    );
}

#[test]
fn del_ack_payload() {
    let opts = DelAckOptions {
        host: String::new(),
        service: "disk".to_string(),
        author: Some("alice".to_string()),
        warning: false,
        critical: false,
        unknown: true,
    };
    let request = del_ack::request(&opts).unwrap();
    assert_eq!(request.method_override, "");
    assert_eq!(request.path, "/v1/actions/remove-acknowledgement");
    assert_eq!(request.query, "");
    assert_eq!(
        request.body,
        "{\"type\":\"Service\",\"filter\":\"match(\\\"disk\\\", service.name) && service.state_type == 1 && (service.state ==3)\",\"author\":\"alice\"}"
    );
    assert_eq!(del_ack::payload(TargetKind::Host, "f", "a"), "{\"type\":\"Host\",\"filter\":\"f\",\"author\":\"a\"}");
}

#[test]
fn del_ack_checks_in_order() {
    let opts = DelAckOptions {
        host: String::new(),
        service: String::new(),
        author: None,
        warning: false,
        critical: false,
        unknown: false,
    };
    let error = del_ack::request_with(&opts, &UserLookup::Unavailable).unwrap_err();
    assert_eq!(error.kind, ErrorKind::NoEffectiveUser);
    let error = del_ack::request_with(&opts, &UserLookup::Name("op".to_string())).unwrap_err();
    assert_eq!(error.kind, ErrorKind::MissingSelector);
    assert_eq!(error.message(), "Provide a host and/or service for acknowledgement deletion");
}

#[test]
fn add_comment_payload() {
    let opts = AddCommentOptions {
        host: "web1".to_string(),
        service: "disk".to_string(),
        comment: Some("looking into it".to_string()),
        author: Some("alice".to_string()),
    };
    let request = add_comment::request(&opts).unwrap();
    assert_eq!(request.path, "/v1/actions/add-comment");
    assert_eq!(
        request.body,
        "{\"type\":\"Service\",\"filter\":\"match(\\\"web1\\\", host.name) && match(\\\"disk\\\", service.name)\",\"author\":\"alice\",\"comment\":\"looking into it\"}"
    );
}

#[test]
fn add_comment_checks_in_order() {
    let opts = AddCommentOptions {
        host: String::new(),
        service: String::new(),
        comment: None,
        author: None,
    };
    let error = add_comment::request_with(&opts, &UserLookup::Unavailable).unwrap_err();
    assert_eq!(error.kind, ErrorKind::MissingComment);
    assert_eq!(error.message(), "Comment comment is mandatory");
    let opts = AddCommentOptions { comment: Some("c".to_string()), ..opts };
    let error = add_comment::request_with(&opts, &UserLookup::Unavailable).unwrap_err();
    assert_eq!(error.kind, ErrorKind::NoEffectiveUser);
    assert_eq!(
        error.message(),
        "Can't get effective user name from operating system. Please provide the author of the comment using the --author option"
    );
    let error = add_comment::request_with(&opts, &UserLookup::Name("op".to_string())).unwrap_err();
    assert_eq!(error.kind, ErrorKind::MissingSelector);
    assert_eq!(error.message(), "Provide a host and/or service for comment addition");
}

#[test]
fn fixed_downtime_payload() {
    let request = add_downtime::request(&downtime_options()).unwrap();
    assert_eq!(request.path, "/v1/actions/schedule-downtime");
    assert_eq!(request.method_override, "");
    assert_eq!(request.query, "");
    assert_eq!(
        request.body,
        "{\"type\":\"Host\",\"filter\":\"match(\\\"web1\\\", host.name)\",\"author\":\"alice\",\"comment\":\"kernel update\",\"start_time\":\"1604926451\",\"end_time\":\"1604956272\",\"fixed\":true,\"all_services\":false,\"child_options\":\"DowntimeNoChildren\"}"
    );
}

#[test]
fn flexible_downtime_payload() {
    let opts = AddDowntimeOptions {
        service: "disk".to_string(),
        duration: Some("3600".to_string()),
        fixed: false,
        trigger: "web1!4711".to_string(),
        child_opts: Some("DowntimeTriggeredChildren".to_string()),
        ..downtime_options()
    };
    let request = add_downtime::request(&opts).unwrap();
    assert_eq!(
        request.body,
        "{\"type\":\"Service\",\"filter\":\"match(\\\"web1\\\", host.name) && match(\\\"disk\\\", service.name)\",\"author\":\"alice\",\"comment\":\"kernel update\",\"start_time\":\"1604926451\",\"end_time\":\"1604956272\",\"fixed\":false,\"duration\":\"3600\",\"all_services\":false,\"trigger_name\":\"web1!4711\",\"child_options\":\"DowntimeTriggeredChildren\"}"
    );
}

#[test]
fn downtime_for_all_services_of_hosts() {
    let opts = AddDowntimeOptions {
        all_services: true,
        duration: Some("60".to_string()),
        child_opts: Some("downtimeNONtriggeredchildren".to_string()),
        ..downtime_options()
    };
    let request = add_downtime::request(&opts).unwrap();
    assert_eq!(
        request.body,
        "{\"type\":\"Host\",\"filter\":\"match(\\\"web1\\\", host.name)\",\"author\":\"alice\",\"comment\":\"kernel update\",\"start_time\":\"1604926451\",\"end_time\":\"1604956272\",\"fixed\":true,\"duration\":\"60\",\"all_services\":true,\"child_options\":\"DowntimeNonTriggeredChildren\"}"
    );
}

#[test]
fn downtime_payload_from_its_parts() {
    let window = Window {
        start: "1".to_string(),
        end: "2".to_string(),
        fixed: false,
        duration: Some(4294967295),
        all_services: true,
        trigger: String::new(),
        child: ChildOption::NoChildren,
    };
    assert_eq!(
        add_downtime::payload(TargetKind::Host, "f", "a", "c", &window),
        "{\"type\":\"Host\",\"filter\":\"f\",\"author\":\"a\",\"comment\":\"c\",\"start_time\":\"1\",\"end_time\":\"2\",\"fixed\":false,\"duration\":\"4294967295\",\"all_services\":true,\"child_options\":\"DowntimeNoChildren\"}"
    );
}

#[test]
fn duration_must_be_a_positive_number() {
    assert_eq!(read_duration(&None).unwrap(), None);
    assert_eq!(read_duration(&Some("1".to_string())).unwrap(), Some(1));
    assert_eq!(read_duration(&Some("+90".to_string())).unwrap(), Some(90));
    assert_eq!(read_duration(&Some("2147483647".to_string())).unwrap(), Some(2147483647));
    for text in ["0", "-1", "-2147483648"] {
        let error = read_duration(&Some(text.to_string())).unwrap_err();
        assert_eq!(error.kind, ErrorKind::NonPositiveDuration);
        assert_eq!(error.message(), "A duration of 0 or less is rather pointless");
    }
    for text in ["", "ten", "1.5", " 5", "2147483648", "5s"] {
        let error = read_duration(&Some(text.to_string())).unwrap_err();
        assert_eq!(error.kind, ErrorKind::InvalidDuration);
        assert!(error.message().starts_with("Can't convert duration into a number: "));
        assert!(!error.detail.is_empty());
    }
    assert_eq!(check_duration(Ok(5)).unwrap(), 5);
    assert_eq!(check_duration(Ok(0)).unwrap_err().kind, ErrorKind::NonPositiveDuration);
    let error = check_duration(Err("bad".to_string())).unwrap_err();
    assert_eq!(error.kind, ErrorKind::InvalidDuration);
    assert_eq!(error.detail, "bad");
}

#[test]
fn child_options_by_name_in_any_case() {
    assert_eq!(read_child_option(&None).unwrap(), ChildOption::NoChildren);
    assert_eq!(
        read_child_option(&Some("DowntimeNoChildren".to_string())).unwrap(),
        ChildOption::NoChildren
    );
    assert_eq!(
        read_child_option(&Some("DOWNTIMETRIGGEREDCHILDREN".to_string())).unwrap(),
        ChildOption::TriggeredChildren
    );
    assert_eq!(
        read_child_option(&Some("downtimenontriggeredchildren".to_string())).unwrap(),
        ChildOption::NonTriggeredChildren
    );
    let error = read_child_option(&Some("Trigger".to_string())).unwrap_err();
    assert_eq!(error.kind, ErrorKind::InvalidChildOption);
    assert_eq!(error.message(), "Invalid child option Trigger");
    assert_eq!(ChildOption::from_lowercase("DowntimeNoChildren"), None);
    assert_eq!(ChildOption::TriggeredChildren.payload_name(), "DowntimeTriggeredChildren");
}

#[test]
fn all_services_or_some_services() {
    assert_eq!(service_scope(false, "").unwrap(), ServiceScope::HostsOnly);
    assert_eq!(service_scope(true, "").unwrap(), ServiceScope::AllServices);
    assert_eq!(service_scope(false, "disk").unwrap(), ServiceScope::Matching);
    let error = service_scope(true, "disk").unwrap_err();
    assert_eq!(error.kind, ErrorKind::AllServicesWithService);
    assert_eq!(error.detail, "");
}

#[test]
fn add_downtime_checks_in_order() {
    let all_wrong = AddDowntimeOptions {
        host: String::new(),
        service: "disk".to_string(),
        comment: None,
        author: None,
        start: String::new(),
        end: "later".to_string(),
        duration: Some("0".to_string()),
        all_services: true,
        fixed: false,
        trigger: String::new(),
        child_opts: Some("none".to_string()),
    };
    let lookup = UserLookup::Unavailable;
    let error = add_downtime::request_with(&all_wrong, &lookup).unwrap_err();
    assert_eq!(error.kind, ErrorKind::MissingComment);
    assert_eq!(error.message(), "Downtime comment is mandatory");

    let opts = AddDowntimeOptions { comment: Some("c".to_string()), ..all_wrong };
    let error = add_downtime::request_with(&opts, &lookup).unwrap_err();
    assert_eq!(error.kind, ErrorKind::NoEffectiveUser);
    assert_eq!(error.detail, "downtime");

    let opts = AddDowntimeOptions { author: Some("a".to_string()), ..opts };
    let error = add_downtime::request(&opts).unwrap_err();
    assert_eq!(error.kind, ErrorKind::NonPositiveDuration);

    let opts = AddDowntimeOptions { duration: Some("x".to_string()), ..opts };
    assert_eq!(add_downtime::request(&opts).unwrap_err().kind, ErrorKind::InvalidDuration);

    let opts = AddDowntimeOptions { duration: None, ..opts };
    let error = add_downtime::request(&opts).unwrap_err();
    assert_eq!(error.kind, ErrorKind::InvalidChildOption);
    assert_eq!(error.detail, "none");

    let opts = AddDowntimeOptions { child_opts: None, ..opts };
    let error = add_downtime::request(&opts).unwrap_err();
    assert_eq!(error.kind, ErrorKind::MissingStartTime);
    assert_eq!(error.message(), "Downtime start time is mandatory");

    let opts = AddDowntimeOptions { start: "now".to_string(), ..opts };
    let error = add_downtime::request(&opts).unwrap_err();
    assert_eq!(error.kind, ErrorKind::InvalidStartTime);
    assert!(error.message().starts_with("Can't parse start time as RFC3339 time: "));

    let opts = AddDowntimeOptions { start: "2020-11-09T12:54:11Z".to_string(), ..opts };
    let error = add_downtime::request(&opts).unwrap_err();
    assert_eq!(error.kind, ErrorKind::InvalidEndTime);
    assert!(error.message().starts_with("Can't parse end time as RFC3339 time: "));

    let opts = AddDowntimeOptions { end: String::new(), ..opts };
    let error = add_downtime::request(&opts).unwrap_err();
    assert_eq!(error.kind, ErrorKind::MissingEndTime);
    assert_eq!(error.message(), "Downtime end time is mandatory");

    let opts = AddDowntimeOptions { end: "2020-11-09T12:54:12Z".to_string(), ..opts };
    assert_eq!(add_downtime::request(&opts).unwrap_err().kind, ErrorKind::FlexibleWithoutDuration);

    let opts = AddDowntimeOptions { fixed: true, ..opts };
    let error = add_downtime::request(&opts).unwrap_err();
    assert_eq!(error.kind, ErrorKind::AllServicesWithService);
    assert_eq!(
        error.message(),
        "Adding downtime for all services and adding downtime for specific services are mutually exclusive"
    );

    let opts = AddDowntimeOptions { service: String::new(), ..opts };
    let error = add_downtime::request(&opts).unwrap_err();
    assert_eq!(error.kind, ErrorKind::MissingSelector);
    assert_eq!(error.message(), "Provide a host and/or service for downtime addition");

    let opts = AddDowntimeOptions { host: "h".to_string(), ..opts };
    assert!(add_downtime::request(&opts).is_ok());
}

#[test]
fn reschedule_check_payload() {
    let opts = RescheduleCheckOptions {
        host: "web1".to_string(),
        service: String::new(),
        ok: false,
        warning: false,
        critical: false,
        unknown: false,
        ack: None,
        at: String::new(),
        force: true,
    };
    let request = reschedule_check::request(&opts).unwrap();
    assert_eq!(request.path, "/v1/actions/reschedule-check");
    assert_eq!(request.method_override, "");
    assert_eq!(
        request.body,
        "{\"type\":\"Host\",\"filter\":\"match(\\\"web1\\\", host.name) && host.state >= 0 && host.acknowledgement >= 0\",\"force\":true}"
    );
    let opts = RescheduleCheckOptions {
        service: "disk".to_string(),
        ok: true,
        unknown: true,
        ack: Some("sticky".to_string()),
        at: "2021-01-01T00:00:00Z".to_string(),
        force: false,
        ..opts
    };
    let request = reschedule_check::request(&opts).unwrap();
    assert_eq!(
        request.body,
        "{\"type\":\"Service\",\"filter\":\"match(\\\"web1\\\", host.name) && match(\\\"disk\\\", service.name) && (service.state ==0 || service.state ==3) && service.acknowledgement == 2\",\"force\":false,\"next_check\":\"1609459200\"}"
    );
    assert_eq!(
        reschedule_check::payload(TargetKind::Host, "f", true, &Some("5".to_string())),
        "{\"type\":\"Host\",\"filter\":\"f\",\"force\":true,\"next_check\":\"5\"}"
    );
}

#[test]
fn checks_are_forced_by_default() {
    let opts = RescheduleCheckOptions::new("web1", "disk");
    assert_eq!(opts.host, "web1");
    assert_eq!(opts.service, "disk");
    assert!(!opts.ok && !opts.warning && !opts.critical && !opts.unknown);
    assert_eq!(opts.ack, None);
    assert_eq!(opts.at, "");
    assert!(opts.force);
    let request = reschedule_check::request(&RescheduleCheckOptions::new("web1", "")).unwrap();
    assert_eq!(
        request.body,
        "{\"type\":\"Host\",\"filter\":\"match(\\\"web1\\\", host.name) && host.state >= 0 && host.acknowledgement >= 0\",\"force\":true}"
    );
}

#[test]
fn reschedule_check_checks_in_order() {
    let opts = RescheduleCheckOptions {
        host: String::new(),
        service: String::new(),
        ok: false,
        warning: false,
        critical: false,
        unknown: false,
        ack: Some("perhaps".to_string()),
        at: "soon".to_string(),
        force: true,
    };
    let error = reschedule_check::request(&opts).unwrap_err();
    assert_eq!(error.kind, ErrorKind::InvalidAckOption);
    let opts = RescheduleCheckOptions { ack: Some("no".to_string()), ..opts };
    let error = reschedule_check::request(&opts).unwrap_err();
    assert_eq!(error.kind, ErrorKind::InvalidCheckTime);
    assert!(error.message().starts_with("Can't parse time as RFC3339 time: "));
    let opts = RescheduleCheckOptions { at: String::new(), ..opts };
    let error = reschedule_check::request(&opts).unwrap_err();
    assert_eq!(error.kind, ErrorKind::MissingSelector);
    assert_eq!(error.message(), "Provide a host and/or service for status display");
}

#[test]
fn status_of_services() {
    let opts = StatusOptions {
        host: String::new(),
        service: "disk*".to_string(),
        ok: false,
        warning: true,
        critical: true,
        unknown: false,
        ack: Some("no".to_string()),
        no_color: true,
    };
    let request = status::request(&opts).unwrap();
    assert_eq!(request.method_override, "GET");
    assert_eq!(request.path, "/v1/objects/services");
    assert_eq!(
        request.query,
        "attrs=display_name&attrs=host_name&attrs=last_check_result&attrs=state&attrs=acknowledgement"
    );
    assert_eq!(
        request.body,
        "{\"filter\":\"match(\\\"disk*\\\", service.name) && (service.state ==1 || service.state ==2) && service.acknowledgement == 0\"}"
    );
    assert!(!opts.color());
    assert!(StatusOptions { no_color: false, ..opts }.color());
    let request = query_request(TargetKind::Host, "a\"b");
    assert_eq!(request.body, "{\"filter\":\"a\\\"b\"}");
    assert_eq!(request.path, "/v1/objects/hosts");
}

#[test]
fn status_checks_in_order() {
    let opts = StatusOptions {
        host: String::new(),
        service: String::new(),
        ok: false,
        warning: false,
        critical: false,
        unknown: false,
        ack: Some("y".to_string()),
        no_color: false,
    };
    let error = status::request(&opts).unwrap_err();
    assert_eq!(error.kind, ErrorKind::InvalidAckOption);
    assert_eq!(error.detail, "y");
    let opts = StatusOptions { ack: Some("yes".to_string()), ..opts };
    let error = status::request(&opts).unwrap_err();
    assert_eq!(error.kind, ErrorKind::MissingSelector);
    assert_eq!(error.message(), "Provide a host and/or service for status display");
}

#[test]
fn removal_by_name() {
    let request = del_comment::request(&removal_options("web1!4711", "", "", "")).unwrap();
    assert_eq!(request.path, "/v1/actions/remove-comment");
    assert_eq!(request.body, "{\"comment\":\"web1!4711\"}");
    let request = del_downtime::request(&removal_options("web1!4711", "", "", "alice")).unwrap();
    assert_eq!(request.path, "/v1/actions/remove-downtime");
    assert_eq!(request.body, "{\"downtime\":\"web1!4711\",\"author\":\"alice\"}");
}

#[test]
fn removal_by_selector() {
    let request = del_comment::request(&removal_options("", "web*", "", "alice")).unwrap();
    assert_eq!(
        request.body,
        "{\"comment\":\"\",\"author\":\"alice\",\"filter\":\"match(\\\"web*\\\", host.name)\",\"type\":\"Host\"}"
    );
    let request = del_downtime::request(&removal_options("", "web*", "disk", "")).unwrap();
    assert_eq!(
        request.body,
        "{\"downtime\":\"\",\"filter\":\"match(\\\"web*\\\", host.name) && match(\\\"disk\\\", service.name)\",\"type\":\"Service\"}"
    );
}

#[test]
fn removal_needs_name_or_selector_not_both() {
    let error = del_comment::request(&removal_options("", "", "", "alice")).unwrap_err();
    assert_eq!(error.kind, ErrorKind::MissingNameOrSelector);
    assert_eq!(error.message(), "Neither comment name nor host/service filter provided");
    for (host, service) in [("h", ""), ("", "s"), ("h", "s")] {
        let error = del_comment::request(&removal_options("n", host, service, "")).unwrap_err();
        assert_eq!(error.kind, ErrorKind::NameWithSelector);
        assert_eq!(
            error.message(),
            "Provide either a comment name or a host/service filter, but not both"
        );
        let error = del_downtime::request(&removal_options("n", host, service, "")).unwrap_err();
        assert_eq!(error.kind, ErrorKind::NameWithSelector);
        assert_eq!(
            error.message(),
            "Provide either a downtime name or a host/service filter, but not both"
        );
    }
}

#[test]
fn removal_target_is_one_of_two() {
    let target = removal::removal_target(Removable::Comment, "n", &ObjectSelector::new("", "")).unwrap();
    assert!(matches!(target, RemovalTarget::Named(ref name) if name == "n"));
    let target = removal::removal_target(Removable::Downtime, "", &ObjectSelector::new("", "s")).unwrap();
    assert!(matches!(
        target,
        RemovalTarget::Selected(TargetKind::Service, ref filter) if filter == "match(\"s\", service.name)"
    ));
    assert_eq!(
        removal::payload(Removable::Downtime, &RemovalTarget::Named("n".to_string()), ""),
        "{\"downtime\":\"n\"}"
    );
    assert_eq!(Removable::Comment.key(), "comment");
    assert_eq!(Removable::Downtime.label(), "Downtime");
    assert_eq!(Removable::Comment.path(), "/v1/actions/remove-comment");
}

#[test]
fn missing_object_is_reported() {
    assert_eq!(del_comment::missing_message("web1!4711"), "Comment web1!4711 does not exist");
    assert_eq!(del_downtime::missing_message("web1!4711"), "Downtime web1!4711 does not exist");
    assert_eq!(del_downtime::missing_message(""), "Downtime  does not exist");
}

#[test]
fn ticket_request() {
    let opts = GenerateTicketOptions { cn: Some("web1.example.com".to_string()) };
    let request = generate_ticket::request(&opts).unwrap();
    assert_eq!(request.path, "/v1/actions/generate-ticket");
    assert_eq!(request.method_override, "");
    assert_eq!(request.query, "");
    assert_eq!(request.body, "{\"cn\":\"web1.example.com\"}");
    let error = generate_ticket::request(&GenerateTicketOptions { cn: None }).unwrap_err();
    assert_eq!(error.kind, ErrorKind::MissingCommonName);
    assert_eq!(error.message(), "Missing CN for ticket generation");
    assert_eq!(generate_ticket::payload(""), "{\"cn\":\"\"}");
}

#[test]
fn payload_pieces() {
    let mut out = String::from("{");
    push_text_field(&mut out, "a", "b");
    out.push(',');
    push_bare_field(&mut out, "n", "1");
    assert_eq!(out, "{\"a\":\"b\",\"n\":1");
    assert_eq!(
        start_payload(TargetKind::Service, "match(\"s\", service.name)"),
        "{\"type\":\"Service\",\"filter\":\"match(\\\"s\\\", service.name)\""
    );
}

#[test]
fn every_command_takes_200() {
    for command in [
        Command::AddAck,
        Command::AddComment,
        Command::AddDowntime,
        Command::DelAck,
        Command::DelComment,
        Command::DelDowntime,
        Command::GenerateTicket,
        Command::RescheduleCheck,
        Command::Status,
    ] {
        assert_eq!(
            interpret_status(command.status_policy(), 200).unwrap(),
            Disposition::ShowResults
        );
    }
}

#[test]
fn selected_actions_take_500() {
    for command in [Command::AddAck, Command::AddComment, Command::AddDowntime, Command::DelAck] {
        assert_eq!(command.status_policy(), StatusPolicy::OkOrServerError);
        assert_eq!(
            interpret_status(command.status_policy(), 500).unwrap(),
            Disposition::ShowResults
        );
        let error = interpret_status(command.status_policy(), 404).unwrap_err();
        assert_eq!(error.kind, ErrorKind::StatusNotOkOrServerError);
        assert_eq!(error.class(), ErrorClass::UnexpectedStatus);
        assert_eq!(
            error.message(),
            "Invalid status code received, exepected HTTP status code 200 or 500, got \"Not Found\" instead"
        );
    }
}

#[test]
fn named_removals_take_404() {
    for command in [Command::DelComment, Command::DelDowntime] {
        assert_eq!(command.status_policy(), StatusPolicy::OkOrNotFound);
        assert_eq!(
            interpret_status(command.status_policy(), 404).unwrap(),
            Disposition::ReportMissing
        );
        let error = interpret_status(command.status_policy(), 500).unwrap_err();
        assert_eq!(error.kind, ErrorKind::StatusNotOkForNamed);
        assert_eq!(
            error.message(),
            "Invalid status code received, exepected HTTP status code 200, got \"Internal Server Error\" instead"
        );
    }
}

#[test]
fn queries_take_200_only() {
    for command in [Command::Status, Command::RescheduleCheck, Command::GenerateTicket] {
        assert_eq!(command.status_policy(), StatusPolicy::OkOnly);
        for code in [201u16, 401, 404, 500, 503] {
            let error = interpret_status(command.status_policy(), code).unwrap_err();
            assert_eq!(error.kind, ErrorKind::StatusNotOk);
            assert_eq!(error.class(), ErrorClass::UnexpectedStatus);
        }
    }
    let error = interpret_status(StatusPolicy::OkOnly, 401).unwrap_err();
    assert_eq!(
        error.message(),
        "Invalid status code received, exepected \"200 OK\", got \"Unauthorized\" instead"
    );
    assert_eq!(error.detail, "Unauthorized");
}

#[test]
fn status_without_reason_phrase() {
    for code in [0u16, 99, 299, 999, 1000, u16::MAX] {
        let error = interpret_status(StatusPolicy::OkOnly, code).unwrap_err();
        assert_eq!(error.kind, ErrorKind::StatusNotOk);
        assert_eq!(error.detail, "None");
    }
    let error = unexpected_status(StatusPolicy::OkOrNotFound, None);
    assert_eq!(error.kind, ErrorKind::StatusNotOkForNamed);
    assert_eq!(error.detail, "None");
    let error = unexpected_status(StatusPolicy::OkOrServerError, Some("I'm a teapot"));
    assert_eq!(error.kind, ErrorKind::StatusNotOkOrServerError);
    assert_eq!(error.detail, "I'm a teapot");
}

#[test]
fn commands_by_name() {
    assert_eq!(Command::from_name("add-ack"), Some(Command::AddAck));
    assert_eq!(Command::from_name("add-comment"), Some(Command::AddComment));
    assert_eq!(Command::from_name("add-downtime"), Some(Command::AddDowntime));
    assert_eq!(Command::from_name("del-ack"), Some(Command::DelAck));
    assert_eq!(Command::from_name("del-comment"), Some(Command::DelComment));
    assert_eq!(Command::from_name("del-downtime"), Some(Command::DelDowntime));
    assert_eq!(Command::from_name("generate-ticket"), Some(Command::GenerateTicket));
    assert_eq!(Command::from_name("reschedule-check"), Some(Command::RescheduleCheck));
    assert_eq!(Command::from_name("status"), Some(Command::Status));
    assert_eq!(Command::from_name("Status"), None);
    assert_eq!(Command::from_name(""), None);
}
