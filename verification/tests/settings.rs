use icinga2ctl::configuration::{
    get_configuration, get_default_user_config_file, normalize_parts, normalize_url,
    validate_configuration, Configuration, IniSection, Property, UrlParts,
};
use icinga2ctl::constants::{user_agent, AUTH_CERT, AUTH_USER};
use icinga2ctl::error::{CtlError, ErrorClass, ErrorKind};
use icinga2ctl::request::{
    action_request, authorization_value, basic_authorization, client_plan, request_url, HttpRequest,
};
use icinga2ctl::usage;

fn section(name: &str, properties: &[(&str, &str)]) -> IniSection {
    IniSection {
        name: name.to_string(),
        properties: properties
            .iter()
            .map(|(key, value)| Property { key: key.to_string(), value: value.to_string() })
            .collect(),
    }
}

fn user_config() -> Configuration {
    Configuration {
        url: "https://icinga.example.com:5665".to_string(),
        ca_file: String::new(),
        insecure_ssl: false,
        auth: AUTH_USER,
        auth_user: "root".to_string(),
        auth_password: "icinga".to_string(),
        auth_cert: String::new(),
        auth_cert_password: String::new(),
    }
}

#[test]
fn user_agent_names_program_and_version() {
    assert_eq!(
        user_agent(),
        "icinga2ctl/0.9.0-20201222 (+https://git.ypbind.de/cgit/icinga2ctl)"
    );
}

#[test]
fn url_gets_its_normal_form() {
    assert_eq!(
        normalize_url("https://icinga.example.com:5665/v1").unwrap(),
        "https://icinga.example.com:5665"
    );
    assert_eq!(normalize_url("https://icinga.example.com").unwrap(), "https://icinga.example.com:443");
    assert_eq!(normalize_url("https://icinga.example.com:443/").unwrap(), "https://icinga.example.com:443");
    assert_eq!(normalize_url("HTTPS://Icinga.Example.COM:1").unwrap(), "https://icinga.example.com:1");
    assert_eq!(normalize_url("https://user:pw@10.0.0.1:65535/x?y#z").unwrap(), "https://10.0.0.1:65535");
}

#[test]
fn url_must_be_https() {
    for url in ["http://icinga.example.com", "ftp://icinga.example.com:21", "mailto:root@example.com"] {
        let error = normalize_url(url).unwrap_err();
        assert_eq!(error.kind, ErrorKind::InvalidScheme);
        assert_eq!(error.message(), "Invalid scheme: Icinga2 only supports https");
    }
}

#[test]
fn text_that_is_no_url_is_refused() {
    for url in ["", "icinga.example.com", "https://", "https://icinga.example.com:99999"] {
        let error = normalize_url(url).unwrap_err();
        assert_eq!(error.kind, ErrorKind::InvalidUrl);
        assert!(!error.detail.is_empty());
        assert_eq!(error.message(), error.detail);
    }
}

#[test]
fn url_parts_are_put_together() {
    let parts = UrlParts { scheme: "https".to_string(), host: Some("h".to_string()), port: Some(8) };
    assert_eq!(normalize_parts(&parts).unwrap(), "https://h:8");
    let parts = UrlParts { scheme: "https".to_string(), host: Some("h".to_string()), port: None };
    assert_eq!(normalize_parts(&parts).unwrap(), "https://h:443");
    let parts = UrlParts { scheme: "https".to_string(), host: None, port: Some(8) };
    let error = normalize_parts(&parts).unwrap_err();
    assert_eq!(error.kind, ErrorKind::MissingHost);
    assert_eq!(error.message(), "Missing host in URL");
    let parts = UrlParts { scheme: "http".to_string(), host: None, port: None };
    assert_eq!(normalize_parts(&parts).unwrap_err().kind, ErrorKind::InvalidScheme);
}

#[test]
fn complete_settings_pass() {
    assert!(validate_configuration(&user_config()).is_ok());
    let cert = Configuration {
        auth: AUTH_CERT,
        auth_user: String::new(),
        auth_password: String::new(),
        auth_cert: "/etc/icinga2ctl/client.p12".to_string(),
        ..user_config()
    };
    assert!(validate_configuration(&cert).is_ok());
}

#[test]
fn incomplete_settings_are_refused() {
    let check = |cfg: Configuration, kind: ErrorKind, message: &str| {
        let error = validate_configuration(&cfg).unwrap_err();
        assert_eq!(error.kind, kind);
        assert_eq!(error.class(), ErrorClass::Validation);
        assert_eq!(error.message(), message);
    };
    check(
        Configuration { url: String::new(), auth: 0, ..user_config() },
        ErrorKind::MissingUrl,
        "Missing Icinga2 URL",
    );
    check(
        Configuration { auth_user: String::new(), auth_password: String::new(), ..user_config() },
        ErrorKind::MissingAuthUser,
        "User authentication enabled but no user set",
    );
    check(
        Configuration { auth_password: String::new(), ..user_config() },
        ErrorKind::MissingAuthPassword,
        "User authentication enabled but no password set",
    );
    check(
        Configuration { auth: AUTH_CERT, ..user_config() },
        ErrorKind::MissingAuthCertificate,
        "Client certificate authentication enabled but no certificate file set",
    );
    for auth in [0u8, 3, 255] {
        check(
            Configuration { auth, ..user_config() },
            ErrorKind::InvalidAuthMethod,
            "Invalid authentication method or authentication method not set",
        );
    }
}

#[test]
fn settings_come_from_the_icinga2_section() {
    let sections = vec![
        section("other", &[("url", "http://elsewhere"), ("auth", "nonsense")]),
        section(
            "icinga2",
            &[
                ("auth", "user"),
                ("user", "root"),
                ("password", "icinga"),
                ("url", "https://icinga.example.com:5665/"),
                ("ca_file", "/etc/ssl/ca.pem"),
                ("insecure_ssl", "true"),
                ("colour", "blue"),
            ],
        ),
    ];
    let cfg = get_configuration(&sections).unwrap();
    assert_eq!(cfg.url, "https://icinga.example.com:5665");
    assert_eq!(cfg.auth, AUTH_USER);
    assert_eq!(cfg.auth_user, "root");
    assert_eq!(cfg.auth_password, "icinga");
    assert_eq!(cfg.ca_file, "/etc/ssl/ca.pem");
    assert!(cfg.insecure_ssl);
    assert_eq!(cfg.auth_cert, "");
    assert_eq!(cfg.auth_cert_password, "");
}

#[test]
fn later_properties_override_earlier_ones() {
    let sections = vec![
        section("icinga2", &[("auth", "user"), ("user", "first"), ("url", "https://a")]),
        section("icinga2", &[("auth", "cert"), ("auth_cert", "c.p12"), ("auth_cert_password", "s")]),
        section("icinga2", &[("insecure_ssl", "true"), ("insecure_ssl", "false"), ("url", "https://b:8")]),
    ];
    let cfg = get_configuration(&sections).unwrap();
    assert_eq!(cfg.url, "https://b:8");
    assert_eq!(cfg.auth, AUTH_CERT);
    assert_eq!(cfg.auth_user, "first");
    assert_eq!(cfg.auth_cert, "c.p12");
    assert_eq!(cfg.auth_cert_password, "s");
    assert!(!cfg.insecure_ssl);
}

#[test]
fn first_bad_property_stops_the_reading() {
    let kind_of = |properties: &[(&str, &str)]| -> CtlError {
        get_configuration(&vec![section("icinga2", properties)]).unwrap_err()
    };
    let error = kind_of(&[("auth", "token"), ("url", "nonsense")]);
    assert_eq!(error.kind, ErrorKind::InvalidAuthType);
    assert_eq!(error.message(), "Invalid authentication type token");
    let error = kind_of(&[("insecure_ssl", "yes"), ("auth", "token")]);
    assert_eq!(error.kind, ErrorKind::InvalidBoolean);
    assert_eq!(
        error.message(),
        "Can't convert value yes for insecure_ssl into a boolean: provided string was not `true` or `false`"
    );
    assert_eq!(kind_of(&[("insecure_ssl", "True")]).kind, ErrorKind::InvalidBoolean);
    assert_eq!(kind_of(&[("url", "http://a")]).kind, ErrorKind::InvalidScheme);
    assert_eq!(kind_of(&[("url", "a")]).kind, ErrorKind::InvalidUrl);
}

#[test]
fn finished_settings_are_checked() {
    assert_eq!(get_configuration(&vec![]).unwrap_err().kind, ErrorKind::MissingUrl);
    let error = get_configuration(&vec![section("icinga2", &[("url", "https://a")])]).unwrap_err();
    assert_eq!(error.kind, ErrorKind::MissingAuthUser);
    let error =
        get_configuration(&vec![section("icinga2", &[("url", "https://a"), ("user", "u")])]).unwrap_err();
    assert_eq!(error.kind, ErrorKind::MissingAuthPassword);
    let error =
        get_configuration(&vec![section("icinga2", &[("url", "https://a"), ("auth", "cert")])]).unwrap_err();
    assert_eq!(error.kind, ErrorKind::MissingAuthCertificate);
    let error = get_configuration(&vec![section("Icinga2", &[("url", "https://a")])]).unwrap_err();
    assert_eq!(error.kind, ErrorKind::MissingUrl);
}

#[test]
fn configuration_file_of_the_operator() {
    assert_eq!(
        get_default_user_config_file(Some("/home/op/.cfg"), Some("/home/op")).unwrap(),
        "/home/op/.cfg/icinga2ctl/config.ini"
    );
    assert_eq!(
        get_default_user_config_file(Some("/x"), None).unwrap(),
        "/x/icinga2ctl/config.ini"
    );
    assert_eq!(
        get_default_user_config_file(None, Some("/home/op")).unwrap(),
        "/home/op/.config/icinga2ctl/config.ini"
    );
    assert_eq!(
        get_default_user_config_file(None, Some("")).unwrap(),
        "/.config/icinga2ctl/config.ini"
    );
    for (xdg, home) in [(None, None), (Some(""), None), (Some(""), Some("/home/op"))] {
        let error = get_default_user_config_file(xdg, home).unwrap_err();
        assert_eq!(error.kind, ErrorKind::NoConfigDirectory);
        assert_eq!(
            error.message(),
            "Unable to get user configuration. Neither the environmant variable XDG_CONFIG_HOME nor HOME are set"
        );
    }
}

#[test]
fn url_of_a_request() {
    let action = action_request("/v1/actions/add-comment", "{}".to_string());
    assert_eq!(action.method_override, "");
    assert_eq!(action.path, "/v1/actions/add-comment");
    assert_eq!(action.query, "");
    assert_eq!(action.body, "{}");
    assert_eq!(
        request_url("https://icinga.example.com:5665", &action),
        "https://icinga.example.com:5665/v1/actions/add-comment"
    );
    let query = HttpRequest {
        method_override: "GET".to_string(),
        path: "/v1/objects/hosts".to_string(),
        query: "attrs=name&attrs=state".to_string(),
        body: String::new(),
    };
    assert_eq!(
        request_url("https://icinga.example.com:5665", &query),
        "https://icinga.example.com:5665/v1/objects/hosts?attrs=name&attrs=state"
    );
}

#[test]
fn credentials_go_into_the_authorization_header() {
    assert_eq!(basic_authorization("root", "icinga"), "Basic cm9vdDppY2luZ2E=");
    assert_eq!(basic_authorization("user", "pass"), "Basic dXNlcjpwYXNz");
    assert_eq!(basic_authorization("", ""), "Basic Og==");
    assert_eq!(authorization_value("abc"), "Basic abc");
}

#[test]
fn client_with_password() {
    let plan = client_plan(&user_config(), "");
    let headers: Vec<(String, String)> =
        plan.headers.iter().map(|h| (h.name.clone(), h.value.clone())).collect();
    assert_eq!(
        headers,
        vec![
            ("Accept".to_string(), "application/json".to_string()),
            ("Content-Type".to_string(), "application/json".to_string()),
            (
                "User-Agent".to_string(),
                "icinga2ctl/0.9.0-20201222 (+https://git.ypbind.de/cgit/icinga2ctl)".to_string()
            ),
            ("Authorization".to_string(), "Basic cm9vdDppY2luZ2E=".to_string()),
        ]
    );
    assert!(!plan.accept_invalid_certs);
    assert!(plan.ca_file.is_none());
    assert!(plan.identity.is_none());
}

#[test]
fn client_with_certificate_and_override() {
    let cfg = Configuration {
        auth: AUTH_CERT,
        auth_cert: "client.p12".to_string(),
        auth_cert_password: "secret".to_string(),
        ca_file: "ca.pem".to_string(),
        ..user_config()
    };
    let plan = client_plan(&cfg, "GET");
    let names: Vec<&str> = plan.headers.iter().map(|h| h.name.as_str()).collect();
    assert_eq!(names, vec!["Accept", "Content-Type", "User-Agent", "X-HTTP-Method-Override"]);
    assert_eq!(plan.headers[3].value, "GET");
    assert_eq!(plan.ca_file.as_deref(), Some("ca.pem"));
    let identity = plan.identity.unwrap();
    assert_eq!(identity.file, "client.p12");
    assert_eq!(identity.password, "secret");

    let insecure = Configuration { insecure_ssl: true, ..cfg };
    let plan = client_plan(&insecure, "");
    assert!(plan.accept_invalid_certs);
    assert!(plan.ca_file.is_none());
    assert_eq!(plan.headers.len(), 3);
}

#[test]
fn help_for_a_command() {
    let text = usage::cmd_help::show("status").unwrap();
    assert!(text.starts_with("icinga2ctl version 0.9.0-20201222\nCopyright (C) 2020"));
    assert!(text.contains("   status - show Icinga2 host/service status\n"));
    assert!(text.ends_with("        --warning\n\n"));
    assert_eq!(text, format!("{}{}", usage::version::show(), usage::status::show()));
    for (name, heading) in [
        ("add-ack", "    add-ack - add acknowledgement\n"),
        ("add-comment", "    add-comment - add a comment\n"),
        ("add-downtime", "    add-downtime - schedule a downtime\n"),
        ("del-ack", "    del-ack - remove acknowledgement\n"),
        ("del-comment", "    del-comment - remove comment\n"),
        ("del-downtime", "    del-downtime - remove downtime\n"),
        ("generate-ticket", "    generate-ticket - generate PKI ticket for Icinga2 auto signing\n"),
        ("reschedule-check", "   reschedule-check - reschedule Icinga2 check\n"),
    ] {
        let text = usage::cmd_help::show(name).unwrap();
        assert!(text.starts_with(usage::version::show().as_str()));
        assert!(text.contains(heading));
    }
}

#[test]
fn help_for_an_unknown_command() {
    let error = usage::cmd_help::show("restart").unwrap_err();
    assert_eq!(error.kind, ErrorKind::UnknownCommand);
    assert_eq!(error.message(), "Unknown command restart");
    assert_eq!(error.error_line(), "Error: Unknown command restart");
    assert_eq!(usage::cmd_help::show("").unwrap_err().kind, ErrorKind::UnknownCommand);
}

#[test]
fn help_texts() {
    assert_eq!(
        usage::version::show(),
        "icinga2ctl version 0.9.0-20201222\nCopyright (C) 2020 by Andreas Maus <maus@ypbind.de>\nThis program comes with ABSOLUTELY NO WARRANTY.\n\nicinga2ctl is distributed under the Terms of the GNU General\nPublic License Version 3. (http://www.gnu.org/copyleft/gpl.html)\n\n"
    );
    assert_eq!(usage::show_version(), usage::version::show());
    let short = usage::usage::show();
    assert!(short.starts_with(usage::version::show().as_str()));
    assert!(short.contains("Usage: icinga2ctl -c <cfg>|--config=<cfg> [-h|--help] [-v|--version] <command>"));
    assert_eq!(usage::show_usage(), short);
    let whole = usage::show();
    assert!(whole.starts_with(usage::version::show().as_str()));
    assert!(whole.contains("Usage: icinga2ctl -c <cfg>|--config=<cfg> [-d|--debug]"));
    assert!(whole.contains("  Commands:\n\n"));
    assert!(whole.ends_with(usage::status::show().as_str()));
    let order: Vec<usize> = [
        "add-ack - ",
        "add-comment - ",
        "add-downtime - ",
        "del-ack - ",
        "del-comment - ",
        "del-downtime - ",
        "generate-ticket - ",
        "reschedule-check - ",
        "status - show",
    ]
    .iter()
    .map(|heading| whole.find(heading).unwrap())
    .collect();
    assert!(order.windows(2).all(|pair| pair[0] < pair[1]));
    assert_eq!(
        usage::show_usage_status(),
        format!("{}{}", usage::version::show(), usage::status::show())
    );
    assert_eq!(
        usage::show_usage_add_ack(),
        format!("{}{}", usage::version::show(), usage::add_ack::show())
    );
    assert_eq!(
        usage::show_usage_del_ack(),
        format!("{}{}", usage::version::show(), usage::del_ack::show())
    );
    assert_eq!(usage::show_usage_add_downtime(), usage::add_downtime::show());
    assert!(usage::add_downtime::show().starts_with(usage::version::show().as_str()));
}
