//! The connection settings: where the server is and how the client proves who
//! it is. The settings come from the `icinga2` section of an INI file; reading
//! the file is the caller's part, this module takes the sections as values.

use vstd::prelude::*;
use vstd::string::*;
use crate::constants::{AUTH_CERT, AUTH_USER};
use crate::error::{fails_with, CtlError, ErrorKind};
use crate::text::{decimal, push_decimal, str_eq};

verus! {

/// The connection settings.
#[derive(Debug)]
pub struct Configuration {
    pub url: String,
    pub ca_file: String,
    pub insecure_ssl: bool,
    pub auth: u8,
    pub auth_user: String,
    pub auth_password: String,
    pub auth_cert: String,
    pub auth_cert_password: String,
}

/// The settings as plain values.
pub struct ConfigurationView {
    pub url: Seq<char>,
    pub ca_file: Seq<char>,
    pub insecure_ssl: bool,
    pub auth: u8,
    pub auth_user: Seq<char>,
    pub auth_password: Seq<char>,
    pub auth_cert: Seq<char>,
    pub auth_cert_password: Seq<char>,
}

impl View for Configuration {
    type V = ConfigurationView;

    open spec fn view(&self) -> ConfigurationView {
        ConfigurationView {
            url: self.url@,
            ca_file: self.ca_file@,
            insecure_ssl: self.insecure_ssl,
            auth: self.auth,
            auth_user: self.auth_user@,
            auth_password: self.auth_password@,
            auth_cert: self.auth_cert@,
            auth_cert_password: self.auth_cert_password@,
        }
    }
}

/// One line `key = value` of an INI file.
#[derive(Debug)]
pub struct Property {
    pub key: String,
    pub value: String,
}

/// One named section of an INI file with its properties, in the order of the file.
#[derive(Debug)]
pub struct IniSection {
    pub name: String,
    pub properties: Vec<Property>,
}

/// What is wrong with settings, if anything: the first of the checks that fails.
pub open spec fn validation_failure(c: ConfigurationView) -> Option<ErrorKind> {
    if c.url.len() == 0 {
        Some(ErrorKind::MissingUrl)
    } else if c.auth == AUTH_USER {
        if c.auth_user.len() == 0 {
            Some(ErrorKind::MissingAuthUser)
        } else if c.auth_password.len() == 0 {
            Some(ErrorKind::MissingAuthPassword)
        } else {
            None
        }
    } else if c.auth == AUTH_CERT {
        if c.auth_cert.len() == 0 {
            Some(ErrorKind::MissingAuthCertificate)
        } else {
            None
        }
    } else {
        Some(ErrorKind::InvalidAuthMethod)
    }
}

impl ConfigurationView {
    /// Settings that a client can be built from: a URL, and either a user with
    /// a password or a client certificate.
    pub open spec fn valid(self) -> bool {
        &&& self.url.len() > 0
        &&& self.auth == AUTH_USER || self.auth == AUTH_CERT
        &&& self.auth == AUTH_USER ==> self.auth_user.len() > 0 && self.auth_password.len() > 0
        &&& self.auth == AUTH_CERT ==> self.auth_cert.len() > 0
    }
}

/// Checks that the settings are complete: a URL, then for password
/// authentication a user and a password, for certificate authentication a
/// certificate file. The first check that fails gives the error.
pub fn validate_configuration(cfg: &Configuration) -> (r: Result<(), CtlError>)
    ensures
        match validation_failure(cfg@) {
            None => r is Ok,
            Some(kind) => fails_with(r, kind, Seq::empty()),
        },
        r is Ok <==> cfg@.valid(),
{
    if cfg.url.as_str().is_empty() {
        return Err(CtlError::plain(ErrorKind::MissingUrl));
    }
    if cfg.auth == AUTH_USER {
        if cfg.auth_user.as_str().is_empty() {
            return Err(CtlError::plain(ErrorKind::MissingAuthUser));
        }
        if cfg.auth_password.as_str().is_empty() {
            return Err(CtlError::plain(ErrorKind::MissingAuthPassword));
        }
    } else if cfg.auth == AUTH_CERT {
        if cfg.auth_cert.as_str().is_empty() {
            return Err(CtlError::plain(ErrorKind::MissingAuthCertificate));
        }
    } else {
        return Err(CtlError::plain(ErrorKind::InvalidAuthMethod));
    }
    Ok(())
}

/// The parts of a URL that the settings keep.
#[derive(Debug)]
pub struct UrlParts {
    pub scheme: String,
    pub host: Option<String>,
    pub port: Option<u16>,
}

/// What the `url` crate makes of a text: `Ok` with the scheme, the host if
/// there is one and the port if one is written and is not the scheme's
/// default; or `Err` with the words of the crate's parse error.
pub uninterp spec fn url_parts(text: Seq<char>) -> Result<
    (Seq<char>, Option<Seq<char>>, Option<u16>),
    Seq<char>,
>;

/// Whether `parts` holds the three values.
pub open spec fn parts_are(parts: UrlParts, values: (Seq<char>, Option<Seq<char>>, Option<u16>)) -> bool {
    &&& parts.scheme@ == values.0
    &&& match parts.host {
        Some(h) => values.1 == Some(h@),
        None => values.1 is None,
    }
    &&& parts.port == values.2
}

/// Calls `url::Url::parse` and reads `scheme`, `host_str` and `port` off the
/// URL it returns. Nothing is claimed of the outcome but that it is a function
/// of the text.
#[verifier::external_body]
fn parse_url(text: &str) -> (r: Result<UrlParts, String>)
    ensures
        match r {
            Ok(parts) => url_parts(text@) is Ok && parts_are(parts, url_parts(text@)->Ok_0),
            Err(words) => url_parts(text@) == Err::<
                (Seq<char>, Option<Seq<char>>, Option<u16>),
                Seq<char>,
            >(words@),
        },
{
    match url::Url::parse(text) {
        Ok(parsed) => Ok(
            UrlParts {
                scheme: parsed.scheme().to_string(),
                host: parsed.host_str().map(|h| h.to_string()),
                port: parsed.port(),
            },
        ),
        Err(e) => Err(e.to_string()),
    }
}

/// The port that https uses where a URL names none.
pub const HTTPS_PORT: u16 = 443;

/// The normal form of a URL given by its parts, or why it has none.
pub open spec fn normalized_parts(scheme: Seq<char>, host: Option<Seq<char>>, port: Option<u16>) -> Result<
    Seq<char>,
    (ErrorKind, Seq<char>),
> {
    if scheme != "https"@ {
        Err((ErrorKind::InvalidScheme, Seq::empty()))
    } else {
        match host {
            None => Err((ErrorKind::MissingHost, Seq::empty())),
            Some(h) => Ok(
                scheme + "://"@ + h + ":"@ + decimal(
                    match port {
                        Some(p) => p as nat,
                        None => HTTPS_PORT as nat,
                    },
                ),
            ),
        }
    }
}

/// The normal form of the URL that a text holds, or why it has none.
pub open spec fn normalized_url(text: Seq<char>) -> Result<Seq<char>, (ErrorKind, Seq<char>)> {
    match url_parts(text) {
        Err(words) => Err((ErrorKind::InvalidUrl, words)),
        Ok((scheme, host, port)) => normalized_parts(scheme, host, port),
    }
}

/// Whether `r` is what `expected` describes.
pub open spec fn text_is(r: Result<String, CtlError>, expected: Result<
    Seq<char>,
    (ErrorKind, Seq<char>),
>) -> bool {
    match expected {
        Ok(text) => r is Ok && r->Ok_0@ == text,
        Err((kind, detail)) => fails_with(r, kind, detail),
    }
}

/// Brings the parts of a URL into the form `https://<host>:<port>`. The scheme
/// must be https and there must be a host; a URL without a port gets 443.
pub fn normalize_parts(parts: &UrlParts) -> (r: Result<String, CtlError>)
    ensures
        text_is(
            r,
            normalized_parts(
                parts.scheme@,
                match parts.host {
                    Some(h) => Some(h@),
                    None => None,
                },
                parts.port,
            ),
        ),
{
    if !str_eq(parts.scheme.as_str(), "https") {
        return Err(CtlError::plain(ErrorKind::InvalidScheme));
    }
    let host = match &parts.host {
        Some(h) => h,
        None => {
            return Err(CtlError::plain(ErrorKind::MissingHost));
        },
    };
    let port: u16 = match parts.port {
        Some(p) => p,
        None => HTTPS_PORT,
    };
    let mut n = parts.scheme.clone();
    n.append("://");
    n.append(host.as_str());
    n.append(":");
    push_decimal(&mut n, port as u64);
    Ok(n)
}

/// Brings a URL into the form `https://<host>:<port>`: parses it, insists on
/// https and on a host, and writes the port out, 443 where the URL has none.
/// A text that is no URL is refused with the parser's words as detail.
pub fn normalize_url(u: &str) -> (r: Result<String, CtlError>)
    ensures
        text_is(r, normalized_url(u@)),
{
    match parse_url(u) {
        Ok(parts) => normalize_parts(&parts),
        Err(words) => Err(CtlError::new(ErrorKind::InvalidUrl, words.as_str())),
    }
}

/// The settings after one more property of the `icinga2` section, or the
/// error that the property causes. A key that is not known changes nothing.
pub open spec fn with_property(c: ConfigurationView, key: Seq<char>, value: Seq<char>) -> Result<
    ConfigurationView,
    (ErrorKind, Seq<char>),
> {
    if key == "auth"@ {
        if value == "user"@ {
            Ok(ConfigurationView { auth: AUTH_USER, ..c })
        } else if value == "cert"@ {
            Ok(ConfigurationView { auth: AUTH_CERT, ..c })
        } else {
            Err((ErrorKind::InvalidAuthType, value))
        }
    } else if key == "user"@ {
        Ok(ConfigurationView { auth_user: value, ..c })
    } else if key == "password"@ {
        Ok(ConfigurationView { auth_password: value, ..c })
    } else if key == "auth_cert"@ {
        Ok(ConfigurationView { auth_cert: value, ..c })
    } else if key == "auth_cert_password"@ {
        Ok(ConfigurationView { auth_cert_password: value, ..c })
    } else if key == "insecure_ssl"@ {
        if value == "true"@ {
            Ok(ConfigurationView { insecure_ssl: true, ..c })
        } else if value == "false"@ {
            Ok(ConfigurationView { insecure_ssl: false, ..c })
        } else {
            Err((ErrorKind::InvalidBoolean, value))
        }
    } else if key == "ca_file"@ {
        Ok(ConfigurationView { ca_file: value, ..c })
    } else if key == "url"@ {
        match normalized_url(value) {
            Ok(url) => Ok(ConfigurationView { url, ..c }),
            Err(e) => Err(e),
        }
    } else {
        Ok(c)
    }
}

/// The settings after the properties of one section, taken in order, or the
/// error of the first property that causes one.
pub open spec fn with_properties(c: ConfigurationView, properties: Seq<Property>) -> Result<
    ConfigurationView,
    (ErrorKind, Seq<char>),
>
    decreases properties.len(),
{
    if properties.len() == 0 {
        Ok(c)
    } else {
        match with_property(c, properties[0].key@, properties[0].value@) {
            Ok(next) => with_properties(next, properties.drop_first()),
            Err(e) => Err(e),
        }
    }
}

/// The settings after the sections of a file, taken in order: the sections
/// called `icinga2` count, all others are passed over.
pub open spec fn with_sections(c: ConfigurationView, sections: Seq<IniSection>) -> Result<
    ConfigurationView,
    (ErrorKind, Seq<char>),
>
    decreases sections.len(),
{
    if sections.len() == 0 {
        Ok(c)
    } else if sections[0].name@ == "icinga2"@ {
        match with_properties(c, sections[0].properties@) {
            Ok(next) => with_sections(next, sections.drop_first()),
            Err(e) => Err(e),
        }
    } else {
        with_sections(c, sections.drop_first())
    }
}

/// The settings before anything is read: all texts empty, certificates
/// checked, password authentication.
pub open spec fn initial_settings() -> ConfigurationView {
    ConfigurationView {
        url: Seq::empty(),
        ca_file: Seq::empty(),
        insecure_ssl: false,
        auth: AUTH_USER,
        auth_user: Seq::empty(),
        auth_password: Seq::empty(),
        auth_cert: Seq::empty(),
        auth_cert_password: Seq::empty(),
    }
}

/// The settings that the sections of a file give, or the first error: that of
/// a property, or else that of the check of the finished settings.
pub open spec fn configuration_of(sections: Seq<IniSection>) -> Result<
    ConfigurationView,
    (ErrorKind, Seq<char>),
> {
    match with_sections(initial_settings(), sections) {
        Err(e) => Err(e),
        Ok(c) => match validation_failure(c) {
            Some(kind) => Err((kind, Seq::empty())),
            None => Ok(c),
        },
    }
}

/// Applies one property to the settings.
fn apply_property(config: &mut Configuration, key: &str, value: &str) -> (r: Result<(), CtlError>)
    ensures
        match with_property(old(config)@, key@, value@) {
            Ok(next) => r is Ok && final(config)@ == next,
            Err((kind, detail)) => fails_with(r, kind, detail),
        },
{
    if str_eq(key, "auth") {
        if str_eq(value, "user") {
            config.auth = AUTH_USER;
        } else if str_eq(value, "cert") {
            config.auth = AUTH_CERT;
        } else {
            return Err(CtlError::new(ErrorKind::InvalidAuthType, value));
        }
    } else if str_eq(key, "user") {
        config.auth_user = String::from_str(value);
    } else if str_eq(key, "password") {
        config.auth_password = String::from_str(value);
    } else if str_eq(key, "auth_cert") {
        config.auth_cert = String::from_str(value);
    } else if str_eq(key, "auth_cert_password") {
        config.auth_cert_password = String::from_str(value);
    } else if str_eq(key, "insecure_ssl") {
        if str_eq(value, "true") {
            config.insecure_ssl = true;
        } else if str_eq(value, "false") {
            config.insecure_ssl = false;
        } else {
            return Err(CtlError::new(ErrorKind::InvalidBoolean, value));
        }
    } else if str_eq(key, "ca_file") {
        config.ca_file = String::from_str(value);
    } else if str_eq(key, "url") {
        match normalize_url(value) {
            Ok(url) => {
                config.url = url;
            },
            Err(e) => {
                return Err(e);
            },
        }
    }
    Ok(())
}

/// Builds the settings from the sections of the configuration file. Only the
/// sections called `icinga2` count. In them `auth` chooses the authentication
/// (`user` or `cert`), `user`, `password`, `auth_cert`, `auth_cert_password`
/// and `ca_file` are taken as they are, `insecure_ssl` must be `true` or
/// `false`, and `url` is brought into its normal form; other keys are passed
/// over. A later property overrides an earlier one. The finished settings
/// must pass `validate_configuration`.
pub fn get_configuration(sections: &Vec<IniSection>) -> (r: Result<Configuration, CtlError>)
    ensures
        match configuration_of(sections@) {
            Ok(c) => r is Ok && r->Ok_0@ == c && c.valid(),
            Err((kind, detail)) => fails_with(r, kind, detail),
        },
{
    let mut config = Configuration {
        url: String::new(),
        ca_file: String::new(),
        insecure_ssl: false,
        auth: AUTH_USER,
        auth_user: String::new(),
        auth_password: String::new(),
        auth_cert: String::new(),
        auth_cert_password: String::new(),
    };
    let mut i: usize = 0;
    proof {
        assert(sections@.skip(0) =~= sections@);
    }
    while i < sections.len()
        invariant
            i <= sections@.len(),
            with_sections(initial_settings(), sections@) == with_sections(
                config@,
                sections@.skip(i as int),
            ),
        decreases sections@.len() - i,
    {
        let section = &sections[i];
        proof {
            assert(sections@.skip(i as int).drop_first() =~= sections@.skip(i + 1));
        }
        if str_eq(section.name.as_str(), "icinga2") {
            let mut j: usize = 0;
            proof {
                assert(section.properties@.skip(0) =~= section.properties@);
            }
            while j < section.properties.len()
                invariant
                    j <= section.properties@.len(),
                    i < sections@.len(),
                    section == &sections@[i as int],
                    section.name@ == "icinga2"@,
                    sections@.skip(i as int)[0] == sections@[i as int],
                    sections@.skip(i as int).drop_first() =~= sections@.skip(i + 1),
                    with_sections(initial_settings(), sections@) == match with_properties(
                        config@,
                        section.properties@.skip(j as int),
                    ) {
                        Ok(next) => with_sections(next, sections@.skip(i + 1)),
                        Err(e) => Err(e),
                    },
                decreases section.properties@.len() - j,
            {
                let property = &section.properties[j];
                proof {
                    assert(section.properties@.skip(j as int).drop_first()
                        =~= section.properties@.skip(j + 1));
                }
                match apply_property(&mut config, property.key.as_str(), property.value.as_str()) {
                    Ok(_) => {},
                    Err(e) => {
                        return Err(e);
                    },
                }
                j = j + 1;
            }
        }
        i = i + 1;
    }
    match validate_configuration(&config) {
        Ok(_) => Ok(config),
        Err(e) => Err(e),
    }
}

/// The path of the operator's configuration file for the two directories that
/// the environment may name, or nothing where it names neither usably.
pub open spec fn default_user_config_file(xdg_config_home: Option<Seq<char>>, home: Option<
    Seq<char>,
>) -> Option<Seq<char>> {
    let base = match xdg_config_home {
        Some(dir) => dir,
        None => match home {
            Some(dir) => dir + "/.config"@,
            None => Seq::empty(),
        },
    };
    if base.len() == 0 {
        None
    } else {
        Some(base + "/icinga2ctl/config.ini"@)
    }
}

/// The path of the operator's configuration file. `xdg_config_home` and `home`
/// are the values of the environment variables `XDG_CONFIG_HOME` and `HOME`,
/// `None` where a variable is not set. The file is `icinga2ctl/config.ini`
/// below `XDG_CONFIG_HOME` if that is set, else below `.config` in `HOME`.
/// With neither set, or with an empty `XDG_CONFIG_HOME`, there is no such path.
pub fn get_default_user_config_file(xdg_config_home: Option<&str>, home: Option<&str>) -> (r: Result<
    String,
    CtlError,
>)
    ensures
        match default_user_config_file(
            match xdg_config_home {
                Some(d) => Some(d@),
                None => None,
            },
            match home {
                Some(d) => Some(d@),
                None => None,
            },
        ) {
            Some(path) => r is Ok && r->Ok_0@ == path,
            None => fails_with(r, ErrorKind::NoConfigDirectory, Seq::empty()),
        },
{
    let mut base = String::new();
    match xdg_config_home {
        Some(dir) => {
            base.append(dir);
        },
        None => match home {
            Some(dir) => {
                base.append(dir);
                base.append("/.config");
            },
            None => {},
        },
    }
    proof {
        reveal_strlit("/.config");
    }
    if base.as_str().is_empty() {
        return Err(CtlError::plain(ErrorKind::NoConfigDirectory));
    }
    base.append("/icinga2ctl/config.ini");
    Ok(base)
}

} // verus!
