//! What is sent: the request of a command, and what the HTTP client must be
//! set up with to send it. Building the client and sending are the caller's
//! part.

use vstd::prelude::*;
use vstd::string::*;
use crate::configuration::Configuration;
use crate::constants::{user_agent, user_agent_spec, AUTH_CERT, AUTH_USER};

verus! {

/// The request of a command. All requests are sent with POST.
#[derive(Debug)]
pub struct HttpRequest {
    /// The method that the server is to act on in place of POST; empty for none.
    pub method_override: String,
    /// The path of the API endpoint.
    pub path: String,
    /// The query string, without the question mark; empty for none.
    pub query: String,
    /// The JSON body.
    pub body: String,
}

/// Whether `request` is a plain POST of `body` to `path`.
pub open spec fn is_action(request: HttpRequest, path: Seq<char>, body: Seq<char>) -> bool {
    &&& request.method_override@.len() == 0
    &&& request.path@ == path
    &&& request.query@.len() == 0
    &&& request.body@ == body
}

/// The plain POST of `body` to `path`.
pub fn action_request(path: &str, body: String) -> (request: HttpRequest)
    ensures
        is_action(request, path@, body@),
{
    HttpRequest {
        method_override: String::new(),
        path: String::from_str(path),
        query: String::new(),
        body,
    }
}

/// The URL of a request on the server at `base`.
pub open spec fn request_url_spec(base: Seq<char>, path: Seq<char>, query: Seq<char>) -> Seq<char> {
    if query.len() == 0 {
        base + path
    } else {
        base + path + "?"@ + query
    }
}

/// The URL that a request goes to on the server at `base`: the base, the path
/// and, behind a question mark, the query string if there is one.
pub fn request_url(base: &str, request: &HttpRequest) -> (url: String)
    ensures
        url@ == request_url_spec(base@, request.path@, request.query@),
{
    let mut url = String::from_str(base);
    url.append(request.path.as_str());
    if !request.query.as_str().is_empty() {
        url.append("?");
        url.append(request.query.as_str());
    }
    url
}

/// The base64 form of a text's bytes, in the standard alphabet with padding,
/// as the `base64` crate writes it.
pub uninterp spec fn base64_text(input: Seq<char>) -> Seq<char>;

/// Calls `base64::encode` on the bytes of the text. Nothing more is claimed of
/// the result than that the text decides it.
#[verifier::external_body]
fn base64_encode(input: &str) -> (r: String)
    ensures
        r@ == base64_text(input@),
{
    base64::encode(input)
}

/// The value of the `Authorization` header for credentials in base64 form.
pub open spec fn authorization_spec(encoded: Seq<char>) -> Seq<char> {
    "Basic "@ + encoded
}

/// The value of the `Authorization` header for credentials that are already
/// in base64 form.
pub fn authorization_value(encoded: &str) -> (r: String)
    ensures
        r@ == authorization_spec(encoded@),
{
    let mut r = String::from_str("Basic ");
    r.append(encoded);
    r
}

/// The value of the `Authorization` header for a user and a password: the
/// word `Basic` and the base64 form of user, colon, password.
pub fn basic_authorization(user: &str, password: &str) -> (r: String)
    ensures
        r@ == authorization_spec(base64_text(user@ + ":"@ + password@)),
{
    let mut credentials = String::from_str(user);
    credentials.append(":");
    credentials.append(password);
    let encoded = base64_encode(credentials.as_str());
    authorization_value(encoded.as_str())
}

/// One header of a request.
#[derive(Debug)]
pub struct Header {
    pub name: String,
    pub value: String,
}

/// A client certificate: the PKCS #12 file and the password that opens it.
#[derive(Debug)]
pub struct Identity {
    pub file: String,
    pub password: String,
}

/// What the HTTP client is set up with.
#[derive(Debug)]
pub struct ClientPlan {
    /// The headers of every request, in order.
    pub headers: Vec<Header>,
    /// Whether the server's certificate and host name go unchecked.
    pub accept_invalid_certs: bool,
    /// The file with the certificate authority to trust, if any.
    pub ca_file: Option<String>,
    /// The client certificate to present, if any.
    pub identity: Option<Identity>,
}

/// A header as a pair of texts.
pub open spec fn header_view(h: Header) -> (Seq<char>, Seq<char>) {
    (h.name@, h.value@)
}

/// The headers of every request under the given settings.
pub open spec fn headers_spec(
    over: Seq<char>,
    auth: u8,
    user: Seq<char>,
    password: Seq<char>,
) -> Seq<(Seq<char>, Seq<char>)> {
    seq![
        ("Accept"@, "application/json"@),
        ("Content-Type"@, "application/json"@),
        ("User-Agent"@, user_agent_spec()),
    ] + (if over.len() > 0 {
        seq![("X-HTTP-Method-Override"@, over)]
    } else {
        Seq::empty()
    }) + (if auth == AUTH_USER {
        seq![("Authorization"@, authorization_spec(base64_text(user + ":"@ + password)))]
    } else {
        Seq::empty()
    })
}

/// Lays down what the HTTP client is set up with for the settings `cfg`.
/// Every request says that it sends and accepts JSON and who the client is;
/// `over`, where it is not empty, goes into the method override header. With
/// `insecure_ssl` the server's certificate is not checked, and a certificate
/// authority is of no use then; otherwise the authority's file is trusted if
/// one is set. Password authentication adds the `Authorization` header,
/// certificate authentication makes the client present its certificate. The
/// settings must name one of the two.
pub fn client_plan(cfg: &Configuration, over: &str) -> (plan: ClientPlan)
    requires
        cfg.auth == AUTH_USER || cfg.auth == AUTH_CERT,
    ensures
        plan.headers@.map_values(|h: Header| header_view(h)) == headers_spec(
            over@,
            cfg.auth,
            cfg.auth_user@,
            cfg.auth_password@,
        ),
        plan.accept_invalid_certs == cfg.insecure_ssl,
        match plan.ca_file {
            Some(file) => !cfg.insecure_ssl && cfg.ca_file@.len() > 0 && file@ == cfg.ca_file@,
            None => cfg.insecure_ssl || cfg.ca_file@.len() == 0,
        },
        match plan.identity {
            Some(identity) => cfg.auth == AUTH_CERT && identity.file@ == cfg.auth_cert@
                && identity.password@ == cfg.auth_cert_password@,
            None => cfg.auth == AUTH_USER,
        },
{
    let mut headers: Vec<Header> = Vec::new();
    headers.push(
        Header { name: String::from_str("Accept"), value: String::from_str("application/json") },
    );
    headers.push(
        Header {
            name: String::from_str("Content-Type"),
            value: String::from_str("application/json"),
        },
    );
    headers.push(Header { name: String::from_str("User-Agent"), value: user_agent() });
    if !over.is_empty() {
        headers.push(
            Header { name: String::from_str("X-HTTP-Method-Override"), value: String::from_str(over) },
        );
    }
    let ca_file = if !cfg.insecure_ssl && !cfg.ca_file.as_str().is_empty() {
        Some(cfg.ca_file.clone())
    } else {
        None
    };
    let identity = if cfg.auth == AUTH_USER {
        headers.push(
            Header {
                name: String::from_str("Authorization"),
                value: basic_authorization(cfg.auth_user.as_str(), cfg.auth_password.as_str()),
            },
        );
        None
    } else {
        Some(Identity { file: cfg.auth_cert.clone(), password: cfg.auth_cert_password.clone() })
    };
    ClientPlan { headers, accept_invalid_certs: cfg.insecure_ssl, ca_file, identity }
}

} // verus!
