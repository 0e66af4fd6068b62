//! The control client of a Huawei E337 modem's web interface. The client
//! holds the session and verification tokens and decides every request and
//! what each response means; the caller performs the HTTP exchanges.
use vstd::prelude::*;
use vstd::utf8::encode_utf8;
use crate::codec::{EncryptError, base64_encoding, encrypt_failure, encrypt_with_key_text};
use crate::text::{chars_of, contains, contains_chars};
use crate::xml::{get_value_from_tag, tag_text};

verus! {

/// The HTTP method of a request to the modem.
#[derive(Clone, Copy, Debug, PartialEq, Eq, Structural)]
pub enum HttpMethod {
    Get,
    Post,
}

/// One request header.
#[derive(Debug)]
pub struct Header {
    pub name: String,
    pub value: String,
}

/// A request for the caller to send; `timeout_secs` bounds the whole exchange.
#[derive(Debug)]
pub struct HttpRequest {
    pub method: HttpMethod,
    pub url: String,
    pub headers: Vec<Header>,
    pub body: Option<String>,
    pub timeout_secs: u64,
}

/// Why a modem operation failed.
#[derive(Debug, PartialEq, Eq)]
pub enum ModemError {
    /// A request needs both tokens and one of them is not set.
    MissingTokens,
    /// A reply lacks the element with this name, or its text cannot be read.
    MissingElement(String),
    /// The public key could not be decoded or used.
    Encrypt(EncryptError),
    /// The reconnect reply did not report success; it holds the reply's body.
    ReconnectFailed(String),
}

/// The HTTP request header that carries, and the response header that
/// renews, the verification token.
pub open spec fn verification_header() -> Seq<char> {
    "__RequestVerificationToken"@
}

/// The request header that carries the session token.
pub open spec fn cookie_header() -> Seq<char> {
    "Cookie"@
}

/// The value of the cookie header for a session token.
pub open spec fn cookie_value(session: Seq<char>) -> Seq<char> {
    "SessionId="@ + session
}

/// The address of a path of the modem's web interface.
pub open spec fn modem_url(host: Seq<char>, path: Seq<char>) -> Seq<char> {
    "http://"@ + host + path
}

/// The path that hands out a session and a verification token.
pub open spec fn session_info_path() -> Seq<char> {
    "/api/webserver/SesTokInfo"@
}

/// The path that hands out the modem's RSA public key.
pub open spec fn public_key_path() -> Seq<char> {
    "/api/webserver/publickey"@
}

/// The path of device control commands.
pub open spec fn control_path() -> Seq<char> {
    "/api/device/control"@
}

/// The control command that restarts the mobile connection.
pub open spec fn reconnect_body() -> Seq<char> {
    "<?xml version=\"1.0\" encoding=\"UTF-8\"?><request><Control>1</Control></request>"@
}

/// What a successful control reply holds.
pub open spec fn success_marker() -> Seq<char> {
    "<response>OK</response>"@
}

/// The two authentication headers of a request, in order.
pub open spec fn auth_headers_of(headers: Seq<Header>, session: Seq<char>, verification: Seq<char>) -> bool {
    &&& headers.len() == 2
    &&& headers[0].name@ == cookie_header()
    &&& headers[0].value@ == cookie_value(session)
    &&& headers[1].name@ == verification_header()
    &&& headers[1].value@ == verification
}

/// The elements of the session reply that hold the two tokens.
pub open spec fn session_tag() -> Seq<char> {
    "SesInfo"@
}

pub open spec fn verification_tag() -> Seq<char> {
    "TokInfo"@
}

/// The elements of the public-key reply that hold the modulus and the exponent.
pub open spec fn modulus_tag() -> Seq<char> {
    "encpubkeyn"@
}

pub open spec fn exponent_tag() -> Seq<char> {
    "encpubkeye"@
}

/// A modem that can restart its mobile connection.
pub trait Modem {
    /// The host (and port) of the web interface.
    spec fn host_of(&self) -> Seq<char>;

    /// The deadline of each exchange, in seconds.
    spec fn timeout_of(&self) -> u64;

    /// The session token, once obtained.
    spec fn session_of(&self) -> Option<Seq<char>>;

    /// The verification token, once obtained.
    spec fn verification_of(&self) -> Option<Seq<char>>;

    /// The request that restarts the connection; it needs both tokens.
    fn reboot_request(&self) -> (r: Result<HttpRequest, ModemError>)
        ensures
            r is Ok <==> (self.session_of() is Some && self.verification_of() is Some),
            r matches Err(e) ==> e == ModemError::MissingTokens,
            r matches Ok(req) ==> {
                &&& req.method == HttpMethod::Post
                &&& req.url@ == modem_url(self.host_of(), control_path())
                &&& auth_headers_of(req.headers@, self.session_of()->Some_0, self.verification_of()->Some_0)
                &&& req.body matches Some(b) && b@ == reconnect_body()
                &&& req.timeout_secs == self.timeout_of()
            },
    ;

    /// Takes in the reply to that request: the renewed verification token
    /// if the reply carried one, and the body. Success exactly when the body
    /// holds the success marker; otherwise the error keeps the body.
    fn finish_reboot(&mut self, token: Option<String>, body: &str) -> (r: Result<(), ModemError>)
        ensures
            r is Ok <==> contains(body@, success_marker()),
            r matches Err(e) ==> e matches ModemError::ReconnectFailed(b) && b@ == body@,
            final(self).verification_of() == match token {
                Some(t) => Some(t@),
                None => old(self).verification_of(),
            },
            final(self).session_of() == old(self).session_of(),
            final(self).host_of() == old(self).host_of(),
            final(self).timeout_of() == old(self).timeout_of(),
    ;
}

/// The client state of a Huawei E337 modem.
pub struct HuaweiE337 {
    host: String,
    session_token: Option<String>,
    verification_token: Option<String>,
    timeout_secs: u64,
}

impl HuaweiE337 {
    /// A client of the modem at `host` whose exchanges last at most
    /// `timeout_secs` seconds; it holds no token yet.
    pub fn new(host: String, timeout_secs: u64) -> (r: HuaweiE337)
        ensures
            r.host_of() == host@,
            r.timeout_of() == timeout_secs,
            r.session_of() is None,
            r.verification_of() is None,
    {
        HuaweiE337 { host, session_token: None, verification_token: None, timeout_secs }
    }

    /// The session token, once obtained.
    pub fn session_token(&self) -> (r: Option<String>)
        ensures
            match r {
                Some(t) => self.session_of() == Some(t@),
                None => self.session_of() is None,
            },
    {
        match &self.session_token {
            Some(t) => Some(t.clone()),
            None => None,
        }
    }

    /// The verification token, once obtained.
    pub fn verification_token(&self) -> (r: Option<String>)
        ensures
            match r {
                Some(t) => self.verification_of() == Some(t@),
                None => self.verification_of() is None,
            },
    {
        match &self.verification_token {
            Some(t) => Some(t.clone()),
            None => None,
        }
    }

    fn url(&self, path: &str) -> (r: String)
        ensures
            r@ == modem_url(self.host@, path@),
    {
        let mut url = String::from_str("http://");
        url.append(self.host.as_str());
        url.append(path);
        url
    }

    /// The request that obtains fresh tokens.
    pub fn session_info_request(&self) -> (r: HttpRequest)
        ensures
            r.method == HttpMethod::Get,
            r.url@ == modem_url(self.host_of(), session_info_path()),
            r.headers@.len() == 0,
            r.body is None,
            r.timeout_secs == self.timeout_of(),
    {
        HttpRequest {
            method: HttpMethod::Get,
            url: self.url("/api/webserver/SesTokInfo"),
            headers: Vec::new(),
            body: None,
            timeout_secs: self.timeout_secs,
        }
    }

    /// Stores a session token and a verification token.
    pub fn set_tokens(&mut self, session: String, verification: String)
        ensures
            final(self).session_of() == Some(session@),
            final(self).verification_of() == Some(verification@),
            final(self).host_of() == old(self).host_of(),
            final(self).timeout_of() == old(self).timeout_of(),
    {
        self.session_token = Some(session);
        self.verification_token = Some(verification);
    }

    /// Takes in the reply to the session request: the tokens are the texts of
    /// its `SesInfo` and `TokInfo` elements. Without either, nothing changes.
    pub fn refresh_session_token(&mut self, body: &str) -> (r: Result<(), ModemError>)
        ensures
            final(self).host_of() == old(self).host_of(),
            final(self).timeout_of() == old(self).timeout_of(),
            match (tag_text(body@, session_tag()), tag_text(body@, verification_tag())) {
                (Some(s), Some(v)) => {
                    &&& r is Ok
                    &&& final(self).session_of() == Some(s)
                    &&& final(self).verification_of() == Some(v)
                },
                (None, _) => {
                    &&& r matches Err(ModemError::MissingElement(t)) && t@ == session_tag()
                    &&& final(self).session_of() == old(self).session_of()
                    &&& final(self).verification_of() == old(self).verification_of()
                },
                (Some(_), None) => {
                    &&& r matches Err(ModemError::MissingElement(t)) && t@ == verification_tag()
                    &&& final(self).session_of() == old(self).session_of()
                    &&& final(self).verification_of() == old(self).verification_of()
                },
            },
    {
        let session = match get_value_from_tag(body, "SesInfo") {
            Some(t) => t,
            None => return Err(ModemError::MissingElement(String::from_str("SesInfo"))),
        };
        let verification = match get_value_from_tag(body, "TokInfo") {
            Some(t) => t,
            None => return Err(ModemError::MissingElement(String::from_str("TokInfo"))),
        };
        self.set_tokens(session, verification);
        Ok(())
    }

    /// Takes a verification token that a response renewed; without one the
    /// token stays.
    pub fn update_verification_token(&mut self, token: Option<String>)
        ensures
            final(self).verification_of() == match token {
                Some(t) => Some(t@),
                None => old(self).verification_of(),
            },
            final(self).session_of() == old(self).session_of(),
            final(self).host_of() == old(self).host_of(),
            final(self).timeout_of() == old(self).timeout_of(),
    {
        if let Some(t) = token {
            self.verification_token = Some(t);
        }
    }

    /// The two authentication headers; both tokens must be set.
    fn auth_headers(&self) -> (r: Result<Vec<Header>, ModemError>)
        ensures
            match r {
                Ok(h) => self.session_of() matches Some(s) && self.verification_of() matches Some(v)
                    && auth_headers_of(h@, s, v),
                Err(e) => e == ModemError::MissingTokens && (self.session_of() is None
                    || self.verification_of() is None),
            },
    {
        match (&self.session_token, &self.verification_token) {
            (Some(session), Some(verification)) => {
                let mut cookie = String::from_str("SessionId=");
                cookie.append(session.as_str());
                let mut headers: Vec<Header> = Vec::new();
                headers.push(Header { name: String::from_str("Cookie"), value: cookie });
                headers.push(
                    Header {
                        name: String::from_str("__RequestVerificationToken"),
                        value: verification.clone(),
                    },
                );
                Ok(headers)
            },
            _ => Err(ModemError::MissingTokens),
        }
    }

    /// The request for the modem's public key; it needs both tokens.
    pub fn public_key_request(&self) -> (r: Result<HttpRequest, ModemError>)
        ensures
            r is Ok <==> (self.session_of() is Some && self.verification_of() is Some),
            r matches Err(e) ==> e == ModemError::MissingTokens,
            r matches Ok(req) ==> {
                &&& req.method == HttpMethod::Get
                &&& req.url@ == modem_url(self.host_of(), public_key_path())
                &&& auth_headers_of(req.headers@, self.session_of()->Some_0, self.verification_of()->Some_0)
                &&& req.body is None
                &&& req.timeout_secs == self.timeout_of()
            },
    {
        let headers = self.auth_headers()?;
        Ok(
            HttpRequest {
                method: HttpMethod::Get,
                url: self.url("/api/webserver/publickey"),
                headers,
                body: None,
                timeout_secs: self.timeout_secs,
            },
        )
    }

    /// Takes in the reply to the public-key request (`public_key_request`):
    /// the renewed verification token, if the reply carried one, and the
    /// body. Encrypts `payload` under the key in the body, whose
    /// `encpubkeyn` and `encpubkeye` elements hold the modulus and the
    /// exponent, and returns the ciphertext in base64. Without both tokens
    /// nothing changes and the call fails.
    pub fn encrypt_with_public_key(&mut self, token: Option<String>, key_xml: &str, payload: &str) -> (r:
        Result<String, ModemError>)
        ensures
            final(self).host_of() == old(self).host_of(),
            final(self).timeout_of() == old(self).timeout_of(),
            final(self).session_of() == old(self).session_of(),
            r == Err::<String, ModemError>(ModemError::MissingTokens) <==> (old(self).session_of() is None
                || old(self).verification_of() is None),
            (old(self).session_of() is None || old(self).verification_of() is None)
                ==> final(self).verification_of() == old(self).verification_of(),
            (old(self).session_of() is Some && old(self).verification_of() is Some) ==> {
                &&& final(self).verification_of() == match token {
                    Some(t) => Some(t@),
                    None => old(self).verification_of(),
                }
                &&& match (tag_text(key_xml@, modulus_tag()), tag_text(key_xml@, exponent_tag())) {
                    (Some(n), Some(e)) => match encrypt_failure(
                        encode_utf8(n),
                        encode_utf8(e),
                        encode_utf8(payload@),
                    ) {
                        Some(err) => r == Err::<String, ModemError>(ModemError::Encrypt(err)),
                        None => r is Ok || r == Err::<String, ModemError>(
                            ModemError::Encrypt(EncryptError::Crypto),
                        ),
                    },
                    (None, _) => r matches Err(ModemError::MissingElement(t)) && t@ == modulus_tag(),
                    (Some(_), None) => r matches Err(ModemError::MissingElement(t)) && t@ == exponent_tag(),
                }
            },
            r matches Ok(text) ==> exists|c: Seq<u8>| text@ == base64_encoding(c),
    {
        if self.session_token.is_none() || self.verification_token.is_none() {
            return Err(ModemError::MissingTokens);
        }
        self.update_verification_token(token);
        let modulus = match get_value_from_tag(key_xml, "encpubkeyn") {
            Some(t) => t,
            None => return Err(ModemError::MissingElement(String::from_str("encpubkeyn"))),
        };
        let exponent = match get_value_from_tag(key_xml, "encpubkeye") {
            Some(t) => t,
            None => return Err(ModemError::MissingElement(String::from_str("encpubkeye"))),
        };
        match encrypt_with_key_text(modulus.as_str(), exponent.as_str(), payload) {
            Ok(text) => Ok(text),
            Err(e) => Err(ModemError::Encrypt(e)),
        }
    }

    /// The request that restarts the mobile connection; it needs both tokens.
    pub fn reconnect_request(&self) -> (r: Result<HttpRequest, ModemError>)
        ensures
            r is Ok <==> (self.session_of() is Some && self.verification_of() is Some),
            r matches Err(e) ==> e == ModemError::MissingTokens,
            r matches Ok(req) ==> {
                &&& req.method == HttpMethod::Post
                &&& req.url@ == modem_url(self.host_of(), control_path())
                &&& auth_headers_of(req.headers@, self.session_of()->Some_0, self.verification_of()->Some_0)
                &&& req.body matches Some(b) && b@ == reconnect_body()
                &&& req.timeout_secs == self.timeout_of()
            },
    {
        let headers = self.auth_headers()?;
        Ok(
            HttpRequest {
                method: HttpMethod::Post,
                url: self.url("/api/device/control"),
                headers,
                body: Some(
                    String::from_str(
                        "<?xml version=\"1.0\" encoding=\"UTF-8\"?><request><Control>1</Control></request>",
                    ),
                ),
                timeout_secs: self.timeout_secs,
            },
        )
    }

    /// What the reply to a reconnect request means: success exactly when its
    /// body holds the success marker; otherwise the body is kept.
    pub fn reconnect_outcome(body: &str) -> (r: Result<(), ModemError>)
        ensures
            r is Ok <==> contains(body@, success_marker()),
            r matches Err(e) ==> e matches ModemError::ReconnectFailed(b) && b@ == body@,
    {
        let marker = chars_of("<response>OK</response>");
        if contains_chars(&chars_of(body), &marker) {
            Ok(())
        } else {
            Err(ModemError::ReconnectFailed(body.to_owned()))
        }
    }
}

impl Modem for HuaweiE337 {
    closed spec fn host_of(&self) -> Seq<char> {
        self.host@
    }

    closed spec fn timeout_of(&self) -> u64 {
        self.timeout_secs
    }

    closed spec fn session_of(&self) -> Option<Seq<char>> {
        match self.session_token {
            Some(t) => Some(t@),
            None => None,
        }
    }

    closed spec fn verification_of(&self) -> Option<Seq<char>> {
        match self.verification_token {
            Some(t) => Some(t@),
            None => None,
        }
    }

    fn reboot_request(&self) -> (r: Result<HttpRequest, ModemError>) {
        self.reconnect_request()
    }

    fn finish_reboot(&mut self, token: Option<String>, body: &str) -> (r: Result<(), ModemError>) {
        self.update_verification_token(token);
        HuaweiE337::reconnect_outcome(body)
    }
}

} // verus!
