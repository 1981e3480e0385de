use vstd::prelude::*;
use vstd::utf8::{decode_utf8, valid_utf8};
use crate::config::RuntimeConfig;
use crate::text::{
    chars_of, clone_opt, joined, joined3, contains_char, decimal, decimal_string, first_some,
    is_blank, opt_view, push_decimal, signed_decimal, signed_decimal_string, str_eq, trim, trimmed,
    opt_str_view,
};

verus! {

// ---------------------------------------------------------------------------
// Data exchanged with the server
// ---------------------------------------------------------------------------

/// How the config list endpoint matches `dataId` and `group`.
#[derive(Debug, Clone, Copy, PartialEq, Eq, Structural)]
pub enum SearchMode {
    Auto,
    Accurate,
    Blur,
}

/// The outcome of a successful login.
pub struct LoginResult {
    pub access_token: String,
    pub token_ttl: Option<u64>,
    pub endpoint: String,
}

/// The mathematical content of a [`LoginResult`].
pub struct LoginResultModel {
    pub access_token: Seq<char>,
    pub token_ttl: Option<u64>,
    pub endpoint: Seq<char>,
}

impl View for LoginResult {
    type V = LoginResultModel;

    open spec fn view(&self) -> LoginResultModel {
        LoginResultModel {
            access_token: self.access_token@,
            token_ttl: self.token_ttl,
            endpoint: self.endpoint@,
        }
    }
}

/// One page of config entries.
pub struct ConfigListResult {
    pub total_count: usize,
    pub page_number: usize,
    pub pages_available: usize,
    pub page_items: Vec<ConfigListItem>,
}

/// One config entry of a listing.
pub struct ConfigListItem {
    pub data_id: String,
    pub group: Option<String>,
    pub group_name: Option<String>,
    pub tenant: Option<String>,
    pub config_type: Option<String>,
    pub content: Option<String>,
}

/// The content of one config entry.
pub struct ConfigGetResult {
    pub content: String,
}

/// A config entry to create or update.
pub struct ConfigSetRequest {
    pub data_id: String,
    pub group: String,
    pub content: String,
    pub config_type: Option<String>,
}

/// A token obtained by logging in; `expires_at` is a point on the caller's
/// monotonic clock, in nanoseconds.
pub struct TokenInfo {
    pub access_token: String,
    pub expires_at: Option<u128>,
}

/// The body of a login response, as the server sends it.
pub struct LoginEnvelope {
    pub access_token: Option<String>,
    pub token_ttl: Option<u64>,
    pub data: Option<LoginEnvelopeData>,
    pub code: Option<i64>,
    pub message: Option<String>,
}

/// The nested `data` object of a login response.
pub struct LoginEnvelopeData {
    pub access_token: Option<String>,
    pub token_ttl: Option<u64>,
}

/// The body of a publish or remove response in its JSON form.
pub struct BoolEnvelope {
    pub data: Option<bool>,
    pub code: Option<i64>,
    pub message: Option<String>,
}

// ---------------------------------------------------------------------------
// Errors
// ---------------------------------------------------------------------------

/// Why a request to the server failed.
pub enum NacosError {
    MissingUsername,
    MissingPassword,
    /// A non-success HTTP status; `body` is the trimmed response text.
    Http { operation: String, status: u16, body: String },
    /// The server refused a login; `detail` is its message or `code=<code>`.
    LoginFailed { endpoint: String, detail: String },
    InvalidLoginResponse,
    MissingAccessToken,
    /// The server reported an error code for an operation.
    Rejected { operation: String, message: String },
    UnexpectedResponse { operation: String, text: String },
    /// The config content is not UTF-8; `reason` is the decoder's message.
    NotUtf8 { reason: String },
    EndpointUnavailable(String),
    /// The request did not reach the server, or its answer could not be read.
    Transport(String),
}

/// The mathematical content of a [`NacosError`].
pub enum NacosErrorModel {
    MissingUsername,
    MissingPassword,
    Http { operation: Seq<char>, status: u16, body: Seq<char> },
    LoginFailed { endpoint: Seq<char>, detail: Seq<char> },
    InvalidLoginResponse,
    MissingAccessToken,
    Rejected { operation: Seq<char>, message: Seq<char> },
    UnexpectedResponse { operation: Seq<char>, text: Seq<char> },
    NotUtf8 { reason: Seq<char> },
    EndpointUnavailable(Seq<char>),
    Transport(Seq<char>),
}

impl View for NacosError {
    type V = NacosErrorModel;

    open spec fn view(&self) -> NacosErrorModel {
        match self {
            NacosError::MissingUsername => NacosErrorModel::MissingUsername,
            NacosError::MissingPassword => NacosErrorModel::MissingPassword,
            NacosError::Http { operation, status, body } => NacosErrorModel::Http {
                operation: operation@,
                status: *status,
                body: body@,
            },
            NacosError::LoginFailed { endpoint, detail } => NacosErrorModel::LoginFailed {
                endpoint: endpoint@,
                detail: detail@,
            },
            NacosError::InvalidLoginResponse => NacosErrorModel::InvalidLoginResponse,
            NacosError::MissingAccessToken => NacosErrorModel::MissingAccessToken,
            NacosError::Rejected { operation, message } => NacosErrorModel::Rejected {
                operation: operation@,
                message: message@,
            },
            NacosError::UnexpectedResponse { operation, text } =>
                NacosErrorModel::UnexpectedResponse { operation: operation@, text: text@ },
            NacosError::NotUtf8 { reason } => NacosErrorModel::NotUtf8 { reason: reason@ },
            NacosError::EndpointUnavailable(e) => NacosErrorModel::EndpointUnavailable(e@),
            NacosError::Transport(m) => NacosErrorModel::Transport(m@),
        }
    }
}

impl NacosErrorModel {
    /// The message that the error reports.
    pub open spec fn text(self) -> Seq<char> {
        match self {
            NacosErrorModel::MissingUsername =>
                "missing username, set --username or nactl config"@,
            NacosErrorModel::MissingPassword =>
                "missing password, set --password or nactl config"@,
            NacosErrorModel::Http { operation, status, body } => if body.len() == 0 {
                operation + " failed with HTTP "@ + decimal(status as nat)
            } else {
                operation + " failed with HTTP "@ + decimal(status as nat) + ": "@ + body
            },
            NacosErrorModel::LoginFailed { endpoint, detail } => "login failed via "@ + endpoint
                + ": "@ + detail,
            NacosErrorModel::InvalidLoginResponse => "failed to parse login response"@,
            NacosErrorModel::MissingAccessToken => "login response does not contain accessToken"@,
            NacosErrorModel::Rejected { operation, message } => operation + " failed: "@
                + message,
            NacosErrorModel::UnexpectedResponse { operation, text } => operation
                + " failed: unexpected response "@ + text,
            NacosErrorModel::NotUtf8 { reason } => "config content is not UTF-8"@,
            NacosErrorModel::EndpointUnavailable(e) => e + " is not available"@,
            NacosErrorModel::Transport(m) => m,
        }
    }

    /// The message of the decoder's error that caused this one, if any.
    pub open spec fn cause(self) -> Option<Seq<char>> {
        match self {
            NacosErrorModel::NotUtf8 { reason } => Some(reason),
            _ => None,
        }
    }
}

impl NacosError {
    /// The message that the error reports.
    pub fn message(&self) -> (r: String)
        ensures
            r@ == self@.text(),
    {
        match self {
            NacosError::MissingUsername => "missing username, set --username or nactl config"
                .to_string(),
            NacosError::MissingPassword => "missing password, set --password or nactl config"
                .to_string(),
            NacosError::Http { operation, status, body } => {
                let mut r = joined(operation.as_str(), " failed with HTTP ");
                push_decimal(&mut r, *status as u64);
                if body.as_str().is_empty() {
                    r
                } else {
                    r.append(": ");
                    r.append(body.as_str());
                    r
                }
            },
            NacosError::LoginFailed { endpoint, detail } => {
                let mut r = joined3("login failed via ", endpoint.as_str(), ": ");
                r.append(detail.as_str());
                r
            },
            NacosError::InvalidLoginResponse => "failed to parse login response".to_string(),
            NacosError::MissingAccessToken => "login response does not contain accessToken"
                .to_string(),
            NacosError::Rejected { operation, message } => joined3(
                operation.as_str(),
                " failed: ",
                message.as_str(),
            ),
            NacosError::UnexpectedResponse { operation, text } => joined3(
                operation.as_str(),
                " failed: unexpected response ",
                text.as_str(),
            ),
            NacosError::NotUtf8 { reason } => "config content is not UTF-8".to_string(),
            NacosError::EndpointUnavailable(e) => joined(e.as_str(), " is not available"),
            NacosError::Transport(m) => m.clone(),
        }
    }

    /// The message of the decoder's error that caused this one, if any.
    pub fn cause(&self) -> (r: Option<String>)
        ensures
            opt_view(r) == self@.cause(),
    {
        match self {
            NacosError::NotUtf8 { reason } => Some(reason.clone()),
            _ => None,
        }
    }
}

// ---------------------------------------------------------------------------
// Bytes and text of responses
// ---------------------------------------------------------------------------

/// What `String::from_utf8_lossy` makes of a byte string.
pub uninterp spec fn lossy_utf8(bytes: Seq<u8>) -> Seq<char>;

/// Calls `String::from_utf8_lossy`. Trusted: the result is [`lossy_utf8`]
/// of the bytes, and the decoded text itself when the bytes are valid UTF-8,
/// as std documents; how invalid sequences are replaced is not stated.
#[verifier::external_body]
fn utf8_lossy(bytes: &[u8]) -> (r: String)
    ensures
        r@ == lossy_utf8(bytes@),
        valid_utf8(bytes@) ==> r@ == decode_utf8(bytes@),
{
    String::from_utf8_lossy(bytes).into_owned()
}

/// The message of the `FromUtf8Error` that `String::from_utf8` gives for a
/// byte string that is not UTF-8.
pub uninterp spec fn utf8_error(bytes: Seq<u8>) -> Seq<char>;

/// Calls `String::from_utf8`, and `to_string` on its error. Trusted: it
/// succeeds exactly on valid UTF-8 and then holds the decoded text, as std
/// documents; otherwise the result is the error's message, [`utf8_error`]
/// of the bytes.
#[verifier::external_body]
fn utf8_string(bytes: Vec<u8>) -> (r: Result<String, String>)
    ensures
        r is Ok <==> valid_utf8(bytes@),
        match r {
            Ok(s) => s@ == decode_utf8(bytes@),
            Err(reason) => reason@ == utf8_error(bytes@),
        },
{
    match String::from_utf8(bytes) {
        Ok(s) => Ok(s),
        Err(e) => Err(e.to_string()),
    }
}

/// Whether two byte strings are equal.
fn bytes_eq(a: &[u8], b: &[u8]) -> (r: bool)
    ensures
        r == (a@ == b@),
{
    if a.len() != b.len() {
        return false;
    }
    let mut i: usize = 0;
    while i < a.len()
        invariant
            a.len() == b.len(),
            i <= a.len(),
            forall|k: int| 0 <= k < i ==> a@[k] == b@[k],
        decreases a.len() - i,
    {
        if a[i] != b[i] {
            return false;
        }
        i = i + 1;
    }
    assert(a@ =~= b@);
    true
}

/// A 2xx status.
pub open spec fn is_success(status: u16) -> bool {
    200 <= status <= 299
}

/// The error for a non-success HTTP status.
pub open spec fn spec_http_error(operation: Seq<char>, status: u16, body: Seq<u8>) -> NacosErrorModel {
    NacosErrorModel::Http { operation, status, body: trimmed(lossy_utf8(body)) }
}

/// The error for a non-success HTTP status, carrying the response text.
pub fn http_error(operation: &str, status: u16, body: &[u8]) -> (r: NacosError)
    ensures
        r@ == spec_http_error(operation@, status, body@),
{
    let text = utf8_lossy(body);
    NacosError::Http { operation: operation.to_string(), status, body: trim(text.as_str()) }
}

/// Lets a success status through; any other status is an HTTP error
/// carrying the response text.
pub fn require_success(operation: &str, status: u16, body: &[u8]) -> (r: Result<(), NacosError>)
    ensures
        match r {
            Ok(()) => is_success(status),
            Err(e) => !is_success(status) && e@ == spec_http_error(operation@, status, body@),
        },
{
    if 200 <= status && status <= 299 {
        Ok(())
    } else {
        Err(http_error(operation, status, body))
    }
}

/// The outcome of a publish or remove request whose status was a success:
/// the text `true`, or a JSON body with no error code and `data: true`.
/// `envelope` is the body read as JSON, `None` where it is not such JSON.
pub open spec fn spec_bool_response(
    operation: Seq<char>,
    body: Seq<u8>,
    envelope: Option<BoolEnvelope>,
) -> Result<(), NacosErrorModel> {
    let text = lossy_utf8(body);
    if trimmed(text) == "true"@ {
        Ok(())
    } else {
        match envelope {
            Some(env) => if (match env.code {
                Some(c) => c,
                None => 0,
            }) != 0 {
                Err(
                    NacosErrorModel::Rejected {
                        operation,
                        message: match env.message {
                            Some(m) => m@,
                            None => "server returned an error"@,
                        },
                    },
                )
            } else if env.data == Some(true) {
                Ok(())
            } else {
                Err(NacosErrorModel::UnexpectedResponse { operation, text })
            },
            None => Err(NacosErrorModel::UnexpectedResponse { operation, text }),
        }
    }
}

/// Reads the body of a successful publish or remove response.
pub fn parse_bool_response(operation: &str, body: &[u8], envelope: Option<BoolEnvelope>) -> (r:
    Result<(), NacosError>)
    ensures
        match r {
            Ok(()) => spec_bool_response(operation@, body@, envelope) is Ok,
            Err(e) => spec_bool_response(operation@, body@, envelope) == Err::<(), NacosErrorModel>(
                e@,
            ),
        },
{
    let text = utf8_lossy(body);
    let t = trim(text.as_str());
    if str_eq(t.as_str(), "true") {
        return Ok(());
    }
    match envelope {
        Some(env) => {
            let code = match env.code {
                Some(c) => c,
                None => 0,
            };
            if code != 0 {
                let message = match env.message {
                    Some(m) => m,
                    None => "server returned an error".to_string(),
                };
                return Err(NacosError::Rejected { operation: operation.to_string(), message });
            }
            if env.data == Some(true) {
                return Ok(());
            }
            Err(NacosError::UnexpectedResponse { operation: operation.to_string(), text })
        },
        None => Err(NacosError::UnexpectedResponse { operation: operation.to_string(), text }),
    }
}

/// The outcome of a publish or remove request: an HTTP error for a
/// non-success status, else what [`spec_bool_response`] makes of the body.
pub open spec fn spec_mutation_response(
    operation: Seq<char>,
    status: u16,
    body: Seq<u8>,
    envelope: Option<BoolEnvelope>,
) -> Result<(), NacosErrorModel> {
    if !is_success(status) {
        Err(spec_http_error(operation, status, body))
    } else {
        spec_bool_response(operation, body, envelope)
    }
}

/// Interprets the answer to a publish or remove request. `envelope` is the
/// body read as JSON, `None` where it is not such JSON; it is consulted only
/// for a success status.
pub fn mutation_response(
    operation: &str,
    status: u16,
    body: &[u8],
    envelope: Option<BoolEnvelope>,
) -> (r: Result<(), NacosError>)
    ensures
        r is Ok <==> is_success(status) && spec_bool_response(operation@, body@, envelope) is Ok,
        match r {
            Ok(()) => spec_mutation_response(operation@, status, body@, envelope) is Ok,
            Err(e) => spec_mutation_response(operation@, status, body@, envelope) == Err::<
                (),
                NacosErrorModel,
            >(e@),
        },
{
    match require_success(operation, status, body) {
        Ok(()) => parse_bool_response(operation, body, envelope),
        Err(e) => Err(e),
    }
}

/// The body that r-nacos sends for a missing config entry.
pub open spec fn missing_config_body() -> Seq<u8> {
    "config data not exist"@.map_values(|c: char| c as u8)
}

/// The outcome of a config fetch: `None` for a 404 or the "config data not
/// exist" body, an HTTP error for another non-success status, else the body
/// as UTF-8 text.
pub open spec fn spec_get_config_response(status: u16, body: Seq<u8>) -> Result<
    Option<Seq<char>>,
    NacosErrorModel,
> {
    if status == 404 || body == missing_config_body() {
        Ok(None)
    } else if !is_success(status) {
        Err(spec_http_error("get config"@, status, body))
    } else if !valid_utf8(body) {
        Err(NacosErrorModel::NotUtf8 { reason: utf8_error(body) })
    } else {
        Ok(Some(decode_utf8(body)))
    }
}

/// Interprets the answer to a config fetch.
pub fn get_config_response(status: u16, body: Vec<u8>) -> (r: Result<
    Option<ConfigGetResult>,
    NacosError,
>)
    ensures
        match r {
            Ok(Some(c)) => spec_get_config_response(status, body@) == Ok::<
                Option<Seq<char>>,
                NacosErrorModel,
            >(Some(c.content@)),
            Ok(None) => spec_get_config_response(status, body@) == Ok::<
                Option<Seq<char>>,
                NacosErrorModel,
            >(None),
            Err(e) => spec_get_config_response(status, body@) == Err::<
                Option<Seq<char>>,
                NacosErrorModel,
            >(e@),
        },
{
    let marker = "config data not exist";
    let marker_bytes = marker.as_bytes();
    proof {
        reveal_strlit("config data not exist");
        vstd::utf8::is_ascii_chars_encode_utf8(marker@);
        assert(marker_bytes@ =~= missing_config_body());
    }
    if status == 404 || bytes_eq(body.as_slice(), marker_bytes) {
        return Ok(None);
    }
    if !(200 <= status && status <= 299) {
        return Err(http_error("get config", status, body.as_slice()));
    }
    match utf8_string(body) {
        Ok(content) => Ok(Some(ConfigGetResult { content })),
        Err(reason) => Err(NacosError::NotUtf8 { reason }),
    }
}


// ---------------------------------------------------------------------------
// Logging in
// ---------------------------------------------------------------------------

/// The access token that a login response gives, top level first.
pub open spec fn envelope_token(env: LoginEnvelope) -> Option<Seq<char>> {
    first_some(
        opt_view(env.access_token),
        match env.data {
            Some(d) => opt_view(d.access_token),
            None => None,
        },
    )
}

/// The token lifetime that a login response gives, top level first.
pub open spec fn envelope_ttl(env: LoginEnvelope) -> Option<u64> {
    first_some(
        env.token_ttl,
        match env.data {
            Some(d) => d.token_ttl,
            None => None,
        },
    )
}

/// The outcome of a successful login response from `endpoint`; `envelope`
/// is the body read as JSON, `None` where it is not such JSON.
pub open spec fn spec_parse_login(envelope: Option<LoginEnvelope>, endpoint: Seq<char>) -> Result<
    LoginResultModel,
    NacosErrorModel,
> {
    match envelope {
        None => Err(NacosErrorModel::InvalidLoginResponse),
        Some(env) => if env.code is Some && env.code->0 != 0 {
            Err(
                NacosErrorModel::LoginFailed {
                    endpoint,
                    detail: match env.message {
                        Some(m) => m@,
                        None => "code="@ + signed_decimal(env.code->0 as int),
                    },
                },
            )
        } else {
            match envelope_token(env) {
                None => Err(NacosErrorModel::MissingAccessToken),
                Some(token) => Ok(
                    LoginResultModel { access_token: token, token_ttl: envelope_ttl(env), endpoint },
                ),
            }
        },
    }
}

/// Reads a login response from `endpoint`.
pub fn parse_login_response(envelope: Option<LoginEnvelope>, endpoint: &str) -> (r: Result<
    LoginResult,
    NacosError,
>)
    ensures
        match r {
            Ok(l) => spec_parse_login(envelope, endpoint@) == Ok::<
                LoginResultModel,
                NacosErrorModel,
            >(l@),
            Err(e) => spec_parse_login(envelope, endpoint@) == Err::<
                LoginResultModel,
                NacosErrorModel,
            >(e@),
        },
{
    let env = match envelope {
        Some(env) => env,
        None => {
            return Err(NacosError::InvalidLoginResponse);
        },
    };
    if let Some(code) = env.code {
        if code != 0 {
            let detail = match env.message {
                Some(m) => m,
                None => joined("code=", signed_decimal_string(code).as_str()),
            };
            return Err(NacosError::LoginFailed { endpoint: endpoint.to_string(), detail });
        }
    }
    let (data_token, data_ttl) = match env.data {
        Some(d) => (d.access_token, d.token_ttl),
        None => (None, None),
    };
    let access_token = match env.access_token {
        Some(t) => t,
        None => match data_token {
            Some(t) => t,
            None => {
                return Err(NacosError::MissingAccessToken);
            },
        },
    };
    let token_ttl = match env.token_ttl {
        Some(t) => Some(t),
        None => data_ttl,
    };
    Ok(LoginResult { access_token, token_ttl, endpoint: endpoint.to_string() })
}

/// The login endpoints, tried in this order.
pub open spec fn login_endpoint(i: int) -> Seq<char> {
    if i == 0 {
        "/v3/auth/user/login"@
    } else if i == 1 {
        "/v1/auth/users/login"@
    } else {
        "/v1/auth/login"@
    }
}

/// The number of login endpoints.
pub open spec fn login_endpoint_count() -> int {
    3
}

/// A status by which a server says that it has no such login endpoint.
pub open spec fn endpoint_refused(status: u16) -> bool {
    status == 404 || status == 405 || status == 501
}

/// What came of one login request.
pub enum LoginEvent {
    /// The request failed before an answer was read.
    TransportFailed(String),
    /// An answer came; `envelope` is its body read as JSON, if it is such JSON.
    Responded { status: u16, body: Vec<u8>, envelope: Option<LoginEnvelope> },
}

/// The progress of a login over the endpoints: the endpoint to try now.
pub struct LoginAttempts {
    index: usize,
}

/// What to do next in a login.
pub enum LoginStep {
    /// Send the credentials to endpoint `attempts.position()`.
    Attempt(LoginAttempts),
    /// The login is over.
    Finished(Result<LoginResult, NacosError>),
}

/// `r` moves on from endpoint `i` after it failed with `err`: to the next
/// endpoint, or, after the last one, to that error (the error of the last
/// endpoint is the one reported).
pub open spec fn moved_on(i: int, err: NacosErrorModel, r: LoginStep) -> bool {
    if i + 1 < login_endpoint_count() {
        &&& r matches LoginStep::Attempt(a)
        &&& a.position() == i + 1
    } else {
        r matches LoginStep::Finished(Err(e)) && e@ == err
    }
}

impl LoginAttempts {
    /// The endpoint to try is always one of the login endpoints.
    #[verifier::type_invariant]
    spec fn within_endpoints(self) -> bool {
        self.index < login_endpoint_count()
    }

    /// The position, in the order of [`login_endpoint`], of the endpoint to try now.
    pub closed spec fn position(self) -> int {
        self.index as int
    }

    /// The position of the endpoint to try now.
    pub fn index(&self) -> (r: usize)
        ensures
            r == self.position(),
            r < login_endpoint_count(),
    {
        proof {
            use_type_invariant(self);
        }
        self.index
    }

    /// A login starts at the first endpoint.
    pub fn begin() -> (r: LoginAttempts)
        ensures
            r.position() == 0,
    {
        LoginAttempts { index: 0 }
    }

    /// The path of the endpoint to try now.
    pub fn endpoint(&self) -> (r: &'static str)
        ensures
            r@ == login_endpoint(self.position()),
    {
        proof {
            use_type_invariant(self);
        }
        if self.index == 0 {
            "/v3/auth/user/login"
        } else if self.index == 1 {
            "/v1/auth/users/login"
        } else {
            "/v1/auth/login"
        }
    }

    fn move_on(self, err: NacosError) -> (r: LoginStep)
        ensures
            moved_on(self.position(), err@, r),
    {
        proof {
            use_type_invariant(&self);
        }
        if self.index + 1 < 3 {
            LoginStep::Attempt(LoginAttempts { index: self.index + 1 })
        } else {
            LoginStep::Finished(Err(err))
        }
    }

    /// Decides what follows from the outcome of the request to the current
    /// endpoint: a failed request or a refused endpoint moves on to the next
    /// endpoint; another error status ends the login with an HTTP error; a
    /// success ends it with what the body says.
    pub fn on_event(self, event: LoginEvent) -> (r: LoginStep)
        ensures
            match event {
                LoginEvent::TransportFailed(m) => moved_on(
                    self.position(),
                    NacosErrorModel::Transport(m@),
                    r,
                ),
                LoginEvent::Responded { status, body, envelope } => if endpoint_refused(status) {
                    moved_on(
                        self.position(),
                        NacosErrorModel::EndpointUnavailable(login_endpoint(self.position())),
                        r,
                    )
                } else if !is_success(status) {
                    r matches LoginStep::Finished(Err(e)) && e@ == spec_http_error(
                        "login"@,
                        status,
                        body@,
                    )
                } else {
                    &&& r matches LoginStep::Finished(res)
                    &&& match res {
                        Ok(l) => spec_parse_login(envelope, login_endpoint(self.position()))
                            == Ok::<LoginResultModel, NacosErrorModel>(l@),
                        Err(e) => spec_parse_login(envelope, login_endpoint(self.position()))
                            == Err::<LoginResultModel, NacosErrorModel>(e@),
                    }
                },
            },
    {
        let endpoint = self.endpoint();
        match event {
            LoginEvent::TransportFailed(m) => self.move_on(NacosError::Transport(m)),
            LoginEvent::Responded { status, body, envelope } => {
                if status == 404 || status == 405 || status == 501 {
                    self.move_on(NacosError::EndpointUnavailable(endpoint.to_string()))
                } else if !(200 <= status && status <= 299) {
                    LoginStep::Finished(Err(http_error("login", status, body.as_slice())))
                } else {
                    LoginStep::Finished(parse_login_response(envelope, endpoint))
                }
            },
        }
    }
}


// ---------------------------------------------------------------------------
// Request parameters
// ---------------------------------------------------------------------------

/// The views of a list of request parameters.
pub open spec fn params_view(v: Seq<(String, String)>) -> Seq<(Seq<char>, Seq<char>)> {
    v.map_values(|p: (String, String)| (p.0@, p.1@))
}

/// One parameter where the value is present, none otherwise.
pub open spec fn opt_param(key: Seq<char>, value: Option<Seq<char>>) -> Seq<(Seq<char>, Seq<char>)> {
    match value {
        Some(v) => seq![(key, v)],
        None => Seq::empty(),
    }
}

fn push_param(v: &mut Vec<(String, String)>, key: &str, value: String)
    ensures
        params_view(final(v)@) == params_view(old(v)@).push((key@, value@)),
{
    let ghost before = v@;
    v.push((key.to_string(), value));
    assert(params_view(v@) =~= params_view(before).push((key@, v@.last().1@)));
}

fn push_opt_param(v: &mut Vec<(String, String)>, key: &str, value: Option<String>)
    ensures
        params_view(final(v)@) == params_view(old(v)@) + opt_param(key@, opt_view(value)),
{
    match value {
        Some(x) => {
            let ghost xv = x@;
            push_param(v, key, x);
            assert(params_view(v@) =~= params_view(old(v)@) + opt_param(key@, Some(xv)));
        },
        None => {
            assert(params_view(v@) =~= params_view(old(v)@) + opt_param(key@, None));
        },
    }
}

/// The `search` parameter: `Auto` asks for a blur search exactly when the
/// data id or the group holds a `*`.
pub open spec fn spec_search_mode(
    data_id: Option<Seq<char>>,
    group: Option<Seq<char>>,
    mode: SearchMode,
) -> Seq<char> {
    match mode {
        SearchMode::Accurate => "accurate"@,
        SearchMode::Blur => "blur"@,
        SearchMode::Auto => if (data_id matches Some(d) && d.contains('*')) || (group matches Some(
            g,
        ) && g.contains('*')) {
            "blur"@
        } else {
            "accurate"@
        },
    }
}

/// The `search` parameter of a listing.
pub fn resolve_search_mode(data_id: Option<&str>, group: Option<&str>, mode: SearchMode) -> (r:
    &'static str)
    ensures
        r@ == spec_search_mode(opt_str_view(data_id), opt_str_view(group), mode),
{
    match mode {
        SearchMode::Accurate => "accurate",
        SearchMode::Blur => "blur",
        SearchMode::Auto => {
            let fuzzy_id = match data_id {
                Some(d) => contains_char(d, '*'),
                None => false,
            };
            let fuzzy_group = match group {
                Some(g) => contains_char(g, '*'),
                None => false,
            };
            if fuzzy_id || fuzzy_group {
                "blur"
            } else {
                "accurate"
            }
        },
    }
}

/// The parameters of a listing, in the order in which they are sent.
pub open spec fn spec_list_params(
    data_id: Option<Seq<char>>,
    group: Option<Seq<char>>,
    page: usize,
    size: usize,
    mode: SearchMode,
    tenant: Option<Seq<char>>,
    token: Option<Seq<char>>,
) -> Seq<(Seq<char>, Seq<char>)> {
    seq![
        ("pageNo"@, decimal(page as nat)),
        ("pageSize"@, decimal(size as nat)),
        ("search"@, spec_search_mode(data_id, group, mode)),
    ] + opt_param("dataId"@, data_id) + opt_param("group"@, group) + opt_param("tenant"@, tenant)
        + opt_param("accessToken"@, token)
}

/// Builds the parameters of a listing.
pub fn list_config_params(
    data_id: Option<&str>,
    group: Option<&str>,
    page: usize,
    size: usize,
    search_mode: SearchMode,
    tenant: Option<String>,
    access_token: Option<String>,
) -> (r: Vec<(String, String)>)
    ensures
        params_view(r@) == spec_list_params(
            opt_str_view(data_id),
            opt_str_view(group),
            page,
            size,
            search_mode,
            opt_view(tenant),
            opt_view(access_token),
        ),
{
    let mut v: Vec<(String, String)> = Vec::new();
    push_param(&mut v, "pageNo", decimal_string(page as u64));
    push_param(&mut v, "pageSize", decimal_string(size as u64));
    push_param(&mut v, "search", resolve_search_mode(data_id, group, search_mode).to_string());
    push_opt_param(
        &mut v,
        "dataId",
        match data_id {
            Some(d) => Some(d.to_string()),
            None => None,
        },
    );
    push_opt_param(
        &mut v,
        "group",
        match group {
            Some(g) => Some(g.to_string()),
            None => None,
        },
    );
    push_opt_param(&mut v, "tenant", tenant);
    push_opt_param(&mut v, "accessToken", access_token);
    assert(params_view(v@) =~= spec_list_params(
        opt_str_view(data_id),
        opt_str_view(group),
        page,
        size,
        search_mode,
        opt_view(tenant),
        opt_view(access_token),
    ));
    v
}

/// The parameters that name one config entry (fetch and removal).
pub open spec fn spec_entry_params(
    data_id: Seq<char>,
    group: Seq<char>,
    tenant: Option<Seq<char>>,
    token: Option<Seq<char>>,
) -> Seq<(Seq<char>, Seq<char>)> {
    seq![("dataId"@, data_id), ("group"@, group)] + opt_param("tenant"@, tenant) + opt_param(
        "accessToken"@,
        token,
    )
}

/// Builds the parameters that name one config entry.
pub fn entry_params(
    data_id: &str,
    group: &str,
    tenant: Option<String>,
    access_token: Option<String>,
) -> (r: Vec<(String, String)>)
    ensures
        params_view(r@) == spec_entry_params(
            data_id@,
            group@,
            opt_view(tenant),
            opt_view(access_token),
        ),
{
    let mut v: Vec<(String, String)> = Vec::new();
    push_param(&mut v, "dataId", data_id.to_string());
    push_param(&mut v, "group", group.to_string());
    push_opt_param(&mut v, "tenant", tenant);
    push_opt_param(&mut v, "accessToken", access_token);
    assert(params_view(v@) =~= spec_entry_params(
        data_id@,
        group@,
        opt_view(tenant),
        opt_view(access_token),
    ));
    v
}

/// The form fields of a publish request.
pub open spec fn spec_set_params(
    request: ConfigSetRequest,
    tenant: Option<Seq<char>>,
    token: Option<Seq<char>>,
) -> Seq<(Seq<char>, Seq<char>)> {
    seq![
        ("dataId"@, request.data_id@),
        ("group"@, request.group@),
        ("content"@, request.content@),
    ] + opt_param("type"@, opt_view(request.config_type)) + opt_param("tenant"@, tenant)
        + opt_param("accessToken"@, token)
}

/// Builds the form fields of a publish request.
pub fn set_config_params(
    request: &ConfigSetRequest,
    tenant: Option<String>,
    access_token: Option<String>,
) -> (r: Vec<(String, String)>)
    ensures
        params_view(r@) == spec_set_params(*request, opt_view(tenant), opt_view(access_token)),
{
    let mut v: Vec<(String, String)> = Vec::new();
    push_param(&mut v, "dataId", request.data_id.clone());
    push_param(&mut v, "group", request.group.clone());
    push_param(&mut v, "content", request.content.clone());
    push_opt_param(&mut v, "type", clone_opt(&request.config_type));
    push_opt_param(&mut v, "tenant", tenant);
    push_opt_param(&mut v, "accessToken", access_token);
    assert(params_view(v@) =~= spec_set_params(*request, opt_view(tenant), opt_view(access_token)));
    v
}

// ---------------------------------------------------------------------------
// The client's session: target, tenant and access token
// ---------------------------------------------------------------------------

/// The resolved settings of a client and the token that its last login gave.
pub struct Session {
    pub config: RuntimeConfig,
    pub dynamic_token: Option<TokenInfo>,
}

/// Where the access token of a request comes from.
pub enum TokenPlan {
    /// The token of the last login, not yet expired.
    Cached(String),
    /// Log in with the configured username and password, and use that token.
    Login,
    /// The access token of the settings.
    Configured(String),
    /// Send no token.
    Anonymous,
}

/// The `tenant` parameter: none for the empty or the `public` namespace.
pub open spec fn spec_tenant(namespace: Seq<char>) -> Option<Seq<char>> {
    if namespace.len() == 0 || namespace == "public"@ {
        None
    } else {
        Some(namespace)
    }
}

/// Whether a token that expires at `expires_at` may be used at `now`.
pub open spec fn token_live(expires_at: Option<u128>, now: u128) -> bool {
    match expires_at {
        Some(t) => t > now,
        None => true,
    }
}

/// The nanoseconds that a token with a lifetime of `ttl` seconds is used for:
/// five seconds less than its lifetime, and never less than nothing.
pub open spec fn usable_nanos(ttl: u64) -> int {
    (if ttl >= 5 {
        ttl - 5
    } else {
        0
    }) * 1_000_000_000
}

/// When a token obtained at `now` with lifetime `ttl` stops being used.
pub open spec fn spec_expiry(now: u128, ttl: Option<u64>) -> Option<int> {
    match ttl {
        Some(t) => Some(now + usable_nanos(t)),
        None => None,
    }
}

/// Whether the expiry of a token obtained at `now` with lifetime `ttl` can
/// be kept (on the caller's nanosecond clock).
pub fn expiry_fits(now: u128, ttl: Option<u64>) -> (b: bool)
    ensures
        b == (spec_expiry(now, ttl) matches Some(t) ==> t <= u128::MAX),
{
    match ttl {
        Some(t) => {
            let secs: u64 = if t >= 5 {
                t - 5
            } else {
                0
            };
            let span: u128 = secs as u128 * 1_000_000_000;
            now <= u128::MAX - span
        },
        None => true,
    }
}

impl Session {
    /// A session with no login yet.
    pub fn new(config: RuntimeConfig) -> (r: Session)
        ensures
            r.config == config,
            r.dynamic_token is None,
    {
        Session { config, dynamic_token: None }
    }

    /// The URL of an API path: base URL, context path, then the path.
    pub fn endpoint(&self, path: &str) -> (r: String)
        ensures
            r@ == self.config.base_url@ + self.config.context_path@ + path@,
    {
        joined3(self.config.base_url.as_str(), self.config.context_path.as_str(), path)
    }

    /// The `tenant` parameter for the configured namespace.
    pub fn tenant_param(&self) -> (r: Option<String>)
        ensures
            opt_view(r) == spec_tenant(self.config.namespace@),
    {
        if self.config.namespace.as_str().is_empty() || str_eq(
            self.config.namespace.as_str(),
            "public",
        ) {
            None
        } else {
            Some(self.config.namespace.clone())
        }
    }

    /// Where the access token comes from at time `now`: a live token of the
    /// last login; else a new login when a username and a password are set;
    /// else the configured token; else none.
    pub fn token_plan(&self, now: u128) -> (r: TokenPlan)
        ensures
            r@ == spec_token_plan(*self, now),
    {
        if let Some(token) = &self.dynamic_token {
            let live = match token.expires_at {
                Some(t) => t > now,
                None => true,
            };
            if live {
                return TokenPlan::Cached(token.access_token.clone());
            }
        }
        if self.config.username.is_some() && self.config.password.is_some() {
            return TokenPlan::Login;
        }
        match &self.config.access_token {
            Some(t) => TokenPlan::Configured(t.clone()),
            None => TokenPlan::Anonymous,
        }
    }

    /// The username and password of a login, or which one is missing.
    pub fn login_credentials(&self) -> (r: Result<(String, String), NacosError>)
        ensures
            match (self.config.username, self.config.password) {
                (Some(u), Some(p)) => r matches Ok((x, y)) && x@ == u@ && y@ == p@,
                (None, _) => r matches Err(e) && e@ == NacosErrorModel::MissingUsername,
                (Some(_), None) => r matches Err(e) && e@ == NacosErrorModel::MissingPassword,
            },
    {
        let username = match &self.config.username {
            Some(u) => u.clone(),
            None => {
                return Err(NacosError::MissingUsername);
            },
        };
        let password = match &self.config.password {
            Some(p) => p.clone(),
            None => {
                return Err(NacosError::MissingPassword);
            },
        };
        Ok((username, password))
    }

    /// Keeps the token of a login made at time `now`.
    pub fn record_login(&mut self, result: &LoginResult, now: u128)
        requires
            spec_expiry(now, result.token_ttl) matches Some(t) ==> t <= u128::MAX,
        ensures
            recorded(*old(self), *result, now, *final(self)),
    {
        let expires_at = match result.token_ttl {
            Some(ttl) => {
                let secs: u64 = if ttl >= 5 {
                    ttl - 5
                } else {
                    0
                };
                Some(now + secs as u128 * 1_000_000_000)
            },
            None => None,
        };
        self.dynamic_token = Some(
            TokenInfo { access_token: result.access_token.clone(), expires_at },
        );
    }
}

/// The mathematical content of a [`TokenPlan`].
pub enum TokenPlanModel {
    Cached(Seq<char>),
    Login,
    Configured(Seq<char>),
    Anonymous,
}

impl View for TokenPlan {
    type V = TokenPlanModel;

    open spec fn view(&self) -> TokenPlanModel {
        match self {
            TokenPlan::Cached(t) => TokenPlanModel::Cached(t@),
            TokenPlan::Login => TokenPlanModel::Login,
            TokenPlan::Configured(t) => TokenPlanModel::Configured(t@),
            TokenPlan::Anonymous => TokenPlanModel::Anonymous,
        }
    }
}

/// Where the access token of a request made at `now` comes from.
pub open spec fn spec_token_plan(s: Session, now: u128) -> TokenPlanModel {
    match s.dynamic_token {
        Some(t) if token_live(t.expires_at, now) => TokenPlanModel::Cached(t.access_token@),
        _ => if s.config.username is Some && s.config.password is Some {
            TokenPlanModel::Login
        } else {
            match s.config.access_token {
                Some(c) => TokenPlanModel::Configured(c@),
                None => TokenPlanModel::Anonymous,
            }
        },
    }
}

/// `after` is `before` once it kept the token of `result`, obtained at `now`.
pub open spec fn recorded(before: Session, result: LoginResult, now: u128, after: Session) -> bool {
    &&& after.config == before.config
    &&& after.dynamic_token matches Some(t)
    &&& t.access_token@ == result.access_token@
    &&& match spec_expiry(now, result.token_ttl) {
        Some(e) => e <= u128::MAX && t.expires_at == Some(e as u128),
        None => t.expires_at is None,
    }
}

} // verus!
