use vstd::prelude::*;
use crate::config::RuntimeConfig;
use crate::nacos::{ConfigGetResult, SearchMode};
use crate::text::{
    blank, chars_of, clone_opt, joined, decimal, eq_ignore_ascii_case, eq_ignore_case, opt_view,
    parse_unsigned, parse_usize, push_decimal, split_once, split_once_char, str_eq, trim, trimmed,
    IntErrorKind,
};

verus! {

// ---------------------------------------------------------------------------
// Message framing on stdio
// ---------------------------------------------------------------------------

/// How messages are delimited on stdio.
#[derive(Debug, Clone, Copy, PartialEq, Eq, Structural)]
pub enum StdioFraming {
    /// A `Content-Length` header block, a blank line, then the payload.
    ContentLength,
    /// One JSON document per line.
    JsonLine,
}

/// The framing of outgoing messages: the one the peer used first, else
/// `Content-Length` framing.
pub fn outgoing_framing(current: Option<StdioFraming>) -> (r: StdioFraming)
    ensures
        r == match current {
            Some(f) => f,
            None => StdioFraming::ContentLength,
        },
{
    match current {
        Some(f) => f,
        None => StdioFraming::ContentLength,
    }
}

/// The framing remembered after a message came in with `observed`: the
/// first one seen stays.
pub fn remember_framing(current: Option<StdioFraming>, observed: StdioFraming) -> (r: Option<
    StdioFraming,
>)
    ensures
        r == match current {
            Some(f) => Some(f),
            None => Some(observed),
        },
{
    match current {
        Some(f) => Some(f),
        None => Some(observed),
    }
}

/// The header block written before a payload of `len` bytes.
pub open spec fn spec_content_length_block(len: nat) -> Seq<char> {
    "Content-Length: "@ + decimal(len) + "\r\n\r\n"@
}

/// Builds the header block written before a payload of `len` bytes.
pub fn content_length_header(len: usize) -> (r: String)
    ensures
        r@ == spec_content_length_block(len as nat),
{
    let mut r = "Content-Length: ".to_string();
    push_decimal(&mut r, len as u64);
    r.append("\r\n\r\n");
    r
}

/// What a header line says of the payload length: nothing when it is not a
/// `Content-Length` header (the name compared without ASCII case), else its
/// trimmed value read as a `usize`.
pub open spec fn spec_content_length(line: Seq<char>) -> Result<Option<nat>, IntErrorKind> {
    match split_once(line, ':') {
        None => Ok(None),
        Some((name, value)) => if !eq_ignore_ascii_case(name, "content-length"@) {
            Ok(None)
        } else {
            match parse_unsigned(trimmed(value), usize::MAX as nat) {
                Ok(n) => Ok(Some(n)),
                Err(e) => Err(e),
            }
        },
    }
}

/// Reads the payload length from a header line.
pub fn parse_content_length_header(line: &str) -> (r: Result<Option<usize>, IntErrorKind>)
    ensures
        match r {
            Ok(Some(n)) => spec_content_length(line@) == Ok::<Option<nat>, IntErrorKind>(
                Some(n as nat),
            ),
            Ok(None) => spec_content_length(line@) == Ok::<Option<nat>, IntErrorKind>(None),
            Err(e) => spec_content_length(line@) == Err::<Option<nat>, IntErrorKind>(e),
        },
{
    let (name, value) = match split_once_char(line, ':') {
        Some(parts) => parts,
        None => {
            return Ok(None);
        },
    };
    if !eq_ignore_case(name.as_str(), "content-length") {
        return Ok(None);
    }
    let t = trim(value.as_str());
    match parse_usize(t.as_str()) {
        Ok(n) => Ok(Some(n)),
        Err(e) => Err(e),
    }
}

/// Why an incoming message could not be framed.
#[derive(Debug, Clone, Copy, PartialEq, Eq, Structural)]
pub enum FrameError {
    UnexpectedEof,
    MissingContentLength,
    InvalidLength(IntErrorKind),
}

impl FrameError {
    /// The message that the error reports.
    pub open spec fn spec_text(self) -> Seq<char> {
        match self {
            FrameError::UnexpectedEof => "unexpected EOF while reading MCP headers"@,
            FrameError::MissingContentLength => "missing Content-Length header"@,
            FrameError::InvalidLength(k) => k.spec_text(),
        }
    }

    /// The message that the error reports.
    pub fn message(&self) -> (r: String)
        ensures
            r@ == self.spec_text(),
    {
        match self {
            FrameError::UnexpectedEof => "unexpected EOF while reading MCP headers".to_string(),
            FrameError::MissingContentLength => "missing Content-Length header".to_string(),
            FrameError::InvalidLength(k) => k.text(),
        }
    }
}

/// How the first line of a message starts it.
pub enum FirstLine {
    /// The input has ended.
    Closed,
    /// A whole JSON document on one line, trimmed.
    Json(String),
    /// The first header of a header block, with the length it gave, if any.
    Headers(Option<usize>),
}

/// The mathematical content of a [`FirstLine`].
pub enum FirstLineModel {
    Closed,
    Json(Seq<char>),
    Headers(Option<nat>),
}

impl View for FirstLine {
    type V = FirstLineModel;

    open spec fn view(&self) -> FirstLineModel {
        match self {
            FirstLine::Closed => FirstLineModel::Closed,
            FirstLine::Json(s) => FirstLineModel::Json(s@),
            FirstLine::Headers(Some(n)) => FirstLineModel::Headers(Some(*n as nat)),
            FirstLine::Headers(None) => FirstLineModel::Headers(None),
        }
    }
}

/// Whether a trimmed line looks like a JSON document: it starts with `{` or `[`.
pub open spec fn looks_like_json(t: Seq<char>) -> bool {
    t.len() > 0 && (t[0] == '{' || t[0] == '[')
}

/// How a first line read with `bytes_read` bytes starts a message.
pub open spec fn spec_first_line(line: Seq<char>, bytes_read: nat) -> Result<
    FirstLineModel,
    FrameError,
> {
    if bytes_read == 0 {
        Ok(FirstLineModel::Closed)
    } else if looks_like_json(trimmed(line)) {
        Ok(FirstLineModel::Json(trimmed(line)))
    } else {
        match spec_content_length(line) {
            Ok(n) => Ok(FirstLineModel::Headers(n)),
            Err(e) => Err(FrameError::InvalidLength(e)),
        }
    }
}

/// Classifies the first line of an incoming message.
pub fn first_line(line: &str, bytes_read: usize) -> (r: Result<FirstLine, FrameError>)
    ensures
        match r {
            Ok(f) => spec_first_line(line@, bytes_read as nat) == Ok::<
                FirstLineModel,
                FrameError,
            >(f@),
            Err(e) => spec_first_line(line@, bytes_read as nat) == Err::<
                FirstLineModel,
                FrameError,
            >(e),
        },
{
    if bytes_read == 0 {
        return Ok(FirstLine::Closed);
    }
    let t = trim(line);
    let tv = chars_of(t.as_str());
    if tv.len() > 0 && (tv[0] == '{' || tv[0] == '[') {
        return Ok(FirstLine::Json(t));
    }
    match parse_content_length_header(line) {
        Ok(n) => Ok(FirstLine::Headers(n)),
        Err(e) => Err(FrameError::InvalidLength(e)),
    }
}

/// What follows a header line.
pub enum HeaderStep {
    /// Read another header line; the length known so far.
    More(Option<usize>),
    /// The header block is over: read a payload of this many bytes.
    Payload(usize),
}

/// The mathematical content of a [`HeaderStep`].
pub enum HeaderStepModel {
    More(Option<nat>),
    Payload(nat),
}

impl View for HeaderStep {
    type V = HeaderStepModel;

    open spec fn view(&self) -> HeaderStepModel {
        match self {
            HeaderStep::More(Some(n)) => HeaderStepModel::More(Some(*n as nat)),
            HeaderStep::More(None) => HeaderStepModel::More(None),
            HeaderStep::Payload(n) => HeaderStepModel::Payload(*n as nat),
        }
    }
}

/// The next step after a header line read with `bytes_read` bytes, when the
/// block so far gave `length`: the end of input is an error; the blank line
/// `\r\n` ends the block, which must have given a length; a later
/// `Content-Length` header replaces an earlier one.
pub open spec fn spec_header_step(length: Option<nat>, line: Seq<char>, bytes_read: nat) -> Result<
    HeaderStepModel,
    FrameError,
> {
    if bytes_read == 0 {
        Err(FrameError::UnexpectedEof)
    } else if line == "\r\n"@ {
        match length {
            Some(n) => Ok(HeaderStepModel::Payload(n)),
            None => Err(FrameError::MissingContentLength),
        }
    } else {
        match spec_content_length(line) {
            Ok(Some(n)) => Ok(HeaderStepModel::More(Some(n))),
            Ok(None) => Ok(HeaderStepModel::More(length)),
            Err(e) => Err(FrameError::InvalidLength(e)),
        }
    }
}

/// Decides what follows a header line.
pub fn header_step(length: Option<usize>, line: &str, bytes_read: usize) -> (r: Result<
    HeaderStep,
    FrameError,
>)
    ensures
        match r {
            Ok(s) => spec_header_step(
                match length {
                    Some(n) => Some(n as nat),
                    None => None,
                },
                line@,
                bytes_read as nat,
            ) == Ok::<HeaderStepModel, FrameError>(s@),
            Err(e) => spec_header_step(
                match length {
                    Some(n) => Some(n as nat),
                    None => None,
                },
                line@,
                bytes_read as nat,
            ) == Err::<HeaderStepModel, FrameError>(e),
        },
{
    if bytes_read == 0 {
        return Err(FrameError::UnexpectedEof);
    }
    if str_eq(line, "\r\n") {
        return match length {
            Some(n) => Ok(HeaderStep::Payload(n)),
            None => Err(FrameError::MissingContentLength),
        };
    }
    match parse_content_length_header(line) {
        Ok(Some(n)) => Ok(HeaderStep::More(Some(n))),
        Ok(None) => Ok(HeaderStep::More(length)),
        Err(e) => Err(FrameError::InvalidLength(e)),
    }
}


// ---------------------------------------------------------------------------
// Tools
// ---------------------------------------------------------------------------

/// The group a tool works on: the one given, else `DEFAULT_GROUP`.
pub fn default_group(group: Option<String>) -> (r: String)
    ensures
        r@ == match opt_view(group) {
            Some(g) => g,
            None => "DEFAULT_GROUP"@,
        },
{
    match group {
        Some(g) => g,
        None => "DEFAULT_GROUP".to_string(),
    }
}

/// The page and page size of a listing: page 1 and 20 entries unless given.
pub fn list_paging(page: Option<usize>, size: Option<usize>) -> (r: (usize, usize))
    ensures
        r.0 == match page {
            Some(p) => p,
            None => 1,
        },
        r.1 == match size {
            Some(s) => s,
            None => 20,
        },
{
    let p = match page {
        Some(p) => p,
        None => 1,
    };
    let s = match size {
        Some(s) => s,
        None => 20,
    };
    (p, s)
}

/// The search mode as the listing tool names it.
#[derive(Debug, Clone, Copy, PartialEq, Eq, Structural)]
pub enum McpSearchMode {
    Auto,
    Accurate,
    Blur,
}

/// The client's search mode for a tool's one; `Auto` when none is given.
pub fn tool_search_mode(mode: Option<McpSearchMode>) -> (r: SearchMode)
    ensures
        r == match mode {
            Some(McpSearchMode::Accurate) => SearchMode::Accurate,
            Some(McpSearchMode::Blur) => SearchMode::Blur,
            _ => SearchMode::Auto,
        },
{
    match mode {
        Some(McpSearchMode::Accurate) => SearchMode::Accurate,
        Some(McpSearchMode::Blur) => SearchMode::Blur,
        Some(McpSearchMode::Auto) => SearchMode::Auto,
        None => SearchMode::Auto,
    }
}

/// The target and the sources of credentials of the session.
pub struct AuthStatus {
    pub server: String,
    pub context_path: String,
    pub namespace: String,
    pub has_access_token: bool,
    pub has_username_password: bool,
    pub config_path: Option<String>,
}

/// Reports the target and the sources of credentials of the session.
pub fn auth_status(runtime: &RuntimeConfig) -> (r: AuthStatus)
    ensures
        r.server@ == runtime.base_url@,
        r.context_path@ == runtime.context_path@,
        r.namespace@ == runtime.namespace@,
        r.has_access_token == runtime.access_token is Some,
        r.has_username_password == (runtime.username is Some && runtime.password is Some),
        opt_view(r.config_path) == opt_view(runtime.config_path),
{
    AuthStatus {
        server: runtime.base_url.clone(),
        context_path: runtime.context_path.clone(),
        namespace: runtime.namespace.clone(),
        has_access_token: runtime.access_token.is_some(),
        has_username_password: runtime.username.is_some() && runtime.password.is_some(),
        config_path: clone_opt(&runtime.config_path),
    }
}

/// The answer of the fetch tool.
pub struct ConfigGetOutput {
    pub data_id: String,
    pub group: String,
    pub namespace: String,
    pub found: bool,
    pub content: Option<String>,
}

/// Builds the answer of the fetch tool; the namespace reported is the hint
/// given, else `public`.
pub fn config_get_output(
    data_id: String,
    group: String,
    namespace_hint: Option<String>,
    result: Option<ConfigGetResult>,
) -> (r: ConfigGetOutput)
    ensures
        r.data_id@ == data_id@,
        r.group@ == group@,
        r.namespace@ == match opt_view(namespace_hint) {
            Some(n) => n,
            None => "public"@,
        },
        r.found == result is Some,
        opt_view(r.content) == match result {
            Some(c) => Some(c.content@),
            None => None,
        },
{
    let namespace = match namespace_hint {
        Some(n) => n,
        None => "public".to_string(),
    };
    let found = result.is_some();
    let content = match result {
        Some(c) => Some(c.content),
        None => None,
    };
    ConfigGetOutput { data_id, group, namespace, found, content }
}

/// The answer of the publish and remove tools.
pub struct ConfigMutationOutput {
    pub action: String,
    pub data_id: String,
    pub group: String,
    pub success: bool,
}

/// Builds the answer of a successful publish (`set`) or removal (`remove`).
pub fn mutation_output(action: &str, data_id: String, group: String) -> (r: ConfigMutationOutput)
    ensures
        r.action@ == action@,
        r.data_id@ == data_id@,
        r.group@ == group@,
        r.success,
{
    ConfigMutationOutput { action: action.to_string(), data_id, group, success: true }
}

/// The answer of a tool whose request failed.
pub struct ToolError {
    pub tool: String,
    pub message: String,
}

/// The instructions that the server announces.
pub fn server_instructions(runtime: &RuntimeConfig) -> (r: String)
    ensures
        r@ == "Use these tools to read or mutate Nacos configuration through nactl. Target server: "@
            + runtime.base_url@ + runtime.context_path@ + "."@,
{
    let mut r = "Use these tools to read or mutate Nacos configuration through nactl. Target server: "
        .to_string();
    r.append(runtime.base_url.as_str());
    r.append(runtime.context_path.as_str());
    r.append(".");
    r
}

} // verus!
