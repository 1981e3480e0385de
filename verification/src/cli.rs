use vstd::prelude::*;
use vstd::std_specs::convert::FromSpecImpl;
use crate::config::ConfigOverrides;
use crate::nacos::SearchMode as ClientSearchMode;
use crate::text::{
    blank, clone_opt, joined, joined3, is_blank, opt_view, strip_end, str_eq, trim_end_char,
    CharClass,
};

verus! {

/// The command line: global settings and one command.
pub struct Cli {
    pub global: GlobalArgs,
    pub command: Commands,
}

/// The connection settings that every command accepts.
pub struct GlobalArgs {
    pub server: Option<String>,
    pub context_path: Option<String>,
    pub namespace: Option<String>,
    pub username: Option<String>,
    pub password: Option<String>,
    pub access_token: Option<String>,
    pub config: Option<String>,
    pub timeout_secs: Option<u64>,
    pub verbose: bool,
}

/// The commands.
pub enum Commands {
    /// Exchange username/password for an access token.
    Login(LoginArgs),
    /// Read or mutate configuration entries.
    Config(ConfigArgs),
    /// Start the local stdio MCP server.
    Mcp(McpArgs),
}

/// Arguments of `login`.
pub struct LoginArgs {
    pub output: OutputFormat,
    pub no_save_auth: bool,
}

/// Arguments of `config`.
pub struct ConfigArgs {
    pub command: ConfigCommands,
}

/// Arguments of `mcp`.
pub struct McpArgs {}

/// The `config` subcommands.
pub enum ConfigCommands {
    /// List configs.
    List(ConfigListArgs),
    /// Fetch config content.
    Get(ConfigGetArgs),
    /// Create or update a config (the `set` subcommand).
    Publish(ConfigSetArgs),
    /// Remove a config.
    Rm(ConfigRmArgs),
    /// Edit a config with $VISUAL or $EDITOR.
    Edit(ConfigEditArgs),
}

/// Arguments of `config list`.
pub struct ConfigListArgs {
    pub data_id: Option<String>,
    pub group: Option<String>,
    pub page: usize,
    pub size: usize,
    pub search: SearchMode,
    pub output: OutputFormat,
}

/// Arguments of `config get`.
pub struct ConfigGetArgs {
    pub data_id: String,
    pub group: String,
    pub output: OutputFormat,
}

/// Arguments of `config set`.
pub struct ConfigSetArgs {
    pub data_id: String,
    pub group: String,
    pub value: Option<String>,
    pub file: Option<String>,
    pub config_type: Option<String>,
}

/// Arguments of `config rm`.
pub struct ConfigRmArgs {
    pub data_id: String,
    pub group: String,
}

/// Arguments of `config edit`.
pub struct ConfigEditArgs {
    pub data_id: String,
    pub group: String,
    pub editor: Option<String>,
    pub config_type: Option<String>,
}

/// How results are printed.
#[derive(Debug, Clone, Copy, PartialEq, Eq, Structural)]
pub enum OutputFormat {
    Text,
    Json,
}

/// The search mode as the command line names it.
#[derive(Debug, Clone, Copy, PartialEq, Eq, Structural)]
pub enum SearchMode {
    Auto,
    Accurate,
    Blur,
}

/// The client's search mode for a command-line one.
pub open spec fn client_search_mode(m: SearchMode) -> ClientSearchMode {
    match m {
        SearchMode::Auto => ClientSearchMode::Auto,
        SearchMode::Accurate => ClientSearchMode::Accurate,
        SearchMode::Blur => ClientSearchMode::Blur,
    }
}

impl FromSpecImpl<SearchMode> for ClientSearchMode {
    open spec fn obeys_from_spec() -> bool {
        true
    }

    open spec fn from_spec(v: SearchMode) -> ClientSearchMode {
        client_search_mode(v)
    }
}

impl From<SearchMode> for ClientSearchMode {
    fn from(value: SearchMode) -> (r: ClientSearchMode) {
        match value {
            SearchMode::Auto => ClientSearchMode::Auto,
            SearchMode::Accurate => ClientSearchMode::Accurate,
            SearchMode::Blur => ClientSearchMode::Blur,
        }
    }
}

impl GlobalArgs {
    /// The command-line layer of the settings resolution.
    pub fn overrides(&self) -> (r: ConfigOverrides)
        ensures
            opt_view(r.server) == opt_view(self.server),
            opt_view(r.context_path) == opt_view(self.context_path),
            opt_view(r.namespace) == opt_view(self.namespace),
            opt_view(r.username) == opt_view(self.username),
            opt_view(r.password) == opt_view(self.password),
            opt_view(r.access_token) == opt_view(self.access_token),
            opt_view(r.config) == opt_view(self.config),
            r.timeout_secs == self.timeout_secs,
            r.verbose == self.verbose,
    {
        ConfigOverrides {
            server: clone_opt(&self.server),
            context_path: clone_opt(&self.context_path),
            namespace: clone_opt(&self.namespace),
            username: clone_opt(&self.username),
            password: clone_opt(&self.password),
            access_token: clone_opt(&self.access_token),
            config: clone_opt(&self.config),
            timeout_secs: self.timeout_secs,
            verbose: self.verbose,
        }
    }
}

// ---------------------------------------------------------------------------
// Content checks
// ---------------------------------------------------------------------------

/// Why content was not published.
pub enum CliError {
    EmptyContent,
    EmptyEdit { group: String, data_id: String },
}

/// The mathematical content of a [`CliError`].
pub enum CliErrorModel {
    EmptyContent,
    EmptyEdit { group: Seq<char>, data_id: Seq<char> },
}

impl View for CliError {
    type V = CliErrorModel;

    open spec fn view(&self) -> CliErrorModel {
        match self {
            CliError::EmptyContent => CliErrorModel::EmptyContent,
            CliError::EmptyEdit { group, data_id } => CliErrorModel::EmptyEdit {
                group: group@,
                data_id: data_id@,
            },
        }
    }
}

impl CliErrorModel {
    /// The message that the error reports.
    pub open spec fn text(self) -> Seq<char> {
        match self {
            CliErrorModel::EmptyContent => "config content is empty"@,
            CliErrorModel::EmptyEdit { group, data_id } =>
                "refusing to publish empty content for "@ + group + "/"@ + data_id,
        }
    }
}

impl CliError {
    /// The message that the error reports.
    pub fn message(&self) -> (r: String)
        ensures
            r@ == self@.text(),
    {
        match self {
            CliError::EmptyContent => "config content is empty".to_string(),
            CliError::EmptyEdit { group, data_id } => {
                let mut r = joined3(
                    "refusing to publish empty content for ",
                    group.as_str(),
                    "/",
                );
                r.append(data_id.as_str());
                r
            },
        }
    }
}

/// Content to publish must not be blank.
pub fn ensure_non_empty(content: String) -> (r: Result<String, CliError>)
    ensures
        match r {
            Ok(c) => !blank(content@) && c@ == content@,
            Err(e) => blank(content@) && e@ == CliErrorModel::EmptyContent,
        },
{
    if is_blank(content.as_str()) {
        Err(CliError::EmptyContent)
    } else {
        Ok(content)
    }
}

/// `s` without its trailing newlines.
pub open spec fn without_trailing_newlines(s: Seq<char>) -> Seq<char> {
    strip_end(s, CharClass::Exactly('\n'))
}

/// What an edit of a config entry publishes: nothing when the text, trailing
/// newlines aside, is unchanged; an error when the new text is blank; else
/// the new text without its trailing newlines.
pub open spec fn spec_edit_outcome(
    data_id: Seq<char>,
    group: Seq<char>,
    original: Seq<char>,
    updated: Seq<char>,
) -> Result<Option<Seq<char>>, CliErrorModel> {
    let u = without_trailing_newlines(updated);
    if u == without_trailing_newlines(original) {
        Ok(None)
    } else if blank(u) {
        Err(CliErrorModel::EmptyEdit { group, data_id })
    } else {
        Ok(Some(u))
    }
}

/// Decides what an edit publishes, from the text before and after the editor ran.
pub fn edit_outcome(data_id: &str, group: &str, original: &str, updated: &str) -> (r: Result<
    Option<String>,
    CliError,
>)
    ensures
        match r {
            Ok(Some(c)) => spec_edit_outcome(data_id@, group@, original@, updated@) == Ok::<
                Option<Seq<char>>,
                CliErrorModel,
            >(Some(c@)),
            Ok(None) => spec_edit_outcome(data_id@, group@, original@, updated@) == Ok::<
                Option<Seq<char>>,
                CliErrorModel,
            >(None),
            Err(e) => spec_edit_outcome(data_id@, group@, original@, updated@) == Err::<
                Option<Seq<char>>,
                CliErrorModel,
            >(e@),
        },
{
    let u = trim_end_char(updated, '\n');
    let o = trim_end_char(original, '\n');
    if str_eq(u.as_str(), o.as_str()) {
        return Ok(None);
    }
    if is_blank(u.as_str()) {
        return Err(CliError::EmptyEdit { group: group.to_string(), data_id: data_id.to_string() });
    }
    Ok(Some(u))
}

/// The editor to run: the one given, else a non-blank `VISUAL`, else a
/// non-blank `EDITOR`, else `vi`.
pub open spec fn spec_select_editor(
    editor_override: Option<Seq<char>>,
    visual: Option<Seq<char>>,
    editor: Option<Seq<char>>,
) -> Seq<char> {
    match editor_override {
        Some(e) => e,
        None => if visual matches Some(v) && !blank(v) {
            visual->0
        } else if editor matches Some(v) && !blank(v) {
            editor->0
        } else {
            "vi"@
        },
    }
}

/// Picks the editor; `visual` and `editor` are the values of `VISUAL` and
/// `EDITOR`.
pub fn select_editor(editor_override: Option<&str>, visual: Option<String>, editor: Option<String>) -> (r:
    String)
    ensures
        r@ == spec_select_editor(
            match editor_override {
                Some(e) => Some(e@),
                None => None,
            },
            opt_view(visual),
            opt_view(editor),
        ),
{
    if let Some(e) = editor_override {
        return e.to_string();
    }
    if let Some(v) = visual {
        if !is_blank(v.as_str()) {
            return v;
        }
    }
    if let Some(v) = editor {
        if !is_blank(v.as_str()) {
            return v;
        }
    }
    "vi".to_string()
}

/// `updated <group>/<data id>`, printed after a publish.
pub fn updated_message(group: &str, data_id: &str) -> (r: String)
    ensures
        r@ == "updated "@ + group@ + "/"@ + data_id@,
{
    let mut r = joined3("updated ", group, "/");
    r.append(data_id);
    r
}

/// `removed <group>/<data id>`, printed after a removal.
pub fn removed_message(group: &str, data_id: &str) -> (r: String)
    ensures
        r@ == "removed "@ + group@ + "/"@ + data_id@,
{
    let mut r = joined3("removed ", group, "/");
    r.append(data_id);
    r
}

/// The line printed after a login: `savedAuth: <path>` when the token was
/// saved at `path` and the output is text; nothing otherwise.
pub fn saved_auth_notice(output: OutputFormat, saved_path: Option<&str>) -> (r: Option<String>)
    ensures
        match saved_path {
            Some(p) if output == OutputFormat::Text => opt_view(r) == Some("savedAuth: "@ + p@),
            _ => r is None,
        },
{
    match saved_path {
        Some(p) => if output == OutputFormat::Text {
            Some(joined("savedAuth: ", p))
        } else {
            None
        },
        None => None,
    }
}

} // verus!
