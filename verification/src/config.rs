use vstd::prelude::*;
use crate::text::{
    blank, joined, contains_str, eq_ignore_ascii_case, occurs_at, decimal, first_some, has_infix, is_blank, opt_view, or_else_string,
    parse_u16, parse_u64, parse_unsigned, push_decimal, str_eq, strip_end, strip_start, trim,
    trim_char, trim_end_char, trimmed, CharClass, as_deref, opt_str_view, clone_opt,
};

verus! {

/// Connection settings given on the command line; each one set here wins over
/// the configuration file and the environment.
pub struct ConfigOverrides {
    pub server: Option<String>,
    pub context_path: Option<String>,
    pub namespace: Option<String>,
    pub username: Option<String>,
    pub password: Option<String>,
    pub access_token: Option<String>,
    pub config: Option<String>,
    pub timeout_secs: Option<u64>,
    pub verbose: bool,
}

/// The settings that a configuration file holds.
pub struct FileConfig {
    pub server: Option<String>,
    pub host: Option<String>,
    pub port: Option<u16>,
    pub context_path: Option<String>,
    pub namespace: Option<String>,
    pub username: Option<String>,
    pub password: Option<String>,
    pub access_token: Option<String>,
    pub timeout_secs: Option<u64>,
}

/// The raw values of the environment variables that the resolution reads
/// (`None` where a variable is unset).
pub struct EnvConfig {
    pub nacos_server: Option<String>,
    pub rnacos_server: Option<String>,
    pub nacos_host: Option<String>,
    pub nacos_port: Option<String>,
    pub nacos_context_path: Option<String>,
    pub nacos_namespace: Option<String>,
    pub nacos_username: Option<String>,
    pub nacos_password: Option<String>,
    pub nacos_access_token: Option<String>,
    pub nacos_timeout_secs: Option<String>,
}

/// The resolved connection settings shared by the CLI and the MCP server.
pub struct RuntimeConfig {
    pub config_path: Option<String>,
    pub base_url: String,
    pub context_path: String,
    pub namespace: String,
    pub username: Option<String>,
    pub password: Option<String>,
    pub access_token: Option<String>,
    pub timeout_secs: u64,
    pub verbose: bool,
}

/// The mathematical content of a [`RuntimeConfig`].
pub struct RuntimeConfigModel {
    pub config_path: Option<Seq<char>>,
    pub base_url: Seq<char>,
    pub context_path: Seq<char>,
    pub namespace: Seq<char>,
    pub username: Option<Seq<char>>,
    pub password: Option<Seq<char>>,
    pub access_token: Option<Seq<char>>,
    pub timeout_secs: u64,
    pub verbose: bool,
}

impl View for RuntimeConfig {
    type V = RuntimeConfigModel;

    open spec fn view(&self) -> RuntimeConfigModel {
        RuntimeConfigModel {
            config_path: opt_view(self.config_path),
            base_url: self.base_url@,
            context_path: self.context_path@,
            namespace: self.namespace@,
            username: opt_view(self.username),
            password: opt_view(self.password),
            access_token: opt_view(self.access_token),
            timeout_secs: self.timeout_secs,
            verbose: self.verbose,
        }
    }
}

/// Why the settings could not be resolved.
pub enum ConfigError {
    MissingServer,
    /// The URL parser refused the address `server`, for the reason `reason`.
    InvalidServer { server: String, reason: String },
    MissingConfigPath,
}

/// The mathematical content of a [`ConfigError`].
pub enum ConfigErrorModel {
    MissingServer,
    InvalidServer { server: Seq<char>, reason: Seq<char> },
    MissingConfigPath,
}

impl View for ConfigError {
    type V = ConfigErrorModel;

    open spec fn view(&self) -> ConfigErrorModel {
        match self {
            ConfigError::MissingServer => ConfigErrorModel::MissingServer,
            ConfigError::InvalidServer { server, reason } => ConfigErrorModel::InvalidServer {
                server: server@,
                reason: reason@,
            },
            ConfigError::MissingConfigPath => ConfigErrorModel::MissingConfigPath,
        }
    }
}

impl ConfigErrorModel {
    /// The message that the error reports.
    pub open spec fn text(self) -> Seq<char> {
        match self {
            ConfigErrorModel::MissingServer => "missing server, set --server or NACOS_SERVER"@,
            ConfigErrorModel::InvalidServer { server, reason } => "invalid server "@ + server,
            ConfigErrorModel::MissingConfigPath => "unable to resolve nactl config path"@,
        }
    }

    /// The message of the URL parser's error that caused this one, if any.
    pub open spec fn cause(self) -> Option<Seq<char>> {
        match self {
            ConfigErrorModel::InvalidServer { server, reason } => Some(reason),
            _ => None,
        }
    }
}

impl ConfigError {
    /// The message that the error reports.
    pub fn message(&self) -> (r: String)
        ensures
            r@ == self@.text(),
    {
        match self {
            ConfigError::MissingServer => "missing server, set --server or NACOS_SERVER".to_string(),
            ConfigError::InvalidServer { server, reason } => joined(
                "invalid server ",
                server.as_str(),
            ),
            ConfigError::MissingConfigPath => "unable to resolve nactl config path".to_string(),
        }
    }

    /// The message of the URL parser's error that caused this one, if any.
    pub fn cause(&self) -> (r: Option<String>)
        ensures
            opt_view(r) == self@.cause(),
    {
        match self {
            ConfigError::InvalidServer { server, reason } => Some(reason.clone()),
            _ => None,
        }
    }
}

// ---------------------------------------------------------------------------
// Server URLs
// ---------------------------------------------------------------------------

/// What the url crate makes of a server string, through `Url::parse`,
/// `Url::path`, `Url::set_path("")`, `Url::set_query(None)`,
/// `Url::set_fragment(None)` and `to_string`, taken together as one
/// function: the message of the parser's error where `Url::parse` refuses
/// the string; otherwise the URL's serialization once its path, query and
/// fragment are cleared, and the path that it had.
pub uninterp spec fn url_split(server: Seq<char>) -> Result<(Seq<char>, Seq<char>), Seq<char>>;

/// Whether an address starts, in any case, with `http://`, `https://`,
/// `ws://`, `wss://` or `ftp://`: a scheme that the url crate treats as
/// special and that needs a host.
pub open spec fn names_host_scheme(s: Seq<char>) -> bool {
    ||| starts_ignoring_case(s, "http://"@)
    ||| starts_ignoring_case(s, "https://"@)
    ||| starts_ignoring_case(s, "ws://"@)
    ||| starts_ignoring_case(s, "wss://"@)
    ||| starts_ignoring_case(s, "ftp://"@)
}

/// Whether `s` starts with `prefix`, ASCII case ignored.
pub open spec fn starts_ignoring_case(s: Seq<char>, prefix: Seq<char>) -> bool {
    s.len() >= prefix.len() && eq_ignore_ascii_case(s.take(prefix.len() as int), prefix)
}

/// Whether a URL is a scheme, `://` and a non-empty authority, with no path,
/// query or fragment after it.
pub open spec fn authority_only(u: Seq<char>) -> bool {
    exists|i: int|
        0 < i && i + 3 < u.len() && #[trigger] u.subrange(i, i + 3) == "://"@ && forall|j: int|
            i + 3 <= j < u.len() ==> u[j] != '/' && u[j] != '?' && u[j] != '#'
}

/// A base URL that the url crate gives back as it is: a scheme, `://` and
/// an authority alone ([`authority_only`]), which parses to itself with one
/// `/` after it as its serialization.
pub open spec fn stable_base(b: Seq<char>) -> bool {
    &&& authority_only(b)
    &&& url_split(b) matches Ok((again, _))
    &&& again == b.push('/')
}

/// Calls `reqwest::Url::parse` on `server`; where it succeeds, reads
/// `Url::path`, then clears the path, query and fragment (`set_path("")`,
/// `set_query(None)`, `set_fragment(None)`) and serializes the URL with
/// `to_string`; where it fails, gives the `ParseError`'s message. Trusted:
/// the result is [`url_split`] of the argument, one claim about the six
/// calls together. For an address that starts with `scheme://` for one of
/// the special schemes that need a host ([`names_host_scheme`]) it claims
/// two facts more, from the url crate's source: such a URL always keeps a
/// path that starts with `/` (`parse_path_start`), so the serialization is a
/// base that is [`authority_only`] followed by one `/` (the user name and
/// password are percent-encoded with `/`, `?` and `#` among the encoded
/// characters, and a host cannot hold them); and that base, parsed again and
/// cleared in the same way, gives the same serialization back
/// ([`stable_base`]; the crate checks in `check_invariants` that a URL
/// parses back to itself). Nothing more is claimed of the parser.
#[verifier::external_body]
fn split_url(server: &str) -> (r: Result<(String, String), String>)
    ensures
        match r {
            Ok((base, path)) => url_split(server@) == Ok::<
                (Seq<char>, Seq<char>),
                Seq<char>,
            >((base@, path@)),
            Err(reason) => url_split(server@) == Err::<(Seq<char>, Seq<char>), Seq<char>>(
                reason@,
            ),
        },
        names_host_scheme(server@) ==> (r matches Ok((base, _)) ==> {
            &&& base@.len() > 0
            &&& base@ == base@.drop_last().push('/')
            &&& stable_base(base@.drop_last())
        }),
{
    let mut url = match reqwest::Url::parse(server) {
        Ok(url) => url,
        Err(e) => return Err(e.to_string()),
    };
    let path = url.path().to_owned();
    url.set_path("");
    url.set_query(None);
    url.set_fragment(None);
    Ok((url.to_string(), path))
}

/// The server address with `http://` put in front unless it names a scheme.
pub open spec fn with_scheme(server: Seq<char>) -> Seq<char> {
    if has_infix(server, "://"@) {
        server
    } else {
        "http://"@ + server
    }
}

/// The context path that a server URL's own path suggests.
pub open spec fn inferred_context(path: Seq<char>) -> Option<Seq<char>> {
    if path.len() == 0 || path == "/"@ {
        None
    } else {
        Some(path)
    }
}

/// The context path: `/nacos` by default, empty for a blank value or `/`,
/// otherwise one leading `/` before the value stripped of slashes.
pub open spec fn spec_normalize_context_path(value: Option<Seq<char>>) -> Seq<char> {
    let t = trimmed(
        match value {
            Some(v) => v,
            None => "/nacos"@,
        },
    );
    if t.len() == 0 || t == "/"@ {
        Seq::empty()
    } else {
        "/"@ + strip_end(strip_start(t, CharClass::Exactly('/')), CharClass::Exactly('/'))
    }
}

/// The namespace: the trimmed value, or `public` when it is blank.
pub open spec fn spec_normalize_namespace(ns: Seq<char>) -> Seq<char> {
    if blank(ns) {
        "public"@
    } else {
        trimmed(ns)
    }
}

/// Base URL and context path from what the URL parser made of the address
/// `full`, or the refused address with the parser's reason.
pub open spec fn spec_split_parts(
    full: Seq<char>,
    parsed: Result<(Seq<char>, Seq<char>), Seq<char>>,
    context: Option<Seq<char>>,
) -> Result<(Seq<char>, Seq<char>), (Seq<char>, Seq<char>)> {
    match parsed {
        Err(reason) => Err((full, reason)),
        Ok((base, path)) => Ok(
            (
                strip_end(base, CharClass::Exactly('/')),
                spec_normalize_context_path(first_some(context, inferred_context(path))),
            ),
        ),
    }
}

/// Base URL and context path of a server address, or the address that the
/// URL parser refused, with its reason.
pub open spec fn spec_split_server(server: Seq<char>, context: Option<Seq<char>>) -> Result<
    (Seq<char>, Seq<char>),
    (Seq<char>, Seq<char>),
> {
    spec_split_parts(with_scheme(server), url_split(with_scheme(server)), context)
}

/// Normalizes a context path.
pub fn normalize_context_path(value: Option<&str>) -> (r: String)
    ensures
        r@ == spec_normalize_context_path(
            match value {
                Some(v) => Some(v@),
                None => None,
            },
        ),
{
    let raw = match value {
        Some(v) => v,
        None => "/nacos",
    };
    let t = trim(raw);
    if t.as_str().is_empty() || str_eq(t.as_str(), "/") {
        return String::new();
    }
    let inner = trim_char(t.as_str(), '/');
    joined("/", inner.as_str())
}

/// Normalizes a namespace.
pub fn normalize_namespace(namespace: &str) -> (r: String)
    ensures
        r@ == spec_normalize_namespace(namespace@),
{
    let t = trim(namespace);
    if t.as_str().is_empty() {
        "public".to_string()
    } else {
        t
    }
}

/// The base URL and context path from what the URL parser made of the
/// address `full`: the serialization without trailing slashes, and the
/// context path given, else the one the URL's path suggests, normalized.
/// A refused address is an error naming it and the parser's reason.
pub fn split_parts(
    full: String,
    parsed: Result<(String, String), String>,
    cli_context: Option<String>,
) -> (r: Result<(String, String), ConfigError>)
    ensures
        match (
            r,
            spec_split_parts(
                full@,
                match parsed {
                    Ok((b, p)) => Ok((b@, p@)),
                    Err(m) => Err(m@),
                },
                opt_view(cli_context),
            ),
        ) {
            (Ok((base, ctx)), Ok((b, c))) => base@ == b && ctx@ == c,
            (Err(e), Err((f, m))) => e@ == ConfigErrorModel::InvalidServer { server: f, reason: m },
            _ => false,
        },
{
    match parsed {
        Err(reason) => Err(ConfigError::InvalidServer { server: full, reason }),
        Ok((base, path)) => {
            let inferred = if path.as_str().is_empty() || str_eq(path.as_str(), "/") {
                None
            } else {
                Some(path)
            };
            let chosen = or_else_string(cli_context, inferred);
            let context_path = match &chosen {
                Some(c) => normalize_context_path(Some(c.as_str())),
                None => normalize_context_path(None),
            };
            let base_url = trim_end_char(base.as_str(), '/');
            Ok((base_url, context_path))
        },
    }
}

/// A URL of [`authority_only`] shape does not end with a slash, and names a
/// scheme.
pub proof fn lemma_authority_only(u: Seq<char>)
    requires
        authority_only(u),
    ensures
        u.len() > 0,
        u.last() != '/',
        has_infix(u, "://"@),
        strip_end(u.push('/'), CharClass::Exactly('/')) == u,
{
    let i = choose|i: int|
        0 < i && i + 3 < u.len() && #[trigger] u.subrange(i, i + 3) == "://"@ && forall|j: int|
            i + 3 <= j < u.len() ==> u[j] != '/' && u[j] != '?' && u[j] != '#';
    assert(u[u.len() - 1] != '/');
    reveal_strlit("://");
    assert(occurs_at(u, "://"@, i));
    assert(u.push('/').drop_last() =~= u);
    assert(strip_end(u, CharClass::Exactly('/')) == u);
}

/// Splits a server address into its base URL and its context path; the
/// context path given wins over the one the address carries. For an address
/// with a scheme that needs a host, the base URL is a [`stable_base`].
pub fn split_server(server: &str, cli_context: Option<String>) -> (r: Result<
    (String, String),
    ConfigError,
>)
    ensures
        names_host_scheme(with_scheme(server@)) ==> (r matches Ok((base, _)) ==> stable_base(
            base@,
        )),
        match (r, spec_split_server(server@, opt_view(cli_context))) {
            (Ok((base, ctx)), Ok((b, c))) => base@ == b && ctx@ == c,
            (Err(e), Err((full, reason))) => e@ == ConfigErrorModel::InvalidServer {
                server: full,
                reason,
            },
            _ => false,
        },
{
    let full = if contains_str(server, "://") {
        server.to_string()
    } else {
        joined("http://", server)
    };
    let parsed = split_url(full.as_str());
    proof {
        if names_host_scheme(full@) {
            if parsed is Ok {
                lemma_authority_only(parsed->Ok_0.0@.drop_last());
            }
        }
    }
    split_parts(full, parsed, cli_context)
}

// ---------------------------------------------------------------------------
// Environment values
// ---------------------------------------------------------------------------

/// An environment value counts only when it is not blank.
pub open spec fn spec_non_blank(raw: Option<Seq<char>>) -> Option<Seq<char>> {
    match raw {
        Some(v) => if blank(v) {
            None
        } else {
            Some(v)
        },
        None => None,
    }
}

/// A non-blank environment value read as an unsigned number no larger than `max`.
pub open spec fn spec_env_number(raw: Option<Seq<char>>, max: nat) -> Option<nat> {
    match spec_non_blank(raw) {
        Some(v) => match parse_unsigned(v, max) {
            Ok(n) => Some(n),
            Err(_) => None,
        },
        None => None,
    }
}

/// The value of an environment variable, dropped when it is blank.
pub fn non_blank(raw: Option<String>) -> (r: Option<String>)
    ensures
        opt_view(r) == spec_non_blank(opt_view(raw)),
{
    match raw {
        Some(v) => if is_blank(v.as_str()) {
            None
        } else {
            Some(v)
        },
        None => None,
    }
}

/// A port number from an environment value.
pub fn env_u16(raw: Option<String>) -> (r: Option<u16>)
    ensures
        match r {
            Some(n) => spec_env_number(opt_view(raw), u16::MAX as nat) == Some(n as nat),
            None => spec_env_number(opt_view(raw), u16::MAX as nat) is None,
        },
{
    match non_blank(raw) {
        Some(v) => match parse_u16(v.as_str()) {
            Ok(n) => Some(n),
            Err(_) => None,
        },
        None => None,
    }
}

/// A number of seconds from an environment value.
pub fn env_u64(raw: Option<String>) -> (r: Option<u64>)
    ensures
        match r {
            Some(n) => spec_env_number(opt_view(raw), u64::MAX as nat) == Some(n as nat),
            None => spec_env_number(opt_view(raw), u64::MAX as nat) is None,
        },
{
    match non_blank(raw) {
        Some(v) => match parse_u64(v.as_str()) {
            Ok(n) => Some(n),
            Err(_) => None,
        },
        None => None,
    }
}

/// `host:port` (or the host alone) from a host and an optional port; the host
/// is trimmed and a blank host gives nothing.
pub open spec fn spec_compose_server(host: Option<Seq<char>>, port: Option<nat>) -> Option<
    Seq<char>,
> {
    match host {
        None => None,
        Some(h) => if blank(h) {
            None
        } else {
            match port {
                Some(p) => Some(trimmed(h) + ":"@ + decimal(p)),
                None => Some(trimmed(h)),
            }
        },
    }
}

/// Builds a server address from a host and an optional port.
pub fn compose_server(host: Option<&str>, port: Option<u16>) -> (r: Option<String>)
    ensures
        opt_view(r) == spec_compose_server(opt_str_view(host), port_view(port)),
{
    let h = match host {
        Some(h) => h,
        None => {
            return None;
        },
    };
    let t = trim(h);
    if t.as_str().is_empty() {
        return None;
    }
    match port {
        Some(p) => {
            let mut r = joined(t.as_str(), ":");
            push_decimal(&mut r, p as u64);
            Some(r)
        },
        None => Some(t),
    }
}


/// A port number as a natural number.
pub open spec fn port_view(p: Option<u16>) -> Option<nat> {
    match p {
        Some(n) => Some(n as nat),
        None => None,
    }
}

// ---------------------------------------------------------------------------
// Resolution: command line, then configuration file, then environment
// ---------------------------------------------------------------------------

/// The server address: flag, file `server`, file `host`/`port`, `NACOS_SERVER`,
/// `RNACOS_SERVER`, then `NACOS_HOST`/`NACOS_PORT`.
pub open spec fn picked_server(o: ConfigOverrides, f: FileConfig, e: EnvConfig) -> Option<
    Seq<char>,
> {
    first_some(
        opt_view(o.server),
        first_some(
            opt_view(f.server),
            first_some(
                spec_compose_server(opt_view(f.host), port_view(f.port)),
                first_some(
                    spec_non_blank(opt_view(e.nacos_server)),
                    first_some(
                        spec_non_blank(opt_view(e.rnacos_server)),
                        spec_compose_server(
                            spec_non_blank(opt_view(e.nacos_host)),
                            spec_env_number(opt_view(e.nacos_port), u16::MAX as nat),
                        ),
                    ),
                ),
            ),
        ),
    )
}

/// A setting taken from the flag, else the file, else the (non-blank) environment.
pub open spec fn layered(flag: Option<String>, file: Option<String>, env: Option<String>) -> Option<
    Seq<char>,
> {
    first_some(opt_view(flag), first_some(opt_view(file), spec_non_blank(opt_view(env))))
}

/// The timeout in seconds: flag, file, `NACOS_TIMEOUT_SECS`, else 10.
pub open spec fn picked_timeout(o: ConfigOverrides, f: FileConfig, e: EnvConfig) -> u64 {
    match first_some(o.timeout_secs, f.timeout_secs) {
        Some(t) => t,
        None => match spec_env_number(opt_view(e.nacos_timeout_secs), u64::MAX as nat) {
            Some(n) => n as u64,
            None => 10,
        },
    }
}

/// The configuration file path: the one given, else the default location.
pub open spec fn picked_config_path(o: ConfigOverrides, default_path: Option<Seq<char>>) -> Option<
    Seq<char>,
> {
    first_some(opt_view(o.config), default_path)
}

/// The resolved settings, or why there are none.
pub open spec fn spec_resolve(
    o: ConfigOverrides,
    default_path: Option<Seq<char>>,
    f: FileConfig,
    e: EnvConfig,
) -> Result<RuntimeConfigModel, ConfigErrorModel> {
    match picked_server(o, f, e) {
        None => Err(ConfigErrorModel::MissingServer),
        Some(server) => match spec_split_server(
            server,
            layered(o.context_path, f.context_path, e.nacos_context_path),
        ) {
            Err((full, reason)) => Err(ConfigErrorModel::InvalidServer { server: full, reason }),
            Ok((base_url, context_path)) => Ok(
                RuntimeConfigModel {
                    config_path: picked_config_path(o, default_path),
                    base_url,
                    context_path,
                    namespace: spec_normalize_namespace(
                        match layered(o.namespace, f.namespace, e.nacos_namespace) {
                            Some(n) => n,
                            None => "public"@,
                        },
                    ),
                    username: layered(o.username, f.username, e.nacos_username),
                    password: layered(o.password, f.password, e.nacos_password),
                    access_token: layered(o.access_token, f.access_token, e.nacos_access_token),
                    timeout_secs: picked_timeout(o, f, e),
                    verbose: o.verbose,
                },
            ),
        },
    }
}

/// The default configuration file: `nactl/config.yaml` under the platform
/// configuration directory, unless only the older `nacosctl/config.yaml`
/// exists there.
pub fn default_config_file(
    primary: String,
    primary_exists: bool,
    legacy: String,
    legacy_exists: bool,
) -> (r: String)
    ensures
        r@ == if !primary_exists && legacy_exists {
            legacy@
        } else {
            primary@
        },
{
    if primary_exists {
        return primary;
    }
    if legacy_exists {
        return legacy;
    }
    primary
}

/// The configuration file path: the one given, else the default location.
pub fn config_path_choice(explicit: &Option<String>, default_path: &Option<String>) -> (r: Option<
    String,
>)
    ensures
        opt_view(r) == first_some(opt_view(*explicit), opt_view(*default_path)),
{
    or_else_string(clone_opt(explicit), clone_opt(default_path))
}

fn layered_exec(flag: Option<String>, file: Option<String>, env: Option<String>) -> (r: Option<
    String,
>)
    ensures
        opt_view(r) == layered(flag, file, env),
{
    or_else_string(flag, or_else_string(file, non_blank(env)))
}

impl RuntimeConfig {
    /// Resolves the settings from the command line, the configuration file
    /// and the environment, in this order of precedence. `default_path` is
    /// the default configuration file location, used when no file was given.
    /// Where the address, with `http://` put in front when it names no
    /// scheme, has a scheme that needs a host, the base URL is a
    /// [`stable_base`]: a scheme and an authority, with no path, query or
    /// fragment, which the URL parser gives back as it is.
    pub fn resolve(
        overrides: ConfigOverrides,
        default_path: Option<String>,
        file: FileConfig,
        env: EnvConfig,
    ) -> (r: Result<RuntimeConfig, ConfigError>)
        ensures
            match r {
                Ok(c) => spec_resolve(overrides, opt_view(default_path), file, env) == Ok::<
                    RuntimeConfigModel,
                    ConfigErrorModel,
                >(c@),
                Err(e) => spec_resolve(overrides, opt_view(default_path), file, env) == Err::<
                    RuntimeConfigModel,
                    ConfigErrorModel,
                >(e@),
            },
            picked_server(overrides, file, env) matches Some(s) ==> (names_host_scheme(
                with_scheme(s),
            ) ==> (r matches Ok(c) ==> stable_base(c.base_url@))),
    {
        let ghost o = overrides;
        let ghost f = file;
        let ghost e = env;
        let config_path = config_path_choice(&overrides.config, &default_path);
        let file_composed = compose_server(as_deref(&file.host), file.port);
        let env_host = non_blank(env.nacos_host);
        let env_port = env_u16(env.nacos_port);
        let env_composed = compose_server(as_deref(&env_host), env_port);
        let server = or_else_string(
            overrides.server,
            or_else_string(
                file.server,
                or_else_string(
                    file_composed,
                    or_else_string(
                        non_blank(env.nacos_server),
                        or_else_string(non_blank(env.rnacos_server), env_composed),
                    ),
                ),
            ),
        );
        assert(opt_view(server) == picked_server(o, f, e));
        let server = match server {
            Some(s) => s,
            None => {
                return Err(ConfigError::MissingServer);
            },
        };
        let cli_context = layered_exec(
            overrides.context_path,
            file.context_path,
            env.nacos_context_path,
        );
        let (base_url, context_path) = match split_server(server.as_str(), cli_context) {
            Ok(parts) => parts,
            Err(err) => {
                return Err(err);
            },
        };
        let namespace = match layered_exec(overrides.namespace, file.namespace, env.nacos_namespace) {
            Some(n) => n,
            None => "public".to_string(),
        };
        let namespace = normalize_namespace(namespace.as_str());
        let username = layered_exec(overrides.username, file.username, env.nacos_username);
        let password = layered_exec(overrides.password, file.password, env.nacos_password);
        let access_token = layered_exec(
            overrides.access_token,
            file.access_token,
            env.nacos_access_token,
        );
        let timeout_secs = match overrides.timeout_secs {
            Some(t) => t,
            None => match file.timeout_secs {
                Some(t) => t,
                None => match env_u64(env.nacos_timeout_secs) {
                    Some(t) => t,
                    None => 10,
                },
            },
        };
        Ok(
            RuntimeConfig {
                config_path,
                base_url,
                context_path,
                namespace,
                username,
                password,
                access_token,
                timeout_secs,
                verbose: overrides.verbose,
            },
        )
    }
}


// ---------------------------------------------------------------------------
// Saving an access token
// ---------------------------------------------------------------------------

/// `written` is `existing` with the connection settings of `runtime` and the
/// access token `token` put in; its `host` and `port` stay as they were.
pub open spec fn persisted(
    existing: FileConfig,
    runtime: RuntimeConfig,
    token: Seq<char>,
    written: FileConfig,
) -> bool {
    &&& opt_view(written.server) == Some(runtime.base_url@)
    &&& opt_view(written.host) == opt_view(existing.host)
    &&& written.port == existing.port
    &&& opt_view(written.context_path) == Some(runtime.context_path@)
    &&& opt_view(written.namespace) == Some(runtime.namespace@)
    &&& opt_view(written.username) == opt_view(runtime.username)
    &&& opt_view(written.password) == opt_view(runtime.password)
    &&& opt_view(written.access_token) == Some(token)
    &&& written.timeout_secs == Some(runtime.timeout_secs)
}

/// The configuration file content that saving an access token writes:
/// the current file with the resolved settings and the new token.
pub fn auth_file_config(existing: FileConfig, runtime: &RuntimeConfig, access_token: &str) -> (r:
    FileConfig)
    ensures
        persisted(existing, *runtime, access_token@, r),
{
    FileConfig {
        server: Some(runtime.base_url.clone()),
        host: existing.host,
        port: existing.port,
        context_path: Some(runtime.context_path.clone()),
        namespace: Some(runtime.namespace.clone()),
        username: clone_opt(&runtime.username),
        password: clone_opt(&runtime.password),
        access_token: Some(access_token.to_string()),
        timeout_secs: Some(runtime.timeout_secs),
    }
}

/// Where an access token is saved: the configuration file in use, else the
/// default location.
pub fn persist_path(runtime: &RuntimeConfig, default_path: Option<String>) -> (r: Result<
    String,
    ConfigError,
>)
    ensures
        match r {
            Ok(p) => first_some(opt_view(runtime.config_path), opt_view(default_path)) == Some(
                p@,
            ),
            Err(e) => first_some(opt_view(runtime.config_path), opt_view(default_path)) is None
                && e@ == ConfigErrorModel::MissingConfigPath,
        },
{
    match or_else_string(clone_opt(&runtime.config_path), default_path) {
        Some(p) => Ok(p),
        None => Err(ConfigError::MissingConfigPath),
    }
}

} // verus!
