use vstd::prelude::*;
use crate::config::{
    inferred_context, layered, persisted, picked_server, spec_env_number, spec_non_blank,
    spec_normalize_context_path, spec_normalize_namespace, spec_resolve, url_split, with_scheme,
    lemma_authority_only, stable_base,
    ConfigOverrides, EnvConfig, FileConfig, RuntimeConfig, RuntimeConfigModel, ConfigErrorModel,
};
use crate::mcp::{
    looks_like_json, spec_content_length, spec_content_length_block, spec_first_line,
    spec_header_step, FirstLineModel, HeaderStepModel,
};
use crate::nacos::{recorded, spec_expiry, spec_token_plan, LoginResult, Session, TokenPlanModel};
use crate::output::spec_truncate;
use crate::cli::{spec_edit_outcome, spec_select_editor, CliErrorModel};
use crate::text::{
    ascii_lower, blank, decimal, parse_unsigned, has_infix, eq_ignore_ascii_case, first_some, is_ws, lemma_decimal_reads_back,
    lemma_trimmed_fixed, lemma_trimmed_idempotent, opt_view, split_once, strip_end, strip_start,
    trimmed, CharClass, lemma_strip_end_last, lemma_strip_end_prefix, lemma_strip_start_head,
};

verus! {

/// Settings are resolved from the command line first, then the
/// configuration file, then the environment: each setting comes from the
/// first of these layers that gives it.
pub proof fn law_resolution_order(
    o: ConfigOverrides,
    default_path: Option<Seq<char>>,
    f: FileConfig,
    e: EnvConfig,
)
    ensures
        o.server matches Some(s) ==> picked_server(o, f, e) == Some(s@),
        o.server is None ==> (f.server matches Some(s) ==> picked_server(o, f, e) == Some(s@)),
        spec_resolve(o, default_path, f, e) matches Ok(c) ==> {
            &&& c.username == first_some(
                opt_view(o.username),
                first_some(opt_view(f.username), spec_non_blank(opt_view(e.nacos_username))),
            )
            &&& c.password == first_some(
                opt_view(o.password),
                first_some(opt_view(f.password), spec_non_blank(opt_view(e.nacos_password))),
            )
            &&& c.access_token == first_some(
                opt_view(o.access_token),
                first_some(
                    opt_view(f.access_token),
                    spec_non_blank(opt_view(e.nacos_access_token)),
                ),
            )
            &&& (o.namespace matches Some(n) ==> c.namespace == spec_normalize_namespace(n@))
            &&& (o.namespace is None ==> (f.namespace matches Some(n) ==> c.namespace
                == spec_normalize_namespace(n@)))
            &&& (o.timeout_secs matches Some(t) ==> c.timeout_secs == t)
            &&& (o.timeout_secs is None ==> (f.timeout_secs matches Some(t) ==> c.timeout_secs == t))
            &&& (o.context_path matches Some(p) ==> c.context_path == spec_normalize_context_path(
                Some(p@),
            ))
        },
{
}

/// Where neither the flag nor the configuration file gives a setting, a
/// non-blank environment value gives it: the server address and the
/// credentials as they are, the namespace trimmed, the context path
/// normalized, and the timeout where the value is a number.
pub proof fn law_environment_fills_in(
    o: ConfigOverrides,
    default_path: Option<Seq<char>>,
    f: FileConfig,
    e: EnvConfig,
)
    ensures
        e.nacos_server matches Some(s) ==> (o.server is None && f.server is None && f.host is None
            && !blank(s@) ==> picked_server(o, f, e) == Some(s@)),
        spec_resolve(o, default_path, f, e) matches Ok(c) ==> {
            &&& (e.nacos_namespace matches Some(n) ==> (o.namespace is None && f.namespace is None
                && !blank(n@) ==> c.namespace == trimmed(n@)))
            &&& (e.nacos_username matches Some(u) ==> (o.username is None && f.username is None
                && !blank(u@) ==> c.username == Some(u@)))
            &&& (e.nacos_password matches Some(p) ==> (o.password is None && f.password is None
                && !blank(p@) ==> c.password == Some(p@)))
            &&& (e.nacos_access_token matches Some(t) ==> (o.access_token is None
                && f.access_token is None && !blank(t@) ==> c.access_token == Some(t@)))
            &&& (e.nacos_context_path matches Some(p) ==> (o.context_path is None
                && f.context_path is None && !blank(p@) ==> c.context_path
                == spec_normalize_context_path(Some(p@))))
            &&& (e.nacos_timeout_secs matches Some(t) ==> (o.timeout_secs is None
                && f.timeout_secs is None && !blank(t@) ==> (parse_unsigned(t@, u64::MAX as nat) matches Ok(n)
                ==> c.timeout_secs == n)))
        },
{
    if let Some(n) = e.nacos_namespace {
        if !blank(n@) {
            lemma_trimmed_idempotent(n@);
        }
    }
    if let Some(t) = e.nacos_timeout_secs {
        crate::text::lemma_scan_bounded(t@, u64::MAX as nat);
        if t@.len() > 0 {
            crate::text::lemma_scan_bounded(t@.drop_first(), u64::MAX as nat);
        }
    }
}

/// With nothing said of them anywhere (environment values that are blank,
/// or for the timeout not a number, count as unset), the namespace is
/// `public`, the timeout 10 seconds and, for a server address without a
/// path, the context path `/nacos`.
pub proof fn law_defaults(o: ConfigOverrides, default_path: Option<Seq<char>>, f: FileConfig, e: EnvConfig)
    requires
        o.namespace is None && f.namespace is None,
        spec_non_blank(opt_view(e.nacos_namespace)) is None,
        o.timeout_secs is None && f.timeout_secs is None,
        spec_env_number(opt_view(e.nacos_timeout_secs), u64::MAX as nat) is None,
        o.context_path is None && f.context_path is None,
        spec_non_blank(opt_view(e.nacos_context_path)) is None,
        picked_server(o, f, e) matches Some(s) && (url_split(with_scheme(s)) matches Ok(
            (b, p),
        ) ==> inferred_context(p) is None),
    ensures
        spec_resolve(o, default_path, f, e) matches Ok(c) ==> {
            &&& c.namespace == "public"@
            &&& c.timeout_secs == 10
            &&& c.context_path == "/nacos"@
        },
{
    reveal_strlit("public");
    reveal_strlit("/nacos");
    reveal_strlit("nacos");
    reveal_strlit("/");
    let p = "public"@;
    assert(!is_ws(p[0]) && !is_ws(p.last()));
    lemma_trimmed_fixed(p);
    let n = "/nacos"@;
    assert(!is_ws(n[0]) && !is_ws(n.last()));
    lemma_trimmed_fixed(n);
    assert(n.drop_first() =~= "nacos"@);
    assert(strip_start(n, CharClass::Exactly('/')) == strip_start("nacos"@, CharClass::Exactly('/')));
    assert(strip_start("nacos"@, CharClass::Exactly('/')) == "nacos"@);
    assert(strip_end("nacos"@, CharClass::Exactly('/')) == "nacos"@);
    assert("/"@ + "nacos"@ =~= n);
    assert(n != "/"@);
}

/// A namespace once normalized stays as it is: resolved settings hold a
/// normalized namespace.
pub proof fn law_namespace_normalized(ns: Seq<char>)
    ensures
        spec_normalize_namespace(spec_normalize_namespace(ns)) == spec_normalize_namespace(ns),
{
    reveal_strlit("public");
    let p = "public"@;
    assert(!is_ws(p[0]) && !is_ws(p.last()));
    lemma_trimmed_fixed(p);
    lemma_trimmed_idempotent(ns);
}

/// The shape of a context path that resolution gives: empty, `/`, or a `/`
/// followed by a path that neither starts nor ends with a slash.
pub open spec fn context_path_shape(c: Seq<char>) -> bool {
    c.len() == 0 || (c[0] == '/' && (c.len() == 1 || (c[1] != '/' && c.last() != '/')))
}

proof fn lemma_normalized_context_shape(value: Option<Seq<char>>)
    ensures
        context_path_shape(spec_normalize_context_path(value)),
{
    reveal_strlit("/");
    let t = trimmed(
        match value {
            Some(v) => v,
            None => "/nacos"@,
        },
    );
    if !(t.len() == 0 || t == "/"@) {
        let a = strip_start(t, CharClass::Exactly('/'));
        let x = strip_end(a, CharClass::Exactly('/'));
        lemma_strip_start_head(t, CharClass::Exactly('/'));
        lemma_strip_end_last(a, CharClass::Exactly('/'));
        lemma_strip_end_prefix(a, CharClass::Exactly('/'));
        let r = "/"@ + x;
        assert(r[0] == '/');
        if x.len() > 0 {
            assert(x[0] == a[0]);
            assert(r[1] == x[0]);
            assert(r.last() == x.last());
        }
    }
}

/// Resolved settings are normalized: the base URL does not end with a
/// slash, the context path has the shape [`context_path_shape`], and the
/// namespace is non-empty and trimmed. (That the base URL is a scheme and an
/// authority alone, for an address with a scheme that needs a host, rests on
/// the URL parser and is stated by `RuntimeConfig::resolve` itself.)
pub proof fn law_resolved_shape(
    o: ConfigOverrides,
    default_path: Option<Seq<char>>,
    f: FileConfig,
    e: EnvConfig,
)
    ensures
        spec_resolve(o, default_path, f, e) matches Ok(c) ==> {
            &&& (c.base_url.len() > 0 ==> c.base_url.last() != '/')
            &&& context_path_shape(c.context_path)
            &&& c.namespace.len() > 0
            &&& trimmed(c.namespace) == c.namespace
        },
{
    reveal_strlit("public");
    let p = "public"@;
    assert(!is_ws(p[0]) && !is_ws(p.last()));
    lemma_trimmed_fixed(p);
    if let Some(server) = picked_server(o, f, e) {
        let full = with_scheme(server);
        let ctx = layered(o.context_path, f.context_path, e.nacos_context_path);
        if let Ok((b, path)) = url_split(full) {
            lemma_strip_end_last(b, CharClass::Exactly('/'));
            lemma_normalized_context_shape(first_some(ctx, inferred_context(path)));
        }
        let ns = match layered(o.namespace, f.namespace, e.nacos_namespace) {
            Some(n) => n,
            None => "public"@,
        };
        lemma_trimmed_idempotent(ns);
    }
}

/// A context path of that shape, with no whitespace at its ends and other
/// than `/`, normalizes to itself.
pub proof fn law_context_path_fixed(c: Seq<char>)
    requires
        context_path_shape(c),
        trimmed(c) == c,
        c != "/"@,
    ensures
        spec_normalize_context_path(Some(c)) == c,
{
    reveal_strlit("/");
    if c.len() > 0 {
        let x = c.drop_first();
        if c.len() == 1 {
            assert(c =~= "/"@);
        }
        assert(x[0] == c[1]);
        assert(x.last() == c.last());
        assert(strip_start(c, CharClass::Exactly('/')) == strip_start(x, CharClass::Exactly('/')));
        assert(strip_start(x, CharClass::Exactly('/')) == x);
        assert(strip_end(x, CharClass::Exactly('/')) == x);
        assert("/"@ + x =~= c);
    } else {
        assert(c =~= Seq::<char>::empty());
    }
}

/// After a login saved its token in the configuration file, a later run
/// with no connection flags (the file named or not) resolves to that token,
/// and to the namespace, timeout and credentials that the login ran with;
/// to the same context path when it had no whitespace at its ends and was
/// not `/`; to the configuration file named; and to the base URL that the
/// URL parser makes of the saved one. Where that base URL is a
/// [`stable_base`], as resolution gives for an address with a scheme that
/// needs a host, the later run succeeds and has the same base URL.
pub proof fn law_saved_token_is_resolved(
    existing: FileConfig,
    runtime: RuntimeConfig,
    token: Seq<char>,
    written: FileConfig,
    o: ConfigOverrides,
    default_path: Option<Seq<char>>,
    e: EnvConfig,
)
    requires
        persisted(existing, runtime, token, written),
        o.server is None && o.context_path is None && o.namespace is None,
        o.username is None && o.password is None && o.access_token is None,
        o.timeout_secs is None,
        runtime.namespace@ == spec_normalize_namespace(runtime.namespace@),
    ensures
        stable_base(runtime.base_url@) ==> (spec_resolve(o, default_path, written, e) matches Ok(
            c,
        ) && c.base_url == runtime.base_url@),
        spec_resolve(o, default_path, written, e) matches Ok(c) ==> {
            &&& c.access_token == Some(token)
            &&& c.namespace == runtime.namespace@
            &&& c.timeout_secs == runtime.timeout_secs
            &&& c.context_path == spec_normalize_context_path(Some(runtime.context_path@))
            &&& (context_path_shape(runtime.context_path@) && trimmed(runtime.context_path@)
                == runtime.context_path@ && runtime.context_path@ != "/"@ ==> c.context_path
                == runtime.context_path@)
            &&& (runtime.username matches Some(u) ==> c.username == Some(u@))
            &&& (runtime.password matches Some(p) ==> c.password == Some(p@))
            &&& (o.config matches Some(p) ==> c.config_path == Some(p@))
            &&& url_split(with_scheme(runtime.base_url@)) matches Ok((b, _))
            &&& c.base_url == strip_end(b, CharClass::Exactly('/'))
        },
{
    if stable_base(runtime.base_url@) {
        lemma_authority_only(runtime.base_url@);
    }
    if context_path_shape(runtime.context_path@) && trimmed(runtime.context_path@)
        == runtime.context_path@ && runtime.context_path@ != "/"@ {
        law_context_path_fixed(runtime.context_path@);
    }
}

/// The token of a login is used for later requests until five seconds
/// before its lifetime ends (for ever when the server gave no lifetime).
pub proof fn law_login_token_is_reused(
    before: Session,
    result: LoginResult,
    now: u128,
    after: Session,
    later: u128,
)
    requires
        recorded(before, result, now, after),
        spec_expiry(now, result.token_ttl) matches Some(t) ==> later < t,
    ensures
        spec_token_plan(after, later) == TokenPlanModel::Cached(result.access_token@),
{
}

/// Once that time has come, the token of the last login is no longer used.
pub proof fn law_login_token_expires(
    before: Session,
    result: LoginResult,
    now: u128,
    after: Session,
    later: u128,
)
    requires
        recorded(before, result, now, after),
        spec_expiry(now, result.token_ttl) matches Some(t) && later >= t,
    ensures
        spec_token_plan(after, later) !is Cached,
{
}

/// A number written in decimal is read back as that number from the
/// environment.
pub proof fn law_env_number_round_trip(n: nat, max: nat)
    requires
        n <= max,
    ensures
        spec_env_number(Some(decimal(n)), max) == Some(n),
{
    lemma_decimal_reads_back(n, max);
    let d = decimal(n);
    assert(!is_ws(d[0]) && !is_ws(d.last()));
    lemma_trimmed_fixed(d);
}

/// A table cell never exceeds its width (of at least one character), and a
/// value that fits is shown whole; a longer one shows as many of its first
/// characters as leave room for a closing `~`, and that `~`.
pub proof fn law_truncate_fits(value: Seq<char>, max: nat)
    ensures
        value.len() <= max ==> spec_truncate(value, max) == value,
        max >= 1 ==> spec_truncate(value, max).len() <= max,
        value.len() > max >= 1 ==> {
            let r = spec_truncate(value, max);
            &&& r.len() == max
            &&& r.last() == '~'
            &&& forall|i: int| 0 <= i < max - 1 ==> r[i] == value[i]
        },
{
    reveal_strlit("~");
}

/// The editor is the one asked for; else `VISUAL`, else `EDITOR`, each
/// where set and not blank; else `vi`.
pub proof fn law_editor_choice(
    editor_override: Option<Seq<char>>,
    visual: Option<Seq<char>>,
    editor: Option<Seq<char>>,
)
    ensures
        ({
            let r = spec_select_editor(editor_override, visual, editor);
            let visual_set = visual matches Some(v) && !blank(v);
            let editor_set = editor matches Some(v) && !blank(v);
            &&& (editor_override matches Some(e) ==> r == e)
            &&& (editor_override is None && visual_set ==> r == visual->0)
            &&& (editor_override is None && !visual_set && editor_set ==> r == editor->0)
            &&& (editor_override is None && !visual_set && !editor_set ==> r == "vi"@)
        }),
{
}

/// The header line that starts a `Content-Length` frame.
pub open spec fn content_length_line(n: nat) -> Seq<char> {
    "Content-Length: "@ + decimal(n) + "\r\n"@
}

/// A frame header block written for a payload of `n` bytes is read back,
/// line by line, as announcing `n` bytes.
#[verifier::rlimit(40)]
pub proof fn law_content_length_round_trip(n: nat, bytes_read: nat)
    requires
        n <= usize::MAX,
        bytes_read > 0,
    ensures
        spec_content_length_block(n) == content_length_line(n) + "\r\n"@,
        spec_first_line(content_length_line(n), bytes_read) == Ok::<FirstLineModel, crate::mcp::FrameError>(
            FirstLineModel::Headers(Some(n)),
        ),
        spec_header_step(Some(n), "\r\n"@, bytes_read) == Ok::<
            HeaderStepModel,
            crate::mcp::FrameError,
        >(HeaderStepModel::Payload(n)),
{
    reveal_strlit("Content-Length: ");
    reveal_strlit("\r\n");
    reveal_strlit("\r\n\r\n");
    reveal_strlit("content-length");
    reveal_strlit("\r");
    let d = decimal(n);
    lemma_decimal_reads_back(n, usize::MAX as nat);
    assert(spec_content_length_block(n) =~= content_length_line(n) + "\r\n"@);
    let line = content_length_line(n);
    let name = "Content-Length"@;
    let value = " "@ + d + "\r\n"@;
    reveal_strlit("Content-Length");
    reveal_strlit(" ");
    assert(line =~= name + seq![':'] + value);
    assert(line[14] == ':');
    assert forall|j: int| 0 <= j < 14 implies line[j] != ':' by {
        assert(line[j] == name[j]);
    }
    assert(line.contains(':'));
    let i = choose|i: int|
        0 <= i < line.len() && line[i] == ':' && forall|j: int| 0 <= j < i ==> line[j] != ':';
    assert(i == 14);
    assert(line.take(14) =~= name);
    assert(line.skip(15) =~= value);
    assert(split_once(line, ':') == Some((name, value)));
    let lower = "content-length"@;
    assert(eq_ignore_ascii_case(name, lower)) by {
        assert(ascii_lower(name[0]) == lower[0]);
        assert(ascii_lower(name[8]) == lower[8]);
    }
    // the value trims to the digits
    assert(value.drop_first() =~= d + "\r\n"@);
    assert(strip_start(value, CharClass::Whitespace) == strip_start(
        d + "\r\n"@,
        CharClass::Whitespace,
    ));
    assert((d + "\r\n"@)[0] == d[0]);
    assert(strip_start(d + "\r\n"@, CharClass::Whitespace) == d + "\r\n"@);
    assert((d + "\r\n"@).drop_last() =~= d + "\r"@);
    assert((d + "\r"@).drop_last() =~= d);
    assert(strip_end(d + "\r\n"@, CharClass::Whitespace) == strip_end(
        d + "\r"@,
        CharClass::Whitespace,
    ));
    assert(strip_end(d + "\r"@, CharClass::Whitespace) == strip_end(d, CharClass::Whitespace));
    assert(!is_ws(d.last()));
    assert(trimmed(value) == d);
    assert(spec_content_length(line) == Ok::<Option<nat>, crate::text::IntErrorKind>(Some(n)));
    // the header line does not pass for JSON
    assert(!is_ws(line[0]));
    lemma_trimmed_idempotent(line);
    assert(trimmed(line)[0] == 'C') by {
        assert(strip_start(line, CharClass::Whitespace) == line);
        assert(strip_end(line, CharClass::Whitespace).len() > 0) by {
            let head = "Content-Length: "@ + d;
            assert(line.drop_last() =~= head + "\r"@);
            assert((head + "\r"@).drop_last() =~= head);
            assert(line.last() == '\n');
            assert((head + "\r"@).last() == '\r');
            assert(head.last() == d.last());
            assert(strip_end(line, CharClass::Whitespace) == strip_end(
                head + "\r"@,
                CharClass::Whitespace,
            ));
            assert(strip_end(head + "\r"@, CharClass::Whitespace) == strip_end(
                head,
                CharClass::Whitespace,
            ));
            assert(strip_end(head, CharClass::Whitespace) == head);
        }
        crate::text::lemma_strip_end_prefix(line, CharClass::Whitespace);
    }
    assert(!looks_like_json(trimmed(line)));
}

/// A JSON document sent on one line is read back as that document.
pub proof fn law_json_line_round_trip(payload: Seq<char>, bytes_read: nat)
    requires
        looks_like_json(payload),
        !is_ws(payload.last()),
        bytes_read > 0,
    ensures
        spec_first_line(payload + "\n"@, bytes_read) == Ok::<FirstLineModel, crate::mcp::FrameError>(
            FirstLineModel::Json(payload),
        ),
{
    reveal_strlit("\n");
    let s = payload + "\n"@;
    assert(strip_start(s, CharClass::Whitespace) == s);
    assert(s.drop_last() =~= payload);
    lemma_trimmed_fixed(payload);
    assert(strip_end(s, CharClass::Whitespace) == strip_end(payload, CharClass::Whitespace));
    assert(trimmed(s) == payload);
}

/// An edit publishes nothing exactly when the new text equals the old one
/// once trailing newlines are dropped from both. Otherwise a new text that
/// is blank is refused, naming the entry, and any other is published
/// without its trailing newlines.
pub proof fn law_edit_outcome(
    data_id: Seq<char>,
    group: Seq<char>,
    original: Seq<char>,
    updated: Seq<char>,
)
    ensures
        ({
            let u = strip_end(updated, CharClass::Exactly('\n'));
            let o = strip_end(original, CharClass::Exactly('\n'));
            let r = spec_edit_outcome(data_id, group, original, updated);
            &&& (r == Ok::<Option<Seq<char>>, CliErrorModel>(None) <==> u == o)
            &&& (u != o && !blank(u) ==> r == Ok::<Option<Seq<char>>, CliErrorModel>(Some(u)))
            &&& (u != o && blank(u) ==> r == Err::<Option<Seq<char>>, CliErrorModel>(
                CliErrorModel::EmptyEdit { group, data_id },
            ))
        }),
{
}

/// An environment value that counts: one that is set and not blank.
pub open spec fn env_given(v: Option<String>) -> Option<Seq<char>> {
    match v {
        Some(x) => if blank(x@) {
            None
        } else {
            Some(x@)
        },
        None => None,
    }
}

/// A host, trimmed, with `:` and the port after it where one is given.
pub open spec fn host_with_port(host: Seq<char>, port: Option<nat>) -> Seq<char> {
    match port {
        Some(p) => trimmed(host) + ":"@ + decimal(p),
        None => trimmed(host),
    }
}

/// `r` is what resolution gives for the server address `server`: the
/// address, with `http://` put in front when it names no scheme, refused
/// with the URL parser's reason, or a base URL that is the parser's
/// serialization without trailing slashes.
pub open spec fn resolved_from(r: Result<RuntimeConfigModel, ConfigErrorModel>, server: Seq<char>) -> bool {
    let full = if has_infix(server, "://"@) {
        server
    } else {
        "http://"@ + server
    };
    match url_split(full) {
        Err(m) => r == Err::<RuntimeConfigModel, ConfigErrorModel>(
            ConfigErrorModel::InvalidServer { server: full, reason: m },
        ),
        Ok((b, _)) => r matches Ok(c) && c.base_url == strip_end(b, CharClass::Exactly('/')),
    }
}

/// The server address is the first of: the `--server` flag; the file's
/// `server`; the file's non-blank `host` with its `port`; `NACOS_SERVER`;
/// `RNACOS_SERVER`; `NACOS_HOST` with `NACOS_PORT` where that is a port
/// number (environment values counting only when not blank). With none of
/// them, resolution fails for want of a server.
pub proof fn law_server_choice(
    o: ConfigOverrides,
    default_path: Option<Seq<char>>,
    f: FileConfig,
    e: EnvConfig,
)
    ensures
        ({
            let r = spec_resolve(o, default_path, f, e);
            let file_host = match f.host {
                Some(h) => if blank(h@) {
                    None
                } else {
                    Some(h@)
                },
                None => None,
            };
            let env_port = match env_given(e.nacos_port) {
                Some(p) => match parse_unsigned(p, u16::MAX as nat) {
                    Ok(n) => Some(n),
                    Err(_) => None,
                },
                None => None,
            };
            &&& (o.server matches Some(s) ==> resolved_from(r, s@))
            &&& (o.server is None ==> (f.server matches Some(s) ==> resolved_from(r, s@)))
            &&& (o.server is None && f.server is None ==> (file_host matches Some(h) ==> resolved_from(
                r,
                host_with_port(
                    h,
                    match f.port {
                        Some(p) => Some(p as nat),
                        None => None,
                    },
                ),
            )))
            &&& (o.server is None && f.server is None && file_host is None ==> (env_given(
                e.nacos_server,
            ) matches Some(s) ==> resolved_from(r, s)))
            &&& (o.server is None && f.server is None && file_host is None && env_given(
                e.nacos_server,
            ) is None ==> (env_given(e.rnacos_server) matches Some(s) ==> resolved_from(r, s)))
            &&& (o.server is None && f.server is None && file_host is None && env_given(
                e.nacos_server,
            ) is None && env_given(e.rnacos_server) is None ==> (env_given(e.nacos_host) matches Some(
                h,
            ) ==> resolved_from(r, host_with_port(h, env_port))))
            &&& (o.server is None && f.server is None && file_host is None && env_given(
                e.nacos_server,
            ) is None && env_given(e.rnacos_server) is None && env_given(e.nacos_host) is None
                ==> r == Err::<RuntimeConfigModel, ConfigErrorModel>(
                ConfigErrorModel::MissingServer,
            ))
        }),
{
    if let Some(p) = env_given(e.nacos_port) {
        crate::text::lemma_scan_bounded(p, u16::MAX as nat);
        if p.len() > 0 {
            crate::text::lemma_scan_bounded(p.drop_first(), u16::MAX as nat);
        }
    }
}

} // verus!
