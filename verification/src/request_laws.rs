use vstd::prelude::*;
use vstd::utf8::{decode_utf8, valid_utf8};
use crate::nacos::{
    spec_bool_response, spec_mutation_response, spec_parse_login, spec_tenant, spec_token_plan,
    BoolEnvelope, LoginEnvelope, LoginResultModel, Session, TokenPlanModel, lossy_utf8, spec_get_config_response, utf8_error, NacosErrorModel, opt_param, spec_entry_params, spec_list_params, spec_set_params, ConfigSetRequest, SearchMode,
};
use crate::text::{decimal, opt_view, signed_decimal, trimmed};

verus! {

/// The values that a list of request parameters gives `key`, in order.
pub open spec fn values_of(ps: Seq<(Seq<char>, Seq<char>)>, key: Seq<char>) -> Seq<Seq<char>>
    decreases ps.len(),
{
    if ps.len() == 0 {
        Seq::empty()
    } else {
        values_of(ps.drop_last(), key) + if ps.last().0 == key {
            seq![ps.last().1]
        } else {
            Seq::empty()
        }
    }
}

/// One value where an optional one is given, none otherwise.
pub open spec fn given(value: Option<Seq<char>>) -> Seq<Seq<char>> {
    match value {
        Some(v) => seq![v],
        None => Seq::empty(),
    }
}

proof fn lemma_values_of_append(
    a: Seq<(Seq<char>, Seq<char>)>,
    b: Seq<(Seq<char>, Seq<char>)>,
    key: Seq<char>,
)
    ensures
        values_of(a + b, key) == values_of(a, key) + values_of(b, key),
    decreases b.len(),
{
    if b.len() == 0 {
        assert(a + b =~= a);
        assert(values_of(a, key) + values_of(b, key) =~= values_of(a, key));
    } else {
        lemma_values_of_append(a, b.drop_last(), key);
        assert((a + b).drop_last() =~= a + b.drop_last());
        assert(values_of(a, key) + values_of(b.drop_last(), key) + (if b.last().0 == key {
            seq![b.last().1]
        } else {
            Seq::empty()
        }) =~= values_of(a, key) + values_of(b, key));
    }
}

proof fn lemma_values_of_one(k: Seq<char>, v: Seq<char>, key: Seq<char>)
    ensures
        values_of(seq![(k, v)], key) == if k == key {
            seq![v]
        } else {
            Seq::<Seq<char>>::empty()
        },
{
    let s = seq![(k, v)];
    assert(s.drop_last() =~= Seq::empty());
    assert(values_of(s.drop_last(), key) =~= Seq::empty());
    assert(Seq::<Seq<char>>::empty() + seq![v] =~= seq![v]);
    assert(Seq::<Seq<char>>::empty() + Seq::<Seq<char>>::empty() =~= Seq::<Seq<char>>::empty());
}

proof fn lemma_values_of_opt(k: Seq<char>, v: Option<Seq<char>>, key: Seq<char>)
    ensures
        values_of(opt_param(k, v), key) == if k == key {
            given(v)
        } else {
            Seq::<Seq<char>>::empty()
        },
{
    match v {
        Some(x) => lemma_values_of_one(k, x, key),
        None => {},
    }
}

proof fn lemma_values_of_three(
    k0: Seq<char>,
    v0: Seq<char>,
    k1: Seq<char>,
    v1: Seq<char>,
    k2: Seq<char>,
    v2: Seq<char>,
    key: Seq<char>,
)
    ensures
        values_of(seq![(k0, v0), (k1, v1), (k2, v2)], key) == values_of(seq![(k0, v0)], key)
            + values_of(seq![(k1, v1)], key) + values_of(seq![(k2, v2)], key),
{
    assert(seq![(k0, v0), (k1, v1), (k2, v2)] =~= seq![(k0, v0)] + seq![(k1, v1)] + seq![
        (k2, v2),
    ]);
    lemma_values_of_append(seq![(k0, v0)] + seq![(k1, v1)], seq![(k2, v2)], key);
    lemma_values_of_append(seq![(k0, v0)], seq![(k1, v1)], key);
}

/// The parameter names of the requests differ from one another.
proof fn lemma_keys_differ()
    ensures
        "pageNo"@ != "pageSize"@,
        "pageNo"@ != "search"@,
        "pageNo"@ != "dataId"@,
        "pageNo"@ != "group"@,
        "pageNo"@ != "tenant"@,
        "pageNo"@ != "accessToken"@,
        "pageSize"@ != "search"@,
        "pageSize"@ != "dataId"@,
        "pageSize"@ != "group"@,
        "pageSize"@ != "tenant"@,
        "pageSize"@ != "accessToken"@,
        "search"@ != "dataId"@,
        "search"@ != "group"@,
        "search"@ != "tenant"@,
        "search"@ != "accessToken"@,
        "dataId"@ != "group"@,
        "dataId"@ != "tenant"@,
        "dataId"@ != "accessToken"@,
        "dataId"@ != "content"@,
        "dataId"@ != "type"@,
        "group"@ != "tenant"@,
        "group"@ != "accessToken"@,
        "group"@ != "content"@,
        "group"@ != "type"@,
        "tenant"@ != "accessToken"@,
        "content"@ != "type"@,
        "content"@ != "tenant"@,
        "content"@ != "accessToken"@,
        "type"@ != "tenant"@,
        "type"@ != "accessToken"@,
{
    reveal_strlit("pageNo");
    reveal_strlit("pageSize");
    reveal_strlit("search");
    reveal_strlit("dataId");
    reveal_strlit("group");
    reveal_strlit("tenant");
    reveal_strlit("accessToken");
    reveal_strlit("content");
    reveal_strlit("type");
    assert("pageNo"@.len() != "pageSize"@.len());
    assert("type"@.len() != "tenant"@.len());
    assert("pageNo"@[0] != "search"@[0]);
    assert("pageNo"@[0] != "dataId"@[0]);
    assert("pageNo"@[0] != "tenant"@[0]);
    assert("pageSize"@[0] != "search"@[0]);
    assert("search"@[0] != "dataId"@[0]);
    assert("search"@[0] != "tenant"@[0]);
    assert("dataId"@[0] != "tenant"@[0]);
    assert("dataId"@[0] != "content"@[0]);
    assert("group"@[0] != "tenant"@[0]);
    assert("group"@[0] != "content"@[0]);
    assert("content"@[0] != "tenant"@[0]);
    assert("content"@[0] != "type"@[0]);
    assert("content"@[0] != "accessToken"@[0]);
    assert("type"@[0] != "accessToken"@[0]);
}

/// A listing asks for the page and page size given, with the search mode
/// `accurate` or `blur` as asked (for `Auto`, `blur` exactly when the data
/// id or the group holds a `*`), and carries the data id, the group, the
/// tenant and the access token each once where it is given, and not at all
/// where it is not; it has no other parameter.
pub proof fn law_list_params(
    data_id: Option<Seq<char>>,
    group: Option<Seq<char>>,
    page: usize,
    size: usize,
    mode: SearchMode,
    tenant: Option<Seq<char>>,
    token: Option<Seq<char>>,
)
    ensures
        ({
            let ps = spec_list_params(data_id, group, page, size, mode, tenant, token);
            &&& values_of(ps, "pageNo"@) == seq![decimal(page as nat)]
            &&& values_of(ps, "pageSize"@) == seq![decimal(size as nat)]
            &&& values_of(ps, "search"@) == seq![
                match mode {
                    SearchMode::Accurate => "accurate"@,
                    SearchMode::Blur => "blur"@,
                    SearchMode::Auto => if (data_id matches Some(d) && d.contains('*')) || (
                    group matches Some(g) && g.contains('*')) {
                        "blur"@
                    } else {
                        "accurate"@
                    },
                },
            ]
            &&& values_of(ps, "dataId"@) == given(data_id)
            &&& values_of(ps, "group"@) == given(group)
            &&& values_of(ps, "tenant"@) == given(tenant)
            &&& values_of(ps, "accessToken"@) == given(token)
            &&& ps.len() == 3 + given(data_id).len() + given(group).len() + given(tenant).len()
                + given(token).len()
        }),
{
    lemma_keys_differ();
    let search = crate::nacos::spec_search_mode(data_id, group, mode);
    let head = seq![
        ("pageNo"@, decimal(page as nat)),
        ("pageSize"@, decimal(size as nat)),
        ("search"@, search),
    ];
    let a = head + opt_param("dataId"@, data_id);
    let b = a + opt_param("group"@, group);
    let c = b + opt_param("tenant"@, tenant);
    let ps = c + opt_param("accessToken"@, token);
    assert(ps == spec_list_params(data_id, group, page, size, mode, tenant, token));
    let keys = seq!["pageNo"@, "pageSize"@, "search"@, "dataId"@, "group"@, "tenant"@, "accessToken"@];
    assert forall|i: int| 0 <= i < keys.len() implies values_of(ps, #[trigger] keys[i])
        == values_of(seq![("pageNo"@, decimal(page as nat))], keys[i]) + values_of(
        seq![("pageSize"@, decimal(size as nat))],
        keys[i],
    ) + values_of(seq![("search"@, search)], keys[i]) + values_of(
        opt_param("dataId"@, data_id),
        keys[i],
    ) + values_of(opt_param("group"@, group), keys[i]) + values_of(
        opt_param("tenant"@, tenant),
        keys[i],
    ) + values_of(opt_param("accessToken"@, token), keys[i]) by {
        let key = keys[i];
        lemma_values_of_append(c, opt_param("accessToken"@, token), key);
        lemma_values_of_append(b, opt_param("tenant"@, tenant), key);
        lemma_values_of_append(a, opt_param("group"@, group), key);
        lemma_values_of_append(head, opt_param("dataId"@, data_id), key);
        lemma_values_of_three(
            "pageNo"@,
            decimal(page as nat),
            "pageSize"@,
            decimal(size as nat),
            "search"@,
            search,
            key,
        );
    }
    assert forall|i: int| 0 <= i < keys.len() implies {
        &&& #[trigger] values_of(seq![("pageNo"@, decimal(page as nat))], keys[i]) == if keys[i]
            == "pageNo"@ {
            seq![decimal(page as nat)]
        } else {
            Seq::<Seq<char>>::empty()
        }
        &&& values_of(seq![("pageSize"@, decimal(size as nat))], keys[i]) == if keys[i]
            == "pageSize"@ {
            seq![decimal(size as nat)]
        } else {
            Seq::<Seq<char>>::empty()
        }
        &&& values_of(seq![("search"@, search)], keys[i]) == if keys[i] == "search"@ {
            seq![search]
        } else {
            Seq::<Seq<char>>::empty()
        }
        &&& values_of(opt_param("dataId"@, data_id), keys[i]) == if keys[i] == "dataId"@ {
            given(data_id)
        } else {
            Seq::<Seq<char>>::empty()
        }
        &&& values_of(opt_param("group"@, group), keys[i]) == if keys[i] == "group"@ {
            given(group)
        } else {
            Seq::<Seq<char>>::empty()
        }
        &&& values_of(opt_param("tenant"@, tenant), keys[i]) == if keys[i] == "tenant"@ {
            given(tenant)
        } else {
            Seq::<Seq<char>>::empty()
        }
        &&& values_of(opt_param("accessToken"@, token), keys[i]) == if keys[i]
            == "accessToken"@ {
            given(token)
        } else {
            Seq::<Seq<char>>::empty()
        }
    } by {
        let key = keys[i];
        lemma_values_of_one("pageNo"@, decimal(page as nat), key);
        lemma_values_of_one("pageSize"@, decimal(size as nat), key);
        lemma_values_of_one("search"@, search, key);
        lemma_values_of_opt("dataId"@, data_id, key);
        lemma_values_of_opt("group"@, group, key);
        lemma_values_of_opt("tenant"@, tenant, key);
        lemma_values_of_opt("accessToken"@, token, key);
    }
    let e = Seq::<Seq<char>>::empty();
    assert(keys[0] == "pageNo"@);
    assert(values_of(ps, "pageNo"@) =~= seq![decimal(page as nat)] + e + e + e + e + e + e);
    assert(keys[1] == "pageSize"@);
    assert(values_of(ps, "pageSize"@) =~= e + seq![decimal(size as nat)] + e + e + e + e + e);
    assert(keys[2] == "search"@);
    assert(values_of(ps, "search"@) =~= e + e + seq![search] + e + e + e + e);
    assert(keys[3] == "dataId"@);
    assert(values_of(ps, "dataId"@) =~= e + e + e + given(data_id) + e + e + e);
    assert(keys[4] == "group"@);
    assert(values_of(ps, "group"@) =~= e + e + e + e + given(group) + e + e);
    assert(keys[5] == "tenant"@);
    assert(values_of(ps, "tenant"@) =~= e + e + e + e + e + given(tenant) + e);
    assert(keys[6] == "accessToken"@);
    assert(values_of(ps, "accessToken"@) =~= e + e + e + e + e + e + given(token));
}

/// A publish form carries the data id, the group and the content, each
/// once; the type, the tenant and the access token each once where given
/// and not at all otherwise, whatever the others are; and nothing else.
pub proof fn law_set_params(
    request: ConfigSetRequest,
    tenant: Option<Seq<char>>,
    token: Option<Seq<char>>,
)
    ensures
        ({
            let ps = spec_set_params(request, tenant, token);
            &&& values_of(ps, "dataId"@) == seq![request.data_id@]
            &&& values_of(ps, "group"@) == seq![request.group@]
            &&& values_of(ps, "content"@) == seq![request.content@]
            &&& values_of(ps, "type"@) == given(opt_view(request.config_type))
            &&& values_of(ps, "tenant"@) == given(tenant)
            &&& values_of(ps, "accessToken"@) == given(token)
            &&& ps.len() == 3 + given(opt_view(request.config_type)).len() + given(tenant).len()
                + given(token).len()
        }),
{
    lemma_keys_differ();
    let kind = opt_view(request.config_type);
    let head = seq![
        ("dataId"@, request.data_id@),
        ("group"@, request.group@),
        ("content"@, request.content@),
    ];
    let a = head + opt_param("type"@, kind);
    let b = a + opt_param("tenant"@, tenant);
    let ps = b + opt_param("accessToken"@, token);
    assert(ps == spec_set_params(request, tenant, token));
    let keys = seq!["dataId"@, "group"@, "content"@, "type"@, "tenant"@, "accessToken"@];
    assert forall|i: int| 0 <= i < keys.len() implies values_of(ps, #[trigger] keys[i])
        == values_of(seq![("dataId"@, request.data_id@)], keys[i]) + values_of(
        seq![("group"@, request.group@)],
        keys[i],
    ) + values_of(seq![("content"@, request.content@)], keys[i]) + values_of(
        opt_param("type"@, kind),
        keys[i],
    ) + values_of(opt_param("tenant"@, tenant), keys[i]) + values_of(
        opt_param("accessToken"@, token),
        keys[i],
    ) by {
        let key = keys[i];
        lemma_values_of_append(b, opt_param("accessToken"@, token), key);
        lemma_values_of_append(a, opt_param("tenant"@, tenant), key);
        lemma_values_of_append(head, opt_param("type"@, kind), key);
        lemma_values_of_three(
            "dataId"@,
            request.data_id@,
            "group"@,
            request.group@,
            "content"@,
            request.content@,
            key,
        );
    }
    let e = Seq::<Seq<char>>::empty();
    lemma_values_of_one("dataId"@, request.data_id@, "dataId"@);
    lemma_values_of_one("group"@, request.group@, "dataId"@);
    lemma_values_of_one("content"@, request.content@, "dataId"@);
    lemma_values_of_one("dataId"@, request.data_id@, "group"@);
    lemma_values_of_one("group"@, request.group@, "group"@);
    lemma_values_of_one("content"@, request.content@, "group"@);
    lemma_values_of_one("dataId"@, request.data_id@, "content"@);
    lemma_values_of_one("group"@, request.group@, "content"@);
    lemma_values_of_one("content"@, request.content@, "content"@);
    lemma_values_of_one("dataId"@, request.data_id@, "type"@);
    lemma_values_of_one("group"@, request.group@, "type"@);
    lemma_values_of_one("content"@, request.content@, "type"@);
    lemma_values_of_one("dataId"@, request.data_id@, "tenant"@);
    lemma_values_of_one("group"@, request.group@, "tenant"@);
    lemma_values_of_one("content"@, request.content@, "tenant"@);
    lemma_values_of_one("dataId"@, request.data_id@, "accessToken"@);
    lemma_values_of_one("group"@, request.group@, "accessToken"@);
    lemma_values_of_one("content"@, request.content@, "accessToken"@);
    lemma_values_of_opt("type"@, kind, "dataId"@);
    lemma_values_of_opt("tenant"@, tenant, "dataId"@);
    lemma_values_of_opt("accessToken"@, token, "dataId"@);
    lemma_values_of_opt("type"@, kind, "group"@);
    lemma_values_of_opt("tenant"@, tenant, "group"@);
    lemma_values_of_opt("accessToken"@, token, "group"@);
    lemma_values_of_opt("type"@, kind, "content"@);
    lemma_values_of_opt("tenant"@, tenant, "content"@);
    lemma_values_of_opt("accessToken"@, token, "content"@);
    lemma_values_of_opt("type"@, kind, "type"@);
    lemma_values_of_opt("tenant"@, tenant, "type"@);
    lemma_values_of_opt("accessToken"@, token, "type"@);
    lemma_values_of_opt("type"@, kind, "tenant"@);
    lemma_values_of_opt("tenant"@, tenant, "tenant"@);
    lemma_values_of_opt("accessToken"@, token, "tenant"@);
    lemma_values_of_opt("type"@, kind, "accessToken"@);
    lemma_values_of_opt("tenant"@, tenant, "accessToken"@);
    lemma_values_of_opt("accessToken"@, token, "accessToken"@);
    assert(keys[0] == "dataId"@);
    assert(values_of(ps, "dataId"@) =~= seq![request.data_id@] + e + e + e + e + e);
    assert(keys[1] == "group"@);
    assert(values_of(ps, "group"@) =~= e + seq![request.group@] + e + e + e + e);
    assert(keys[2] == "content"@);
    assert(values_of(ps, "content"@) =~= e + e + seq![request.content@] + e + e + e);
    assert(keys[3] == "type"@);
    assert(values_of(ps, "type"@) =~= e + e + e + given(kind) + e + e);
    assert(keys[4] == "tenant"@);
    assert(values_of(ps, "tenant"@) =~= e + e + e + e + given(tenant) + e);
    assert(keys[5] == "accessToken"@);
    assert(values_of(ps, "accessToken"@) =~= e + e + e + e + e + given(token));
}

/// The request that names one config entry (to fetch or remove it) carries
/// its data id and group, each once; the tenant and the access token each
/// once where given and not at all otherwise; and nothing else.
pub proof fn law_entry_params(
    data_id: Seq<char>,
    group: Seq<char>,
    tenant: Option<Seq<char>>,
    token: Option<Seq<char>>,
)
    ensures
        ({
            let ps = spec_entry_params(data_id, group, tenant, token);
            &&& values_of(ps, "dataId"@) == seq![data_id]
            &&& values_of(ps, "group"@) == seq![group]
            &&& values_of(ps, "tenant"@) == given(tenant)
            &&& values_of(ps, "accessToken"@) == given(token)
            &&& ps.len() == 2 + given(tenant).len() + given(token).len()
        }),
{
    lemma_keys_differ();
    let one = seq![("dataId"@, data_id)];
    let two = seq![("group"@, group)];
    let head = seq![("dataId"@, data_id), ("group"@, group)];
    assert(head =~= one + two);
    let a = head + opt_param("tenant"@, tenant);
    let ps = a + opt_param("accessToken"@, token);
    assert(ps == spec_entry_params(data_id, group, tenant, token));
    let keys = seq!["dataId"@, "group"@, "tenant"@, "accessToken"@];
    assert forall|i: int| 0 <= i < keys.len() implies values_of(ps, #[trigger] keys[i])
        == values_of(one, keys[i]) + values_of(two, keys[i]) + values_of(
        opt_param("tenant"@, tenant),
        keys[i],
    ) + values_of(opt_param("accessToken"@, token), keys[i]) by {
        let key = keys[i];
        lemma_values_of_append(a, opt_param("accessToken"@, token), key);
        lemma_values_of_append(head, opt_param("tenant"@, tenant), key);
        lemma_values_of_append(one, two, key);
    }
    let e = Seq::<Seq<char>>::empty();
    lemma_values_of_one("dataId"@, data_id, "dataId"@);
    lemma_values_of_one("group"@, group, "dataId"@);
    lemma_values_of_one("dataId"@, data_id, "group"@);
    lemma_values_of_one("group"@, group, "group"@);
    lemma_values_of_one("dataId"@, data_id, "tenant"@);
    lemma_values_of_one("group"@, group, "tenant"@);
    lemma_values_of_one("dataId"@, data_id, "accessToken"@);
    lemma_values_of_one("group"@, group, "accessToken"@);
    lemma_values_of_opt("tenant"@, tenant, "dataId"@);
    lemma_values_of_opt("accessToken"@, token, "dataId"@);
    lemma_values_of_opt("tenant"@, tenant, "group"@);
    lemma_values_of_opt("accessToken"@, token, "group"@);
    lemma_values_of_opt("tenant"@, tenant, "tenant"@);
    lemma_values_of_opt("accessToken"@, token, "tenant"@);
    lemma_values_of_opt("tenant"@, tenant, "accessToken"@);
    lemma_values_of_opt("accessToken"@, token, "accessToken"@);
    assert(keys[0] == "dataId"@);
    assert(values_of(ps, "dataId"@) =~= seq![data_id] + e + e + e);
    assert(keys[1] == "group"@);
    assert(values_of(ps, "group"@) =~= e + seq![group] + e + e);
    assert(keys[2] == "tenant"@);
    assert(values_of(ps, "tenant"@) =~= e + e + given(tenant) + e);
    assert(keys[3] == "accessToken"@);
    assert(values_of(ps, "accessToken"@) =~= e + e + e + given(token));
}

/// The answer to a config fetch is "not found" exactly when its status is
/// 404 or its body is `config data not exist`. Otherwise a status outside
/// 2xx is an HTTP error for `get config` with that status and the trimmed
/// response text, and a success gives the body as text when it is UTF-8,
/// else an error carrying the decoder's message.
pub proof fn law_get_config_response(status: u16, body: Seq<u8>)
    ensures
        ({
            let missing = "config data not exist"@.map_values(|c: char| c as u8);
            let r = spec_get_config_response(status, body);
            &&& (r == Ok::<Option<Seq<char>>, NacosErrorModel>(None) <==> status == 404 || body
                == missing)
            &&& (status != 404 && body != missing && !(200 <= status <= 299) ==> r == Err::<
                Option<Seq<char>>,
                NacosErrorModel,
            >(
                NacosErrorModel::Http {
                    operation: "get config"@,
                    status,
                    body: trimmed(lossy_utf8(body)),
                },
            ))
            &&& (status != 404 && body != missing && 200 <= status <= 299 && valid_utf8(body)
                ==> r == Ok::<Option<Seq<char>>, NacosErrorModel>(Some(decode_utf8(body))))
            &&& (status != 404 && body != missing && 200 <= status <= 299 && !valid_utf8(body)
                ==> r == Err::<Option<Seq<char>>, NacosErrorModel>(
                NacosErrorModel::NotUtf8 { reason: utf8_error(body) },
            ))
        }),
{
}

/// Requests name a tenant exactly when the namespace is neither empty nor
/// `public`, and then it is the namespace.
pub proof fn law_tenant(namespace: Seq<char>)
    ensures
        spec_tenant(namespace) is None <==> namespace.len() == 0 || namespace == "public"@,
        spec_tenant(namespace) matches Some(t) ==> t == namespace,
{
}

/// A request carries the token of the last login while it is live; else,
/// with both a user name and a password, it logs in first; else it carries
/// the configured token; else none.
pub proof fn law_token_choice(s: Session, now: u128)
    ensures
        ({
            let live = s.dynamic_token matches Some(t) && match t.expires_at {
                Some(e) => now < e,
                None => true,
            };
            let plan = spec_token_plan(s, now);
            &&& (live ==> plan == TokenPlanModel::Cached(s.dynamic_token->0.access_token@))
            &&& (!live && s.config.username is Some && s.config.password is Some ==> plan
                == TokenPlanModel::Login)
            &&& (!live && !(s.config.username is Some && s.config.password is Some) ==> plan
                == match s.config.access_token {
                Some(c) => TokenPlanModel::Configured(c@),
                None => TokenPlanModel::Anonymous,
            })
        }),
{
}

/// A login answer that is not JSON is an invalid response; one with an
/// error code other than 0 is a failed login via that endpoint, with the
/// server's message or else `code=<code>`; otherwise the access token and
/// its lifetime are taken from the top level, else from `data`, and a
/// missing token is an error.
pub proof fn law_login_response(envelope: Option<LoginEnvelope>, endpoint: Seq<char>)
    ensures
        ({
            let r = spec_parse_login(envelope, endpoint);
            match envelope {
                None => r == Err::<LoginResultModel, NacosErrorModel>(
                    NacosErrorModel::InvalidLoginResponse,
                ),
                Some(env) => match env.code {
                    Some(c) if c != 0 => r == Err::<LoginResultModel, NacosErrorModel>(
                        NacosErrorModel::LoginFailed {
                            endpoint,
                            detail: match env.message {
                                Some(m) => m@,
                                None => "code="@ + signed_decimal(c as int),
                            },
                        },
                    ),
                    _ => {
                        let token = match env.access_token {
                            Some(t) => Some(t@),
                            None => match env.data {
                                Some(d) => opt_view(d.access_token),
                                None => None,
                            },
                        };
                        let ttl = match env.token_ttl {
                            Some(t) => Some(t),
                            None => match env.data {
                                Some(d) => d.token_ttl,
                                None => None,
                            },
                        };
                        match token {
                            None => r == Err::<LoginResultModel, NacosErrorModel>(
                                NacosErrorModel::MissingAccessToken,
                            ),
                            Some(t) => r == Ok::<LoginResultModel, NacosErrorModel>(
                                LoginResultModel { access_token: t, token_ttl: ttl, endpoint },
                            ),
                        }
                    },
                },
            }
        }),
{
}

/// A publish or remove answer with a status outside 2xx is an HTTP error
/// with that status and the trimmed response text. With a success status,
/// the text `true` (blanks around it aside) succeeds; else a JSON body with
/// an error code other than 0 is refused with the server's message (or
/// `server returned an error`); else a JSON body with `data: true`
/// succeeds; anything else is an unexpected response quoting the text.
pub proof fn law_mutation_response(
    operation: Seq<char>,
    status: u16,
    body: Seq<u8>,
    envelope: Option<BoolEnvelope>,
)
    ensures
        ({
            let r = spec_mutation_response(operation, status, body, envelope);
            let text = lossy_utf8(body);
            &&& (!(200 <= status <= 299) ==> r == Err::<(), NacosErrorModel>(
                NacosErrorModel::Http { operation, status, body: trimmed(text) },
            ))
            &&& (200 <= status <= 299 ==> r == spec_bool_response(operation, body, envelope))
            &&& (trimmed(text) == "true"@ ==> spec_bool_response(operation, body, envelope) is Ok)
            &&& (trimmed(text) != "true"@ ==> spec_bool_response(operation, body, envelope)
                == match envelope {
                Some(env) => if env.code matches Some(c) && c != 0 {
                    Err::<(), NacosErrorModel>(
                        NacosErrorModel::Rejected {
                            operation,
                            message: match env.message {
                                Some(m) => m@,
                                None => "server returned an error"@,
                            },
                        },
                    )
                } else if env.data == Some(true) {
                    Ok(())
                } else {
                    Err(NacosErrorModel::UnexpectedResponse { operation, text })
                },
                None => Err(NacosErrorModel::UnexpectedResponse { operation, text }),
            })
        }),
{
}

} // verus!
