use vstd::prelude::*;
use crate::config::RuntimeConfig;
use crate::nacos::{ConfigGetResult, ConfigListItem, ConfigListResult, LoginResult};
use crate::text::{
    as_deref, chars_of, decimal, opt_view, padded, push_decimal, push_padded, string_of_range,
};

verus! {

/// `value` cut to `max` characters: a longer value keeps its first `max - 1`
/// characters (none when `max` is 0) followed by `~`.
pub open spec fn spec_truncate(value: Seq<char>, max: nat) -> Seq<char> {
    if value.len() <= max {
        value
    } else {
        value.take(
            if max >= 1 {
                max - 1
            } else {
                0
            },
        ) + "~"@
    }
}

/// Cuts a value for a table column.
pub fn truncate(value: &str, max: usize) -> (r: String)
    ensures
        r@ == spec_truncate(value@, max as nat),
{
    let v = chars_of(value);
    if v.len() <= max {
        return value.to_string();
    }
    let keep = if max >= 1 {
        max - 1
    } else {
        0
    };
    let mut r = string_of_range(&v, 0, keep);
    r.append("~");
    r
}

/// The group shown for an entry: its `groupName`, else its `group`, else nothing.
pub open spec fn group_label(item: ConfigListItem) -> Seq<char> {
    match opt_view(item.group_name) {
        Some(g) => g,
        None => match opt_view(item.group) {
            Some(g) => g,
            None => Seq::empty(),
        },
    }
}

/// The type shown for an entry.
pub open spec fn type_label(item: ConfigListItem) -> Seq<char> {
    match opt_view(item.config_type) {
        Some(t) => t,
        None => Seq::empty(),
    }
}

/// The four table columns, padded to their widths and separated by spaces,
/// ending a line.
pub open spec fn table_line(a: Seq<char>, b: Seq<char>, c: Seq<char>, d: Seq<char>) -> Seq<char> {
    padded(a, 4) + " "@ + padded(b, 42) + " "@ + padded(c, 24) + " "@ + padded(d, 12) + "\n"@
}

/// The table row of the entry at position `index` (counted from 0).
pub open spec fn list_row(index: nat, item: ConfigListItem) -> Seq<char> {
    table_line(
        decimal(index + 1),
        spec_truncate(item.data_id@, 42),
        spec_truncate(group_label(item), 24),
        spec_truncate(type_label(item), 12),
    )
}

/// The table rows of the first `n` entries.
pub open spec fn list_rows(items: Seq<ConfigListItem>, n: nat) -> Seq<char>
    decreases n,
{
    if n == 0 {
        Seq::empty()
    } else {
        list_rows(items, (n - 1) as nat) + list_row((n - 1) as nat, items[n - 1])
    }
}

/// The text form of a listing.
pub open spec fn spec_config_list_text(result: ConfigListResult) -> Seq<char> {
    if result.page_items@.len() == 0 {
        "no configs found\n"@
    } else {
        "page "@ + decimal(result.page_number as nat) + " / "@ + decimal(
            result.pages_available as nat,
        ) + ", total "@ + decimal(result.total_count as nat) + "\n"@ + table_line(
            "#"@,
            "DATA ID"@,
            "GROUP"@,
            "TYPE"@,
        ) + list_rows(result.page_items@, result.page_items@.len())
    }
}

fn push_table_line(out: &mut String, a: &str, b: &str, c: &str, d: &str)
    ensures
        final(out)@ == old(out)@ + table_line(a@, b@, c@, d@),
{
    push_padded(out, a, 4);
    out.append(" ");
    push_padded(out, b, 42);
    out.append(" ");
    push_padded(out, c, 24);
    out.append(" ");
    push_padded(out, d, 12);
    out.append("\n");
    assert(out@ =~= old(out)@ + table_line(a@, b@, c@, d@));
}

fn label_of<'a>(primary: &'a Option<String>, fallback: &'a Option<String>) -> (r: &'a str)
    ensures
        r@ == match opt_view(*primary) {
            Some(g) => g,
            None => match opt_view(*fallback) {
                Some(g) => g,
                None => Seq::<char>::empty(),
            },
        },
{
    match as_deref(primary) {
        Some(g) => g,
        None => match as_deref(fallback) {
            Some(g) => g,
            None => {
                proof {
                    reveal_strlit("");
                }
                ""
            },
        },
    }
}

/// Renders a listing as text: a page line, a header row and one row per entry.
pub fn config_list_text(result: &ConfigListResult) -> (r: String)
    ensures
        r@ == spec_config_list_text(*result),
{
    if result.page_items.len() == 0 {
        return "no configs found\n".to_string();
    }
    let mut out = "page ".to_string();
    push_decimal(&mut out, result.page_number as u64);
    out.append(" / ");
    push_decimal(&mut out, result.pages_available as u64);
    out.append(", total ");
    push_decimal(&mut out, result.total_count as u64);
    out.append("\n");
    push_table_line(&mut out, "#", "DATA ID", "GROUP", "TYPE");
    let ghost head = out@;
    let mut i: usize = 0;
    while i < result.page_items.len()
        invariant
            i <= result.page_items@.len(),
            out@ == head + list_rows(result.page_items@, i as nat),
        decreases result.page_items.len() - i,
    {
        let item = &result.page_items[i];
        let mut index_text = String::new();
        push_decimal(&mut index_text, i as u64 + 1);
        let id = truncate(item.data_id.as_str(), 42);
        let group = truncate(label_of(&item.group_name, &item.group), 24);
        let kind = truncate(label_of(&item.config_type, &None), 12);
        push_table_line(&mut out, index_text.as_str(), id.as_str(), group.as_str(), kind.as_str());
        i = i + 1;
    }
    out
}

/// The text form of a login result.
pub open spec fn spec_login_result_text(config: RuntimeConfig, result: LoginResult) -> Seq<char> {
    "server: "@ + config.base_url@ + config.context_path@ + "\n"@ + "endpoint: "@
        + result.endpoint@ + "\n"@ + "accessToken: "@ + result.access_token@ + "\n"@
        + match result.token_ttl {
        Some(ttl) => "tokenTtl: "@ + decimal(ttl as nat) + "\n"@,
        None => Seq::empty(),
    }
}

/// Renders a login result as text.
pub fn login_result_text(config: &RuntimeConfig, result: &LoginResult) -> (r: String)
    ensures
        r@ == spec_login_result_text(*config, *result),
{
    let mut out = "server: ".to_string();
    out.append(config.base_url.as_str());
    out.append(config.context_path.as_str());
    out.append("\n");
    out.append("endpoint: ");
    out.append(result.endpoint.as_str());
    out.append("\n");
    out.append("accessToken: ");
    out.append(result.access_token.as_str());
    out.append("\n");
    if let Some(ttl) = result.token_ttl {
        out.append("tokenTtl: ");
        push_decimal(&mut out, ttl);
        out.append("\n");
    }
    assert(out@ =~= spec_login_result_text(*config, *result));
    out
}

/// The text form of a fetched entry: its content as it is, or a line saying
/// that there is none.
pub open spec fn spec_config_get_text(result: Option<ConfigGetResult>) -> Seq<char> {
    match result {
        Some(r) => r.content@,
        None => "config not found\n"@,
    }
}

/// Renders a fetched entry as text.
pub fn config_get_text(result: &Option<ConfigGetResult>) -> (r: String)
    ensures
        r@ == spec_config_get_text(*result),
{
    match result {
        Some(r) => r.content.clone(),
        None => "config not found\n".to_string(),
    }
}


/// What the JSON form of a fetch reports: the target, the entry asked for,
/// whether it was found, and its content.
pub struct ConfigGetReport {
    pub server: String,
    pub context_path: String,
    pub namespace: String,
    pub data_id: String,
    pub group: String,
    pub found: bool,
    pub content: Option<String>,
}

/// Builds the JSON form of a fetch.
pub fn config_get_report(
    config: &RuntimeConfig,
    data_id: &str,
    group: &str,
    result: &Option<ConfigGetResult>,
) -> (r: ConfigGetReport)
    ensures
        r.server@ == config.base_url@,
        r.context_path@ == config.context_path@,
        r.namespace@ == config.namespace@,
        r.data_id@ == data_id@,
        r.group@ == group@,
        r.found == result is Some,
        opt_view(r.content) == match result {
            Some(c) => Some(c.content@),
            None => None,
        },
{
    ConfigGetReport {
        server: config.base_url.clone(),
        context_path: config.context_path.clone(),
        namespace: config.namespace.clone(),
        data_id: data_id.to_string(),
        group: group.to_string(),
        found: result.is_some(),
        content: match result {
            Some(c) => Some(c.content.clone()),
            None => None,
        },
    }
}

} // verus!
