use vstd::prelude::*;
use crate::config::{default_settings, string_texts, ConfigModel, ServerConfig};
use crate::error::ServerError;
use crate::text::{decimal, digit_char, push_char, push_decimal};

verus! {

// The settings file is a small subset of TOML, read line by line. A line
// is blank (spaces and tabs, then nothing or a `#` comment), a table
// header `[name]`, or a setting `key = value`, each optionally followed by
// a comment. A value is a basic string without escapes (`"..."`), an
// unsigned integer (digits, with single `_` between digits), `true` or
// `false`, or a one-line list of strings. Keys before any header and keys
// under `[server]` set the server's own settings; keys and tables that the
// server does not know are skipped, as long as their lines are well-formed.

/// A value written in the settings file.
pub enum SettingValue {
    Text(Seq<char>),
    Integer(nat),
    Flag(bool),
    TextList(Seq<Seq<char>>),
}

/// What one line of the settings file holds.
pub enum SettingLine {
    Blank,
    Table(Seq<char>),
    Setting(Seq<char>, SettingValue),
}

pub open spec fn is_space(c: char) -> bool {
    c == ' ' || c == '\t'
}

pub open spec fn is_digit(c: char) -> bool {
    '0' <= c && c <= '9'
}

pub open spec fn is_key_char(c: char) -> bool {
    ('a' <= c && c <= 'z') || ('A' <= c && c <= 'Z') || is_digit(c) || c == '_' || c == '-'
}

/// The first position at or after `i`, and before `e`, that holds no space.
pub open spec fn skip_spaces(s: Seq<char>, i: int, e: int) -> int
    decreases e - i,
{
    if i < e && is_space(s[i]) {
        skip_spaces(s, i + 1, e)
    } else {
        i
    }
}

/// The end of the run of key characters that starts at `i`.
pub open spec fn key_end(s: Seq<char>, i: int, e: int) -> int
    decreases e - i,
{
    if i < e && is_key_char(s[i]) {
        key_end(s, i + 1, e)
    } else {
        i
    }
}

/// The end of the run of digits and underscores that starts at `i`.
pub open spec fn number_end(s: Seq<char>, i: int, e: int) -> int
    decreases e - i,
{
    if i < e && (is_digit(s[i]) || s[i] == '_') {
        number_end(s, i + 1, e)
    } else {
        i
    }
}

/// The position of the quote that closes a string whose text starts at
/// `i`; `None` where a backslash or the end of the line comes first.
pub open spec fn quote_end(s: Seq<char>, i: int, e: int) -> Option<int>
    decreases e - i,
{
    if i >= e {
        None
    } else if s[i] == '"' {
        Some(i)
    } else if s[i] == '\\' {
        None
    } else {
        quote_end(s, i + 1, e)
    }
}

/// The end of the line that starts at `i`: the next line feed, or the end.
pub open spec fn line_end(s: Seq<char>, i: int) -> int
    decreases s.len() - i,
{
    if 0 <= i < s.len() && s[i] != '\n' {
        line_end(s, i + 1)
    } else {
        i
    }
}

/// The end of a line's content: its end, less a carriage return before it.
pub open spec fn content_end(s: Seq<char>, i: int, e: int) -> int {
    if e > i && s[e - 1] == '\r' {
        e - 1
    } else {
        e
    }
}

/// Where the line after the one that starts at `i` starts.
pub open spec fn next_line(s: Seq<char>, i: int) -> int {
    let e = line_end(s, i);
    if e < s.len() {
        e + 1
    } else {
        e
    }
}

/// The value of the digits in `s[i..q]`, underscores skipped.
pub open spec fn digits_value(s: Seq<char>, i: int, q: int) -> nat
    decreases q - i,
{
    if q <= i {
        0
    } else if s[q - 1] == '_' {
        digits_value(s, i, q - 1)
    } else {
        digits_value(s, i, q - 1) * 10 + (s[q - 1] as int - 48) as nat
    }
}

/// Every underscore in `s[i..q]` stands between two digits.
pub open spec fn underscores_between_digits(s: Seq<char>, i: int, q: int) -> bool {
    forall|k: int| i <= k < q && #[trigger] s[k] == '_' ==> i < k && k + 1 < q && is_digit(s[k + 1])
}

/// `s[i..i+4]` spells `true`.
pub open spec fn true_at(s: Seq<char>, i: int, e: int) -> bool {
    i + 4 <= e && s[i] == 't' && s[i + 1] == 'r' && s[i + 2] == 'u' && s[i + 3] == 'e'
}

/// `s[i..i+5]` spells `false`.
pub open spec fn false_at(s: Seq<char>, i: int, e: int) -> bool {
    i + 5 <= e && s[i] == 'f' && s[i + 1] == 'a' && s[i + 2] == 'l' && s[i + 3] == 's' && s[i + 4] == 'e'
}

pub proof fn lemma_skip_spaces(s: Seq<char>, i: int, e: int)
    ensures
        i <= skip_spaces(s, i, e),
        i <= e ==> skip_spaces(s, i, e) <= e,
        skip_spaces(s, i, e) < e ==> !is_space(s[skip_spaces(s, i, e)]),
    decreases e - i,
{
    if i < e && is_space(s[i]) {
        lemma_skip_spaces(s, i + 1, e);
    }
}

pub proof fn lemma_key_end(s: Seq<char>, i: int, e: int)
    ensures
        i <= key_end(s, i, e),
        i <= e ==> key_end(s, i, e) <= e,
    decreases e - i,
{
    if i < e && is_key_char(s[i]) {
        lemma_key_end(s, i + 1, e);
    }
}

pub proof fn lemma_number_end(s: Seq<char>, i: int, e: int)
    ensures
        i <= number_end(s, i, e),
        i <= e ==> number_end(s, i, e) <= e,
        forall|k: int| i <= k < number_end(s, i, e) ==> is_digit(#[trigger] s[k]) || s[k] == '_',
    decreases e - i,
{
    if i < e && (is_digit(s[i]) || s[i] == '_') {
        lemma_number_end(s, i + 1, e);
    }
}

pub proof fn lemma_quote_end(s: Seq<char>, i: int, e: int)
    ensures
        quote_end(s, i, e) matches Some(q) ==> i <= q < e && s[q] == '"',
    decreases e - i,
{
    if i < e && s[i] != '"' && s[i] != '\\' {
        lemma_quote_end(s, i + 1, e);
    }
}

pub proof fn lemma_line_end(s: Seq<char>, i: int)
    requires
        0 <= i <= s.len(),
    ensures
        i <= line_end(s, i) <= s.len(),
        forall|k: int| i <= k < line_end(s, i) ==> #[trigger] s[k] != '\n',
        line_end(s, i) < s.len() ==> s[line_end(s, i)] == '\n',
    decreases s.len() - i,
{
    if i < s.len() && s[i] != '\n' {
        lemma_line_end(s, i + 1);
    }
}

/// The strings of a one-line list whose remaining items start at `i`,
/// after the items `acc` already read, with the position after the
/// closing bracket.
pub open spec fn list_items(s: Seq<char>, i: int, e: int, acc: Seq<Seq<char>>) -> Option<(Seq<Seq<char>>, int)>
    decreases e - i,
{
    let j = skip_spaces(s, i, e);
    if j >= e {
        None
    } else if s[j] == ']' {
        Some((acc, j + 1))
    } else if s[j] == '"' {
        match quote_end(s, j + 1, e) {
            None => None,
            Some(q) => {
                let k = skip_spaces(s, q + 1, e);
                let item = s.subrange(j + 1, q);
                if k < e && s[k] == ',' {
                    proof {
                        lemma_skip_spaces(s, i, e);
                        lemma_quote_end(s, j + 1, e);
                        lemma_skip_spaces(s, q + 1, e);
                    }
                    list_items(s, k + 1, e, acc.push(item))
                } else if k < e && s[k] == ']' {
                    Some((acc.push(item), k + 1))
                } else {
                    None
                }
            },
        }
    } else {
        None
    }
}

/// The value written at `i`, with the position after it.
pub open spec fn parse_value(s: Seq<char>, i: int, e: int) -> Option<(SettingValue, int)> {
    if i >= e {
        None
    } else if s[i] == '"' {
        match quote_end(s, i + 1, e) {
            Some(q) => Some((SettingValue::Text(s.subrange(i + 1, q)), q + 1)),
            None => None,
        }
    } else if is_digit(s[i]) {
        let q = number_end(s, i, e);
        if underscores_between_digits(s, i, q) && digits_value(s, i, q) <= u64::MAX {
            Some((SettingValue::Integer(digits_value(s, i, q)), q))
        } else {
            None
        }
    } else if s[i] == '[' {
        match list_items(s, i + 1, e, Seq::empty()) {
            Some((items, p)) => Some((SettingValue::TextList(items), p)),
            None => None,
        }
    } else if true_at(s, i, e) {
        Some((SettingValue::Flag(true), i + 4))
    } else if false_at(s, i, e) {
        Some((SettingValue::Flag(false), i + 5))
    } else {
        None
    }
}

/// Nothing but spaces and perhaps a comment follows position `p`.
pub open spec fn rest_blank(s: Seq<char>, p: int, e: int) -> bool {
    let q = skip_spaces(s, p, e);
    q >= e || s[q] == '#'
}

/// What the line content `s[i..e]` holds; `None` where it is malformed.
pub open spec fn parse_line(s: Seq<char>, i: int, e: int) -> Option<SettingLine> {
    let j = skip_spaces(s, i, e);
    if j >= e || s[j] == '#' {
        Some(SettingLine::Blank)
    } else if s[j] == '[' {
        let k0 = skip_spaces(s, j + 1, e);
        let k1 = key_end(s, k0, e);
        let k2 = skip_spaces(s, k1, e);
        if k1 > k0 && k2 < e && s[k2] == ']' && rest_blank(s, k2 + 1, e) {
            Some(SettingLine::Table(s.subrange(k0, k1)))
        } else {
            None
        }
    } else {
        let k1 = key_end(s, j, e);
        let k2 = skip_spaces(s, k1, e);
        if k1 > j && k2 < e && s[k2] == '=' {
            match parse_value(s, skip_spaces(s, k2 + 1, e), e) {
                Some((v, p)) => if rest_blank(s, p, e) {
                    Some(SettingLine::Setting(s.subrange(j, k1), v))
                } else {
                    None
                },
                None => None,
            }
        } else {
            None
        }
    }
}

/// The settings `c` after the setting `key = v` under the table `table`;
/// `None` where the value does not suit the key. Keys the server does not
/// know leave the settings as they are.
pub open spec fn apply_setting(table: Seq<char>, key: Seq<char>, v: SettingValue, c: ConfigModel) -> Option<ConfigModel> {
    let server = table == ""@ || table == "server"@;
    if server && key == "host"@ {
        match v {
            SettingValue::Text(t) => Some(ConfigModel { host: t, ..c }),
            _ => None,
        }
    } else if server && key == "port"@ {
        match v {
            SettingValue::Integer(n) => if n <= 65535 {
                Some(ConfigModel { port: n as u16, ..c })
            } else {
                None
            },
            _ => None,
        }
    } else if table == "provider"@ && key == "kind"@ {
        match v {
            SettingValue::Text(t) => Some(ConfigModel { provider_kind: t, ..c }),
            _ => None,
        }
    } else if table == "provider"@ && key == "base_url"@ {
        match v {
            SettingValue::Text(t) => Some(ConfigModel { base_url: t, ..c }),
            _ => None,
        }
    } else if table == "provider"@ && key == "model"@ {
        match v {
            SettingValue::Text(t) => Some(ConfigModel { model: t, ..c }),
            _ => None,
        }
    } else if table == "provider"@ && key == "api_key_env"@ {
        match v {
            SettingValue::Text(t) => Some(ConfigModel { api_key_env: t, ..c }),
            _ => None,
        }
    } else if table == "tools"@ && key == "default_timeout_ms"@ {
        match v {
            SettingValue::Integer(n) => Some(ConfigModel { default_timeout_ms: n as u64, ..c }),
            _ => None,
        }
    } else if table == "tools"@ && key == "bash_timeout_ms"@ {
        match v {
            SettingValue::Integer(n) => Some(ConfigModel { bash_timeout_ms: n as u64, ..c }),
            _ => None,
        }
    } else if table == "tools"@ && key == "delegate_timeout_ms"@ {
        match v {
            SettingValue::Integer(n) => Some(ConfigModel { delegate_timeout_ms: n as u64, ..c }),
            _ => None,
        }
    } else if table == "tools"@ && key == "subagent_max_parallel"@ {
        match v {
            SettingValue::Integer(n) => if n <= u32::MAX {
                Some(ConfigModel { subagent_max_parallel: n as u32, ..c })
            } else {
                None
            },
            _ => None,
        }
    } else if table == "tools"@ && key == "always_approve_hosts"@ {
        match v {
            SettingValue::TextList(l) => Some(ConfigModel { always_approve_hosts: l, ..c }),
            _ => None,
        }
    } else if table == "data_dir"@ && key == "root"@ {
        match v {
            SettingValue::Text(t) => Some(ConfigModel { data_root: t, ..c }),
            _ => None,
        }
    } else if table == "logs"@ && key == "dir"@ {
        match v {
            SettingValue::Text(t) => Some(ConfigModel { logs_dir: t, ..c }),
            _ => None,
        }
    } else if table == "logs"@ && key == "level"@ {
        match v {
            SettingValue::Text(t) => Some(ConfigModel { log_level: t, ..c }),
            _ => None,
        }
    } else {
        Some(c)
    }
}

/// The settings read from the lines of `s` that start at `i`, the first of
/// them being line number `line`, under the table `table`, over the
/// settings `c`; or the number of the first malformed line.
pub open spec fn settings_from(s: Seq<char>, i: int, line: nat, table: Seq<char>, c: ConfigModel) -> Result<ConfigModel, nat>
    decreases s.len() - i,
{
    if i < 0 || i >= s.len() {
        Ok(c)
    } else {
        let e = line_end(s, i);
        proof {
            lemma_line_end(s, i);
        }
        match parse_line(s, i, content_end(s, i, e)) {
            None => Err(line),
            Some(SettingLine::Blank) => settings_from(s, next_line(s, i), line + 1, table, c),
            Some(SettingLine::Table(t)) => settings_from(s, next_line(s, i), line + 1, t, c),
            Some(SettingLine::Setting(k, v)) => match apply_setting(table, k, v, c) {
                None => Err(line),
                Some(c2) => settings_from(s, next_line(s, i), line + 1, table, c2),
            },
        }
    }
}

/// The settings that the text of a settings file gives, over the defaults;
/// or the number of its first malformed line.
pub open spec fn settings_of_text(text: Seq<char>) -> Result<ConfigModel, nat> {
    settings_from(text, 0, 1, ""@, default_settings())
}

/// The message of the error for a malformed line.
pub open spec fn bad_line_text(line: nat) -> Seq<char> {
    "invalid setting at line "@ + decimal(line)
}

/// Each setting the server knows sets exactly its own field, to the value
/// written, and leaves every other setting as it was: `host` and `port`
/// (at the top or under `[server]`), `[provider] kind`, `base_url`,
/// `model`, `api_key_env`, `[tools] default_timeout_ms`,
/// `bash_timeout_ms`, `delegate_timeout_ms`, `subagent_max_parallel`,
/// `always_approve_hosts`, `[data_dir] root`, `[logs] dir` and `level`.
pub proof fn law_known_settings(c: ConfigModel, t: Seq<char>, n: nat, l: Seq<Seq<char>>)
    requires
        n <= u64::MAX,
    ensures
        apply_setting(""@, "host"@, SettingValue::Text(t), c) == Some(ConfigModel { host: t, ..c }),
        apply_setting("server"@, "host"@, SettingValue::Text(t), c) == Some(ConfigModel { host: t, ..c }),
        n <= 65535 ==> apply_setting(""@, "port"@, SettingValue::Integer(n), c) == Some(
            ConfigModel { port: n as u16, ..c },
        ),
        n <= 65535 ==> apply_setting("server"@, "port"@, SettingValue::Integer(n), c) == Some(
            ConfigModel { port: n as u16, ..c },
        ),
        n > 65535 ==> apply_setting(""@, "port"@, SettingValue::Integer(n), c) is None,
        apply_setting("provider"@, "kind"@, SettingValue::Text(t), c) == Some(ConfigModel { provider_kind: t, ..c }),
        apply_setting("provider"@, "base_url"@, SettingValue::Text(t), c) == Some(ConfigModel { base_url: t, ..c }),
        apply_setting("provider"@, "model"@, SettingValue::Text(t), c) == Some(ConfigModel { model: t, ..c }),
        apply_setting("provider"@, "api_key_env"@, SettingValue::Text(t), c) == Some(
            ConfigModel { api_key_env: t, ..c },
        ),
        apply_setting("tools"@, "default_timeout_ms"@, SettingValue::Integer(n), c) == Some(
            ConfigModel { default_timeout_ms: n as u64, ..c },
        ),
        apply_setting("tools"@, "bash_timeout_ms"@, SettingValue::Integer(n), c) == Some(
            ConfigModel { bash_timeout_ms: n as u64, ..c },
        ),
        apply_setting("tools"@, "delegate_timeout_ms"@, SettingValue::Integer(n), c) == Some(
            ConfigModel { delegate_timeout_ms: n as u64, ..c },
        ),
        n <= u32::MAX ==> apply_setting("tools"@, "subagent_max_parallel"@, SettingValue::Integer(n), c) == Some(
            ConfigModel { subagent_max_parallel: n as u32, ..c },
        ),
        n > u32::MAX ==> apply_setting("tools"@, "subagent_max_parallel"@, SettingValue::Integer(n), c) is None,
        apply_setting("tools"@, "always_approve_hosts"@, SettingValue::TextList(l), c) == Some(
            ConfigModel { always_approve_hosts: l, ..c },
        ),
        apply_setting("data_dir"@, "root"@, SettingValue::Text(t), c) == Some(ConfigModel { data_root: t, ..c }),
        apply_setting("logs"@, "dir"@, SettingValue::Text(t), c) == Some(ConfigModel { logs_dir: t, ..c }),
        apply_setting("logs"@, "level"@, SettingValue::Text(t), c) == Some(ConfigModel { log_level: t, ..c }),
        apply_setting("tools"@, "default_timeout_ms"@, SettingValue::Text(t), c) is None,
        apply_setting(""@, "host"@, SettingValue::Integer(n), c) is None,
{
    reveal_strlit("");
    reveal_strlit("server");
    reveal_strlit("provider");
    reveal_strlit("tools");
    reveal_strlit("data_dir");
    reveal_strlit("logs");
    reveal_strlit("host");
    reveal_strlit("port");
    reveal_strlit("kind");
    reveal_strlit("base_url");
    reveal_strlit("model");
    reveal_strlit("api_key_env");
    reveal_strlit("default_timeout_ms");
    reveal_strlit("bash_timeout_ms");
    reveal_strlit("delegate_timeout_ms");
    reveal_strlit("subagent_max_parallel");
    reveal_strlit("always_approve_hosts");
    reveal_strlit("root");
    reveal_strlit("dir");
    reveal_strlit("level");
    assert(""@.len() == 0 && "server"@.len() == 6 && "provider"@.len() == 8 && "tools"@.len() == 5);
    assert("data_dir"@.len() == 8 && "logs"@.len() == 4);
    assert("provider"@[0] != "data_dir"@[0]);
    assert("host"@.len() == 4 && "port"@.len() == 4 && "host"@[0] != "port"@[0]);
    assert("kind"@.len() == 4 && "base_url"@.len() == 8 && "model"@.len() == 5 && "api_key_env"@.len() == 11);
    assert("default_timeout_ms"@.len() == 18 && "bash_timeout_ms"@.len() == 15);
    assert("delegate_timeout_ms"@.len() == 19 && "subagent_max_parallel"@.len() == 21);
    assert("always_approve_hosts"@.len() == 20);
    assert("root"@.len() == 4 && "dir"@.len() == 3 && "level"@.len() == 5);
}

/// A run of spaces from `i` to `j`, then no space, is skipped to `j`.
pub proof fn lemma_skip_spaces_run(s: Seq<char>, i: int, j: int, e: int)
    requires
        i <= j <= e,
        forall|k: int| i <= k < j ==> is_space(#[trigger] s[k]),
        j == e || !is_space(s[j]),
    ensures
        skip_spaces(s, i, e) == j,
    decreases j - i,
{
    if i < j {
        lemma_skip_spaces_run(s, i + 1, j, e);
    }
}

/// A run of key characters from `i` to `j`, then none, ends at `j`.
pub proof fn lemma_key_end_run(s: Seq<char>, i: int, j: int, e: int)
    requires
        i <= j <= e,
        forall|k: int| i <= k < j ==> is_key_char(#[trigger] s[k]),
        j == e || !is_key_char(s[j]),
    ensures
        key_end(s, i, e) == j,
    decreases j - i,
{
    if i < j {
        lemma_key_end_run(s, i + 1, j, e);
    }
}

/// A run of digits from `i` to the end `e` is a number ending at `e`.
pub proof fn lemma_number_end_run(s: Seq<char>, i: int, e: int)
    requires
        i <= e,
        forall|k: int| i <= k < e ==> is_digit(#[trigger] s[k]),
    ensures
        number_end(s, i, e) == e,
    decreases e - i,
{
    if i < e {
        lemma_number_end_run(s, i + 1, e);
    }
}

/// A stretch without line feeds from `i` to `j`, then a line feed or the
/// end, is one line ending at `j`.
pub proof fn lemma_line_end_run(s: Seq<char>, i: int, j: int)
    requires
        0 <= i <= j <= s.len(),
        forall|k: int| i <= k < j ==> #[trigger] s[k] != '\n',
        j == s.len() || s[j] == '\n',
    ensures
        line_end(s, i) == j,
    decreases j - i,
{
    if i < j {
        lemma_line_end_run(s, i + 1, j);
    }
}

/// The value of a run of digits depends on those digits alone.
pub proof fn lemma_digits_value_same(s1: Seq<char>, i1: int, s2: Seq<char>, i2: int, len: int)
    requires
        0 <= len,
        forall|k: int| i1 <= k < i1 + len ==> #[trigger] s1[k] == s2[k - i1 + i2],
    ensures
        digits_value(s1, i1, i1 + len) == digits_value(s2, i2, i2 + len),
    decreases len,
{
    if len > 0 {
        lemma_digits_value_same(s1, i1, s2, i2, len - 1);
        assert(s1[i1 + len - 1] == s2[i1 + len - 1 - i1 + i2]);
    }
}

/// The decimal text of `n` is a non-empty run of digits worth `n`.
pub proof fn lemma_decimal_digits(n: nat)
    ensures
        decimal(n).len() >= 1,
        forall|k: int| 0 <= k < decimal(n).len() ==> is_digit(#[trigger] decimal(n)[k]),
        digits_value(decimal(n), 0, decimal(n).len() as int) == n,
    decreases n,
{
    if n >= 10 {
        lemma_decimal_digits(n / 10);
        let p = decimal(n / 10);
        let d = decimal(n);
        assert(d == p.push(digit_char(n % 10)));
        assert forall|k: int| 0 <= k < d.len() implies is_digit(#[trigger] d[k]) by {
            if k < p.len() {
                assert(d[k] == p[k]);
            }
        }
        lemma_digits_value_same(d, 0, p, 0, p.len() as int);
        assert(d[d.len() - 1] == digit_char(n % 10));
        assert((digit_char(n % 10) as int - 48) == n % 10);
        assert(digits_value(d, 0, d.len() as int) == digits_value(d, 0, d.len() - 1) * 10 + (n % 10));
    } else {
        assert((digit_char(n) as int - 48) == n);
        assert(decimal(n) == seq![digit_char(n)]);
        assert(digits_value(decimal(n), 0, 0) == 0);
    }
}

/// The text of a settings file made of a table header `[table]` and one
/// line `key = N`, the number written in decimal.
pub open spec fn integer_setting_file(table: Seq<char>, key: Seq<char>, n: nat) -> Seq<char> {
    seq!['['] + table + seq![']', '\n'] + key + seq![' ', '=', ' '] + decimal(n)
}

/// A file that sets one integer under one table gives what applying that
/// setting to the defaults gives: the number is read as written, and a
/// value that does not suit its key is refused at the setting's line.
pub proof fn law_integer_setting_file(table: Seq<char>, key: Seq<char>, n: nat)
    requires
        table.len() >= 1,
        key.len() >= 1,
        forall|k: int| 0 <= k < table.len() ==> is_key_char(#[trigger] table[k]),
        forall|k: int| 0 <= k < key.len() ==> is_key_char(#[trigger] key[k]),
        n <= u64::MAX,
    ensures
        settings_of_text(integer_setting_file(table, key, n)) == match apply_setting(
            table,
            key,
            SettingValue::Integer(n),
            default_settings(),
        ) {
            Some(c) => Ok::<ConfigModel, nat>(c),
            None => Err(2),
        },
{
    let s = integer_setting_file(table, key, n);
    let tl = table.len() as int;
    let kl = key.len() as int;
    let d = decimal(n);
    lemma_decimal_digits(n);
    let dl = d.len() as int;
    let l1 = tl + 2;
    let i2 = l1 + 1;
    let k1 = i2 + kl;
    let v0 = k1 + 3;
    assert(s.len() == v0 + dl);
    assert(s[0] == '[');
    assert forall|k: int| 0 <= k < tl implies s[1 + k] == table[k] by {}
    assert(s[1 + tl] == ']');
    assert(s[l1] == '\n');
    assert forall|k: int| 0 <= k < kl implies s[i2 + k] == key[k] by {}
    assert(s[k1] == ' ' && s[k1 + 1] == '=' && s[k1 + 2] == ' ');
    assert forall|k: int| 0 <= k < dl implies s[v0 + k] == d[k] by {}
    // The header line.
    assert forall|k: int| 0 <= k < l1 implies #[trigger] s[k] != '\n' by {
        if 1 <= k < 1 + tl {
            assert(s[k] == table[k - 1]);
        }
    }
    lemma_line_end_run(s, 0, l1);
    lemma_skip_spaces_run(s, 0, 0, l1);
    assert(is_key_char(table[0]));
    assert(s[1] == table[0]);
    lemma_skip_spaces_run(s, 1, 1, l1);
    assert forall|k: int| 1 <= k < 1 + tl implies is_key_char(#[trigger] s[k]) by {
        assert(s[k] == table[k - 1]);
    }
    lemma_key_end_run(s, 1, 1 + tl, l1);
    lemma_skip_spaces_run(s, 1 + tl, 1 + tl, l1);
    lemma_skip_spaces_run(s, l1, l1, l1);
    assert(s.subrange(1, 1 + tl) =~= table);
    assert(parse_line(s, 0, content_end(s, 0, l1)) == Some(SettingLine::Table(table)));
    assert(next_line(s, 0) == i2);
    // The setting line.
    assert forall|k: int| i2 <= k < s.len() implies #[trigger] s[k] != '\n' by {
        if i2 <= k < k1 {
            assert(s[k] == key[k - i2]);
        } else if v0 <= k {
            assert(s[k] == d[k - v0]);
        }
    }
    lemma_line_end_run(s, i2, s.len() as int);
    let e = s.len() as int;
    assert(s[e - 1] == d[dl - 1]);
    assert(content_end(s, i2, e) == e);
    assert(s[i2] == key[0]);
    lemma_skip_spaces_run(s, i2, i2, e);
    assert forall|k: int| i2 <= k < k1 implies is_key_char(#[trigger] s[k]) by {
        assert(s[k] == key[k - i2]);
    }
    lemma_key_end_run(s, i2, k1, e);
    assert forall|k: int| k1 <= k < k1 + 1 implies is_space(#[trigger] s[k]) by {}
    lemma_skip_spaces_run(s, k1, k1 + 1, e);
    assert forall|k: int| k1 + 2 <= k < v0 implies is_space(#[trigger] s[k]) by {}
    assert(s[v0] == d[0]);
    lemma_skip_spaces_run(s, k1 + 2, v0, e);
    assert forall|k: int| v0 <= k < e implies is_digit(#[trigger] s[k]) by {
        assert(s[k] == d[k - v0]);
    }
    lemma_number_end_run(s, v0, e);
    assert(underscores_between_digits(s, v0, e)) by {
        assert forall|k: int| v0 <= k < e && #[trigger] s[k] == '_' implies v0 < k && k + 1 < e && is_digit(s[k + 1]) by {
            assert(is_digit(s[k]));
        }
    }
    lemma_digits_value_same(s, v0, d, 0, dl);
    assert(parse_value(s, v0, e) == Some((SettingValue::Integer(n), e)));
    lemma_skip_spaces_run(s, e, e, e);
    assert(s.subrange(i2, k1) =~= key);
    assert(parse_line(s, i2, e) == Some(SettingLine::Setting(key, SettingValue::Integer(n))));
    assert(next_line(s, i2) == e);
    let c0 = default_settings();
    match apply_setting(table, key, SettingValue::Integer(n), c0) {
        Some(c) => {
            assert(settings_from(s, e, 3, table, c) == Ok::<ConfigModel, nat>(c));
            assert(settings_from(s, i2, 2, table, c0) == Ok::<ConfigModel, nat>(c));
        },
        None => {
            assert(settings_from(s, i2, 2, table, c0) == Err::<ConfigModel, nat>(2));
        },
    }
    assert(settings_from(s, 0, 1, ""@, c0) == settings_from(s, i2, 2, table, c0));
}

/// A stretch without quotes or backslashes from `i` to `j`, then a quote,
/// closes at `j`.
pub proof fn lemma_quote_end_run(s: Seq<char>, i: int, j: int, e: int)
    requires
        i <= j < e,
        forall|k: int| i <= k < j ==> #[trigger] s[k] != '"' && s[k] != '\\',
        s[j] == '"',
    ensures
        quote_end(s, i, e) == Some(j),
    decreases j - i,
{
    if i < j {
        lemma_quote_end_run(s, i + 1, j, e);
    }
}

/// The text of a settings file made of a table header `[table]` and one
/// line `key = "text"`.
pub open spec fn text_setting_file(table: Seq<char>, key: Seq<char>, text: Seq<char>) -> Seq<char> {
    seq!['['] + table + seq![']', '\n'] + key + seq![' ', '=', ' ', '"'] + text + seq!['"']
}

/// A file that sets one string under one table gives what applying that
/// setting to the defaults gives: the string is read as written, and a
/// value that does not suit its key is refused at the setting's line.
pub proof fn law_text_setting_file(table: Seq<char>, key: Seq<char>, text: Seq<char>)
    requires
        table.len() >= 1,
        key.len() >= 1,
        forall|k: int| 0 <= k < table.len() ==> is_key_char(#[trigger] table[k]),
        forall|k: int| 0 <= k < key.len() ==> is_key_char(#[trigger] key[k]),
        forall|k: int| 0 <= k < text.len() ==> #[trigger] text[k] != '"' && text[k] != '\\' && text[k] != '\n',
    ensures
        settings_of_text(text_setting_file(table, key, text)) == match apply_setting(
            table,
            key,
            SettingValue::Text(text),
            default_settings(),
        ) {
            Some(c) => Ok::<ConfigModel, nat>(c),
            None => Err(2),
        },
{
    let s = text_setting_file(table, key, text);
    let tl = table.len() as int;
    let kl = key.len() as int;
    let xl = text.len() as int;
    let l1 = tl + 2;
    let i2 = l1 + 1;
    let k1 = i2 + kl;
    let v0 = k1 + 3;
    let e = v0 + xl + 2;
    assert(s.len() == e);
    assert(s[0] == '[');
    assert forall|k: int| 0 <= k < tl implies s[1 + k] == table[k] by {}
    assert(s[1 + tl] == ']');
    assert(s[l1] == '\n');
    assert forall|k: int| 0 <= k < kl implies s[i2 + k] == key[k] by {}
    assert(s[k1] == ' ' && s[k1 + 1] == '=' && s[k1 + 2] == ' ' && s[v0] == '"');
    assert forall|k: int| 0 <= k < xl implies s[v0 + 1 + k] == text[k] by {}
    assert(s[e - 1] == '"');
    // The header line.
    assert forall|k: int| 0 <= k < l1 implies #[trigger] s[k] != '\n' by {
        if 1 <= k < 1 + tl {
            assert(s[k] == table[k - 1]);
        }
    }
    lemma_line_end_run(s, 0, l1);
    lemma_skip_spaces_run(s, 0, 0, l1);
    assert(is_key_char(table[0]));
    assert(s[1] == table[0]);
    lemma_skip_spaces_run(s, 1, 1, l1);
    assert forall|k: int| 1 <= k < 1 + tl implies is_key_char(#[trigger] s[k]) by {
        assert(s[k] == table[k - 1]);
    }
    lemma_key_end_run(s, 1, 1 + tl, l1);
    lemma_skip_spaces_run(s, 1 + tl, 1 + tl, l1);
    lemma_skip_spaces_run(s, l1, l1, l1);
    assert(s.subrange(1, 1 + tl) =~= table);
    assert(parse_line(s, 0, content_end(s, 0, l1)) == Some(SettingLine::Table(table)));
    assert(next_line(s, 0) == i2);
    // The setting line.
    assert forall|k: int| i2 <= k < e implies #[trigger] s[k] != '\n' by {
        if i2 <= k < k1 {
            assert(s[k] == key[k - i2]);
        } else if v0 + 1 <= k < e - 1 {
            assert(s[k] == text[k - v0 - 1]);
        }
    }
    lemma_line_end_run(s, i2, e);
    assert(content_end(s, i2, e) == e);
    assert(s[i2] == key[0]);
    lemma_skip_spaces_run(s, i2, i2, e);
    assert forall|k: int| i2 <= k < k1 implies is_key_char(#[trigger] s[k]) by {
        assert(s[k] == key[k - i2]);
    }
    lemma_key_end_run(s, i2, k1, e);
    assert forall|k: int| k1 <= k < k1 + 1 implies is_space(#[trigger] s[k]) by {}
    lemma_skip_spaces_run(s, k1, k1 + 1, e);
    assert forall|k: int| k1 + 2 <= k < v0 implies is_space(#[trigger] s[k]) by {}
    lemma_skip_spaces_run(s, k1 + 2, v0, e);
    assert forall|k: int| v0 + 1 <= k < e - 1 implies #[trigger] s[k] != '"' && s[k] != '\\' by {
        assert(s[k] == text[k - v0 - 1]);
    }
    lemma_quote_end_run(s, v0 + 1, e - 1, e);
    assert(s.subrange(v0 + 1, e - 1) =~= text);
    assert(parse_value(s, v0, e) == Some((SettingValue::Text(text), e)));
    lemma_skip_spaces_run(s, e, e, e);
    assert(s.subrange(i2, k1) =~= key);
    assert(parse_line(s, i2, e) == Some(SettingLine::Setting(key, SettingValue::Text(text))));
    assert(next_line(s, i2) == e);
    let c0 = default_settings();
    match apply_setting(table, key, SettingValue::Text(text), c0) {
        Some(c) => {
            assert(settings_from(s, e, 3, table, c) == Ok::<ConfigModel, nat>(c));
            assert(settings_from(s, i2, 2, table, c0) == Ok::<ConfigModel, nat>(c));
        },
        None => {
            assert(settings_from(s, i2, 2, table, c0) == Err::<ConfigModel, nat>(2));
        },
    }
    assert(settings_from(s, 0, 1, ""@, c0) == settings_from(s, i2, 2, table, c0));
}

/// A file that sets `[tools] default_timeout_ms` to any number sets that
/// timeout, and every other setting keeps its default.
pub proof fn law_timeout_setting_file(n: nat)
    requires
        n <= u64::MAX,
    ensures
        settings_of_text(integer_setting_file("tools"@, "default_timeout_ms"@, n)) == Ok::<ConfigModel, nat>(
            ConfigModel { default_timeout_ms: n as u64, ..default_settings() },
        ),
{
    reveal_strlit("tools");
    reveal_strlit("default_timeout_ms");
    assert forall|k: int| 0 <= k < "tools"@.len() implies is_key_char(#[trigger] "tools"@[k]) by {}
    assert forall|k: int| 0 <= k < "default_timeout_ms"@.len() implies is_key_char(
        #[trigger] "default_timeout_ms"@[k],
    ) by {}
    law_integer_setting_file("tools"@, "default_timeout_ms"@, n);
    law_known_settings(default_settings(), Seq::empty(), n, Seq::empty());
}

/// A value read from the settings file.
enum SettingInput {
    Text(String),
    Integer(u64),
    Flag(bool),
    TextList(Vec<String>),
}

spec fn value_model(v: SettingInput) -> SettingValue {
    match v {
        SettingInput::Text(t) => SettingValue::Text(t@),
        SettingInput::Integer(n) => SettingValue::Integer(n as nat),
        SettingInput::Flag(b) => SettingValue::Flag(b),
        SettingInput::TextList(l) => SettingValue::TextList(string_texts(l@)),
    }
}

/// A line read from the settings file.
enum Line {
    Blank,
    Table(String),
    Setting(String, SettingInput),
}

spec fn line_model(l: Line) -> SettingLine {
    match l {
        Line::Blank => SettingLine::Blank,
        Line::Table(t) => SettingLine::Table(t@),
        Line::Setting(k, v) => SettingLine::Setting(k@, value_model(v)),
    }
}

/// The characters of `text`.
fn chars_of(text: &str) -> (r: Vec<char>)
    ensures
        r@ == text@,
{
    let n = text.unicode_len();
    let mut r: Vec<char> = Vec::new();
    let mut i: usize = 0;
    while i < n
        invariant
            n == text@.len(),
            i <= n,
            r@ == text@.subrange(0, i as int),
        decreases n - i,
    {
        r.push(text.get_char(i));
        i = i + 1;
        assert(r@ =~= text@.subrange(0, i as int));
    }
    assert(r@ =~= text@);
    r
}

fn space_at(s: &Vec<char>, i: usize) -> (r: bool)
    requires
        i < s@.len(),
    ensures
        r == is_space(s@[i as int]),
{
    s[i] == ' ' || s[i] == '\t'
}

fn digit_at(s: &Vec<char>, i: usize) -> (r: bool)
    requires
        i < s@.len(),
    ensures
        r == is_digit(s@[i as int]),
{
    '0' <= s[i] && s[i] <= '9'
}

fn key_char_at(s: &Vec<char>, i: usize) -> (r: bool)
    requires
        i < s@.len(),
    ensures
        r == is_key_char(s@[i as int]),
{
    let c = s[i];
    ('a' <= c && c <= 'z') || ('A' <= c && c <= 'Z') || ('0' <= c && c <= '9') || c == '_' || c == '-'
}

fn skip_spaces_at(s: &Vec<char>, i: usize, e: usize) -> (r: usize)
    requires
        i <= e <= s@.len(),
    ensures
        r == skip_spaces(s@, i as int, e as int),
        i <= r <= e,
{
    let mut j = i;
    while j < e && space_at(s, j)
        invariant
            i <= j <= e,
            e <= s@.len(),
            skip_spaces(s@, j as int, e as int) == skip_spaces(s@, i as int, e as int),
        decreases e - j,
    {
        j = j + 1;
    }
    j
}

fn key_end_at(s: &Vec<char>, i: usize, e: usize) -> (r: usize)
    requires
        i <= e <= s@.len(),
    ensures
        r == key_end(s@, i as int, e as int),
        i <= r <= e,
{
    let mut j = i;
    while j < e && key_char_at(s, j)
        invariant
            i <= j <= e,
            e <= s@.len(),
            key_end(s@, j as int, e as int) == key_end(s@, i as int, e as int),
        decreases e - j,
    {
        j = j + 1;
    }
    j
}

fn number_end_at(s: &Vec<char>, i: usize, e: usize) -> (r: usize)
    requires
        i <= e <= s@.len(),
    ensures
        r == number_end(s@, i as int, e as int),
        i <= r <= e,
{
    let mut j = i;
    while j < e && (digit_at(s, j) || s[j] == '_')
        invariant
            i <= j <= e,
            e <= s@.len(),
            number_end(s@, j as int, e as int) == number_end(s@, i as int, e as int),
        decreases e - j,
    {
        j = j + 1;
    }
    j
}

fn quote_end_at(s: &Vec<char>, i: usize, e: usize) -> (r: Option<usize>)
    requires
        i <= e <= s@.len(),
    ensures
        match r {
            Some(q) => quote_end(s@, i as int, e as int) == Some(q as int),
            None => quote_end(s@, i as int, e as int) is None,
        },
{
    let mut j = i;
    while j < e
        invariant
            i <= j <= e,
            e <= s@.len(),
            quote_end(s@, j as int, e as int) == quote_end(s@, i as int, e as int),
        decreases e - j,
    {
        if s[j] == '"' {
            return Some(j);
        }
        if s[j] == '\\' {
            return None;
        }
        j = j + 1;
    }
    None
}

fn line_end_at(s: &Vec<char>, i: usize) -> (r: usize)
    requires
        i <= s@.len(),
    ensures
        r == line_end(s@, i as int),
        i <= r <= s@.len(),
{
    let n = s.len();
    let mut j = i;
    while j < n && s[j] != '\n'
        invariant
            i <= j <= n,
            n == s@.len(),
            line_end(s@, j as int) == line_end(s@, i as int),
        decreases n - j,
    {
        j = j + 1;
    }
    j
}

/// The characters `s[a..b]` as a string.
fn text_between(s: &Vec<char>, a: usize, b: usize) -> (r: String)
    requires
        a <= b <= s@.len(),
    ensures
        r@ == s@.subrange(a as int, b as int),
{
    let mut r = String::new();
    let mut k = a;
    while k < b
        invariant
            a <= k <= b,
            b <= s@.len(),
            r@ == s@.subrange(a as int, k as int),
        decreases b - k,
    {
        push_char(&mut r, s[k]);
        assert(r@ =~= s@.subrange(a as int, k + 1));
        k = k + 1;
    }
    r
}

/// A longer run of digits is worth at least as much.
pub proof fn lemma_digits_grow(s: Seq<char>, i: int, k: int, q: int)
    requires
        i <= k <= q,
    ensures
        digits_value(s, i, k) <= digits_value(s, i, q),
    decreases q - k,
{
    if k < q {
        lemma_digits_grow(s, i, k, q - 1);
    }
}

/// Reads the integer written in `s[i..q]`, a run of digits and underscores
/// that starts with a digit.
fn number_value(s: &Vec<char>, i: usize, q: usize) -> (r: Option<u64>)
    requires
        i < q <= s@.len(),
        is_digit(s@[i as int]),
        forall|k: int| i <= k < q ==> is_digit(#[trigger] s@[k]) || s@[k] == '_',
    ensures
        match r {
            Some(v) => underscores_between_digits(s@, i as int, q as int) && v == digits_value(
                s@,
                i as int,
                q as int,
            ),
            None => !(underscores_between_digits(s@, i as int, q as int) && digits_value(
                s@,
                i as int,
                q as int,
            ) <= u64::MAX),
        },
{
    let mut v: u64 = 0;
    let mut k = i;
    while k < q
        invariant
            i <= k <= q,
            q <= s@.len(),
            is_digit(s@[i as int]),
            forall|j: int| i <= j < q ==> is_digit(#[trigger] s@[j]) || s@[j] == '_',
            v == digits_value(s@, i as int, k as int),
            forall|j: int|
                i <= j < k && #[trigger] s@[j] == '_' ==> i < j && j + 1 < q && is_digit(s@[j + 1]),
        decreases q - k,
    {
        if s[k] == '_' {
            if !(k + 1 < q && digit_at(s, k + 1)) {
                assert(!underscores_between_digits(s@, i as int, q as int)) by {
                    assert(s@[k as int] == '_');
                }
                return None;
            }
            assert(k > i);
            k = k + 1;
        } else {
            let d: u64 = (s[k] as u32 - 48u32) as u64;
            assert(d == (s@[k as int] as int - 48));
            if v > (u64::MAX - d) / 10 {
                proof {
                    assert(v * 10 + d > u64::MAX) by (nonlinear_arith)
                        requires
                            v > (u64::MAX - d) / 10,
                            d <= 9,
                    ;
                    assert(digits_value(s@, i as int, k + 1) == v * 10 + d);
                    lemma_digits_grow(s@, i as int, k + 1, q as int);
                }
                return None;
            }
            assert(v * 10 + d <= u64::MAX) by (nonlinear_arith)
                requires
                    v <= (u64::MAX - d) / 10,
                    d <= 9,
            ;
            v = v * 10 + d;
            k = k + 1;
        }
    }
    Some(v)
}

/// Reads the rest of a one-line list of strings whose items start at `i`.
fn list_items_at(s: &Vec<char>, i: usize, e: usize) -> (r: Option<(Vec<String>, usize)>)
    requires
        i <= e <= s@.len(),
    ensures
        match r {
            Some((items, p)) => p <= e && list_items(s@, i as int, e as int, Seq::empty()) == Some(
                (string_texts(items@), p as int),
            ),
            None => list_items(s@, i as int, e as int, Seq::empty()) is None,
        },
{
    let mut items: Vec<String> = Vec::new();
    let mut at = i;
    assert(string_texts(items@) =~= Seq::<Seq<char>>::empty());
    loop
        invariant
            i <= at <= e,
            e <= s@.len(),
            list_items(s@, at as int, e as int, string_texts(items@)) == list_items(
                s@,
                i as int,
                e as int,
                Seq::empty(),
            ),
        decreases e - at,
    {
        let j = skip_spaces_at(s, at, e);
        if j >= e {
            return None;
        }
        if s[j] == ']' {
            return Some((items, j + 1));
        }
        if s[j] != '"' {
            return None;
        }
        match quote_end_at(s, j + 1, e) {
            None => {
                return None;
            },
            Some(q) => {
                proof {
                    lemma_quote_end(s@, j + 1, e as int);
                }
                let k = skip_spaces_at(s, q + 1, e);
                let item = text_between(s, j + 1, q);
                let ghost before = items@;
                items.push(item);
                assert(string_texts(items@) =~= string_texts(before).push(s@.subrange(j + 1, q as int)));
                if k < e && s[k] == ',' {
                    at = k + 1;
                } else if k < e && s[k] == ']' {
                    return Some((items, k + 1));
                } else {
                    return None;
                }
            },
        }
    }
}

fn true_at_pos(s: &Vec<char>, i: usize, e: usize) -> (r: bool)
    requires
        i <= e <= s@.len(),
    ensures
        r == true_at(s@, i as int, e as int),
{
    e - i >= 4 && s[i] == 't' && s[i + 1] == 'r' && s[i + 2] == 'u' && s[i + 3] == 'e'
}

fn false_at_pos(s: &Vec<char>, i: usize, e: usize) -> (r: bool)
    requires
        i <= e <= s@.len(),
    ensures
        r == false_at(s@, i as int, e as int),
{
    e - i >= 5 && s[i] == 'f' && s[i + 1] == 'a' && s[i + 2] == 'l' && s[i + 3] == 's' && s[i + 4] == 'e'
}

/// Reads the value written at `i`.
fn value_at(s: &Vec<char>, i: usize, e: usize) -> (r: Option<(SettingInput, usize)>)
    requires
        i <= e <= s@.len(),
    ensures
        match r {
            Some((v, p)) => p <= e && parse_value(s@, i as int, e as int) == Some((value_model(v), p as int)),
            None => parse_value(s@, i as int, e as int) is None,
        },
{
    if i >= e {
        return None;
    }
    if s[i] == '"' {
        match quote_end_at(s, i + 1, e) {
            Some(q) => {
                proof {
                    lemma_quote_end(s@, i + 1, e as int);
                }
                let t = text_between(s, i + 1, q);
                Some((SettingInput::Text(t), q + 1))
            },
            None => None,
        }
    } else if digit_at(s, i) {
        let q = number_end_at(s, i, e);
        proof {
            lemma_number_end(s@, i as int + 1, e as int);
            assert(number_end(s@, i as int, e as int) == number_end(s@, i + 1, e as int));
            lemma_number_end(s@, i as int, e as int);
        }
        assert(q > i);
        match number_value(s, i, q) {
            Some(v) => Some((SettingInput::Integer(v), q)),
            None => None,
        }
    } else if s[i] == '[' {
        match list_items_at(s, i + 1, e) {
            Some((items, p)) => Some((SettingInput::TextList(items), p)),
            None => None,
        }
    } else if true_at_pos(s, i, e) {
        Some((SettingInput::Flag(true), i + 4))
    } else if false_at_pos(s, i, e) {
        Some((SettingInput::Flag(false), i + 5))
    } else {
        None
    }
}

fn rest_blank_at(s: &Vec<char>, p: usize, e: usize) -> (r: bool)
    requires
        p <= e <= s@.len(),
    ensures
        r == rest_blank(s@, p as int, e as int),
{
    let q = skip_spaces_at(s, p, e);
    q >= e || s[q] == '#'
}

/// Reads the line content `s[i..e]`.
fn line_at(s: &Vec<char>, i: usize, e: usize) -> (r: Option<Line>)
    requires
        i <= e <= s@.len(),
    ensures
        match r {
            Some(l) => parse_line(s@, i as int, e as int) == Some(line_model(l)),
            None => parse_line(s@, i as int, e as int) is None,
        },
{
    let j = skip_spaces_at(s, i, e);
    if j >= e || s[j] == '#' {
        return Some(Line::Blank);
    }
    if s[j] == '[' {
        let k0 = skip_spaces_at(s, j + 1, e);
        let k1 = key_end_at(s, k0, e);
        let k2 = skip_spaces_at(s, k1, e);
        if k1 > k0 && k2 < e && s[k2] == ']' && rest_blank_at(s, k2 + 1, e) {
            Some(Line::Table(text_between(s, k0, k1)))
        } else {
            None
        }
    } else {
        let k1 = key_end_at(s, j, e);
        let k2 = skip_spaces_at(s, k1, e);
        if k1 > j && k2 < e && s[k2] == '=' {
            let v0 = skip_spaces_at(s, k2 + 1, e);
            match value_at(s, v0, e) {
                Some((v, p)) => {
                    if rest_blank_at(s, p, e) {
                        Some(Line::Setting(text_between(s, j, k1), v))
                    } else {
                        None
                    }
                },
                None => None,
            }
        } else {
            None
        }
    }
}

/// `s` spells `lit`.
fn spells(s: &String, lit: &str) -> (r: bool)
    ensures
        r == (s@ == lit@),
{
    *s == String::from_str(lit)
}

/// Applies the setting `key = v` under `table` to `c`; false where the
/// value does not suit the key, `c` then being left as it was.
fn apply_at(table: &String, key: &String, v: SettingInput, c: &mut ServerConfig) -> (ok: bool)
    ensures
        ok ==> apply_setting(table@, key@, value_model(v), old(c).settings()) == Some(final(c).settings()),
        !ok ==> apply_setting(table@, key@, value_model(v), old(c).settings()) is None,
{
    let server = spells(table, "") || spells(table, "server");
    if server && spells(key, "host") {
        match v {
            SettingInput::Text(t) => {
                c.host = t;
                true
            },
            _ => false,
        }
    } else if server && spells(key, "port") {
        match v {
            SettingInput::Integer(n) => {
                if n <= 65535 {
                    c.port = n as u16;
                    true
                } else {
                    false
                }
            },
            _ => false,
        }
    } else if spells(table, "provider") && spells(key, "kind") {
        match v {
            SettingInput::Text(t) => {
                c.provider.kind = t;
                true
            },
            _ => false,
        }
    } else if spells(table, "provider") && spells(key, "base_url") {
        match v {
            SettingInput::Text(t) => {
                c.provider.base_url = t;
                true
            },
            _ => false,
        }
    } else if spells(table, "provider") && spells(key, "model") {
        match v {
            SettingInput::Text(t) => {
                c.provider.model = t;
                true
            },
            _ => false,
        }
    } else if spells(table, "provider") && spells(key, "api_key_env") {
        match v {
            SettingInput::Text(t) => {
                c.provider.api_key_env = t;
                true
            },
            _ => false,
        }
    } else if spells(table, "tools") && spells(key, "default_timeout_ms") {
        match v {
            SettingInput::Integer(n) => {
                c.tools.default_timeout_ms = n;
                true
            },
            _ => false,
        }
    } else if spells(table, "tools") && spells(key, "bash_timeout_ms") {
        match v {
            SettingInput::Integer(n) => {
                c.tools.bash_timeout_ms = n;
                true
            },
            _ => false,
        }
    } else if spells(table, "tools") && spells(key, "delegate_timeout_ms") {
        match v {
            SettingInput::Integer(n) => {
                c.tools.delegate_timeout_ms = n;
                true
            },
            _ => false,
        }
    } else if spells(table, "tools") && spells(key, "subagent_max_parallel") {
        match v {
            SettingInput::Integer(n) => {
                if n <= 4294967295 {
                    c.tools.subagent_max_parallel = n as u32;
                    true
                } else {
                    false
                }
            },
            _ => false,
        }
    } else if spells(table, "tools") && spells(key, "always_approve_hosts") {
        match v {
            SettingInput::TextList(l) => {
                c.tools.always_approve_hosts = l;
                true
            },
            _ => false,
        }
    } else if spells(table, "data_dir") && spells(key, "root") {
        match v {
            SettingInput::Text(t) => {
                c.data_dir.root = t;
                true
            },
            _ => false,
        }
    } else if spells(table, "logs") && spells(key, "dir") {
        match v {
            SettingInput::Text(t) => {
                c.logs.dir = t;
                true
            },
            _ => false,
        }
    } else if spells(table, "logs") && spells(key, "level") {
        match v {
            SettingInput::Text(t) => {
                c.logs.level = t;
                true
            },
            _ => false,
        }
    } else {
        true
    }
}

/// Reads the settings that the text of a settings file gives, over the
/// defaults. A malformed line, or a value that does not suit its key, is
/// refused with the number of its line.
pub fn parse_config(text: &str) -> (r: Result<ServerConfig, ServerError>)
    ensures
        match settings_of_text(text@) {
            Ok(m) => r matches Ok(c) && c.settings() == m,
            Err(line) => r matches Err(ServerError::Config(msg)) && msg@ == bad_line_text(line),
        },
{
    let s = chars_of(text);
    let n = s.len();
    let mut c = ServerConfig::default();
    let mut table = String::from_str("");
    let mut i: usize = 0;
    let mut done: usize = 0;
    while i < n
        invariant
            n == s@.len(),
            s@ == text@,
            i <= n,
            done <= i,
            settings_from(s@, i as int, (done + 1) as nat, table@, c.settings()) == settings_of_text(text@),
        decreases n - i,
    {
        let e = line_end_at(&s, i);
        let ce = if e > i && s[e - 1] == '\r' {
            e - 1
        } else {
            e
        };
        let next = if e < n {
            e + 1
        } else {
            e
        };
        match line_at(&s, i, ce) {
            None => {
                return Err(ServerError::Config(bad_line_message(done + 1)));
            },
            Some(Line::Blank) => {},
            Some(Line::Table(t)) => {
                table = t;
            },
            Some(Line::Setting(k, v)) => {
                if !apply_at(&table, &k, v, &mut c) {
                    return Err(ServerError::Config(bad_line_message(done + 1)));
                }
            },
        }
        i = next;
        done = done + 1;
    }
    Ok(c)
}

/// Builds the message of the error for a malformed line.
fn bad_line_message(line: usize) -> (m: String)
    ensures
        m@ == bad_line_text(line as nat),
{
    let mut m = String::from_str("invalid setting at line ");
    push_decimal(&mut m, line as u64);
    m
}

} // verus!
