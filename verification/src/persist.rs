//! The text form of the persistent configuration document. The document is
//! a flat table of strings, integers and one string array; string values
//! are written as basic strings whose quote, backslash and control
//! characters are escaped. Writing loses nothing, which is proved below
//! twice over: unescaping an escaped string gives the string back, and
//! reading a written document back gives the configuration it came from.

use vstd::prelude::*;
use vstd::string::*;
use vstd::std_specs::iter::IteratorSpec;
use vstd::utf8::char_u32_cast;
use crate::config::AgentConfig;
use crate::crypto::{hex_digit, spec_hex_digit};
use crate::scan::{spec_all_digits, spec_dec_val};
use crate::text::{push_dec_u64, spec_dec_digit, spec_dec_nat, spec_strs_view, string_push};

verus! {

/// The escape of one character inside a basic string: quote and backslash
/// get a backslash, a control character becomes a four-digit escape, and
/// everything else stands for itself.
pub open spec fn spec_escape_char(c: char) -> Seq<char> {
    if c == '"' {
        seq!['\\', '"']
    } else if c == '\\' {
        seq!['\\', '\\']
    } else if (c as u32) < 32 {
        seq![
            '\\',
            'u',
            '0',
            '0',
            spec_hex_digit(((c as u32) / 16) as nat),
            spec_hex_digit(((c as u32) % 16) as nat),
        ]
    } else {
        seq![c]
    }
}

/// The escaped form of a string's characters.
pub open spec fn spec_escape(s: Seq<char>) -> Seq<char>
    decreases s.len(),
{
    if s.len() == 0 {
        seq![]
    } else {
        spec_escape(s.drop_last()) + spec_escape_char(s.last())
    }
}

/// The escaped form read off the front: the first character's escape,
/// then the rest.
proof fn lemma_escape_front(s: Seq<char>)
    requires
        s.len() > 0,
    ensures
        spec_escape(s) == spec_escape_char(s[0]) + spec_escape(s.drop_first()),
    decreases s.len(),
{
    if s.len() == 1 {
        assert(s.drop_last() =~= Seq::<char>::empty());
        assert(s.drop_first() =~= Seq::<char>::empty());
        assert(spec_escape(s) =~= spec_escape_char(s[0]) + spec_escape(s.drop_first()));
    } else {
        let head = s.drop_last();
        lemma_escape_front(head);
        assert(head.drop_first() =~= s.drop_first().drop_last());
        assert(s.drop_first().last() == s.last());
        assert(spec_escape(s) =~= spec_escape_char(s[0]) + spec_escape(s.drop_first()));
    }
}

/// A lowercase hex digit.
pub open spec fn spec_is_hex_lower(c: char) -> bool {
    48 <= c as u32 <= 57 || 97 <= c as u32 <= 102
}

/// The value of a lowercase hex digit.
pub open spec fn spec_hexval(c: char) -> u32 {
    if 48 <= c as u32 <= 57 {
        (c as u32 - 48) as u32
    } else {
        (c as u32 - 87) as u32
    }
}

/// The hex digit of a value below sixteen reads back as that value.
proof fn lemma_hexval_digit(d: nat)
    requires
        d < 16,
    ensures
        spec_is_hex_lower(spec_hex_digit(d)),
        spec_hexval(spec_hex_digit(d)) == d,
{
}

/// The unescaped content of a basic string, or nothing when the text is
/// not a well-formed escape of anything: a lone or unknown backslash
/// escape, a raw control character, or a raw quote. Four-digit escapes are
/// read back for the first 256 characters, the range the escaper emits.
pub open spec fn spec_unescape(s: Seq<char>) -> Option<Seq<char>>
    decreases s.len(),
{
    if s.len() == 0 {
        Some(seq![])
    } else if s[0] == '\\' {
        if s.len() >= 2 && (s[1] == '"' || s[1] == '\\') {
            match spec_unescape(s.skip(2)) {
                Some(t) => Some(seq![s[1]] + t),
                None => None,
            }
        } else if s.len() >= 6 && s[1] == 'u' && s[2] == '0' && s[3] == '0' && spec_is_hex_lower(
            s[4],
        ) && spec_is_hex_lower(s[5]) {
            match spec_unescape(s.skip(6)) {
                Some(t) => Some(
                    seq![(((spec_hexval(s[4]) * 16 + spec_hexval(s[5])) as u32) as char)] + t,
                ),
                None => None,
            }
        } else {
            None
        }
    } else if (s[0] as u32) < 32 || s[0] == '"' {
        None
    } else {
        match spec_unescape(s.skip(1)) {
            Some(t) => Some(seq![s[0]] + t),
            None => None,
        }
    }
}

/// Escaping loses nothing: unescaping an escaped string yields the string.
pub proof fn lemma_unescape_escape(s: Seq<char>)
    ensures
        spec_unescape(spec_escape(s)) == Some(s),
    decreases s.len(),
{
    broadcast use char_u32_cast;

    if s.len() == 0 {
        assert(spec_escape(s) =~= Seq::<char>::empty());
    } else {
        let c = s[0];
        let rest = s.drop_first();
        lemma_escape_front(s);
        lemma_unescape_escape(rest);
        let e = spec_escape(s);
        let ec = spec_escape_char(c);
        assert(e == ec + spec_escape(rest));
        if c == '"' || c == '\\' {
            assert(e[0] == '\\' && e[1] == c);
            assert(e.skip(2) =~= spec_escape(rest));
            assert(Some(seq![c] + rest) == spec_unescape(e));
            assert(seq![c] + rest =~= s);
        } else if (c as u32) < 32 {
            lemma_hexval_digit(((c as u32) / 16) as nat);
            lemma_hexval_digit(((c as u32) % 16) as nat);
            assert(e[0] == '\\' && e[1] == 'u' && e[2] == '0' && e[3] == '0');
            assert(e[4] == spec_hex_digit(((c as u32) / 16) as nat));
            assert(e[5] == spec_hex_digit(((c as u32) % 16) as nat));
            assert(e.skip(6) =~= spec_escape(rest));
            let code = spec_hexval(e[4]) * 16 + spec_hexval(e[5]);
            assert(code == c as u32);
            char_u32_cast(c, code as u32);
            assert((code as u32) as char == c);
            assert(seq![(code as u32) as char] + rest =~= s);
        } else {
            assert(e[0] == c);
            assert(e.skip(1) =~= spec_escape(rest));
            assert(seq![c] + rest =~= s);
        }
    }
}

/// Escapes a string for a basic-string value.
pub fn escape_basic(s: &str) -> (r: String)
    ensures
        r@ == spec_escape(s@),
{
    broadcast use vstd::string::axiom_spec_iter, vstd::string::next_postcondition;

    let mut out = String::new();
    let ghost mut done: Seq<char> = seq![];
    let mut it = s.chars();
    proof {
        assert(done + it.remaining() =~= s@);
        assert(out@ =~= spec_escape(done));
    }
    loop
        invariant
            done + it.remaining() == s@,
            out@ == spec_escape(done),
        ensures
            done == s@,
            out@ == spec_escape(done),
        decreases s@.len() - done.len(),
    {
        match it.next() {
            Some(c) => {
                let ghost done0 = done;
                proof {
                    done = done.push(c);
                    assert(done.drop_last() =~= done0);
                    assert(done + it.remaining() =~= s@);
                }
                if c == '"' {
                    string_push(&mut out, '\\');
                    string_push(&mut out, '"');
                } else if c == '\\' {
                    string_push(&mut out, '\\');
                    string_push(&mut out, '\\');
                } else {
                    let cu = c as u32;
                    if cu < 32 {
                        string_push(&mut out, '\\');
                        string_push(&mut out, 'u');
                        string_push(&mut out, '0');
                        string_push(&mut out, '0');
                        string_push(&mut out, hex_digit((cu / 16) as u8));
                        string_push(&mut out, hex_digit((cu % 16) as u8));
                    } else {
                        string_push(&mut out, c);
                    }
                }
                proof {
                    assert(out@ =~= spec_escape(done));
                }
            },
            None => {
                proof {
                    assert(it.remaining().len() == 0);
                    assert(done =~= s@);
                }
                break;
            },
        }
    }
    out
}

fn is_hex_lower(c: char) -> (r: bool)
    ensures
        r == spec_is_hex_lower(c),
{
    let cu = c as u32;
    (48 <= cu && cu <= 57) || (97 <= cu && cu <= 102)
}

fn hexval(c: char) -> (r: u32)
    requires
        spec_is_hex_lower(c),
    ensures
        r == spec_hexval(c),
        r < 16,
{
    let cu = c as u32;
    if 48 <= cu && cu <= 57 {
        cu - 48
    } else {
        cu - 87
    }
}

/// Unescapes a basic-string value; `None` when the text is not a
/// well-formed escape of anything.
pub fn unescape_basic(s: &str) -> (r: Option<String>)
    ensures
        r is Some <==> spec_unescape(s@) is Some,
        r matches Some(t) ==> Some(t@) == spec_unescape(s@),
{
    broadcast use char_u32_cast;

    let n = s.unicode_len();
    let mut out = String::new();
    let mut i: usize = 0;
    proof {
        assert(s@.skip(0) =~= s@);
    }
    while i < n
        invariant
            i <= n,
            n == s@.len(),
            spec_unescape(s@) == (match spec_unescape(s@.skip(i as int)) {
                Some(t) => Some(out@ + t),
                None => None::<Seq<char>>,
            }),
        decreases n - i,
    {
        let ghost tail = s@.skip(i as int);
        proof {
            assert(tail[0] == s@[i as int]);
        }
        let c = s.get_char(i);
        if c == '\\' {
            if i + 1 >= n {
                return None;
            }
            let e = s.get_char(i + 1);
            proof {
                assert(tail[1] == s@[i + 1]);
            }
            if e == '"' || e == '\\' {
                string_push(&mut out, e);
                proof {
                    assert(tail.skip(2) =~= s@.skip(i + 2));
                }
                i = i + 2;
            } else if e == 'u' {
                if n - i <= 5 {
                    return None;
                }
                let d2 = s.get_char(i + 2);
                let d3 = s.get_char(i + 3);
                let h1 = s.get_char(i + 4);
                let h2 = s.get_char(i + 5);
                proof {
                    assert(tail[2] == s@[i + 2] && tail[3] == s@[i + 3]);
                    assert(tail[4] == s@[i + 4] && tail[5] == s@[i + 5]);
                }
                if d2 == '0' && d3 == '0' && is_hex_lower(h1) && is_hex_lower(h2) {
                    let code: u32 = hexval(h1) * 16 + hexval(h2);
                    let byte: u8 = code as u8;
                    let decoded: char = byte as char;
                    proof {
                        assert(decoded as u32 == code);
                        assert((code as u32) as char == decoded);
                        assert(tail.skip(6) =~= s@.skip(i + 6));
                    }
                    string_push(&mut out, decoded);
                    i = i + 6;
                } else {
                    return None;
                }
            } else {
                return None;
            }
        } else {
            let cu = c as u32;
            if cu < 32 || c == '"' {
                return None;
            }
            string_push(&mut out, c);
            proof {
                assert(tail.skip(1) =~= s@.skip(i + 1));
            }
            i = i + 1;
        }
    }
    proof {
        assert(s@.skip(n as int).len() == 0);
    }
    Some(out)
}

// ───────────────────────────────────────────────────────────────
// The document
// ───────────────────────────────────────────────────────────────

/// A quoted basic string.
pub open spec fn spec_quoted(v: Seq<char>) -> Seq<char> {
    seq!['"'] + spec_escape(v) + seq!['"']
}

/// One `key = "value"` line.
pub open spec fn spec_str_line(key: Seq<char>, v: Seq<char>) -> Seq<char> {
    key + seq![' ', '=', ' '] + spec_quoted(v) + seq!['\n']
}

/// A string line for a present value, nothing for an absent one.
pub open spec fn spec_opt_str_line(key: Seq<char>, o: Option<String>) -> Seq<char> {
    match o {
        Some(v) => spec_str_line(key, v@),
        None => seq![],
    }
}

/// One `key = n` line.
pub open spec fn spec_int_line(key: Seq<char>, n: u64) -> Seq<char> {
    key + seq![' ', '=', ' '] + spec_dec_nat(n as nat) + seq!['\n']
}

/// The items of a string array, quoted and comma-separated.
pub open spec fn spec_quoted_join(items: Seq<Seq<char>>) -> Seq<char>
    decreases items.len(),
{
    if items.len() == 0 {
        seq![]
    } else if items.len() == 1 {
        spec_quoted(items[0])
    } else {
        spec_quoted_join(items.drop_last()) + seq![',', ' '] + spec_quoted(items.last())
    }
}

/// One `key = [...]` line.
pub open spec fn spec_array_line(key: Seq<char>, items: Seq<Seq<char>>) -> Seq<char> {
    key + seq![' ', '=', ' ', '['] + spec_quoted_join(items) + seq![']', '\n']
}

/// The whole document: every field of the configuration on its own line,
/// in a fixed order, with absent optional fields omitted.
pub open spec fn spec_encode_config(c: AgentConfig) -> Seq<char> {
    spec_str_line("server_url"@, c.server_url@) + spec_opt_str_line("agent_id"@, c.agent_id)
        + spec_opt_str_line("agent_secret"@, c.agent_secret) + spec_opt_str_line(
        "enrollment_token"@,
        c.enrollment_token,
    ) + spec_opt_str_line("organization_id"@, c.organization_id) + spec_int_line(
        "heartbeat_interval_sec"@,
        c.heartbeat_interval_sec,
    ) + spec_int_line("metrics_interval_sec"@, c.metrics_interval_sec) + spec_int_line(
        "inventory_interval_sec"@,
        c.inventory_interval_sec,
    ) + spec_int_line("job_poll_interval_sec"@, c.job_poll_interval_sec) + spec_array_line(
        "capabilities"@,
        spec_strs_view(c.capabilities@),
    ) + spec_str_line("log_level"@, c.log_level@)
}

fn push_quoted(out: &mut String, v: &str)
    ensures
        final(out)@ == old(out)@ + spec_quoted(v@),
{
    string_push(out, '"');
    let escaped = escape_basic(v);
    out.append(escaped.as_str());
    string_push(out, '"');
    proof {
        assert(final(out)@ =~= old(out)@ + spec_quoted(v@));
    }
}

fn push_str_line(out: &mut String, key: &str, v: &str)
    ensures
        final(out)@ == old(out)@ + spec_str_line(key@, v@),
{
    out.append(key);
    string_push(out, ' ');
    string_push(out, '=');
    string_push(out, ' ');
    push_quoted(out, v);
    string_push(out, '\n');
    proof {
        assert(final(out)@ =~= old(out)@ + spec_str_line(key@, v@));
    }
}

fn push_int_line(out: &mut String, key: &str, n: u64)
    ensures
        final(out)@ == old(out)@ + spec_int_line(key@, n),
{
    out.append(key);
    string_push(out, ' ');
    string_push(out, '=');
    string_push(out, ' ');
    push_dec_u64(out, n);
    string_push(out, '\n');
    proof {
        assert(final(out)@ =~= old(out)@ + spec_int_line(key@, n));
    }
}

fn push_array_line(out: &mut String, key: &str, items: &Vec<String>)
    ensures
        final(out)@ == old(out)@ + spec_array_line(key@, spec_strs_view(items@)),
{
    out.append(key);
    string_push(out, ' ');
    string_push(out, '=');
    string_push(out, ' ');
    string_push(out, '[');
    let ghost base = out@;
    let n = items.len();
    let mut i: usize = 0;
    proof {
        assert(spec_strs_view(items@).take(0) =~= Seq::<Seq<char>>::empty());
        assert(out@ =~= base + spec_quoted_join(spec_strs_view(items@).take(0)));
    }
    while i < n
        invariant
            i <= n,
            n == items@.len(),
            out@ == base + spec_quoted_join(spec_strs_view(items@).take(i as int)),
        decreases n - i,
    {
        proof {
            assert(spec_strs_view(items@).take(i + 1).drop_last() =~= spec_strs_view(
                items@,
            ).take(i as int));
            assert(spec_strs_view(items@).take(i + 1).last() == items@[i as int]@);
        }
        if i > 0 {
            string_push(out, ',');
            string_push(out, ' ');
        }
        push_quoted(out, items[i].as_str());
        proof {
            assert(out@ =~= base + spec_quoted_join(spec_strs_view(items@).take(i + 1)));
        }
        i = i + 1;
    }
    string_push(out, ']');
    string_push(out, '\n');
    proof {
        assert(spec_strs_view(items@).take(n as int) =~= spec_strs_view(items@));
        assert(out@ =~= old(out)@ + spec_array_line(key@, spec_strs_view(items@)));
    }
}

/// Renders the configuration as its persistent document, field for field.
pub fn encode_config(c: &AgentConfig) -> (r: String)
    ensures
        r@ == spec_encode_config(*c),
{
    let mut out = String::new();
    push_str_line(&mut out, "server_url", c.server_url.as_str());
    match &c.agent_id {
        Some(v) => push_str_line(&mut out, "agent_id", v.as_str()),
        None => {},
    }
    match &c.agent_secret {
        Some(v) => push_str_line(&mut out, "agent_secret", v.as_str()),
        None => {},
    }
    match &c.enrollment_token {
        Some(v) => push_str_line(&mut out, "enrollment_token", v.as_str()),
        None => {},
    }
    match &c.organization_id {
        Some(v) => push_str_line(&mut out, "organization_id", v.as_str()),
        None => {},
    }
    push_int_line(&mut out, "heartbeat_interval_sec", c.heartbeat_interval_sec);
    push_int_line(&mut out, "metrics_interval_sec", c.metrics_interval_sec);
    push_int_line(&mut out, "inventory_interval_sec", c.inventory_interval_sec);
    push_int_line(&mut out, "job_poll_interval_sec", c.job_poll_interval_sec);
    push_array_line(&mut out, "capabilities", &c.capabilities);
    push_str_line(&mut out, "log_level", c.log_level.as_str());
    proof {
        assert(out@ =~= spec_encode_config(*c));
    }
    out
}

// ───────────────────────────────────────────────────────────────
// Reading the document back
// ───────────────────────────────────────────────────────────────

/// The mathematical content of a configuration: each field as a plain
/// value or character sequence.
pub ghost struct ConfigView {
    pub server_url: Seq<char>,
    pub agent_id: Option<Seq<char>>,
    pub agent_secret: Option<Seq<char>>,
    pub enrollment_token: Option<Seq<char>>,
    pub organization_id: Option<Seq<char>>,
    pub heartbeat_interval_sec: u64,
    pub metrics_interval_sec: u64,
    pub inventory_interval_sec: u64,
    pub job_poll_interval_sec: u64,
    pub capabilities: Seq<Seq<char>>,
    pub log_level: Seq<char>,
}

/// The view of an optional string.
pub open spec fn spec_opt_seq(o: Option<String>) -> Option<Seq<char>> {
    match o {
        Some(s) => Some(s@),
        None => None,
    }
}

/// The view of a configuration.
pub open spec fn spec_config_view(c: AgentConfig) -> ConfigView {
    ConfigView {
        server_url: c.server_url@,
        agent_id: spec_opt_seq(c.agent_id),
        agent_secret: spec_opt_seq(c.agent_secret),
        enrollment_token: spec_opt_seq(c.enrollment_token),
        organization_id: spec_opt_seq(c.organization_id),
        heartbeat_interval_sec: c.heartbeat_interval_sec,
        metrics_interval_sec: c.metrics_interval_sec,
        inventory_interval_sec: c.inventory_interval_sec,
        job_poll_interval_sec: c.job_poll_interval_sec,
        capabilities: spec_strs_view(c.capabilities@),
        log_level: c.log_level@,
    }
}

/// The index of the quote that closes a basic string, skipping over
/// backslash escapes.
pub open spec fn spec_scan_quote(s: Seq<char>) -> Option<int>
    decreases s.len(),
{
    if s.len() == 0 {
        None
    } else if s[0] == '"' {
        Some(0)
    } else if s[0] == '\\' {
        if s.len() >= 2 {
            match spec_scan_quote(s.skip(2)) {
                Some(i) => Some(i + 2),
                None => None,
            }
        } else {
            None
        }
    } else {
        match spec_scan_quote(s.skip(1)) {
            Some(i) => Some(i + 1),
            None => None,
        }
    }
}

/// Reading a quoted basic string off the front of a text: its unescaped
/// content and what follows the closing quote.
pub open spec fn spec_parse_string(s: Seq<char>) -> Option<(Seq<char>, Seq<char>)> {
    if s.len() >= 1 && s[0] == '"' {
        match spec_scan_quote(s.skip(1)) {
            Some(i) => match spec_unescape(s.skip(1).take(i)) {
                Some(v) => Some((v, s.skip(1).skip(i + 1))),
                None => None,
            },
            None => None,
        }
    } else {
        None
    }
}

/// The number of leading decimal digits.
pub open spec fn spec_digit_run(s: Seq<char>) -> int
    decreases s.len(),
{
    if s.len() > 0 && 48 <= s[0] as u32 <= 57 {
        1 + spec_digit_run(s.skip(1))
    } else {
        0
    }
}

/// Reading an unsigned decimal off the front of a text: its value and what
/// follows the digits.
pub open spec fn spec_parse_u64(s: Seq<char>) -> Option<(u64, Seq<char>)> {
    let k = spec_digit_run(s);
    if k > 0 && spec_dec_val(s.take(k)) <= u64::MAX {
        Some((spec_dec_val(s.take(k)) as u64, s.skip(k)))
    } else {
        None
    }
}

/// The remainder of a text after a known prefix, when it has it.
pub open spec fn spec_strip_prefix(s: Seq<char>, p: Seq<char>) -> Option<Seq<char>> {
    if p.len() <= s.len() && s.take(p.len() as int) == p {
        Some(s.skip(p.len() as int))
    } else {
        None
    }
}

/// Reading the items of a string array up to the closing bracket; `fuel`
/// bounds the recursion and any value at least the item count is enough.
pub open spec fn spec_parse_items(s: Seq<char>, fuel: nat) -> Option<(Seq<Seq<char>>, Seq<char>)>
    decreases fuel,
{
    if fuel == 0 {
        None
    } else {
        match spec_parse_string(s) {
            Some((v, rest)) => {
                if rest.len() >= 1 && rest[0] == ']' {
                    Some((seq![v], rest.skip(1)))
                } else if rest.len() >= 2 && rest[0] == ',' && rest[1] == ' ' {
                    match spec_parse_items(rest.skip(2), (fuel - 1) as nat) {
                        Some((items, r2)) => Some((seq![v] + items, r2)),
                        None => None,
                    }
                } else {
                    None
                }
            },
            None => None,
        }
    }
}

/// Reading a whole bracketed string array off the front of a text.
pub open spec fn spec_parse_array(s: Seq<char>) -> Option<(Seq<Seq<char>>, Seq<char>)> {
    if s.len() >= 2 && s[0] == '[' && s[1] == ']' {
        Some((seq![], s.skip(2)))
    } else if s.len() >= 1 && s[0] == '[' {
        spec_parse_items(s.skip(1), s.len() as nat)
    } else {
        None
    }
}

/// The separator between a key and its value.
pub open spec fn spec_eq_sep() -> Seq<char> {
    seq![' ', '=', ' ']
}

/// Reading one `key = "value"` line, newline included.
pub open spec fn spec_parse_str_field(key: Seq<char>, s: Seq<char>) -> Option<
    (Seq<char>, Seq<char>),
> {
    match spec_strip_prefix(s, key + spec_eq_sep()) {
        Some(t) => match spec_parse_string(t) {
            Some((v, r)) => if r.len() >= 1 && r[0] == '\n' {
                Some((v, r.skip(1)))
            } else {
                None
            },
            None => None,
        },
        None => None,
    }
}

/// Reading one `key = "value"` line when its key is present, and nothing
/// when another key starts the text.
pub open spec fn spec_parse_opt_field(key: Seq<char>, s: Seq<char>) -> Option<
    (Option<Seq<char>>, Seq<char>),
> {
    match spec_strip_prefix(s, key + spec_eq_sep()) {
        Some(_) => match spec_parse_str_field(key, s) {
            Some((v, r)) => Some((Some(v), r)),
            None => None,
        },
        None => Some((None, s)),
    }
}

/// Reading one `key = n` line, newline included.
pub open spec fn spec_parse_int_field(key: Seq<char>, s: Seq<char>) -> Option<(u64, Seq<char>)> {
    match spec_strip_prefix(s, key + spec_eq_sep()) {
        Some(t) => match spec_parse_u64(t) {
            Some((n, r)) => if r.len() >= 1 && r[0] == '\n' {
                Some((n, r.skip(1)))
            } else {
                None
            },
            None => None,
        },
        None => None,
    }
}

/// Reading one `key = [...]` line, newline included.
pub open spec fn spec_parse_array_field(key: Seq<char>, s: Seq<char>) -> Option<
    (Seq<Seq<char>>, Seq<char>),
> {
    match spec_strip_prefix(s, key + spec_eq_sep()) {
        Some(t) => match spec_parse_array(t) {
            Some((items, r)) => if r.len() >= 1 && r[0] == '\n' {
                Some((items, r.skip(1)))
            } else {
                None
            },
            None => None,
        },
        None => None,
    }
}

/// Reading a whole document: the fields in their fixed order, the optional
/// ones where their keys appear, with nothing left over at the end.
pub open spec fn spec_parse_config(s: Seq<char>) -> Option<ConfigView> {
    match spec_parse_str_field("server_url"@, s) {
        Some((server_url, s1)) => match spec_parse_opt_field("agent_id"@, s1) {
            Some((agent_id, s2)) => match spec_parse_opt_field("agent_secret"@, s2) {
                Some((agent_secret, s3)) => match spec_parse_opt_field(
                    "enrollment_token"@,
                    s3,
                ) {
                    Some((enrollment_token, s4)) => match spec_parse_opt_field(
                        "organization_id"@,
                        s4,
                    ) {
                        Some((organization_id, s5)) => match spec_parse_int_field(
                            "heartbeat_interval_sec"@,
                            s5,
                        ) {
                            Some((hb, s6)) => match spec_parse_int_field(
                                "metrics_interval_sec"@,
                                s6,
                            ) {
                                Some((me, s7)) => match spec_parse_int_field(
                                    "inventory_interval_sec"@,
                                    s7,
                                ) {
                                    Some((inv, s8)) => match spec_parse_int_field(
                                        "job_poll_interval_sec"@,
                                        s8,
                                    ) {
                                        Some((jp, s9)) => match spec_parse_array_field(
                                            "capabilities"@,
                                            s9,
                                        ) {
                                            Some((capabilities, s10)) => match spec_parse_str_field(
                                                "log_level"@,
                                                s10,
                                            ) {
                                                Some((log_level, s11)) => if s11.len() == 0 {
                                                    Some(
                                                        ConfigView {
                                                            server_url,
                                                            agent_id,
                                                            agent_secret,
                                                            enrollment_token,
                                                            organization_id,
                                                            heartbeat_interval_sec: hb,
                                                            metrics_interval_sec: me,
                                                            inventory_interval_sec: inv,
                                                            job_poll_interval_sec: jp,
                                                            capabilities,
                                                            log_level,
                                                        },
                                                    )
                                                } else {
                                                    None
                                                },
                                                None => None,
                                            },
                                            None => None,
                                        },
                                        None => None,
                                    },
                                    None => None,
                                },
                                None => None,
                            },
                            None => None,
                        },
                        None => None,
                    },
                    None => None,
                },
                None => None,
            },
            None => None,
        },
        None => None,
    }
}

// ───────────────────────────────────────────────────────────────
// The document reads back: supporting lemmas
// ───────────────────────────────────────────────────────────────

/// Scanning for the closing quote passes over a whole escaped string.
proof fn lemma_scan_escaped(v: Seq<char>, suffix: Seq<char>)
    ensures
        spec_scan_quote(spec_escape(v) + seq!['"'] + suffix) == Some(
            spec_escape(v).len() as int,
        ),
    decreases v.len(),
{
    let e = spec_escape(v);
    let s = e + seq!['"'] + suffix;
    if v.len() == 0 {
        assert(e =~= Seq::<char>::empty());
        assert(s[0] == '"');
    } else {
        let c = v[0];
        lemma_escape_front(v);
        lemma_scan_escaped(v.drop_first(), suffix);
        let er = spec_escape(v.drop_first());
        let t = er + seq!['"'] + suffix;
        let ec = spec_escape_char(c);
        assert(e == ec + er);
        assert(s =~= ec + t);
        if c == '"' || c == '\\' {
            assert(s[0] == '\\' && s.len() >= 2);
            assert(s.skip(2) =~= t);
        } else if (c as u32) < 32 {
            let h1 = spec_hex_digit(((c as u32) / 16) as nat);
            let h2 = spec_hex_digit(((c as u32) % 16) as nat);
            lemma_hexval_digit(((c as u32) / 16) as nat);
            lemma_hexval_digit(((c as u32) % 16) as nat);
            assert(s[0] == '\\' && s.len() >= 2);
            assert(s.skip(2) =~= seq!['0', '0', h1, h2] + t);
            let s2 = seq!['0', '0', h1, h2] + t;
            assert(s2[0] == '0' && !(s2[0] == '"') && !(s2[0] == '\\'));
            assert(s2.skip(1) =~= seq!['0', h1, h2] + t);
            let s3 = seq!['0', h1, h2] + t;
            assert(s3[0] == '0' && !(s3[0] == '"') && !(s3[0] == '\\'));
            assert(s3.skip(1) =~= seq![h1, h2] + t);
            let s4 = seq![h1, h2] + t;
            assert(!(s4[0] == '"') && !(s4[0] == '\\'));
            assert(s4.skip(1) =~= seq![h2] + t);
            let s5 = seq![h2] + t;
            assert(!(s5[0] == '"') && !(s5[0] == '\\'));
            assert(s5.skip(1) =~= t);
            assert(spec_scan_quote(s5) == Some(er.len() as int + 1));
            assert(spec_scan_quote(s4) == Some(er.len() as int + 2));
            assert(spec_scan_quote(s3) == Some(er.len() as int + 3));
            assert(spec_scan_quote(s2) == Some(er.len() as int + 4));
            assert(spec_scan_quote(s) == Some(er.len() as int + 6));
        } else {
            assert(s[0] == c && !(c == '"') && !(c == '\\'));
            assert(s.skip(1) =~= t);
        }
    }
}

/// Reading a quoted value recovers the value and the trailing text.
proof fn lemma_parse_string_quoted(v: Seq<char>, suffix: Seq<char>)
    ensures
        spec_parse_string(spec_quoted(v) + suffix) == Some((v, suffix)),
{
    let e = spec_escape(v);
    let s = spec_quoted(v) + suffix;
    assert(s[0] == '"');
    assert(s.skip(1) =~= e + seq!['"'] + suffix);
    lemma_scan_escaped(v, suffix);
    assert(s.skip(1).take(e.len() as int) =~= e);
    lemma_unescape_escape(v);
    assert(s.skip(1).skip(e.len() as int + 1) =~= suffix);
}

/// A decimal rendering is nonempty and all digits.
proof fn lemma_dec_nat_digits(n: nat)
    ensures
        spec_dec_nat(n).len() >= 1,
        spec_all_digits(spec_dec_nat(n)),
    decreases n,
{
    if n < 10 {
        assert(spec_dec_nat(n) =~= seq![spec_dec_digit(n)]);
        assert(48 <= spec_dec_digit(n) as u32 <= 57);
        assert(spec_all_digits(spec_dec_nat(n)));
    } else {
        lemma_dec_nat_digits(n / 10);
        let head = spec_dec_nat(n / 10);
        let d = spec_dec_digit(n % 10);
        assert(48 <= d as u32 <= 57);
        assert(spec_dec_nat(n) == head.push(d));
        assert forall|i: int| 0 <= i < spec_dec_nat(n).len() implies crate::scan::spec_is_digit(
            #[trigger] spec_dec_nat(n)[i],
        ) by {
            if i < head.len() {
                assert(spec_dec_nat(n)[i] == head[i]);
            } else {
                assert(spec_dec_nat(n)[i] == d);
            }
        }
    }
}

/// Reading back a decimal rendering yields the rendered value.
proof fn lemma_dec_val_of_dec_nat(n: nat)
    ensures
        spec_dec_val(spec_dec_nat(n)) == n,
    decreases n,
{
    if n < 10 {
        let s = spec_dec_nat(n);
        assert(s =~= seq![spec_dec_digit(n)]);
        assert(s.drop_last() =~= Seq::<char>::empty());
        assert(spec_dec_val(Seq::<char>::empty()) == 0);
        assert(s.last() as u32 == 48 + n);
        assert(spec_dec_val(s) == spec_dec_val(s.drop_last()) * 10 + (s.last() as u32 - 48));
    } else {
        lemma_dec_val_of_dec_nat(n / 10);
        let s = spec_dec_nat(n);
        let head = spec_dec_nat(n / 10);
        assert(s == head.push(spec_dec_digit(n % 10)));
        assert(s.drop_last() =~= head);
        assert(s.last() as u32 == 48 + n % 10);
    }
}

/// The digit run of an all-digit text followed by a non-digit covers
/// exactly the digits.
proof fn lemma_digit_run_concat(a: Seq<char>, b: Seq<char>)
    requires
        spec_all_digits(a),
        b.len() == 0 || !(48 <= b[0] as u32 <= 57),
    ensures
        spec_digit_run(a + b) == a.len(),
    decreases a.len(),
{
    if a.len() == 0 {
        assert(a + b =~= b);
    } else {
        assert((a + b)[0] == a[0]);
        assert(48 <= a[0] as u32 <= 57);
        assert((a + b).skip(1) =~= a.skip(1) + b);
        assert(spec_all_digits(a.skip(1)));
        lemma_digit_run_concat(a.skip(1), b);
    }
}

/// Reading an unsigned decimal recovers the rendered value and the
/// trailing text.
proof fn lemma_parse_u64_dec(n: u64, suffix: Seq<char>)
    requires
        suffix.len() == 0 || !(48 <= suffix[0] as u32 <= 57),
    ensures
        spec_parse_u64(spec_dec_nat(n as nat) + suffix) == Some((n, suffix)),
{
    let d = spec_dec_nat(n as nat);
    lemma_dec_nat_digits(n as nat);
    lemma_dec_val_of_dec_nat(n as nat);
    lemma_digit_run_concat(d, suffix);
    let s = d + suffix;
    assert(s.take(d.len() as int) =~= d);
    assert(s.skip(d.len() as int) =~= suffix);
}

/// Stripping a prefix off itself leaves the rest.
proof fn lemma_strip_prefix_concat(p: Seq<char>, t: Seq<char>)
    ensures
        spec_strip_prefix(p + t, p) == Some(t),
{
    let s = p + t;
    assert(s.take(p.len() as int) =~= p);
    assert(s.skip(p.len() as int) =~= t);
}

/// A text that differs from a prefix at some position does not have it.
proof fn lemma_strip_prefix_none(s: Seq<char>, p: Seq<char>, i: int)
    requires
        0 <= i < p.len(),
        i < s.len(),
        s[i] != p[i],
    ensures
        spec_strip_prefix(s, p) == None::<Seq<char>>,
{
    if p.len() <= s.len() {
        assert(s.take(p.len() as int)[i] == s[i]);
    }
}

/// A joined array read off the front: the first item, then the rest.
proof fn lemma_join_front(items: Seq<Seq<char>>)
    requires
        items.len() > 0,
    ensures
        spec_quoted_join(items) == spec_quoted(items[0]) + (if items.len() == 1 {
            Seq::<char>::empty()
        } else {
            seq![',', ' '] + spec_quoted_join(items.drop_first())
        }),
    decreases items.len(),
{
    if items.len() == 1 {
        assert(spec_quoted_join(items) =~= spec_quoted(items[0]) + Seq::<char>::empty());
    } else if items.len() == 2 {
        let head = items.drop_last();
        assert(head =~= seq![items[0]]);
        assert(items.drop_first() =~= seq![items[1]]);
        assert(head[0] == items[0] && items.drop_first()[0] == items[1]);
        assert(spec_quoted_join(head) == spec_quoted(items[0]));
        assert(spec_quoted_join(items.drop_first()) == spec_quoted(items[1]));
        assert(spec_quoted_join(items) =~= spec_quoted(items[0]) + (seq![',', ' ']
            + spec_quoted_join(items.drop_first())));
    } else {
        let head = items.drop_last();
        lemma_join_front(head);
        assert(head.drop_first() =~= items.drop_first().drop_last());
        assert(items.drop_first().last() == items.last());
        assert(items.drop_first().len() > 1);
        assert(spec_quoted_join(items) =~= spec_quoted(items[0]) + (seq![',', ' ']
            + spec_quoted_join(items.drop_first())));
    }
}

/// A joined array is at least as long as its item count.
proof fn lemma_join_len(items: Seq<Seq<char>>)
    ensures
        spec_quoted_join(items).len() >= items.len(),
    decreases items.len(),
{
    if items.len() > 1 {
        lemma_join_len(items.drop_last());
    }
}

/// Reading joined items up to the closing bracket recovers the items.
proof fn lemma_parse_items_join(items: Seq<Seq<char>>, suffix: Seq<char>, fuel: nat)
    requires
        items.len() >= 1,
        fuel >= items.len(),
    ensures
        spec_parse_items(spec_quoted_join(items) + seq![']'] + suffix, fuel) == Some(
            (items, suffix),
        ),
    decreases items.len(),
{
    let s = spec_quoted_join(items) + seq![']'] + suffix;
    lemma_join_front(items);
    if items.len() == 1 {
        assert(s =~= spec_quoted(items[0]) + (seq![']'] + suffix));
        lemma_parse_string_quoted(items[0], seq![']'] + suffix);
        let rest = seq![']'] + suffix;
        assert(rest[0] == ']');
        assert(rest.skip(1) =~= suffix);
        assert(seq![items[0]] =~= items);
    } else {
        let tail = spec_quoted_join(items.drop_first()) + seq![']'] + suffix;
        assert(s =~= spec_quoted(items[0]) + (seq![',', ' '] + tail));
        lemma_parse_string_quoted(items[0], seq![',', ' '] + tail);
        let rest = seq![',', ' '] + tail;
        assert(rest[0] == ',' && rest[1] == ' ');
        assert(!(rest[0] == ']'));
        assert(rest.skip(2) =~= tail);
        lemma_parse_items_join(items.drop_first(), suffix, (fuel - 1) as nat);
        assert(seq![items[0]] + items.drop_first() =~= items);
    }
}

/// Reading a string line recovers its value and the following text.
proof fn lemma_parse_str_field_line(key: Seq<char>, v: Seq<char>, suffix: Seq<char>)
    ensures
        spec_parse_str_field(key, spec_str_line(key, v) + suffix) == Some((v, suffix)),
{
    let p = key + spec_eq_sep();
    let s = spec_str_line(key, v) + suffix;
    let t = spec_quoted(v) + (seq!['\n'] + suffix);
    assert(s =~= p + t);
    lemma_strip_prefix_concat(p, t);
    lemma_parse_string_quoted(v, seq!['\n'] + suffix);
    let r = seq!['\n'] + suffix;
    assert(r[0] == '\n');
    assert(r.skip(1) =~= suffix);
}

/// An optional string line with its key present reads as that value.
proof fn lemma_parse_opt_field_some(key: Seq<char>, v: Seq<char>, suffix: Seq<char>)
    ensures
        spec_parse_opt_field(key, spec_str_line(key, v) + suffix) == Some((Some(v), suffix)),
{
    let p = key + spec_eq_sep();
    let s = spec_str_line(key, v) + suffix;
    let t = spec_quoted(v) + (seq!['\n'] + suffix);
    assert(s =~= p + t);
    lemma_strip_prefix_concat(p, t);
    lemma_parse_str_field_line(key, v, suffix);
}

/// An optional field whose key does not start the text is read as absent:
/// the text begins with some other key that differs at position `i`.
proof fn lemma_parse_opt_field_skip(key: Seq<char>, s: Seq<char>, other: Seq<char>, i: int)
    requires
        0 <= i < key.len(),
        i < other.len(),
        key[i] != other[i],
        other.len() <= s.len(),
        s.take(other.len() as int) == other,
    ensures
        spec_parse_opt_field(key, s) == Some((None::<Seq<char>>, s)),
{
    assert(s[i] == s.take(other.len() as int)[i]);
    assert((key + spec_eq_sep())[i] == key[i]);
    lemma_strip_prefix_none(s, key + spec_eq_sep(), i);
}

/// Reading an integer line recovers its value and the following text.
proof fn lemma_parse_int_field_line(key: Seq<char>, n: u64, suffix: Seq<char>)
    ensures
        spec_parse_int_field(key, spec_int_line(key, n) + suffix) == Some((n, suffix)),
{
    let p = key + spec_eq_sep();
    let t = spec_dec_nat(n as nat) + (seq!['\n'] + suffix);
    assert(spec_int_line(key, n) + suffix =~= p + t);
    lemma_strip_prefix_concat(p, t);
    lemma_parse_u64_dec(n, seq!['\n'] + suffix);
    let r = seq!['\n'] + suffix;
    assert(r[0] == '\n');
    assert(r.skip(1) =~= suffix);
}

/// Reading an array line recovers its items and the following text.
proof fn lemma_parse_array_field_line(key: Seq<char>, items: Seq<Seq<char>>, suffix: Seq<char>)
    ensures
        spec_parse_array_field(key, spec_array_line(key, items) + suffix) == Some(
            (items, suffix),
        ),
{
    let p = key + spec_eq_sep();
    let join = spec_quoted_join(items);
    let t = seq!['['] + (join + (seq![']'] + (seq!['\n'] + suffix)));
    assert(spec_array_line(key, items) + suffix =~= p + t);
    lemma_strip_prefix_concat(p, t);
    assert(t[0] == '[');
    if items.len() == 0 {
        assert(join =~= Seq::<char>::empty());
        assert(t[1] == ']');
        assert(t.skip(2) =~= seq!['\n'] + suffix);
        let r = seq!['\n'] + suffix;
        assert(r[0] == '\n');
        assert(r.skip(1) =~= suffix);
        assert(spec_parse_array(t) == Some((Seq::<Seq<char>>::empty(), r)));
        assert(items =~= Seq::<Seq<char>>::empty());
    } else {
        lemma_join_front(items);
        assert(join[0] == '"');
        assert(t[1] == join[0]);
        assert(!(t[1] == ']'));
        lemma_join_len(items);
        assert(t.len() >= items.len());
        assert(t.skip(1) =~= join + seq![']'] + (seq!['\n'] + suffix));
        lemma_parse_items_join(items, seq!['\n'] + suffix, t.len() as nat);
        let r = seq!['\n'] + suffix;
        assert(r[0] == '\n');
        assert(r.skip(1) =~= suffix);
    }
}

proof fn lemma_opt_step_org(c: AgentConfig, s4: Seq<char>, s5: Seq<char>)
    requires
        s4 == spec_opt_str_line("organization_id"@, c.organization_id) + s5,
        "heartbeat_interval_sec"@.len() <= s5.len(),
        s5.take("heartbeat_interval_sec"@.len() as int) == "heartbeat_interval_sec"@,
    ensures
        spec_parse_opt_field("organization_id"@, s4) == Some(
            (spec_opt_seq(c.organization_id), s5),
        ),
{
    reveal_strlit("organization_id");
    reveal_strlit("heartbeat_interval_sec");
    match c.organization_id {
        Some(v) => {
            assert(s4 =~= spec_str_line("organization_id"@, v@) + s5);
            lemma_parse_opt_field_some("organization_id"@, v@, s5);
        },
        None => {
            assert(s4 =~= s5);
            assert("organization_id"@[0] == 'o' && "heartbeat_interval_sec"@[0] == 'h');
            lemma_parse_opt_field_skip("organization_id"@, s4, "heartbeat_interval_sec"@, 0);
        },
    }
}

proof fn lemma_opt_step_token(c: AgentConfig, s3: Seq<char>, s4: Seq<char>, s5: Seq<char>)
    requires
        s3 == spec_opt_str_line("enrollment_token"@, c.enrollment_token) + s4,
        s4 == spec_opt_str_line("organization_id"@, c.organization_id) + s5,
        "heartbeat_interval_sec"@.len() <= s5.len(),
        s5.take("heartbeat_interval_sec"@.len() as int) == "heartbeat_interval_sec"@,
    ensures
        spec_parse_opt_field("enrollment_token"@, s3) == Some(
            (spec_opt_seq(c.enrollment_token), s4),
        ),
{
    reveal_strlit("enrollment_token");
    reveal_strlit("organization_id");
    reveal_strlit("heartbeat_interval_sec");
    match c.enrollment_token {
        Some(v) => {
            assert(s3 =~= spec_str_line("enrollment_token"@, v@) + s4);
            lemma_parse_opt_field_some("enrollment_token"@, v@, s4);
        },
        None => {
            assert(s3 =~= s4);
            assert("enrollment_token"@[0] == 'e');
            assert("organization_id"@[0] == 'o' && "heartbeat_interval_sec"@[0] == 'h');
            match c.organization_id {
                Some(v4) => {
                    assert(s4 =~= "organization_id"@ + (spec_eq_sep() + (spec_quoted(v4@) + (
                    seq!['\n'] + s5))));
                    assert(s4.take("organization_id"@.len() as int) =~= "organization_id"@);
                    lemma_parse_opt_field_skip("enrollment_token"@, s3, "organization_id"@, 0);
                },
                None => {
                    assert(s4 =~= s5);
                    lemma_parse_opt_field_skip(
                        "enrollment_token"@,
                        s3,
                        "heartbeat_interval_sec"@,
                        0,
                    );
                },
            }
        },
    }
}

proof fn lemma_opt_step_secret(
    c: AgentConfig,
    s2: Seq<char>,
    s3: Seq<char>,
    s4: Seq<char>,
    s5: Seq<char>,
)
    requires
        s2 == spec_opt_str_line("agent_secret"@, c.agent_secret) + s3,
        s3 == spec_opt_str_line("enrollment_token"@, c.enrollment_token) + s4,
        s4 == spec_opt_str_line("organization_id"@, c.organization_id) + s5,
        "heartbeat_interval_sec"@.len() <= s5.len(),
        s5.take("heartbeat_interval_sec"@.len() as int) == "heartbeat_interval_sec"@,
    ensures
        spec_parse_opt_field("agent_secret"@, s2) == Some((spec_opt_seq(c.agent_secret), s3)),
{
    reveal_strlit("agent_secret");
    reveal_strlit("enrollment_token");
    reveal_strlit("organization_id");
    reveal_strlit("heartbeat_interval_sec");
    match c.agent_secret {
        Some(v) => {
            assert(s2 =~= spec_str_line("agent_secret"@, v@) + s3);
            lemma_parse_opt_field_some("agent_secret"@, v@, s3);
        },
        None => {
            assert(s2 =~= s3);
            assert("agent_secret"@[0] == 'a');
            assert("enrollment_token"@[0] == 'e');
            assert("organization_id"@[0] == 'o' && "heartbeat_interval_sec"@[0] == 'h');
            match c.enrollment_token {
                Some(v3) => {
                    assert(s3 =~= "enrollment_token"@ + (spec_eq_sep() + (spec_quoted(v3@) + (
                    seq!['\n'] + s4))));
                    assert(s3.take("enrollment_token"@.len() as int) =~= "enrollment_token"@);
                    lemma_parse_opt_field_skip("agent_secret"@, s2, "enrollment_token"@, 0);
                },
                None => {
                    assert(s3 =~= s4);
                    match c.organization_id {
                        Some(v4) => {
                            assert(s4 =~= "organization_id"@ + (spec_eq_sep() + (spec_quoted(v4@)
                                + (seq!['\n'] + s5))));
                            assert(s4.take("organization_id"@.len() as int)
                                =~= "organization_id"@);
                            lemma_parse_opt_field_skip("agent_secret"@, s2, "organization_id"@, 0);
                        },
                        None => {
                            assert(s4 =~= s5);
                            lemma_parse_opt_field_skip(
                                "agent_secret"@,
                                s2,
                                "heartbeat_interval_sec"@,
                                0,
                            );
                        },
                    }
                },
            }
        },
    }
}

proof fn lemma_opt_step_agent_id(
    c: AgentConfig,
    s1: Seq<char>,
    s2: Seq<char>,
    s3: Seq<char>,
    s4: Seq<char>,
    s5: Seq<char>,
)
    requires
        s1 == spec_opt_str_line("agent_id"@, c.agent_id) + s2,
        s2 == spec_opt_str_line("agent_secret"@, c.agent_secret) + s3,
        s3 == spec_opt_str_line("enrollment_token"@, c.enrollment_token) + s4,
        s4 == spec_opt_str_line("organization_id"@, c.organization_id) + s5,
        "heartbeat_interval_sec"@.len() <= s5.len(),
        s5.take("heartbeat_interval_sec"@.len() as int) == "heartbeat_interval_sec"@,
    ensures
        spec_parse_opt_field("agent_id"@, s1) == Some((spec_opt_seq(c.agent_id), s2)),
{
    reveal_strlit("agent_id");
    reveal_strlit("agent_secret");
    reveal_strlit("enrollment_token");
    reveal_strlit("organization_id");
    reveal_strlit("heartbeat_interval_sec");
    match c.agent_id {
        Some(v) => {
            assert(s1 =~= spec_str_line("agent_id"@, v@) + s2);
            lemma_parse_opt_field_some("agent_id"@, v@, s2);
        },
        None => {
            assert(s1 =~= s2);
            assert("agent_id"@[0] == 'a' && "agent_id"@[6] == 'i');
            assert("agent_secret"@[6] == 's');
            assert("enrollment_token"@[0] == 'e');
            assert("organization_id"@[0] == 'o' && "heartbeat_interval_sec"@[0] == 'h');
            match c.agent_secret {
                Some(v2) => {
                    assert(s2 =~= "agent_secret"@ + (spec_eq_sep() + (spec_quoted(v2@) + (
                    seq!['\n'] + s3))));
                    assert(s2.take("agent_secret"@.len() as int) =~= "agent_secret"@);
                    lemma_parse_opt_field_skip("agent_id"@, s1, "agent_secret"@, 6);
                },
                None => {
                    assert(s2 =~= s3);
                    match c.enrollment_token {
                        Some(v3) => {
                            assert(s3 =~= "enrollment_token"@ + (spec_eq_sep() + (spec_quoted(v3@)
                                + (seq!['\n'] + s4))));
                            assert(s3.take("enrollment_token"@.len() as int)
                                =~= "enrollment_token"@);
                            lemma_parse_opt_field_skip("agent_id"@, s1, "enrollment_token"@, 0);
                        },
                        None => {
                            assert(s3 =~= s4);
                            match c.organization_id {
                                Some(v4) => {
                                    assert(s4 =~= "organization_id"@ + (spec_eq_sep() + (
                                    spec_quoted(v4@) + (seq!['\n'] + s5))));
                                    assert(s4.take("organization_id"@.len() as int)
                                        =~= "organization_id"@);
                                    lemma_parse_opt_field_skip(
                                        "agent_id"@,
                                        s1,
                                        "organization_id"@,
                                        0,
                                    );
                                },
                                None => {
                                    assert(s4 =~= s5);
                                    lemma_parse_opt_field_skip(
                                        "agent_id"@,
                                        s1,
                                        "heartbeat_interval_sec"@,
                                        0,
                                    );
                                },
                            }
                        },
                    }
                },
            }
        },
    }
}

/// The persistent document reads back to exactly the structure it was
/// written from: saving a configuration and loading the document yields
/// the same configuration.
#[verifier::rlimit(100)]
#[verifier::spinoff_prover]
pub proof fn lemma_config_document_round_trip(c: AgentConfig)
    ensures
        spec_parse_config(spec_encode_config(c)) == Some(spec_config_view(c)),
{
    let line_a = spec_str_line("server_url"@, c.server_url@);
    let line_f = spec_int_line("heartbeat_interval_sec"@, c.heartbeat_interval_sec);
    let line_g = spec_int_line("metrics_interval_sec"@, c.metrics_interval_sec);
    let line_h = spec_int_line("inventory_interval_sec"@, c.inventory_interval_sec);
    let line_i = spec_int_line("job_poll_interval_sec"@, c.job_poll_interval_sec);
    let line_j = spec_array_line("capabilities"@, spec_strs_view(c.capabilities@));
    let line_k = spec_str_line("log_level"@, c.log_level@);
    let s10 = line_k;
    let s9 = line_j + s10;
    let s8 = line_i + s9;
    let s7 = line_h + s8;
    let s6 = line_g + s7;
    let s5 = line_f + s6;
    let s4 = spec_opt_str_line("organization_id"@, c.organization_id) + s5;
    let s3 = spec_opt_str_line("enrollment_token"@, c.enrollment_token) + s4;
    let s2 = spec_opt_str_line("agent_secret"@, c.agent_secret) + s3;
    let s1 = spec_opt_str_line("agent_id"@, c.agent_id) + s2;
    let s0 = spec_encode_config(c);
    assert(s0 =~= line_a + s1);
    assert(s5 =~= "heartbeat_interval_sec"@ + (spec_eq_sep() + (spec_dec_nat(
        c.heartbeat_interval_sec as nat,
    ) + (seq!['\n'] + s6))));
    assert(s5.take("heartbeat_interval_sec"@.len() as int) =~= "heartbeat_interval_sec"@);

    lemma_parse_str_field_line("server_url"@, c.server_url@, s1);
    assert(spec_parse_str_field("server_url"@, s0) == Some((c.server_url@, s1)));
    lemma_opt_step_agent_id(c, s1, s2, s3, s4, s5);
    lemma_opt_step_secret(c, s2, s3, s4, s5);
    lemma_opt_step_token(c, s3, s4, s5);
    lemma_opt_step_org(c, s4, s5);
    lemma_parse_int_field_line("heartbeat_interval_sec"@, c.heartbeat_interval_sec, s6);
    lemma_parse_int_field_line("metrics_interval_sec"@, c.metrics_interval_sec, s7);
    lemma_parse_int_field_line("inventory_interval_sec"@, c.inventory_interval_sec, s8);
    lemma_parse_int_field_line("job_poll_interval_sec"@, c.job_poll_interval_sec, s9);
    lemma_parse_array_field_line("capabilities"@, spec_strs_view(c.capabilities@), s10);
    assert(s10 =~= spec_str_line("log_level"@, c.log_level@) + Seq::<char>::empty());
    lemma_parse_str_field_line("log_level"@, c.log_level@, Seq::<char>::empty());

    assert(spec_parse_config(s0) == Some(spec_config_view(c)));
}

} // verus!
