//! Rendering a snapshot as a line-oriented, indentation-nested key-value
//! document: one `Key: value` line per field, in declaration order, absent
//! values written as `~`, the distribution as a block of indented lines.

use vstd::prelude::*;
use vstd::string::*;

use crate::distribution::Distribution;
use crate::system_info::SystemInfo;

verus! {

/// Relies on String::push_str: appends the characters of `s`.
#[verifier::external_body]
fn append_str(out: &mut String, s: &str)
    ensures
        final(out)@ == old(out)@ + s@,
{
    out.push_str(s)
}

/// Relies on String::push: appends one character.
#[verifier::external_body]
fn append_char(out: &mut String, c: char)
    ensures
        final(out)@ == old(out)@.push(c),
{
    out.push(c)
}

/// The marker written for an absent value.
pub open spec fn null_marker() -> Seq<char> {
    "~"@
}

/// The characters used for digits, in order of value.
pub open spec fn digit_chars() -> Seq<char> {
    "0123456789abcdef"@
}

/// The decimal numeral of `n`, without leading zeros.
pub open spec fn decimal(n: nat) -> Seq<char>
    decreases n,
{
    if n < 10 {
        seq![digit_chars()[n as int]]
    } else {
        decimal(n / 10).push(digit_chars()[(n % 10) as int])
    }
}

/// Whether `c` is a control character, written as a hex escape.
pub open spec fn is_control(c: char) -> bool {
    (c as u32) < 0x20 || (0x7f <= (c as u32) && (c as u32) <= 0x9f)
}

/// How one character of a text value is written inside double quotes.
pub open spec fn escaped_char(c: char) -> Seq<char> {
    if c == '"' {
        seq!['\\', '"']
    } else if c == '\\' {
        seq!['\\', '\\']
    } else if c == '\n' {
        seq!['\\', 'n']
    } else if c == '\r' {
        seq!['\\', 'r']
    } else if c == '\t' {
        seq!['\\', 't']
    } else if is_control(c) {
        seq![
            '\\',
            'x',
            digit_chars()[((c as u32) / 16) as int],
            digit_chars()[((c as u32) % 16) as int],
        ]
    } else {
        seq![c]
    }
}

/// The characters of `s`, each escaped.
pub open spec fn escaped(s: Seq<char>) -> Seq<char>
    decreases s.len(),
{
    if s.len() == 0 {
        Seq::empty()
    } else {
        escaped(s.drop_last()) + escaped_char(s.last())
    }
}

/// A text value: double-quoted and escaped, or the null marker.
pub open spec fn text_value(v: Option<String>) -> Seq<char> {
    match v {
        Some(s) => "\""@ + escaped(s@) + "\""@,
        None => null_marker(),
    }
}

/// A numeric value: its decimal numeral, or the null marker.
pub open spec fn number_value(v: Option<u64>) -> Seq<char> {
    match v {
        Some(n) => decimal(n as nat),
        None => null_marker(),
    }
}

/// A top-level line.
pub open spec fn line(key: Seq<char>, value: Seq<char>) -> Seq<char> {
    key + ": "@ + value + "\n"@
}

/// A line nested one level under its parent key.
pub open spec fn nested_line(key: Seq<char>, value: Seq<char>) -> Seq<char> {
    "  "@ + line(key, value)
}

/// The lines of a distribution's fields, nested under their parent key.
pub open spec fn distribution_lines(d: Distribution) -> Seq<char> {
    nested_line("Id"@, text_value(d.id)) +
    nested_line("IdLike"@, text_value(d.id_like)) +
    nested_line("Name"@, text_value(d.name)) +
    nested_line("PrettyName"@, text_value(d.pretty_name)) +
    nested_line("Version"@, text_value(d.version)) +
    nested_line("VersionId"@, text_value(d.version_id)) +
    nested_line("VersionCodename"@, text_value(d.version_codename)) +
    nested_line("CpeName"@, text_value(d.cpe_name)) +
    nested_line("BuildId"@, text_value(d.build_id)) +
    nested_line("Variant"@, text_value(d.variant)) +
    nested_line("VariantId"@, text_value(d.variant_id))
}

/// The `Distribution` entry: a nested block, or the null marker.
pub open spec fn distribution_entry(v: Option<Distribution>) -> Seq<char> {
    match v {
        Some(d) => "Distribution:\n"@ + distribution_lines(d),
        None => line("Distribution"@, null_marker()),
    }
}

/// The document for a snapshot.
pub open spec fn render(s: SystemInfo) -> Seq<char> {
    line("OsType"@, text_value(s.os_type)) + line("OsRelease"@, text_value(s.os_release))
        + distribution_entry(s.distribution) + line("MemoryTotal"@, number_value(s.memory_total))
        + line("SwapTotal"@, number_value(s.swap_total)) + line(
        "Hostname"@,
        text_value(s.hostname),
    ) + line("CpuCount"@, decimal(s.cpu_count as nat)) + line(
        "CpuOnlineCount"@,
        decimal(s.cpu_online_count as nat),
    ) + line("CpuSpeed"@, number_value(s.cpu_speed))
}

fn push_decimal(out: &mut String, n: u64)
    ensures
        final(out)@ == old(out)@ + decimal(n as nat),
    decreases n,
{
    proof {
        reveal_strlit("0123456789abcdef");
    }
    if n >= 10 {
        push_decimal(out, n / 10);
    }
    let c = "0123456789abcdef".get_char((n % 10) as usize);
    append_char(out, c);
    assert(final(out)@ =~= old(out)@ + decimal(n as nat));
}

fn push_escaped_char(out: &mut String, c: char)
    ensures
        final(out)@ == old(out)@ + escaped_char(c),
{
    proof {
        reveal_strlit("0123456789abcdef");
    }
    let code = c as u32;
    if c == '"' {
        append_char(out, '\\');
        append_char(out, '"');
    } else if c == '\\' {
        append_char(out, '\\');
        append_char(out, '\\');
    } else if c == '\n' {
        append_char(out, '\\');
        append_char(out, 'n');
    } else if c == '\r' {
        append_char(out, '\\');
        append_char(out, 'r');
    } else if c == '\t' {
        append_char(out, '\\');
        append_char(out, 't');
    } else if code < 0x20 || (0x7f <= code && code <= 0x9f) {
        append_char(out, '\\');
        append_char(out, 'x');
        append_char(out, "0123456789abcdef".get_char((code / 16) as usize));
        append_char(out, "0123456789abcdef".get_char((code % 16) as usize));
    } else {
        append_char(out, c);
    }
    assert(final(out)@ =~= old(out)@ + escaped_char(c));
}

fn push_escaped(out: &mut String, s: &String)
    ensures
        final(out)@ == old(out)@ + escaped(s@),
{
    let n = s.as_str().unicode_len();
    let ghost start = out@;
    let mut i: usize = 0;
    while i < n
        invariant
            n == s@.len(),
            i <= n,
            out@ == start + escaped(s@.subrange(0, i as int)),
        decreases n - i,
    {
        let c = s.as_str().get_char(i);
        push_escaped_char(out, c);
        proof {
            assert(s@.subrange(0, i + 1).drop_last() =~= s@.subrange(0, i as int));
        }
        i = i + 1;
        assert(out@ =~= start + escaped(s@.subrange(0, i as int)));
    }
    assert(s@.subrange(0, n as int) =~= s@);
}

fn push_text_value(out: &mut String, v: &Option<String>)
    ensures
        final(out)@ == old(out)@ + text_value(*v),
{
    match v {
        Some(s) => {
            let ghost start = out@;
            append_str(out, "\"");
            push_escaped(out, s);
            append_str(out, "\"");
            assert(out@ =~= start + text_value(*v));
        },
        None => append_str(out, "~"),
    }
}

fn push_number_value(out: &mut String, v: Option<u64>)
    ensures
        final(out)@ == old(out)@ + number_value(v),
{
    match v {
        Some(n) => push_decimal(out, n),
        None => append_str(out, "~"),
    }
}

fn push_text_line(out: &mut String, key: &str, v: &Option<String>)
    ensures
        final(out)@ == old(out)@ + line(key@, text_value(*v)),
{
    let ghost start = out@;
    append_str(out, key);
    append_str(out, ": ");
    push_text_value(out, v);
    append_str(out, "\n");
    assert(out@ =~= start + line(key@, text_value(*v)));
}

fn push_number_line(out: &mut String, key: &str, v: Option<u64>)
    ensures
        final(out)@ == old(out)@ + line(key@, number_value(v)),
{
    let ghost start = out@;
    append_str(out, key);
    append_str(out, ": ");
    push_number_value(out, v);
    append_str(out, "\n");
    assert(out@ =~= start + line(key@, number_value(v)));
}

fn push_count_line(out: &mut String, key: &str, n: u64)
    ensures
        final(out)@ == old(out)@ + line(key@, decimal(n as nat)),
{
    let ghost start = out@;
    append_str(out, key);
    append_str(out, ": ");
    push_decimal(out, n);
    append_str(out, "\n");
    assert(out@ =~= start + line(key@, decimal(n as nat)));
}

fn push_nested_text(out: &mut String, key: &str, v: &Option<String>)
    ensures
        final(out)@ == old(out)@ + nested_line(key@, text_value(*v)),
{
    let ghost start = out@;
    append_str(out, "  ");
    push_text_line(out, key, v);
    assert(out@ =~= start + nested_line(key@, text_value(*v)));
}

fn push_distribution_lines(out: &mut String, d: &Distribution)
    ensures
        final(out)@ == old(out)@ + distribution_lines(*d),
{
    let ghost start = out@;
    push_nested_text(out, "Id", &d.id);
    push_nested_text(out, "IdLike", &d.id_like);
    push_nested_text(out, "Name", &d.name);
    push_nested_text(out, "PrettyName", &d.pretty_name);
    push_nested_text(out, "Version", &d.version);
    push_nested_text(out, "VersionId", &d.version_id);
    push_nested_text(out, "VersionCodename", &d.version_codename);
    push_nested_text(out, "CpeName", &d.cpe_name);
    push_nested_text(out, "BuildId", &d.build_id);
    push_nested_text(out, "Variant", &d.variant);
    push_nested_text(out, "VariantId", &d.variant_id);
    assert(out@ =~= start + distribution_lines(*d));
}

fn push_distribution_entry(out: &mut String, v: &Option<Distribution>)
    ensures
        final(out)@ == old(out)@ + distribution_entry(*v),
{
    let ghost start = out@;
    match v {
        Some(d) => {
            append_str(out, "Distribution:\n");
            push_distribution_lines(out, d);
        },
        None => {
            append_str(out, "Distribution");
            append_str(out, ": ");
            append_str(out, "~");
            append_str(out, "\n");
        },
    }
    assert(out@ =~= start + distribution_entry(*v));
}

/// A decimal numeral is never empty and ends in a digit.
pub proof fn lemma_decimal_ends_in_digit(n: nat)
    ensures
        decimal(n).len() >= 1,
        decimal(n).last() == digit_chars()[(n % 10) as int],
        decimal(n).last() != '\n',
    decreases n,
{
    reveal_strlit("0123456789abcdef");
    if n >= 10 {
        lemma_decimal_ends_in_digit(n / 10);
    }
}

/// Rendering depends on the snapshot alone: equal snapshots render to
/// identical text.
pub proof fn lemma_render_deterministic(a: SystemInfo, b: SystemInfo)
    requires
        a == b,
    ensures
        render(a) == render(b),
{
}

/// Every rendered document starts with the first key, not a document
/// separator, and ends in exactly one newline.
pub proof fn lemma_render_shape(s: SystemInfo)
    ensures
        render(s).len() >= 2,
        render(s)[0] == 'O',
        render(s).last() == '\n',
        render(s)[render(s).len() - 2] != '\n',
{
    reveal_strlit("OsType");
    reveal_strlit(": ");
    reveal_strlit("~");
    reveal_strlit("\n");
    reveal_strlit("CpuSpeed");
    let first = line("OsType"@, text_value(s.os_type));
    let last_value = number_value(s.cpu_speed);
    let last = line("CpuSpeed"@, last_value);
    let rest = render(s).subrange(first.len() as int, render(s).len() - last.len());
    match s.cpu_speed {
        Some(n) => lemma_decimal_ends_in_digit(n as nat),
        None => {},
    }
    assert(last[last.len() - 1] == '\n');
    assert(last[last.len() - 2] == last_value.last());
    assert(render(s) =~= first + rest + last);
    assert(render(s)[0] == first[0]);
}

/// With every optional field absent, the document still lists every key, each
/// absent value written as the null marker.
pub proof fn lemma_render_all_absent(s: SystemInfo)
    requires
        s.os_type is None,
        s.os_release is None,
        s.distribution is None,
        s.memory_total is None,
        s.swap_total is None,
        s.hostname is None,
        s.cpu_speed is None,
    ensures
        render(s) == "OsType: ~\nOsRelease: ~\nDistribution: ~\nMemoryTotal: ~\nSwapTotal: ~\nHostname: ~\nCpuCount: "@
            + decimal(s.cpu_count as nat) + "\nCpuOnlineCount: "@ + decimal(
            s.cpu_online_count as nat,
        ) + "\nCpuSpeed: ~\n"@,
{
    reveal_strlit("OsType");
    reveal_strlit("OsRelease");
    reveal_strlit("Distribution");
    reveal_strlit("MemoryTotal");
    reveal_strlit("SwapTotal");
    reveal_strlit("Hostname");
    reveal_strlit("CpuCount");
    reveal_strlit("CpuOnlineCount");
    reveal_strlit("CpuSpeed");
    reveal_strlit(": ");
    reveal_strlit("~");
    reveal_strlit("\n");
    reveal_strlit("OsType: ~\nOsRelease: ~\nDistribution: ~\nMemoryTotal: ~\nSwapTotal: ~\nHostname: ~\nCpuCount: ");
    reveal_strlit("\nCpuOnlineCount: ");
    reveal_strlit("\nCpuSpeed: ~\n");
    assert(render(s) =~= "OsType: ~\nOsRelease: ~\nDistribution: ~\nMemoryTotal: ~\nSwapTotal: ~\nHostname: ~\nCpuCount: "@
        + decimal(s.cpu_count as nat) + "\nCpuOnlineCount: "@ + decimal(s.cpu_online_count as nat)
        + "\nCpuSpeed: ~\n"@);
}

impl SystemInfo {
    /// Renders the snapshot as a key-value document. Rendering cannot fail;
    /// the text has no leading document separator and ends in one newline.
    pub fn as_yaml(&self) -> (r: String)
        ensures
            r@ == render(*self),
    {
        let mut out = String::new();
        push_text_line(&mut out, "OsType", &self.os_type);
        push_text_line(&mut out, "OsRelease", &self.os_release);
        push_distribution_entry(&mut out, &self.distribution);
        push_number_line(&mut out, "MemoryTotal", self.memory_total);
        push_number_line(&mut out, "SwapTotal", self.swap_total);
        push_text_line(&mut out, "Hostname", &self.hostname);
        push_count_line(&mut out, "CpuCount", self.cpu_count);
        push_count_line(&mut out, "CpuOnlineCount", self.cpu_online_count);
        push_number_line(&mut out, "CpuSpeed", self.cpu_speed);
        assert(out@ =~= render(*self));
        out
    }
}

} // verus!
