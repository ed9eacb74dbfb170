//! Small verified string utilities shared by the hook commands.

use vstd::prelude::*;
use vstd::string::*;

verus! {

/// Character-wise equality of two string slices.
pub fn str_eq(a: &str, b: &str) -> (eq: bool)
    ensures
        eq == (a@ == b@),
{
    let n = a.unicode_len();
    if n != b.unicode_len() {
        return false;
    }
    let mut i: usize = 0;
    while i < n
        invariant
            n == a@.len(),
            n == b@.len(),
            i <= n,
            forall|j: int| 0 <= j < i ==> a@[j] == b@[j],
        decreases n - i,
    {
        if a.get_char(i) != b.get_char(i) {
            return false;
        }
        i += 1;
    }
    assert(a@ =~= b@);
    true
}

/// Whether `s` begins with `prefix`.
pub open spec fn has_prefix(s: Seq<char>, prefix: Seq<char>) -> bool {
    prefix.len() <= s.len() && s.subrange(0, prefix.len() as int) == prefix
}

/// Character-wise prefix test.
pub fn starts_with(s: &str, prefix: &str) -> (res: bool)
    ensures
        res == has_prefix(s@, prefix@),
{
    let n = s.unicode_len();
    let m = prefix.unicode_len();
    if m > n {
        return false;
    }
    let mut i: usize = 0;
    while i < m
        invariant
            n == s@.len(),
            m == prefix@.len(),
            m <= n,
            i <= m,
            forall|j: int| 0 <= j < i ==> s@[j] == prefix@[j],
        decreases m - i,
    {
        if s.get_char(i) != prefix.get_char(i) {
            assert(s@.subrange(0, m as int)[i as int] != prefix@[i as int]);
            return false;
        }
        i += 1;
    }
    assert(s@.subrange(0, m as int) =~= prefix@);
    true
}

/// The text that `c` becomes inside a single-quoted shell literal.
pub open spec fn quoted_piece(c: char) -> Seq<char> {
    if c == '\'' {
        seq!['\'', '\\', '\'', '\'']
    } else {
        seq![c]
    }
}

/// `s` with every apostrophe replaced by the POSIX `'\''` idiom.
pub open spec fn shell_quoted(s: Seq<char>) -> Seq<char>
    decreases s.len(),
{
    if s.len() == 0 {
        Seq::empty()
    } else {
        quoted_piece(s[0]) + shell_quoted(s.drop_first())
    }
}

/// What a POSIX shell reads back from the inside of a single-quoted literal
/// whose apostrophes were written with the `'\''` idiom.
pub open spec fn shell_unquoted(t: Seq<char>) -> Seq<char>
    decreases t.len(),
{
    if t.len() == 0 {
        Seq::empty()
    } else if t.len() >= 4 && t.subrange(0, 4) == seq!['\'', '\\', '\'', '\''] {
        seq!['\''] + shell_unquoted(t.subrange(4, t.len() as int))
    } else {
        seq![t[0]] + shell_unquoted(t.drop_first())
    }
}

/// Escape a string for safe inclusion inside a single-quoted shell literal.
///
/// Uses the POSIX-portable `'\''` idiom: close the quote, emit an escaped
/// single quote, reopen the quote.
pub fn shell_single_quote(value: &str) -> (quoted: String)
    ensures
        quoted@ == shell_quoted(value@),
{
    let n = value.unicode_len();
    let mut out = String::new();
    let mut i: usize = 0;
    proof {
        reveal_strlit("'\\''");
        assert(value@.skip(0) =~= value@);
    }
    while i < n
        invariant
            n == value@.len(),
            i <= n,
            out@ + shell_quoted(value@.skip(i as int)) == shell_quoted(value@),
        decreases n - i,
    {
        let c = value.get_char(i);
        let ghost rest = value@.skip(i as int);
        assert(rest[0] == c);
        assert(rest.drop_first() =~= value@.skip(i + 1));
        let ghost before = out@;
        if c == '\'' {
            proof {
                reveal_strlit("'\\''");
            }
            out.append("'\\''");
            assert("'\\''"@ =~= quoted_piece(c));
        } else {
            out.append(value.substring_char(i, i + 1));
            assert(value@.subrange(i as int, i + 1) =~= quoted_piece(c));
        }
        assert(out@ + shell_quoted(value@.skip(i + 1)) =~= before + shell_quoted(rest));
        i += 1;
    }
    assert(value@.skip(n as int) =~= Seq::<char>::empty());
    assert(out@ + Seq::<char>::empty() =~= out@);
    out
}

/// Reading a quoted value back gives the unquoted value: the escaping is lossless.
pub proof fn shell_single_quote_round_trip(s: Seq<char>)
    ensures
        shell_unquoted(shell_quoted(s)) == s,
    decreases s.len(),
{
    if s.len() == 0 {
    } else {
        let rest = s.drop_first();
        shell_single_quote_round_trip(rest);
        let t = shell_quoted(s);
        let qr = shell_quoted(rest);
        assert(t == quoted_piece(s[0]) + qr);
        if s[0] == '\'' {
            assert(t.subrange(0, 4) =~= seq!['\'', '\\', '\'', '\'']);
            assert(t.subrange(4, t.len() as int) =~= qr);
            assert(shell_unquoted(t) == seq!['\''] + s.drop_first());
        } else {
            assert(t[0] == s[0]);
            assert(t.drop_first() =~= qr);
            if t.len() >= 4 {
                assert(t.subrange(0, 4)[0] != '\'');
            }
        }
        assert(shell_unquoted(t) =~= s);
    }
}

/// A value without apostrophes is left unchanged by the escaping.
pub proof fn shell_quoted_without_apostrophes_is_identity(s: Seq<char>)
    requires
        forall|i: int| 0 <= i < s.len() ==> s[i] != '\'',
    ensures
        shell_quoted(s) == s,
    decreases s.len(),
{
    if s.len() > 0 {
        let rest = s.drop_first();
        assert forall|i: int| 0 <= i < rest.len() implies rest[i] != '\'' by {
            assert(rest[i] == s[i + 1]);
        }
        shell_quoted_without_apostrophes_is_identity(rest);
        assert(shell_quoted(s) =~= s);
    }
}

/// `s` with every `-` replaced by `_`.
pub open spec fn dashes_to_underscores(s: Seq<char>) -> Seq<char> {
    Seq::new(s.len(), |i: int| if s[i] == '-' { '_' } else { s[i] })
}

/// Replace each `-` in `s` by `_` (as used for shell variable names).
pub fn replace_dashes(s: &str) -> (res: String)
    ensures
        res@ == dashes_to_underscores(s@),
{
    let n = s.unicode_len();
    let mut out = String::new();
    let mut i: usize = 0;
    while i < n
        invariant
            n == s@.len(),
            i <= n,
            out@ =~= dashes_to_underscores(s@).subrange(0, i as int),
        decreases n - i,
    {
        let c = s.get_char(i);
        let ghost before = out@;
        if c == '-' {
            proof {
                reveal_strlit("_");
            }
            out.append("_");
        } else {
            out.append(s.substring_char(i, i + 1));
        }
        assert(out@ =~= dashes_to_underscores(s@).subrange(0, i + 1));
        i += 1;
    }
    out
}

/// The elements of `items` separated by `sep`.
pub open spec fn joined(items: Seq<Seq<char>>, sep: Seq<char>) -> Seq<char>
    decreases items.len(),
{
    if items.len() == 0 {
        Seq::empty()
    } else if items.len() == 1 {
        items[0]
    } else {
        joined(items.drop_last(), sep) + sep + items.last()
    }
}

/// Join strings with a separator.
pub fn join(items: &Vec<String>, sep: &str) -> (res: String)
    ensures
        res@ == joined(items.deep_view(), sep@),
{
    let mut out = String::new();
    let mut i: usize = 0;
    while i < items.len()
        invariant
            i <= items.len(),
            out@ == joined(items.deep_view().subrange(0, i as int), sep@),
        decreases items.len() - i,
    {
        let ghost prefix = items.deep_view().subrange(0, i as int);
        let ghost next = items.deep_view().subrange(0, i + 1);
        assert(next.drop_last() =~= prefix);
        assert(next.last() == items[i as int]@);
        if i > 0 {
            out.append(sep);
        }
        out.append(items[i].as_str());
        i += 1;
    }
    assert(items.deep_view().subrange(0, items.len() as int) =~= items.deep_view());
    out
}

/// `"true"` or `"false"`, as Rust prints a `bool`.
pub open spec fn bool_text(b: bool) -> Seq<char> {
    if b {
        "true"@
    } else {
        "false"@
    }
}

/// Render a `bool` as Rust prints it.
pub fn bool_to_string(b: bool) -> (s: String)
    ensures
        s@ == bool_text(b),
{
    if b {
        String::from_str("true")
    } else {
        String::from_str("false")
    }
}

/// The index of the first line feed in `s`, or its length when there is none.
pub open spec fn newline_index(s: Seq<char>) -> nat
    decreases s.len(),
{
    if s.len() == 0 {
        0
    } else if s[0] == '\n' {
        0
    } else {
        1 + newline_index(s.drop_first())
    }
}

/// `line` without one trailing carriage return.
pub open spec fn strip_cr(line: Seq<char>) -> Seq<char> {
    if line.len() > 0 && line.last() == '\r' {
        line.drop_last()
    } else {
        line
    }
}

/// The lines of `s`, as Rust's `str::lines` splits them: at `\n` or `\r\n`,
/// with the final line ending optional.
pub open spec fn text_lines(s: Seq<char>) -> Seq<Seq<char>>
    decreases s.len(),
{
    if s.len() == 0 {
        Seq::empty()
    } else {
        let k = newline_index(s);
        if k < s.len() {
            seq![strip_cr(s.subrange(0, k as int))] + text_lines(s.subrange(k as int + 1, s.len() as int))
        } else {
            seq![s]
        }
    }
}

proof fn newline_index_is_first_newline(s: Seq<char>, k: int)
    requires
        0 <= k <= s.len(),
        forall|j: int| 0 <= j < k ==> s[j] != '\n',
        k < s.len() ==> s[k] == '\n',
    ensures
        newline_index(s) == k,
    decreases k,
{
    if k > 0 {
        let t = s.drop_first();
        assert forall|j: int| 0 <= j < k - 1 implies t[j] != '\n' by {
            assert(t[j] == s[j + 1]);
        }
        if k < s.len() {
            assert(t[k - 1] == s[k]);
        }
        newline_index_is_first_newline(t, k - 1);
    }
}

/// Split a text into lines as Rust's `str::lines` does.
pub fn split_lines(s: &str) -> (lines: Vec<String>)
    ensures
        lines.deep_view() == text_lines(s@),
{
    let n = s.unicode_len();
    let mut lines: Vec<String> = Vec::new();
    let mut start: usize = 0;
    let mut i: usize = 0;
    proof {
        assert(s@.subrange(0, n as int) =~= s@);
    }
    while i < n
        invariant
            start <= i <= n,
            n == s@.len(),
            text_lines(s@) == lines.deep_view() + text_lines(s@.subrange(start as int, n as int)),
            forall|j: int| start <= j < i ==> s@[j] != '\n',
        decreases n - i,
    {
        if s.get_char(i) == '\n' {
            let ghost t = s@.subrange(start as int, n as int);
            proof {
                assert forall|j: int| 0 <= j < i - start implies t[j] != '\n' by {
                    assert(t[j] == s@[start + j]);
                }
                assert(t[i - start] == s@[i as int]);
                newline_index_is_first_newline(t, i - start);
                assert(t.subrange(i - start + 1, t.len() as int) =~= s@.subrange(i + 1, n as int));
                assert(t.subrange(0, i - start) =~= s@.subrange(start as int, i as int));
            }
            let mut end = i;
            if end > start && s.get_char(end - 1) == '\r' {
                end = end - 1;
            }
            let line = String::from_str(s.substring_char(start, end));
            assert(line@ == strip_cr(s@.subrange(start as int, i as int)));
            let ghost before = lines.deep_view();
            lines.push(line);
            assert(lines.deep_view() =~= before.push(strip_cr(s@.subrange(start as int, i as int))));
            assert(text_lines(s@) =~= lines.deep_view() + text_lines(s@.subrange(i + 1, n as int)));
            start = i + 1;
        }
        i += 1;
    }
    let ghost t = s@.subrange(start as int, n as int);
    proof {
        assert forall|j: int| 0 <= j < t.len() implies t[j] != '\n' by {
            assert(t[j] == s@[start + j]);
        }
        newline_index_is_first_newline(t, t.len() as int);
    }
    if start < n {
        let line = String::from_str(s.substring_char(start, n));
        let ghost before = lines.deep_view();
        lines.push(line);
        assert(lines.deep_view() =~= before + text_lines(t));
    } else {
        assert(lines.deep_view() =~= lines.deep_view() + text_lines(t));
    }
    lines
}

} // verus!
