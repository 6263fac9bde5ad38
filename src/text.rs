//! Character-level helpers over script text.
use vstd::prelude::*;
use vstd::string::*;

verus! {

/// The characters that `char::is_whitespace` accepts (Unicode `White_Space`).
pub open spec fn is_ws(c: char) -> bool {
    ||| c == '\t' || c == '\n' || c == '\u{0B}' || c == '\u{0C}' || c == '\r' || c == ' '
    ||| c == '\u{85}' || c == '\u{A0}' || c == '\u{1680}'
    ||| ('\u{2000}' <= c && c <= '\u{200A}')
    ||| c == '\u{2028}' || c == '\u{2029}' || c == '\u{202F}' || c == '\u{205F}' || c == '\u{3000}'
}

/// Executable whitespace test.
pub fn is_space(c: char) -> (r: bool)
    ensures
        r == is_ws(c),
{
    c == '\t' || c == '\n' || c == '\u{0B}' || c == '\u{0C}' || c == '\r' || c == ' '
        || c == '\u{85}' || c == '\u{A0}' || c == '\u{1680}' || ('\u{2000}' <= c && c <= '\u{200A}')
        || c == '\u{2028}' || c == '\u{2029}' || c == '\u{202F}' || c == '\u{205F}'
        || c == '\u{3000}'
}

/// The characters of `s`, in order.
pub fn chars_of(s: &str) -> (r: Vec<char>)
    ensures
        r@ == s@,
{
    let mut out: Vec<char> = Vec::new();
    for c in it: s.chars()
        invariant
            out@ == it.seq().take(it.index() as int),
    {
        out.push(c);
    }
    out
}

/// The views of a sequence of strings.
pub open spec fn views(v: Seq<String>) -> Seq<Seq<char>> {
    v.map_values(|l: String| l@)
}

/// The line text before a `'\n'` terminator, with one `'\r'` before it removed.
pub open spec fn strip_cr(l: Seq<char>) -> Seq<char> {
    if l.len() > 0 && l.last() == '\r' {
        l.drop_last()
    } else {
        l
    }
}

/// The lines of `s[start..]`, where the current line began at `start` and
/// `s[start..i]` holds no line feed.
pub open spec fn lines_acc(s: Seq<char>, start: int, i: int) -> Seq<Seq<char>>
    decreases s.len() - i,
{
    if i >= s.len() {
        if start < s.len() {
            seq![s.subrange(start, s.len() as int)]
        } else {
            seq![]
        }
    } else if s[i] == '\n' {
        seq![strip_cr(s.subrange(start, i))] + lines_acc(s, i + 1, i + 1)
    } else {
        lines_acc(s, start, i + 1)
    }
}

/// The lines of a text as `str::lines` yields them: split at each `'\n'`
/// (dropping a `'\r'` just before it), with no empty line after a final
/// terminator.
pub open spec fn lines_of(s: Seq<char>) -> Seq<Seq<char>> {
    lines_acc(s, 0, 0)
}

/// An owned copy of `s[from..to]`.
pub fn substring(s: &str, from: usize, to: usize) -> (r: String)
    requires
        from <= to <= s@.len(),
    ensures
        r@ == s@.subrange(from as int, to as int),
{
    String::from_str(s.substring_char(from, to))
}

/// Splits a text into its lines.
pub fn split_lines(s: &str) -> (r: Vec<String>)
    ensures
        views(r@) == lines_of(s@),
{
    let cs = chars_of(s);
    let n = cs.len();
    let mut out: Vec<String> = Vec::new();
    let mut start: usize = 0;
    let mut i: usize = 0;
    while i < n
        invariant
            cs@ == s@,
            n == cs@.len(),
            start <= i <= n,
            views(out@) + lines_acc(s@, start as int, i as int) == lines_of(s@),
        decreases n - i,
    {
        if cs[i] == '\n' {
            let end: usize = if i > start && cs[i - 1] == '\r' {
                i - 1
            } else {
                i
            };
            let piece = substring(s, start, end);
            proof {
                assert(piece@ == strip_cr(s@.subrange(start as int, i as int)));
                assert(views(out@.push(piece)) =~= views(out@).push(piece@));
                assert(views(out@) + lines_acc(s@, start as int, i as int) =~= views(out@.push(piece))
                    + lines_acc(s@, i + 1, i + 1));
            }
            out.push(piece);
            start = i + 1;
        }
        i = i + 1;
    }
    if start < n {
        let piece = substring(s, start, n);
        proof {
            assert(views(out@.push(piece)) =~= views(out@).push(piece@));
            assert(views(out@) + lines_acc(s@, start as int, i as int) =~= views(out@.push(piece)));
        }
        out.push(piece);
    } else {
        assert(views(out@) + lines_acc(s@, start as int, i as int) =~= views(out@));
    }
    out
}

} // verus!
