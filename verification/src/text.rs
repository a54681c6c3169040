//! Text building blocks: appending characters, decimal rendering, and
//! splitting text into lines the way `str::lines` does.

use vstd::prelude::*;
use vstd::string::*;

verus! {

/// Relies on `String::push`: appends exactly the given character.
#[verifier::external_body]
pub(crate) fn push_char(s: &mut String, c: char)
    ensures
        final(s)@ == old(s)@.push(c),
{
    s.push(c);
}

/// The decimal digit character for a value below ten.
pub open spec fn spec_digit(d: int) -> char {
    if d == 0 {
        '0'
    } else if d == 1 {
        '1'
    } else if d == 2 {
        '2'
    } else if d == 3 {
        '3'
    } else if d == 4 {
        '4'
    } else if d == 5 {
        '5'
    } else if d == 6 {
        '6'
    } else if d == 7 {
        '7'
    } else if d == 8 {
        '8'
    } else {
        '9'
    }
}

/// The decimal rendering of a non-negative integer, most significant
/// digit first.
pub open spec fn spec_dec_nat(n: int) -> Seq<char>
    decreases n,
{
    if n < 10 {
        seq![spec_digit(n)]
    } else {
        spec_dec_nat(n / 10).push(spec_digit(n % 10))
    }
}

/// The decimal rendering of a signed integer: a minus sign, then the
/// digits of its magnitude.
pub open spec fn spec_dec_i32(n: int) -> Seq<char> {
    if n < 0 {
        seq!['-'] + spec_dec_nat(-n)
    } else {
        spec_dec_nat(n)
    }
}

fn digit_char(d: u8) -> (c: char)
    requires
        d < 10,
    ensures
        c == spec_digit(d as int),
{
    if d == 0 {
        '0'
    } else if d == 1 {
        '1'
    } else if d == 2 {
        '2'
    } else if d == 3 {
        '3'
    } else if d == 4 {
        '4'
    } else if d == 5 {
        '5'
    } else if d == 6 {
        '6'
    } else if d == 7 {
        '7'
    } else if d == 8 {
        '8'
    } else {
        '9'
    }
}

/// Appends the decimal rendering of `n` to `out`.
pub fn append_dec_u32(out: &mut String, n: u32)
    ensures
        final(out)@ == old(out)@ + spec_dec_nat(n as int),
    decreases n,
{
    if n >= 10 {
        append_dec_u32(out, n / 10);
    }
    push_char(out, digit_char((n % 10) as u8));
    proof {
        assert(old(out)@ + spec_dec_nat(n as int) =~= out@);
    }
}

/// Appends the decimal rendering of a signed 32-bit integer to `out`.
pub fn append_dec_i32(out: &mut String, n: i32)
    ensures
        final(out)@ == old(out)@ + spec_dec_i32(n as int),
{
    if n < 0 {
        push_char(out, '-');
        let wide: i64 = -(n as i64);
        let magnitude: u32 = wide as u32;
        append_dec_u32(out, magnitude);
        proof {
            assert(old(out)@ + spec_dec_i32(n as int) =~= out@);
        }
    } else {
        append_dec_u32(out, n as u32);
    }
}

/// The index of the first newline in `s`, or `s.len()` when there is none.
pub open spec fn first_nl(s: Seq<char>) -> int
    decreases s.len(),
{
    if s.len() == 0 {
        0
    } else if s[0] == '\n' {
        0
    } else {
        1 + first_nl(s.drop_first())
    }
}

pub proof fn lemma_first_nl_range(s: Seq<char>)
    ensures
        0 <= first_nl(s) <= s.len(),
        first_nl(s) < s.len() ==> s[first_nl(s)] == '\n',
        forall|j: int| 0 <= j < first_nl(s) ==> s[j] != '\n',
    decreases s.len(),
{
    if s.len() == 0 {
    } else if s[0] == '\n' {
    } else {
        lemma_first_nl_range(s.drop_first());
        assert forall|j: int| 0 <= j < first_nl(s) implies s[j] != '\n' by {
            if j > 0 {
                assert(s.drop_first()[j - 1] == s[j]);
            }
        }
    }
}

/// When no newline stands before index `k`, and `k` is a newline or the end,
/// `k` is the first newline position.
pub proof fn lemma_first_nl_is(s: Seq<char>, k: int)
    requires
        0 <= k <= s.len(),
        forall|j: int| 0 <= j < k ==> s[j] != '\n',
        k < s.len() ==> s[k] == '\n',
        k == s.len() ==> forall|j: int| 0 <= j < s.len() ==> s[j] != '\n',
    ensures
        first_nl(s) == k,
    decreases s.len(),
{
    if s.len() == 0 {
    } else if k == 0 {
    } else {
        assert(s[0] != '\n');
        assert forall|j: int| 0 <= j < k - 1 implies s.drop_first()[j] != '\n' by {
            assert(s.drop_first()[j] == s[j + 1]);
        }
        if k < s.len() {
            assert(s.drop_first()[k - 1] == s[k]);
        } else {
            assert forall|j: int| 0 <= j < s.drop_first().len() implies s.drop_first()[j]
                != '\n' by {
                assert(s.drop_first()[j] == s[j + 1]);
            }
        }
        lemma_first_nl_is(s.drop_first(), k - 1);
    }
}

/// A line with a trailing carriage return loses it; any other stays whole.
pub open spec fn strip_cr(line: Seq<char>) -> Seq<char> {
    if line.len() > 0 && line[line.len() - 1] == '\r' {
        line.take(line.len() - 1)
    } else {
        line
    }
}

/// The lines of `s`, split as `str::lines` splits them: at each newline,
/// with a carriage return directly before the newline dropped, and with no
/// empty final line for text that ends in a newline.
pub open spec fn spec_lines(s: Seq<char>) -> Seq<Seq<char>>
    decreases s.len(),
    via spec_lines_decreases
{
    if s.len() == 0 {
        seq![]
    } else {
        let k = first_nl(s);
        if k == s.len() {
            seq![s]
        } else {
            seq![strip_cr(s.take(k))] + spec_lines(s.skip(k + 1))
        }
    }
}

#[via_fn]
proof fn spec_lines_decreases(s: Seq<char>) {
    lemma_first_nl_range(s);
}

/// Splits `s` into its lines, as `str::lines` would.
pub fn split_lines(s: &str) -> (lines: Vec<String>)
    ensures
        lines@.len() == spec_lines(s@).len(),
        forall|i: int| 0 <= i < lines@.len() ==> lines@[i]@ == spec_lines(s@)[i],
{
    let n = s.unicode_len();
    let mut lines: Vec<String> = Vec::new();
    let mut start: usize = 0;
    let mut i: usize = 0;
    proof {
        assert(s@.skip(0) =~= s@);
    }
    while i < n
        invariant
            n == s@.len(),
            0 <= start <= i <= n,
            forall|j: int| start <= j < i ==> s@[j] != '\n',
            spec_lines(s@) =~= seq_views(lines@) + spec_lines(s@.skip(start as int)),
        decreases n - i,
    {
        if s.get_char(i) == '\n' {
            let mut end = i;
            if end > start && s.get_char(end - 1) == '\r' {
                end = end - 1;
            }
            let line = s.substring_char(start, end).to_owned();
            proof {
                let t = s@.skip(start as int);
                assert forall|j: int| 0 <= j < i - start implies t[j] != '\n' by {
                    assert(t[j] == s@[start + j]);
                }
                assert(t[i - start] == s@[i as int]);
                lemma_first_nl_is(t, i - start);
                assert(t.take(i - start) =~= s@.subrange(start as int, i as int));
                assert(strip_cr(t.take(i - start)) =~= s@.subrange(start as int, end as int));
                assert(t.skip(i - start + 1) =~= s@.skip(i + 1));
                assert(seq_views(lines@.push(line)) =~= seq_views(lines@).push(line@));
            }
            lines.push(line);
            start = i + 1;
        }
        i = i + 1;
    }
    if start < n {
        let line = s.substring_char(start, n).to_owned();
        proof {
            let t = s@.skip(start as int);
            assert forall|j: int| 0 <= j < t.len() implies t[j] != '\n' by {
                assert(t[j] == s@[start + j]);
            }
            lemma_first_nl_is(t, t.len() as int);
            assert(t =~= s@.subrange(start as int, n as int));
            assert(seq_views(lines@.push(line)) =~= seq_views(lines@).push(line@));
        }
        lines.push(line);
    } else {
        proof {
            assert(s@.skip(start as int) =~= Seq::<char>::empty());
        }
    }
    proof {
        assert forall|idx: int| 0 <= idx < lines@.len() implies lines@[idx]@ == spec_lines(
            s@,
        )[idx] by {
            assert(seq_views(lines@)[idx] == lines@[idx]@);
        }
    }
    lines
}

/// The views of a sequence of strings.
pub open spec fn seq_views(lines: Seq<String>) -> Seq<Seq<char>> {
    lines.map_values(|l: String| l@)
}

/// Whether `needle` stands somewhere in `hay` as a contiguous run.
pub open spec fn contains_seq(hay: Seq<char>, needle: Seq<char>) -> bool {
    exists|i: int|
        0 <= i && i + needle.len() <= hay.len() && #[trigger] hay.subrange(i, i + needle.len())
            == needle
}

/// Whatever stands between two other pieces of a text stands in the text.
pub proof fn lemma_contains_between(a: Seq<char>, needle: Seq<char>, c: Seq<char>)
    ensures
        contains_seq(a + needle + c, needle),
{
    let hay = a + needle + c;
    assert(hay.subrange(a.len() as int, a.len() as int + needle.len() as int) =~= needle);
}

/// Text that holds no newline character.
pub open spec fn no_newlines(s: Seq<char>) -> bool {
    forall|i: int| 0 <= i < s.len() ==> s[i] != '\n'
}

/// No line that `spec_lines` yields holds a newline.
pub proof fn lemma_lines_no_newline(s: Seq<char>)
    ensures
        forall|i: int| 0 <= i < spec_lines(s).len() ==> no_newlines(#[trigger] spec_lines(s)[i]),
    decreases s.len(),
{
    lemma_first_nl_range(s);
    if s.len() == 0 {
    } else {
        let k = first_nl(s);
        if k == s.len() {
            assert(no_newlines(s));
            assert(spec_lines(s)[0] == s);
        } else {
            assert(no_newlines(strip_cr(s.take(k)))) by {
                assert forall|j: int| 0 <= j < strip_cr(s.take(k)).len() implies strip_cr(
                    s.take(k),
                )[j] != '\n' by {
                    assert(strip_cr(s.take(k))[j] == s[j]);
                }
            }
            lemma_lines_no_newline(s.skip(k + 1));
            assert forall|i: int| 0 <= i < spec_lines(s).len() implies no_newlines(
                #[trigger] spec_lines(s)[i],
            ) by {
                if i == 0 {
                    assert(spec_lines(s)[0] == strip_cr(s.take(k)));
                } else {
                    assert(spec_lines(s)[i] == spec_lines(s.skip(k + 1))[i - 1]);
                }
            }
        }
    }
}

} // verus!
