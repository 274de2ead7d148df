//! Text helpers: decimal numbers, splitting at a separator, and the quoted
//! form in which `{:?}` writes a string.
use vstd::prelude::*;

verus! {

/// The character of the decimal digit `d` (`d < 10`).
pub open spec fn digit_char(d: nat) -> char {
    ('0' as int + d) as char
}

/// The decimal digits of `v`, most significant first, without leading zeros.
pub open spec fn decimal_digits(v: nat) -> Seq<char>
    decreases v,
{
    if v < 10 {
        seq![digit_char(v)]
    } else {
        decimal_digits(v / 10).push(digit_char(v % 10))
    }
}

/// The decimal text of an integer, as `to_string` and `{:?}` write it: a `-`
/// before a negative number's digits.
pub open spec fn decimal_text(n: int) -> Seq<char> {
    if n < 0 {
        seq!['-'] + decimal_digits((-n) as nat)
    } else {
        decimal_digits(n as nat)
    }
}

/// The text of one decimal digit.
fn digit_str(d: u64) -> (s: &'static str)
    requires
        d < 10,
    ensures
        s@ == seq![digit_char(d as nat)],
{
    proof {
        reveal_strlit("0");
        reveal_strlit("1");
        reveal_strlit("2");
        reveal_strlit("3");
        reveal_strlit("4");
        reveal_strlit("5");
        reveal_strlit("6");
        reveal_strlit("7");
        reveal_strlit("8");
        reveal_strlit("9");
    }
    match d {
        0 => "0",
        1 => "1",
        2 => "2",
        3 => "3",
        4 => "4",
        5 => "5",
        6 => "6",
        7 => "7",
        8 => "8",
        _ => "9",
    }
}

/// Appends the decimal digits of `v` to `out`.
fn append_digits(out: &mut String, v: u64)
    ensures
        final(out)@ == old(out)@ + decimal_digits(v as nat),
    decreases v,
{
    if v >= 10 {
        append_digits(out, v / 10);
    }
    out.append(digit_str(v % 10));
    proof {
        if v >= 10 {
            assert(decimal_digits(v as nat) == decimal_digits((v / 10) as nat).push(
                digit_char((v % 10) as nat),
            ));
        }
    }
    assert(final(out)@ =~= old(out)@ + decimal_digits(v as nat));
}

/// The decimal text of `n`, as `n.to_string()` writes it.
pub fn decimal_i64(n: i64) -> (text: String)
    ensures
        text@ == decimal_text(n as int),
{
    let mut out = String::new();
    if n < 0 {
        proof {
            reveal_strlit("-");
        }
        out.append("-");
        let magnitude: u64 = (0i128 - n as i128) as u64;
        append_digits(&mut out, magnitude);
    } else {
        append_digits(&mut out, n as u64);
    }
    assert(out@ =~= decimal_text(n as int));
    out
}

/// The pieces of `s` between occurrences of `sep`, as `str::split` gives them:
/// one piece more than there are separators, empty pieces included.
pub open spec fn split_pieces(s: Seq<char>, sep: char) -> Seq<Seq<char>>
    decreases s.len(),
{
    if s.len() == 0 {
        seq![Seq::empty()]
    } else {
        let init = split_pieces(s.drop_last(), sep);
        if s.last() == sep {
            init.push(Seq::empty())
        } else {
            init.update(init.len() - 1, init.last().push(s.last()))
        }
    }
}

/// The pieces of `s` between occurrences of `sep` that are not empty.
pub open spec fn nonempty_pieces(s: Seq<char>, sep: char) -> Seq<Seq<char>> {
    split_pieces(s, sep).filter(|p: Seq<char>| p.len() > 0)
}

/// The texts of a sequence of strings.
pub open spec fn texts(v: Seq<String>) -> Seq<Seq<char>> {
    v.map_values(|x: String| x@)
}

pub proof fn lemma_split_pieces_nonempty(s: Seq<char>, sep: char)
    ensures
        split_pieces(s, sep).len() >= 1,
    decreases s.len(),
{
    if s.len() > 0 {
        lemma_split_pieces_nonempty(s.drop_last(), sep);
    }
}

/// No piece of a split holds the separator.
pub proof fn lemma_split_pieces_avoid_separator(s: Seq<char>, sep: char)
    ensures
        forall|i: int, k: int|
            0 <= i < split_pieces(s, sep).len() && 0 <= k < split_pieces(s, sep)[i].len()
                ==> split_pieces(s, sep)[i][k] != sep,
    decreases s.len(),
{
    if s.len() > 0 {
        lemma_split_pieces_avoid_separator(s.drop_last(), sep);
        let init = split_pieces(s.drop_last(), sep);
        lemma_split_pieces_nonempty(s.drop_last(), sep);
        assert(init.len() >= 1);
        if s.last() != sep {
            let p = split_pieces(s, sep);
            assert forall|i: int, k: int| 0 <= i < p.len() && 0 <= k < p[i].len() implies p[i][k]
                != sep by {
                if i < init.len() - 1 {
                    assert(p[i] == init[i]);
                } else {
                    assert(p[i] == init.last().push(s.last()));
                    if k < init.last().len() {
                        assert(p[i][k] == init[init.len() - 1][k]);
                    }
                }
            }
        }
    }
}

/// A text without the separator is a single piece.
pub proof fn lemma_split_without_separator(p: Seq<char>, sep: char)
    requires
        forall|k: int| 0 <= k < p.len() ==> p[k] != sep,
    ensures
        split_pieces(p, sep) == seq![p],
    decreases p.len(),
{
    if p.len() > 0 {
        lemma_split_without_separator(p.drop_last(), sep);
        assert(p.drop_last().push(p.last()) =~= p);
        assert(split_pieces(p, sep) =~= seq![p]);
    } else {
        assert(p =~= Seq::<char>::empty());
    }
}

/// A separator followed by a text without the separator adds that text as
/// one more piece.
pub proof fn lemma_split_append_piece(x: Seq<char>, b: Seq<char>, sep: char)
    requires
        forall|k: int| 0 <= k < b.len() ==> b[k] != sep,
    ensures
        split_pieces(x + seq![sep] + b, sep) == split_pieces(x, sep).push(b),
    decreases b.len(),
{
    if b.len() == 0 {
        assert((x + seq![sep] + b).drop_last() =~= x);
        assert(b =~= Seq::<char>::empty());
    } else {
        let b0 = b.drop_last();
        lemma_split_append_piece(x, b0, sep);
        assert((x + seq![sep] + b).drop_last() =~= x + seq![sep] + b0);
        assert(b0.push(b.last()) =~= b);
        assert(split_pieces(x + seq![sep] + b, sep) =~= split_pieces(x, sep).push(b));
    }
}

/// The pieces of `s` between occurrences of `sep` that are not empty, in order.
pub fn split_nonempty(s: &str, sep: char) -> (pieces: Vec<String>)
    ensures
        texts(pieces@) == nonempty_pieces(s@, sep),
{
    let ghost t = s@;
    let ghost nonempty = |p: Seq<char>| p.len() > 0;
    let n = s.unicode_len();
    let mut pieces: Vec<String> = Vec::new();
    let ghost mut done: Seq<Seq<char>> = Seq::empty();
    let mut start: usize = 0;
    let mut i: usize = 0;
    assert(t.take(0) =~= Seq::<char>::empty());
    assert(done.push(t.subrange(0, 0)) =~= seq![Seq::<char>::empty()]);
    while i < n
        invariant
            t == s@,
            n == t.len(),
            start <= i <= n,
            split_pieces(t.take(i as int), sep) == done.push(t.subrange(start as int, i as int)),
            texts(pieces@) == done.filter(nonempty),
            nonempty == (|p: Seq<char>| p.len() > 0),
        decreases n - i,
    {
        let c = s.get_char(i);
        assert(t.take(i + 1).drop_last() =~= t.take(i as int));
        assert(t.take(i + 1).last() == c);
        if c == sep {
            let piece = s.substring_char(start, i);
            let ghost p = t.subrange(start as int, i as int);
            proof {
                done.lemma_filter_push(p, nonempty);
            }
            if start < i {
                pieces.push(piece.to_owned());
            }
            proof {
                assert(texts(pieces@) =~= done.push(p).filter(nonempty));
                done = done.push(p);
                assert(t.subrange(i + 1, i + 1) =~= Seq::<char>::empty());
            }
            start = i + 1;
        } else {
            proof {
                lemma_split_pieces_nonempty(t.take(i as int), sep);
                assert(t.subrange(start as int, i as int).push(c) =~= t.subrange(
                    start as int,
                    i + 1,
                ));
                assert(split_pieces(t.take(i + 1), sep) =~= done.push(
                    t.subrange(start as int, i + 1),
                ));
            }
        }
        i = i + 1;
    }
    let ghost p = t.subrange(start as int, n as int);
    proof {
        done.lemma_filter_push(p, nonempty);
        assert(t.take(n as int) =~= t);
    }
    if start < n {
        let piece = s.substring_char(start, n);
        pieces.push(piece.to_owned());
    }
    assert(texts(pieces@) =~= done.push(p).filter(nonempty));
    pieces
}

/// The text that `{:?}` writes for a string: the string between double quotes,
/// with quotes, backslashes and control characters escaped.
pub uninterp spec fn debug_text(s: Seq<char>) -> Seq<char>;

/// Calls `<str as Debug>::fmt` through `format!("{:?}", ..)`. Its result is a
/// function of the string alone, named `debug_text`; the escaping rules are not
/// stated.
#[verifier::external_body]
pub(crate) fn debug_str(s: &str) -> (text: String)
    ensures
        text@ == debug_text(s@),
{
    format!("{:?}", s)
}

} // verus!
