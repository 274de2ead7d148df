//! Replacing frame numbers in file paths by `#` characters:
//! `"path/file.1234.ext"` becomes `"path/file.####.ext"`.
use vstd::prelude::*;

use crate::text::{
    lemma_split_append_piece,
    lemma_split_pieces_avoid_separator,
    lemma_split_pieces_nonempty,
    lemma_split_without_separator,
    split_pieces,
};

verus! {

/// An ASCII decimal digit.
pub open spec fn is_digit(c: char) -> bool {
    '0' <= c && c <= '9'
}

/// The value of one ASCII decimal digit.
pub open spec fn digit_value(c: char) -> nat {
    (c as int - '0' as int) as nat
}

/// The value of a sequence of decimal digits, most significant first.
pub open spec fn digits_value(d: Seq<char>) -> nat
    decreases d.len(),
{
    if d.len() == 0 {
        0
    } else {
        digits_value(d.drop_last()) * 10 + digit_value(d.last())
    }
}

/// What follows the optional leading `+` of an unsigned number's text.
pub open spec fn unsigned_digits(p: Seq<char>) -> Seq<char> {
    if p.len() > 0 && p[0] == '+' {
        p.drop_first()
    } else {
        p
    }
}

/// Whether `p` is the text of a `u32` as `str::parse::<u32>` accepts it: an
/// optional `+`, then at least one ASCII digit, of a value that fits in 32 bits.
pub open spec fn is_u32_text(p: Seq<char>) -> bool {
    let d = unsigned_digits(p);
    &&& d.len() > 0
    &&& forall|i: int| 0 <= i < d.len() ==> is_digit(#[trigger] d[i])
    &&& digits_value(d) <= u32::MAX
}

/// Where the `.`-separated component that holds position `i` begins.
pub open spec fn seg_start(s: Seq<char>, i: int) -> int
    decreases i,
{
    if i <= 0 {
        0
    } else if s[i - 1] == '.' {
        i
    } else {
        seg_start(s, i - 1)
    }
}

/// Where the `.`-separated component that holds position `i` ends (exclusive).
pub open spec fn seg_end(s: Seq<char>, i: int) -> int
    decreases s.len() - i,
{
    if i >= s.len() {
        s.len() as int
    } else if s[i] == '.' {
        i
    } else {
        seg_end(s, i + 1)
    }
}

/// The `.`-separated component of `s` that holds position `i`.
pub open spec fn segment_at(s: Seq<char>, i: int) -> Seq<char> {
    s.subrange(seg_start(s, i), seg_end(s, i))
}

/// The character at position `i` once frame numbers are masked: a `.` stays,
/// a character of a component that is a `u32` number becomes `#`, any other
/// character stays.
pub open spec fn masked_char(s: Seq<char>, i: int) -> char {
    if s[i] == '.' {
        '.'
    } else if is_u32_text(segment_at(s, i)) {
        '#'
    } else {
        s[i]
    }
}

/// `s` with every `.`-separated component that parses as a `u32` replaced by
/// as many `#` as it has characters.
pub open spec fn mask_frame_numbers(s: Seq<char>) -> Seq<char> {
    Seq::new(s.len(), |i: int| masked_char(s, i))
}

/// A whole component `[st, en)` of `s`: it starts at the beginning or after a
/// `.`, holds no `.`, and ends at the end or before a `.`.
pub open spec fn is_component(s: Seq<char>, st: int, en: int) -> bool {
    &&& 0 <= st <= en <= s.len()
    &&& st == 0 || s[st - 1] == '.'
    &&& en == s.len() || s[en] == '.'
    &&& forall|k: int| st <= k < en ==> s[k] != '.'
}

proof fn lemma_seg_start(s: Seq<char>, st: int, en: int, k: int)
    requires
        is_component(s, st, en),
        st <= k < en,
    ensures
        seg_start(s, k) == st,
    decreases k - st,
{
    if k > st {
        lemma_seg_start(s, st, en, k - 1);
    }
}

proof fn lemma_seg_end(s: Seq<char>, st: int, en: int, k: int)
    requires
        is_component(s, st, en),
        st <= k < en,
    ensures
        seg_end(s, k) == en,
    decreases en - k,
{
    if k + 1 < en {
        lemma_seg_end(s, st, en, k + 1);
    } else {
        assert(seg_end(s, k + 1) == en);
    }
}

/// Every position of a whole component lies in that very component.
pub proof fn lemma_component_segments(s: Seq<char>, st: int, en: int)
    requires
        is_component(s, st, en),
    ensures
        forall|k: int| st <= k < en ==> #[trigger] seg_start(s, k) == st,
        forall|k: int| st <= k < en ==> #[trigger] seg_end(s, k) == en,
{
    assert forall|k: int| st <= k < en implies #[trigger] seg_start(s, k) == st by {
        lemma_seg_start(s, st, en, k);
    }
    assert forall|k: int| st <= k < en implies #[trigger] seg_end(s, k) == en by {
        lemma_seg_end(s, st, en, k);
    }
}

proof fn lemma_seg_start_props(s: Seq<char>, i: int)
    requires
        0 <= i <= s.len(),
    ensures
        0 <= seg_start(s, i) <= i,
        seg_start(s, i) == 0 || s[seg_start(s, i) - 1] == '.',
        forall|k: int| seg_start(s, i) <= k < i ==> s[k] != '.',
    decreases i,
{
    if i > 0 && s[i - 1] != '.' {
        lemma_seg_start_props(s, i - 1);
    }
}

proof fn lemma_seg_end_props(s: Seq<char>, i: int)
    requires
        0 <= i <= s.len(),
    ensures
        i <= seg_end(s, i) <= s.len(),
        seg_end(s, i) == s.len() || s[seg_end(s, i)] == '.',
        forall|k: int| i <= k < seg_end(s, i) ==> s[k] != '.',
    decreases s.len() - i,
{
    if i < s.len() && s[i] != '.' {
        lemma_seg_end_props(s, i + 1);
    }
}

/// The component that holds a position that is not a `.` is a whole
/// component, and the position lies inside it.
proof fn lemma_segment_is_component(s: Seq<char>, i: int)
    requires
        0 <= i < s.len(),
        s[i] != '.',
    ensures
        is_component(s, seg_start(s, i), seg_end(s, i)),
        seg_start(s, i) <= i < seg_end(s, i),
{
    lemma_seg_start_props(s, i);
    lemma_seg_end_props(s, i);
}

/// Component boundaries depend only on where the `.` characters are.
proof fn lemma_same_dots_same_segments(s: Seq<char>, t: Seq<char>, i: int)
    requires
        s.len() == t.len(),
        forall|k: int| 0 <= k < s.len() ==> (s[k] == '.' <==> t[k] == '.'),
        0 <= i < s.len(),
        s[i] != '.',
    ensures
        seg_start(s, i) == seg_start(t, i),
        seg_end(s, i) == seg_end(t, i),
{
    lemma_segment_is_component(s, i);
    let st = seg_start(s, i);
    let en = seg_end(s, i);
    assert(is_component(t, st, en));
    lemma_seg_start(t, st, en, i);
    lemma_seg_end(t, st, en, i);
}

/// Masking keeps the length and every `.` where it is, and changes a
/// character, if at all, only into `#`.
pub proof fn lemma_masking_keeps_shape(s: Seq<char>)
    ensures
        mask_frame_numbers(s).len() == s.len(),
        forall|i: int|
            0 <= i < s.len() ==> (#[trigger] mask_frame_numbers(s)[i] == '.' <==> s[i] == '.'),
        forall|i: int|
            0 <= i < s.len() ==> #[trigger] mask_frame_numbers(s)[i] == s[i]
                || mask_frame_numbers(s)[i] == '#',
{
}

/// Masking twice gives what masking once gives: a run of `#` is no number,
/// and a component that was no number is left as it was.
pub proof fn lemma_masking_is_idempotent(s: Seq<char>)
    ensures
        mask_frame_numbers(mask_frame_numbers(s)) == mask_frame_numbers(s),
{
    let m = mask_frame_numbers(s);
    assert forall|i: int| 0 <= i < s.len() implies #[trigger] masked_char(m, i) == m[i] by {
        if s[i] != '.' {
            lemma_segment_is_component(s, i);
            lemma_same_dots_same_segments(s, m, i);
            let st = seg_start(s, i);
            let en = seg_end(s, i);
            lemma_component_segments(s, st, en);
            let seg_m = segment_at(m, i);
            if is_u32_text(segment_at(s, i)) {
                assert forall|k: int| 0 <= k < seg_m.len() implies seg_m[k] == '#' by {
                    assert(segment_at(s, st + k) == segment_at(s, i));
                }
                assert(seg_m[0] == '#');
                assert(unsigned_digits(seg_m) == seg_m);
                assert(!is_digit(seg_m[0]));
            } else {
                assert forall|k: int| 0 <= k < seg_m.len() implies seg_m[k] == segment_at(
                    s,
                    i,
                )[k] by {
                    assert(segment_at(s, st + k) == segment_at(s, i));
                }
                assert(seg_m =~= segment_at(s, i));
            }
        }
    }
    assert(mask_frame_numbers(m) =~= m);
}

/// A component as masking leaves it: a `u32` number becomes as many `#` as it
/// has characters, anything else stays.
pub open spec fn mask_piece(p: Seq<char>) -> Seq<char> {
    if is_u32_text(p) {
        Seq::new(p.len(), |i: int| '#')
    } else {
        p
    }
}

/// The pieces joined with a `.` between each two.
pub open spec fn join_with_dots(ps: Seq<Seq<char>>) -> Seq<char>
    decreases ps.len(),
{
    if ps.len() == 0 {
        Seq::empty()
    } else if ps.len() == 1 {
        ps[0]
    } else {
        join_with_dots(ps.drop_last()) + seq!['.'] + ps.last()
    }
}

proof fn lemma_seg_start_prefix(s: Seq<char>, j: int, i: int)
    requires
        0 <= i <= j <= s.len(),
    ensures
        seg_start(s, i) == seg_start(s.take(j), i),
    decreases i,
{
    if i > 0 {
        lemma_seg_start_prefix(s, j, i - 1);
    }
}

/// The last piece of `s` starts after its last `.`; the pieces before it are
/// the pieces of what comes before that `.`.
proof fn lemma_last_piece(s: Seq<char>)
    ensures
        split_pieces(s, '.').len() >= 1,
        split_pieces(s, '.').last() == s.subrange(seg_start(s, s.len() as int), s.len() as int),
        0 <= seg_start(s, s.len() as int) <= s.len(),
        seg_start(s, s.len() as int) == 0 ==> split_pieces(s, '.').len() == 1,
        seg_start(s, s.len() as int) > 0 ==> {
            &&& s[seg_start(s, s.len() as int) - 1] == '.'
            &&& split_pieces(s, '.').drop_last() == split_pieces(
                s.take(seg_start(s, s.len() as int) - 1),
                '.',
            )
        },
    decreases s.len(),
{
    lemma_split_pieces_nonempty(s, '.');
    lemma_seg_start_props(s, s.len() as int);
    if s.len() > 0 {
        let t = s.drop_last();
        lemma_last_piece(t);
        lemma_split_pieces_nonempty(t, '.');
        let n = s.len() as int;
        if s.last() == '.' {
            assert(split_pieces(s, '.').drop_last() =~= split_pieces(t, '.'));
            assert(s.take(n - 1) =~= t);
            assert(s.subrange(n, n) =~= Seq::<char>::empty());
        } else {
            lemma_seg_start_prefix(s, n - 1, n - 1);
            assert(s.take(n - 1) =~= t);
            let st = seg_start(s, n);
            assert(st == seg_start(t, n - 1));
            assert(t.subrange(st, n - 1).push(s.last()) =~= s.subrange(st, n));
            assert(split_pieces(s, '.').drop_last() =~= split_pieces(t, '.').drop_last());
            if st > 0 {
                assert(t.take(st - 1) =~= s.take(st - 1));
            }
        }
    }
}

/// Masking a prefix that ends before a `.` gives the same characters as
/// masking the whole.
proof fn lemma_mask_prefix(s: Seq<char>, e: int)
    requires
        0 <= e < s.len(),
        s[e] == '.',
    ensures
        forall|i: int| 0 <= i < e ==> #[trigger] masked_char(s, i) == masked_char(s.take(e), i),
{
    let t = s.take(e);
    assert forall|i: int| 0 <= i < e implies #[trigger] masked_char(s, i) == masked_char(t, i) by {
        if s[i] != '.' {
            lemma_segment_is_component(t, i);
            let a = seg_start(t, i);
            let b = seg_end(t, i);
            assert forall|k: int| a <= k < b implies s[k] != '.' by {
                assert(t[k] == s[k]);
            }
            if a > 0 {
                assert(t[a - 1] == s[a - 1]);
            }
            if b < e {
                assert(t[b] == s[b]);
            }
            assert(is_component(s, a, b));
            lemma_component_segments(s, a, b);
            lemma_component_segments(t, a, b);
            assert(segment_at(s, i) =~= segment_at(t, i));
        }
    }
}

/// Masking is done component by component: split at the dots, mask each
/// piece, join with dots.
pub proof fn lemma_masking_works_piece_by_piece(s: Seq<char>)
    ensures
        mask_frame_numbers(s) == join_with_dots(
            split_pieces(s, '.').map_values(|p: Seq<char>| mask_piece(p)),
        ),
    decreases s.len(),
{
    let n = s.len() as int;
    let st = seg_start(s, n);
    let f = |p: Seq<char>| mask_piece(p);
    let ps = split_pieces(s, '.');
    let ms = ps.map_values(f);
    lemma_last_piece(s);
    lemma_seg_start_props(s, n);
    let last = s.subrange(st, n);
    assert(is_component(s, st, n));
    lemma_component_segments(s, st, n);
    assert forall|k: int| st <= k < n implies #[trigger] mask_frame_numbers(s)[k] == mask_piece(
        last,
    )[k - st] by {
        assert(segment_at(s, k) == last);
    }
    if st == 0 {
        assert(last =~= s);
        assert(mask_frame_numbers(s) =~= mask_piece(last));
    } else {
        let t = s.take(st - 1);
        lemma_masking_works_piece_by_piece(t);
        lemma_mask_prefix(s, st - 1);
        assert(ms.drop_last() =~= split_pieces(t, '.').map_values(f));
        assert(ms.last() == mask_piece(last));
        assert(mask_frame_numbers(s) =~= mask_frame_numbers(t) + seq!['.'] + mask_piece(last));
    }
}

proof fn lemma_split_of_join(ps: Seq<Seq<char>>)
    requires
        ps.len() >= 1,
        forall|i: int, k: int| 0 <= i < ps.len() && 0 <= k < ps[i].len() ==> ps[i][k] != '.',
    ensures
        split_pieces(join_with_dots(ps), '.') == ps,
    decreases ps.len(),
{
    if ps.len() == 1 {
        assert(forall|k: int| 0 <= k < ps[0].len() ==> ps[0][k] != '.');
        lemma_split_without_separator(ps[0], '.');
        assert(seq![ps[0]] =~= ps);
    } else {
        let init = ps.drop_last();
        assert forall|i: int, k: int| 0 <= i < init.len() && 0 <= k < init[i].len() implies init[i][k]
            != '.' by {
            assert(init[i] == ps[i]);
        }
        lemma_split_of_join(init);
        assert(forall|k: int| 0 <= k < ps.last().len() ==> ps.last()[k] != '.');
        lemma_split_append_piece(join_with_dots(init), ps.last(), '.');
        assert(init.push(ps.last()) =~= ps);
    }
}

/// Splitting the masked text at its dots gives the pieces of the text, each
/// masked: masking is `split('.')`, then each piece masked, then joined.
pub proof fn lemma_masked_pieces(s: Seq<char>)
    ensures
        split_pieces(mask_frame_numbers(s), '.') == split_pieces(s, '.').map_values(
            |p: Seq<char>| mask_piece(p),
        ),
{
    let f = |p: Seq<char>| mask_piece(p);
    let ps = split_pieces(s, '.');
    let ms = ps.map_values(f);
    lemma_masking_works_piece_by_piece(s);
    lemma_split_pieces_avoid_separator(s, '.');
    lemma_split_pieces_nonempty(s, '.');
    assert forall|i: int, k: int| 0 <= i < ms.len() && 0 <= k < ms[i].len() implies ms[i][k]
        != '.' by {
        assert(ms[i] == mask_piece(ps[i]));
        if !is_u32_text(ps[i]) {
            assert(ps[i][k] != '.');
        }
    }
    lemma_split_of_join(ms);
}

/// Each further digit multiplies the value by ten and adds the digit's value,
/// so a longer prefix of digits never has a smaller value.
proof fn lemma_digits_value_grows(d: Seq<char>, k: int)
    requires
        0 <= k < d.len(),
    ensures
        digits_value(d.take(k + 1)) == digits_value(d.take(k)) * 10 + digit_value(d[k]),
        digits_value(d.take(k + 1)) >= digits_value(d.take(k)),
{
    assert(d.take(k + 1).drop_last() =~= d.take(k));
    let v = digits_value(d.take(k));
    assert(v * 10 + digit_value(d[k]) >= v) by (nonlinear_arith);
}

/// Whether the characters `[from, to)` of `s` are the text of a `u32`.
fn is_u32_slice(s: &str, from: usize, to: usize) -> (ok: bool)
    requires
        from <= to <= s@.len(),
    ensures
        ok == is_u32_text(s@.subrange(from as int, to as int)),
{
    let ghost p = s@.subrange(from as int, to as int);
    let mut first: usize = from;
    if from < to && s.get_char(from) == '+' {
        first = from + 1;
    }
    let ghost d = s@.subrange(first as int, to as int);
    assert(d =~= unsigned_digits(p));
    if first == to {
        return false;
    }
    let mut value: u64 = 0;
    let mut over = false;
    let mut i: usize = first;
    while i < to
        invariant
            first <= i <= to <= s@.len(),
            d == s@.subrange(first as int, to as int),
            d == unsigned_digits(s@.subrange(from as int, to as int)),
            forall|k: int| 0 <= k < i - first ==> is_digit(#[trigger] d[k]),
            over <==> digits_value(d.take(i - first)) > u32::MAX,
            !over ==> value == digits_value(d.take(i - first)),
        decreases to - i,
    {
        let c = s.get_char(i);
        assert(c == d[i - first]);
        if c < '0' || c > '9' {
            return false;
        }
        proof {
            lemma_digits_value_grows(d, i - first);
        }
        if !over {
            let digit = (c as u32 - '0' as u32) as u64;
            assert(digit == digit_value(c));
            value = value * 10 + digit;
            if value > 4294967295u64 {
                over = true;
            }
        }
        i = i + 1;
    }
    assert(d.take(to - first) =~= d);
    !over
}

/// `n` copies of `#`.
fn hashes(n: usize) -> (h: String)
    ensures
        h@ == Seq::new(n as nat, |i: int| '#'),
{
    let mut h = String::new();
    let mut i: usize = 0;
    proof {
        reveal_strlit("#");
    }
    while i < n
        invariant
            i <= n,
            h@ =~= Seq::new(i as nat, |k: int| '#'),
            "#"@ == seq!['#'],
        decreases n - i,
    {
        h.append("#");
        i = i + 1;
    }
    h
}

/// Replaces every `.`-separated component of `filepath` that parses as a
/// `u32` (a frame number) by as many `#` characters as it has:
/// `"/bob/joe/test.34.exr"` gives `"/bob/joe/test.##.exr"`; a component that is
/// not a number, such as `"34exr"`, stays as it is.
pub fn find_replace_frame_num(filepath: &str) -> (masked: String)
    ensures
        masked@ == mask_frame_numbers(filepath@),
{
    let ghost s = filepath@;
    let ghost target = mask_frame_numbers(s);
    let n = filepath.unicode_len();
    let mut out = String::new();
    let mut start: usize = 0;
    let mut i: usize = 0;
    proof {
        reveal_strlit(".");
    }
    while i < n
        invariant
            s == filepath@,
            target == mask_frame_numbers(s),
            n == s.len(),
            start <= i <= n,
            start == 0 || s[start - 1] == '.',
            forall|k: int| start <= k < i ==> s[k] != '.',
            out@ =~= target.subrange(0, start as int),
            "."@ == seq!['.'],
        decreases n - i,
    {
        if filepath.get_char(i) == '.' {
            let piece = mask_component(filepath, start, i);
            out.append(piece.as_str());
            out.append(".");
            assert(out@ =~= target.subrange(0, i + 1));
            start = i + 1;
        }
        i = i + 1;
    }
    let piece = mask_component(filepath, start, n);
    out.append(piece.as_str());
    assert(out@ =~= target);
    out
}

/// The masked text of the whole component `[start, end)` of `s`.
fn mask_component(s: &str, start: usize, end: usize) -> (piece: String)
    requires
        is_component(s@, start as int, end as int),
    ensures
        piece@ =~= mask_frame_numbers(s@).subrange(start as int, end as int),
{
    let ghost target = mask_frame_numbers(s@);
    proof {
        lemma_component_segments(s@, start as int, end as int);
    }
    let piece = if is_u32_slice(s, start, end) {
        hashes(end - start)
    } else {
        s.substring_char(start, end).to_owned()
    };
    assert forall|k: int| start <= k < end implies #[trigger] target[k] == piece@[k - start] by {
        assert(seg_start(s@, k) == start && seg_end(s@, k) == end);
        assert(segment_at(s@, k) == s@.subrange(start as int, end as int));
    }
    piece
}

} // verus!
