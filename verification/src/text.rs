//! Text building blocks: decimal rendering of integers, ASCII upper-casing
//! and splitting on a separator.

use vstd::prelude::*;
use vstd::string::*;

verus! {

/// The character of a decimal digit `d` (0 to 9).
pub open spec fn digit_char(d: int) -> char {
    (d + 48) as char
}

/// The decimal digits of a natural number, most significant first, without
/// leading zeros ("0" for zero).
pub open spec fn decimal_digits(n: nat) -> Seq<char>
    decreases n,
{
    if n < 10 {
        seq![digit_char(n as int)]
    } else {
        decimal_digits(n / 10).push(digit_char((n % 10) as int))
    }
}

/// How `{}` renders an integer: an optional minus sign, then its digits.
pub open spec fn decimal(i: int) -> Seq<char> {
    if i < 0 {
        seq!['-'] + decimal_digits((-i) as nat)
    } else {
        decimal_digits(i as nat)
    }
}

/// The number that a string of decimal digits stands for, read in base 10.
pub open spec fn digits_value(s: Seq<char>) -> int
    decreases s.len(),
{
    if s.len() == 0 {
        0
    } else {
        digits_value(s.drop_last()) * 10 + ((s.last() as int) - 48)
    }
}

proof fn lemma_digit_char(d: int)
    requires
        0 <= d < 10,
    ensures
        (digit_char(d) as int) - 48 == d,
        '0' <= digit_char(d) && digit_char(d) <= '9',
        d != 0 ==> digit_char(d) != '0',
{
    assert((digit_char(d) as int) == d + 48);
}

/// Decimal rendering reads back to the number: the digits are `0` to `9`,
/// the first is not `0` unless the number is zero, and read in base 10 they
/// give the number back.
pub proof fn law_decimal_digits_read_back(n: nat)
    ensures
        digits_value(decimal_digits(n)) == n,
        decimal_digits(n).len() >= 1,
        forall|i: int|
            0 <= i < decimal_digits(n).len() ==> '0' <= #[trigger] decimal_digits(n)[i] && decimal_digits(n)[i] <= '9',
        n != 0 ==> decimal_digits(n)[0] != '0',
    decreases n,
{
    lemma_digit_char((n % 10) as int);
    if n < 10 {
        let d = decimal_digits(n);
        assert(d.drop_last() =~= Seq::<char>::empty());
        assert(digits_value(d.drop_last()) == 0);
    }
    if n >= 10 {
        law_decimal_digits_read_back(n / 10);
        let d = decimal_digits(n);
        let p = decimal_digits(n / 10);
        assert(d == p.push(digit_char((n % 10) as int)));
        assert(d.drop_last() =~= p);
        assert(d[0] == p[0]);
        assert forall|i: int| 0 <= i < d.len() implies '0' <= #[trigger] d[i] && d[i] <= '9' by {
            if i < p.len() {
                assert(d[i] == p[i]);
            }
        }
    }
}

/// How a signed number renders: a minus sign exactly for a negative
/// number, followed by the digits of its magnitude, which read back to it.
pub proof fn law_decimal_reads_back(i: int)
    ensures
        i < 0 ==> decimal(i)[0] == '-' && digits_value(decimal(i).drop_first()) == -i,
        i >= 0 ==> digits_value(decimal(i)) == i && decimal(i)[0] != '-',
{
    if i < 0 {
        law_decimal_digits_read_back((-i) as nat);
        assert(decimal(i).drop_first() =~= decimal_digits((-i) as nat));
    } else {
        law_decimal_digits_read_back(i as nat);
    }
}

/// Appends one character to a string.
///
/// Trusted: `String::push`, which std documents as appending the character
/// to the end of the string.
#[verifier::external_body]
pub(crate) fn push_char(s: &mut String, c: char)
    ensures
        final(s)@ == old(s)@.push(c),
{
    s.push(c);
}

fn push_digits(s: &mut String, n: u64)
    ensures
        final(s)@ == old(s)@ + decimal_digits(n as nat),
    decreases n,
{
    if n >= 10 {
        push_digits(s, n / 10);
    }
    let d: u8 = (n % 10) as u8;
    let c: char = (d + 48u8) as char;
    push_char(s, c);
    proof {
        assert(old(s)@ + decimal_digits(n as nat) =~= final(s)@) by {
            if n >= 10 {
                assert(decimal_digits(n as nat) == decimal_digits((n / 10) as nat).push(
                    digit_char((n % 10) as int),
                ));
            }
        }
    }
}

/// Appends the decimal rendering of `i` to `s`.
pub fn push_decimal(s: &mut String, i: i64)
    ensures
        final(s)@ == old(s)@ + decimal(i as int),
{
    if i < 0 {
        push_char(s, '-');
        let m: u64 = if i == i64::MIN {
            9223372036854775808u64
        } else {
            (-i) as u64
        };
        push_digits(s, m);
        assert(s@ =~= old(s)@ + decimal(i as int));
    } else {
        push_digits(s, i as u64);
    }
}

/// Appends the decimal rendering of `n` to `s`.
pub fn push_unsigned(s: &mut String, n: u64)
    ensures
        final(s)@ == old(s)@ + decimal(n as int),
{
    push_digits(s, n);
}

/// The decimal rendering of `i`, as `format!("{}", i)` gives it.
pub fn decimal_string(i: i64) -> (r: String)
    ensures
        r@ == decimal(i as int),
{
    let mut s = String::new();
    push_decimal(&mut s, i);
    assert(s@ =~= decimal(i as int));
    s
}


/// `c` with the letters `a` to `z` turned into `A` to `Z` and every other
/// character left as it is.
pub open spec fn ascii_upper_char(c: char) -> char {
    if 'a' <= c && c <= 'z' {
        ((c as int) - 32) as char
    } else {
        c
    }
}

/// `s` with every ASCII lower-case letter upper-cased.
pub open spec fn ascii_upper(s: Seq<char>) -> Seq<char> {
    s.map_values(|c: char| ascii_upper_char(c))
}

/// The copy of `s` in which each ASCII lower-case letter is upper-cased, as
/// `str::to_ascii_uppercase` gives it; on an ASCII string this is also what
/// `str::to_uppercase` gives.
pub fn to_ascii_upper(s: &str) -> (r: String)
    ensures
        r@ == ascii_upper(s@),
{
    let n = s.unicode_len();
    let mut r = String::new();
    let mut i: usize = 0;
    while i < n
        invariant
            n == s@.len(),
            i <= n,
            r@ == ascii_upper(s@.take(i as int)),
        decreases n - i,
    {
        let c = s.get_char(i);
        let u: char = if 'a' <= c && c <= 'z' {
            (((c as u32) - 32) as u8) as char
        } else {
            c
        };
        push_char(&mut r, u);
        assert(ascii_upper(s@.take(i + 1)) =~= ascii_upper(s@.take(i as int)).push(
            ascii_upper_char(c),
        ));
        i = i + 1;
    }
    assert(s@.take(n as int) =~= s@);
    r
}

/// Upper-casing changes only the letters `a` to `z`, each into its capital
/// (32 code points lower), keeps every other character, and keeps the
/// length.
pub proof fn law_ascii_upper_changes_only_small_letters(s: Seq<char>)
    ensures
        ascii_upper(s).len() == s.len(),
        forall|i: int|
            0 <= i < s.len() ==> {
                &&& ('a' <= s[i] && s[i] <= 'z') ==> (#[trigger] ascii_upper(s)[i]) as int == (s[i] as int) - 32
                &&& !('a' <= s[i] && s[i] <= 'z') ==> ascii_upper(s)[i] == s[i]
            },
{
}

/// The pieces of `s` between occurrences of `sep`, as `str::split` yields
/// them: an empty `s` gives one empty piece, and two adjacent separators
/// give an empty piece between them.
pub open spec fn split_on(s: Seq<char>, sep: char) -> Seq<Seq<char>>
    decreases s.len(),
{
    if s.len() == 0 {
        seq![Seq::empty()]
    } else {
        let init = split_on(s.drop_last(), sep);
        if s.last() == sep {
            init.push(Seq::empty())
        } else {
            init.update(init.len() - 1, init.last().push(s.last()))
        }
    }
}

/// The pieces put back together with `sep` between each two of them.
pub open spec fn join_with(pieces: Seq<Seq<char>>, sep: Seq<char>) -> Seq<char>
    decreases pieces.len(),
{
    if pieces.len() == 0 {
        Seq::empty()
    } else if pieces.len() == 1 {
        pieces[0]
    } else {
        join_with(pieces.drop_last(), sep) + sep + pieces.last()
    }
}

/// How many times `c` occurs in `s`.
pub open spec fn count_char(s: Seq<char>, c: char) -> nat
    decreases s.len(),
{
    if s.len() == 0 {
        0
    } else {
        (if s[0] == c {
            1nat
        } else {
            0nat
        }) + count_char(s.drop_first(), c)
    }
}

/// How many times `c` occurs in `s` from position `i` on.
pub open spec fn count_from(s: Seq<char>, i: int, c: char) -> nat
    decreases s.len() - i,
{
    if i < 0 || i >= s.len() {
        0
    } else {
        (if s[i] == c {
            1nat
        } else {
            0nat
        }) + count_from(s, i + 1, c)
    }
}

/// Counting from position `i` on is counting in the rest of `s`.
pub proof fn lemma_count_from(s: Seq<char>, i: int, c: char)
    requires
        0 <= i <= s.len(),
    ensures
        count_from(s, i, c) == count_char(s.skip(i), c),
    decreases s.len() - i,
{
    if i < s.len() {
        lemma_count_from(s, i + 1, c);
        assert(s.skip(i).drop_first() =~= s.skip(i + 1));
        assert(s.skip(i)[0] == s[i]);
    } else {
        assert(s.skip(i).len() == 0);
    }
}

/// Counting distributes over concatenation.
pub proof fn lemma_count_concat(a: Seq<char>, b: Seq<char>, c: char)
    ensures
        count_char(a + b, c) == count_char(a, c) + count_char(b, c),
    decreases a.len(),
{
    if a.len() > 0 {
        lemma_count_concat(a.drop_first(), b, c);
        assert((a + b).drop_first() =~= a.drop_first() + b);
    } else {
        assert(a + b =~= b);
    }
}

/// The count in a joined text: the counts in the pieces, plus the count in
/// the separator once between each two pieces.
pub open spec fn count_in_pieces(pieces: Seq<Seq<char>>, c: char) -> nat
    decreases pieces.len(),
{
    if pieces.len() == 0 {
        0
    } else {
        count_in_pieces(pieces.drop_last(), c) + count_char(pieces.last(), c)
    }
}

/// Counting over pieces distributes over concatenating the lists.
pub proof fn lemma_count_pieces_concat(x: Seq<Seq<char>>, y: Seq<Seq<char>>, c: char)
    ensures
        count_in_pieces(x + y, c) == count_in_pieces(x, c) + count_in_pieces(y, c),
    decreases y.len(),
{
    if y.len() == 0 {
        assert(x + y =~= x);
    } else {
        lemma_count_pieces_concat(x, y.drop_last(), c);
        assert((x + y).drop_last() =~= x + y.drop_last());
        assert((x + y).last() == y.last());
    }
}

/// Counting over one piece is counting in it.
pub proof fn lemma_count_one_piece(t: Seq<char>, c: char)
    ensures
        count_in_pieces(seq![t], c) == count_char(t, c),
{
    let one = seq![t];
    assert(one.drop_last() =~= Seq::<Seq<char>>::empty());
    assert(count_in_pieces(one.drop_last(), c) == 0);
    assert(one.last() == t);
}

/// Joining with a separator that does not hold `c` adds no `c`.
pub proof fn lemma_count_join(pieces: Seq<Seq<char>>, sep: Seq<char>, c: char)
    requires
        count_char(sep, c) == 0,
    ensures
        count_char(join_with(pieces, sep), c) == count_in_pieces(pieces, c),
    decreases pieces.len(),
{
    if pieces.len() == 1 {
        assert(pieces.drop_last() =~= Seq::<Seq<char>>::empty());
        assert(count_in_pieces(pieces.drop_last(), c) == 0);
        assert(join_with(pieces, sep) == pieces.last());
    } else if pieces.len() > 1 {
        lemma_count_join(pieces.drop_last(), sep, c);
        lemma_count_concat(join_with(pieces.drop_last(), sep), sep, c);
        lemma_count_concat(join_with(pieces.drop_last(), sep) + sep, pieces.last(), c);
    }
}

/// The character views of a list of string slices.
pub open spec fn str_views(v: Seq<&str>) -> Seq<Seq<char>> {
    v.map_values(|t: &str| t@)
}

/// The parts joined into one string with `sep` between each two of them,
/// as `parts.join(sep)` gives it.
pub fn join_strs(parts: &Vec<&str>, sep: &str) -> (r: String)
    ensures
        r@ == join_with(str_views(parts@), sep@),
{
    let mut r = String::new();
    let n = parts.len();
    let mut i: usize = 0;
    while i < n
        invariant
            n == parts@.len(),
            i <= n,
            r@ == join_with(str_views(parts@.take(i as int)), sep@),
        decreases n - i,
    {
        let ghost before = str_views(parts@.take(i as int));
        let ghost after = str_views(parts@.take(i + 1));
        assert(after.drop_last() =~= before);
        assert(after.last() == parts@[i as int]@);
        if i > 0 {
            r.append(sep);
        }
        r.append(parts[i]);
        assert(r@ =~= join_with(after, sep@));
        i = i + 1;
    }
    assert(parts@.take(n as int) =~= parts@);
    r
}

/// The character views of a list of strings.
pub open spec fn views(v: Seq<String>) -> Seq<Seq<char>> {
    v.map_values(|t: String| t@)
}

/// Splitting yields one piece more than there are separators.
pub proof fn law_split_piece_count(s: Seq<char>, sep: char)
    ensures
        split_on(s, sep).len() == count_char(s, sep) + 1,
    decreases s.len(),
{
    if s.len() > 0 {
        law_split_piece_count(s.drop_last(), sep);
        lemma_split_nonempty(s.drop_last(), sep);
        lemma_count_concat(s.drop_last(), seq![s.last()], sep);
        assert(s.drop_last() + seq![s.last()] =~= s);
        assert(seq![s.last()].drop_first() =~= Seq::<char>::empty());
        assert(count_char(Seq::<char>::empty(), sep) == 0);
    }
}

/// Splitting always yields at least one piece.
pub proof fn lemma_split_nonempty(s: Seq<char>, sep: char)
    ensures
        split_on(s, sep).len() >= 1,
    decreases s.len(),
{
    if s.len() > 0 {
        lemma_split_nonempty(s.drop_last(), sep);
    }
}

/// No piece that splitting yields holds the separator, and joining the
/// pieces with the separator gives back the string that was split.
pub proof fn law_split_join_round_trip(s: Seq<char>, sep: char)
    ensures
        join_with(split_on(s, sep), seq![sep]) == s,
        forall|i: int|
            0 <= i < split_on(s, sep).len() ==> !(#[trigger] split_on(s, sep)[i]).contains(sep),
    decreases s.len(),
{
    if s.len() > 0 {
        let p = s.drop_last();
        law_split_join_round_trip(p, sep);
        lemma_split_nonempty(p, sep);
        let init = split_on(p, sep);
        let out = split_on(s, sep);
        if s.last() == sep {
            assert(out.drop_last() =~= init);
            assert(out.len() >= 2);
            assert(join_with(out, seq![sep]) == join_with(init, seq![sep]) + seq![sep] + out.last());
            assert(out.last() =~= Seq::<char>::empty());
            assert(s =~= p.push(sep));
            assert(join_with(init, seq![sep]) == p);
            assert(p + seq![sep] + Seq::<char>::empty() =~= p.push(sep));
            assert(join_with(out, seq![sep]) == s);
            assert forall|i: int| 0 <= i < out.len() implies !(#[trigger] out[i]).contains(sep) by {
                if i < out.len() - 1 {
                    assert(out[i] == init[i]);
                }
            }
        } else {
            let last = init.last().push(s.last());
            assert(out.last() == last);
            if init.len() == 1 {
                assert(join_with(out, seq![sep]) == last);
                assert(join_with(init, seq![sep]) == init[0]);
                assert(last =~= s);
            } else {
                assert(out.drop_last() =~= init.drop_last());
                let q = join_with(init.drop_last(), seq![sep]) + seq![sep];
                assert(join_with(init, seq![sep]) == q + init.last());
                assert(join_with(out, seq![sep]) == q + last);
                assert(s =~= p.push(s.last()));
                assert(q + last =~= (q + init.last()).push(s.last()));
                assert(join_with(out, seq![sep]) == s);
            }
            assert forall|i: int| 0 <= i < out.len() implies !(#[trigger] out[i]).contains(sep) by {
                if i < out.len() - 1 {
                    assert(out[i] == init[i]);
                } else {
                    assert(!init[init.len() - 1].contains(sep));
                    if last.contains(sep) {
                        let k = choose|k: int| 0 <= k < last.len() && last[k] == sep;
                        if k < init.last().len() {
                            assert(init.last()[k] == sep);
                        }
                    }
                }
            }
        }
    }
}

/// The pieces of `s` between commas, each as its own string, as
/// `s.split(',').map(|t| t.to_string()).collect()` gives them.
pub fn split_commas(s: &str) -> (pieces: Vec<String>)
    ensures
        views(pieces@) == split_on(s@, ','),
{
    let n = s.unicode_len();
    let mut pieces: Vec<String> = Vec::new();
    let mut current = String::new();
    let mut i: usize = 0;
    assert(s@.take(0) =~= Seq::<char>::empty());
    assert(views(pieces@).push(current@) =~= split_on(s@.take(0), ','));
    while i < n
        invariant
            n == s@.len(),
            i <= n,
            views(pieces@).push(current@) == split_on(s@.take(i as int), ','),
        decreases n - i,
    {
        let c = s.get_char(i);
        let ghost before = s@.take(i as int);
        let ghost after = s@.take(i + 1);
        assert(after.drop_last() =~= before);
        assert(after.last() == c);
        proof {
            lemma_split_nonempty(before, ',');
        }
        if c == ',' {
            let done = current;
            pieces.push(done);
            current = String::new();
            assert(views(pieces@).push(current@) =~= split_on(after, ','));
        } else {
            push_char(&mut current, c);
            assert(views(pieces@).push(current@) =~= split_on(after, ','));
        }
        i = i + 1;
    }
    assert(s@.take(n as int) =~= s@);
    pieces.push(current);
    assert(views(pieces@) =~= split_on(s@, ','));
    pieces
}

} // verus!
