//! Dotted-quad IPv4 address text, as accepted by the connect call.
use vstd::prelude::*;
use crate::text::{decimal_text, digit_char, join_texts};

verus! {

/// The fields of `s` separated by `'.'`, in order; a text without any `'.'` is one field.
pub open spec fn dot_fields(s: Seq<char>) -> Seq<Seq<char>>
    decreases s.len(),
{
    if s.len() == 0 {
        seq![Seq::<char>::empty()]
    } else {
        let f = dot_fields(s.drop_last());
        if s.last() == '.' {
            f.push(Seq::<char>::empty())
        } else {
            f.update(f.len() - 1, f.last().push(s.last()))
        }
    }
}

/// Whether `c` is an ASCII decimal digit.
pub open spec fn is_digit(c: char) -> bool {
    '0' <= c && c <= '9'
}

/// The value of the decimal digit `c`.
pub open spec fn digit_value(c: char) -> nat {
    ((c as u32) - ('0' as u32)) as nat
}

/// The value of a text of decimal digits, most significant first.
pub open spec fn digits_value(t: Seq<char>) -> nat
    decreases t.len(),
{
    if t.len() == 0 {
        0
    } else {
        digits_value(t.drop_last()) * 10 + digit_value(t.last())
    }
}

/// The octet that a field denotes: one to three decimal digits, no leading zero unless the
/// field is `"0"` itself, and a value of at most 255.
pub open spec fn octet_text(t: Seq<char>) -> Option<u8> {
    if 1 <= t.len() <= 3 && (forall|i: int| 0 <= i < t.len() ==> #[trigger] is_digit(t[i]))
        && !(t.len() >= 2 && t[0] == '0') && digits_value(t) <= 255 {
        Some(digits_value(t) as u8)
    } else {
        None
    }
}

/// The address that `s` denotes: exactly four fields separated by `'.'`, each an octet.
pub open spec fn ipv4_text(s: Seq<char>) -> Option<(u8, u8, u8, u8)> {
    let f = dot_fields(s);
    if f.len() == 4 && octet_text(f[0]) is Some && octet_text(f[1]) is Some
        && octet_text(f[2]) is Some && octet_text(f[3]) is Some {
        Some(
            (
                octet_text(f[0])->0,
                octet_text(f[1])->0,
                octet_text(f[2])->0,
                octet_text(f[3])->0,
            ),
        )
    } else {
        None
    }
}

/// The texts held by a sequence of character vectors.
pub open spec fn texts(v: Seq<Vec<char>>) -> Seq<Seq<char>> {
    v.map_values(|x: Vec<char>| x@)
}

/// Splits `s` at each `'.'`.
fn split_dots(s: &Vec<char>) -> (r: Vec<Vec<char>>)
    ensures
        texts(r@) == dot_fields(s@),
{
    let mut done: Vec<Vec<char>> = Vec::new();
    let mut current: Vec<char> = Vec::new();
    let mut i: usize = 0;
    assert(s@.take(0) =~= Seq::<char>::empty());
    while i < s.len()
        invariant
            i <= s.len(),
            texts(done@).push(current@) =~= dot_fields(s@.take(i as int)),
        decreases s.len() - i,
    {
        let c = s[i];
        proof {
            assert(s@.take(i + 1).drop_last() =~= s@.take(i as int));
            assert(s@.take(i + 1).last() == c);
        }
        if c == '.' {
            let ghost before = done@;
            done.push(current);
            current = Vec::new();
            assert(texts(done@) =~= texts(before).push(done@[done.len() - 1]@));
        } else {
            current.push(c);
        }
        i = i + 1;
    }
    assert(s@.take(s.len() as int) =~= s@);
    let ghost before = done@;
    done.push(current);
    assert(texts(done@) =~= texts(before).push(done@[done.len() - 1]@));
    done
}

proof fn lemma_digits_value_bound(t: Seq<char>)
    requires
        forall|i: int| 0 <= i < t.len() ==> #[trigger] is_digit(t[i]),
    ensures
        t.len() <= 3 ==> digits_value(t) <= 999,
        t.len() <= 2 ==> digits_value(t) <= 99,
        t.len() <= 1 ==> digits_value(t) <= 9,
    decreases t.len(),
{
    if t.len() > 0 {
        assert(is_digit(t[t.len() - 1]));
        lemma_digits_value_bound(t.drop_last());
    }
}

/// The octet that the field `t` denotes, if any.
fn octet_of(t: &Vec<char>) -> (r: Option<u8>)
    ensures
        r == octet_text(t@),
{
    let n = t.len();
    if n < 1 || n > 3 {
        return None;
    }
    if n >= 2 && t[0] == '0' {
        return None;
    }
    let mut value: u32 = 0;
    let mut i: usize = 0;
    assert(t@.take(0) =~= Seq::<char>::empty());
    while i < n
        invariant
            n == t.len(),
            1 <= n <= 3,
            i <= n,
            forall|j: int| 0 <= j < i ==> #[trigger] is_digit(t@[j]),
            value == digits_value(t@.take(i as int)),
        decreases n - i,
    {
        let c = t[i];
        if !('0' <= c && c <= '9') {
            assert(!is_digit(t@[i as int]));
            return None;
        }
        proof {
            assert(t@.take(i + 1).drop_last() =~= t@.take(i as int));
            lemma_digits_value_bound(t@.take(i as int));
        }
        value = value * 10 + ((c as u32) - ('0' as u32));
        i = i + 1;
    }
    assert(t@.take(n as int) =~= t@);
    if value > 255 {
        None
    } else {
        Some(value as u8)
    }
}


/// The four octets of the address that `text` denotes, or `None` where it denotes none.
pub fn ipv4_octets(text: &str) -> (r: Option<(u8, u8, u8, u8)>)
    ensures
        r == ipv4_text(text@),
{
    let chars = crate::text::chars_of(text);
    let fields = split_dots(&chars);
    if fields.len() != 4 {
        return None;
    }
    proof {
        assert(texts(fields@)[0] == fields@[0]@);
        assert(texts(fields@)[1] == fields@[1]@);
        assert(texts(fields@)[2] == fields@[2]@);
        assert(texts(fields@)[3] == fields@[3]@);
    }
    let a = octet_of(&fields[0]);
    let b = octet_of(&fields[1]);
    let c = octet_of(&fields[2]);
    let d = octet_of(&fields[3]);
    match (a, b, c, d) {
        (Some(a), Some(b), Some(c), Some(d)) => Some((a, b, c, d)),
        _ => None,
    }
}

/// The dotted-quad text of four octets: each in decimal, separated by `'.'`.
pub open spec fn dotted_quad(a: u8, b: u8, c: u8, d: u8) -> Seq<char> {
    decimal_text(a as nat).push('.') + decimal_text(b as nat) + seq!['.'] + decimal_text(
        c as nat,
    ) + seq!['.'] + decimal_text(d as nat)
}

proof fn lemma_dot_fields_nonempty(s: Seq<char>)
    ensures
        dot_fields(s).len() >= 1,
    decreases s.len(),
{
    if s.len() > 0 {
        lemma_dot_fields_nonempty(s.drop_last());
    }
}

proof fn lemma_dot_fields_no_dot(s: Seq<char>)
    requires
        forall|i: int| 0 <= i < s.len() ==> s[i] != '.',
    ensures
        dot_fields(s) == seq![s],
    decreases s.len(),
{
    if s.len() > 0 {
        lemma_dot_fields_no_dot(s.drop_last());
        assert(s.drop_last().push(s.last()) =~= s);
        assert(seq![s.drop_last()].update(0, s.drop_last().push(s.last())) =~= seq![s]);
    } else {
        assert(s =~= Seq::<char>::empty());
    }
}

proof fn lemma_dot_fields_split(s: Seq<char>, t: Seq<char>)
    ensures
        dot_fields(s.push('.') + t) == dot_fields(s) + dot_fields(t),
    decreases t.len(),
{
    let u = s.push('.') + t;
    if t.len() == 0 {
        assert(u =~= s.push('.'));
        assert(u.drop_last() =~= s);
        assert(dot_fields(t) =~= seq![Seq::<char>::empty()]);
        assert(dot_fields(s).push(Seq::<char>::empty()) =~= dot_fields(s) + dot_fields(t));
    } else {
        lemma_dot_fields_split(s, t.drop_last());
        lemma_dot_fields_nonempty(t.drop_last());
        lemma_dot_fields_nonempty(s);
        assert(u.drop_last() =~= s.push('.') + t.drop_last());
        assert(u.last() == t.last());
        let a = dot_fields(s);
        let b = dot_fields(t.drop_last());
        if t.last() == '.' {
            assert((a + b).push(Seq::<char>::empty()) =~= a + b.push(Seq::<char>::empty()));
        } else {
            assert((a + b).update((a + b).len() - 1, (a + b).last().push(t.last())) =~= a
                + b.update(b.len() - 1, b.last().push(t.last())));
        }
    }
}

proof fn lemma_digit_char(d: nat)
    requires
        d < 10,
    ensures
        is_digit(digit_char(d)),
        digit_value(digit_char(d)) == d,
        digit_char(d) != '.',
        d > 0 ==> digit_char(d) != '0',
{
}

proof fn lemma_decimal_octet(n: nat)
    requires
        n <= 255,
    ensures
        forall|i: int| 0 <= i < decimal_text(n).len() ==> #[trigger] is_digit(decimal_text(n)[i]),
        forall|i: int| 0 <= i < decimal_text(n).len() ==> decimal_text(n)[i] != '.',
        1 <= decimal_text(n).len() <= 3,
        n < 10 ==> decimal_text(n).len() == 1,
        n < 100 ==> decimal_text(n).len() <= 2,
        n >= 10 ==> decimal_text(n).len() >= 2,
        n >= 1 ==> decimal_text(n)[0] != '0',
        digits_value(decimal_text(n)) == n,
    decreases n,
{
    lemma_digit_char(n % 10);
    if n < 10 {
        assert(decimal_text(n).drop_last() =~= Seq::<char>::empty());
        assert(digits_value(Seq::<char>::empty()) == 0);
    } else {
        let m = n / 10;
        lemma_decimal_octet(m);
        let h = decimal_text(m);
        assert(decimal_text(n) == h.push(digit_char(n % 10)));
        assert(decimal_text(n).drop_last() =~= h);
        assert(decimal_text(n)[0] == h[0]);
        assert(decimal_text(n).last() == digit_char(n % 10));
        assert(n == m * 10 + n % 10);
        assert(digits_value(decimal_text(n)) == digits_value(h) * 10 + digit_value(
            digit_char(n % 10),
        ));
        assert(forall|i: int|
            0 <= i < decimal_text(n).len() ==> #[trigger] decimal_text(n)[i] == if i < h.len() {
                h[i]
            } else {
                digit_char(n % 10)
            });
    }
}

/// Every address written as a dotted quad of decimal octets is accepted and denotes exactly
/// those octets.
pub proof fn dotted_quad_round_trip(a: u8, b: u8, c: u8, d: u8)
    ensures
        ipv4_text(dotted_quad(a, b, c, d)) == Some((a, b, c, d)),
{
    let ta = decimal_text(a as nat);
    let tb = decimal_text(b as nat);
    let tc = decimal_text(c as nat);
    let td = decimal_text(d as nat);
    lemma_decimal_octet(a as nat);
    lemma_decimal_octet(b as nat);
    lemma_decimal_octet(c as nat);
    lemma_decimal_octet(d as nat);
    lemma_dot_fields_no_dot(ta);
    lemma_dot_fields_no_dot(tb);
    lemma_dot_fields_no_dot(tc);
    lemma_dot_fields_no_dot(td);
    let s3 = tc.push('.') + td;
    let s2 = tb.push('.') + s3;
    let s1 = ta.push('.') + s2;
    assert(dotted_quad(a, b, c, d) =~= s1);
    lemma_dot_fields_split(tc, td);
    lemma_dot_fields_split(tb, s3);
    lemma_dot_fields_split(ta, s2);
    let f = dot_fields(s1);
    assert(f =~= seq![ta, tb, tc, td]);
    assert(octet_text(ta) == Some(a));
    assert(octet_text(tb) == Some(b));
    assert(octet_text(tc) == Some(c));
    assert(octet_text(td) == Some(d));
}

/// The decimal notation of a number consists of digits, starts with no superfluous zero, and
/// reads back as the number.
pub proof fn decimal_text_reads_back(n: nat)
    ensures
        decimal_text(n).len() >= 1,
        forall|i: int| 0 <= i < decimal_text(n).len() ==> #[trigger] is_digit(decimal_text(n)[i]),
        n >= 1 ==> decimal_text(n)[0] != '0',
        digits_value(decimal_text(n)) == n,
    decreases n,
{
    lemma_digit_char(n % 10);
    if n < 10 {
        assert(decimal_text(n).drop_last() =~= Seq::<char>::empty());
        assert(digits_value(Seq::<char>::empty()) == 0);
    } else {
        let m = n / 10;
        decimal_text_reads_back(m);
        let h = decimal_text(m);
        assert(decimal_text(n) == h.push(digit_char(n % 10)));
        assert(decimal_text(n).drop_last() =~= h);
        assert(decimal_text(n)[0] == h[0]);
        assert(n == m * 10 + n % 10);
        assert(digits_value(decimal_text(n)) == digits_value(h) * 10 + digit_value(
            digit_char(n % 10),
        ));
        assert(forall|i: int|
            0 <= i < decimal_text(n).len() ==> #[trigger] decimal_text(n)[i] == if i < h.len() {
                h[i]
            } else {
                digit_char(n % 10)
            });
    }
}

/// The fields of a text, joined again with `'.'`, give back the text.
proof fn lemma_dot_fields_join(s: Seq<char>)
    ensures
        join_texts(dot_fields(s), seq!['.']) == s,
    decreases s.len(),
{
    if s.len() == 0 {
        assert(join_texts(seq![Seq::<char>::empty()], seq!['.']) == Seq::<char>::empty());
    } else {
        let t = s.drop_last();
        let c = s.last();
        lemma_dot_fields_join(t);
        lemma_dot_fields_nonempty(t);
        let f = dot_fields(t);
        assert(t.push(c) =~= s);
        if c == '.' {
            assert(f.push(Seq::<char>::empty()).drop_last() =~= f);
            assert(join_texts(f, seq!['.']) + seq!['.'] + Seq::<char>::empty() =~= s);
        } else {
            let g = f.update(f.len() - 1, f.last().push(c));
            assert(g.drop_last() =~= f.drop_last());
            if f.len() == 1 {
                assert(f =~= seq![t]) by {
                    assert(join_texts(f, seq!['.']) == f[0]);
                }
                assert(join_texts(g, seq!['.']) == g[0]);
            } else {
                assert(join_texts(f, seq!['.']) == join_texts(f.drop_last(), seq!['.']) + seq!['.']
                    + f.last());
                assert(join_texts(g, seq!['.']) == join_texts(g.drop_last(), seq!['.']) + seq!['.']
                    + g.last());
                assert(join_texts(g, seq!['.']) =~= join_texts(f, seq!['.']).push(c));
            }
        }
    }
}

/// A field that denotes an octet is that octet's decimal notation.
proof fn lemma_octet_text_canonical(t: Seq<char>)
    requires
        1 <= t.len() <= 3,
        forall|i: int| 0 <= i < t.len() ==> #[trigger] is_digit(t[i]),
        !(t.len() >= 2 && t[0] == '0'),
    ensures
        decimal_text(digits_value(t)) == t,
    decreases t.len(),
{
    let c = t.last();
    assert(is_digit(t[t.len() - 1]));
    let d = digit_value(c);
    assert(d < 10);
    assert(digit_char(d) == c);
    if t.len() == 1 {
        assert(t.drop_last() =~= Seq::<char>::empty());
        assert(digits_value(Seq::<char>::empty()) == 0);
        assert(digits_value(t) == d);
        assert(seq![c] =~= t);
    } else {
        let h = t.drop_last();
        assert(h[0] == t[0]);
        assert forall|i: int| 0 <= i < h.len() implies #[trigger] is_digit(h[i]) by {
            assert(h[i] == t[i]);
        }
        lemma_octet_text_canonical(h);
        let v = digits_value(t);
        assert(v == digits_value(h) * 10 + d);
        if digits_value(h) == 0 {
            // A leading digit other than zero makes the value positive.
            assert(h.len() >= 1 && h[0] != '0');
            decimal_text_reads_back(0);
            assert(decimal_text(0) == seq!['0']);
            assert(false);
        }
        assert(v / 10 == digits_value(h));
        assert(v % 10 == d);
        assert(v >= 10);
        assert(decimal_text(v) == decimal_text(v / 10).push(digit_char(v % 10)));
        assert(h.push(c) =~= t);
    }
}

/// A text is accepted as an address exactly when it is the dotted quad of the octets it
/// denotes: no other spelling (leading zeros, signs, spaces, missing or extra fields) is
/// accepted.
pub proof fn accepted_addresses_are_canonical(s: Seq<char>)
    ensures
        ipv4_text(s) matches Some(o) ==> s == dotted_quad(o.0, o.1, o.2, o.3),
{
    if let Some(o) = ipv4_text(s) {
        let f = dot_fields(s);
        assert(octet_text(f[0]) is Some);
        lemma_octet_text_canonical(f[0]);
        lemma_octet_text_canonical(f[1]);
        lemma_octet_text_canonical(f[2]);
        lemma_octet_text_canonical(f[3]);
        lemma_dot_fields_join(s);
        let j = join_texts(f, seq!['.']);
        assert(f.drop_last().drop_last().drop_last() =~= seq![f[0]]);
        assert(f.drop_last().drop_last() =~= seq![f[0], f[1]]);
        assert(f.drop_last() =~= seq![f[0], f[1], f[2]]);
        assert(join_texts(seq![f[0]], seq!['.']) == f[0]);
        let f2 = seq![f[0], f[1]];
        let f3 = seq![f[0], f[1], f[2]];
        assert(f2.drop_last() =~= seq![f[0]]);
        assert(f3.drop_last() =~= f2);
        assert(join_texts(f2, seq!['.']) == f[0] + seq!['.'] + f[1]);
        assert(join_texts(f3, seq!['.']) == join_texts(f2, seq!['.']) + seq!['.'] + f[2]);
        assert(j == join_texts(f3, seq!['.']) + seq!['.'] + f[3]);
        assert(j =~= f[0] + seq!['.'] + f[1] + seq!['.'] + f[2] + seq!['.'] + f[3]);
        assert(dotted_quad(o.0, o.1, o.2, o.3) =~= f[0] + seq!['.'] + f[1] + seq!['.'] + f[2]
            + seq!['.'] + f[3]);
    }
}

} // verus!
