//! Text helpers shared by the SQL builders and the display code.

use vstd::prelude::*;

verus! {

/// `String::push` appends one character to the end of the string.
pub assume_specification[ String::push ](s: &mut String, ch: char)
    ensures
        final(s)@ == old(s)@.push(ch),
;

/// `s` with every occurrence of `q` written twice.
pub open spec fn double_char(s: Seq<char>, q: char) -> Seq<char>
    decreases s.len(),
{
    if s.len() == 0 {
        Seq::empty()
    } else {
        let rest = double_char(s.drop_last(), q);
        if s.last() == q {
            rest.push(q).push(q)
        } else {
            rest.push(s.last())
        }
    }
}

/// Appends `s` to `out`, doubling every occurrence of `q`.
pub fn push_doubled(out: &mut String, s: &str, q: char)
    ensures
        final(out)@ == old(out)@ + double_char(s@, q),
{
    let ghost start = out@;
    for c in it: s.chars()
        invariant
            it.seq() == s@,
            out@ == start + double_char(s@.take(it.index() as int), q),
    {
        proof {
            assert(s@.take(it.index() + 1).drop_last() =~= s@.take(it.index() as int));
        }
        out.push(c);
        if c == q {
            out.push(c);
        }
    }
    proof {
        assert(s@.take(s@.len() as int) =~= s@);
    }
}


/// The character of the decimal digit `d`.
pub open spec fn digit_char(d: nat) -> char {
    if d == 0 { '0' }
    else if d == 1 { '1' }
    else if d == 2 { '2' }
    else if d == 3 { '3' }
    else if d == 4 { '4' }
    else if d == 5 { '5' }
    else if d == 6 { '6' }
    else if d == 7 { '7' }
    else if d == 8 { '8' }
    else { '9' }
}

/// Decimal notation of a natural number, most significant digit first,
/// without leading zeros.
pub open spec fn decimal(n: nat) -> Seq<char>
    decreases n,
{
    if n < 10 {
        seq![digit_char(n)]
    } else {
        decimal(n / 10).push(digit_char(n % 10))
    }
}

/// Decimal notation of an integer, with a leading `-` when it is negative.
pub open spec fn signed_decimal(i: int) -> Seq<char> {
    if i < 0 {
        seq!['-'] + decimal((-i) as nat)
    } else {
        decimal(i as nat)
    }
}

fn digit(d: u64) -> (c: char)
    requires
        d < 10,
    ensures
        c == digit_char(d as nat),
{
    if d == 0 { '0' }
    else if d == 1 { '1' }
    else if d == 2 { '2' }
    else if d == 3 { '3' }
    else if d == 4 { '4' }
    else if d == 5 { '5' }
    else if d == 6 { '6' }
    else if d == 7 { '7' }
    else if d == 8 { '8' }
    else { '9' }
}

/// Appends the decimal notation of `n` to `out`.
pub fn push_decimal(out: &mut String, n: u64)
    ensures
        final(out)@ == old(out)@ + decimal(n as nat),
    decreases n,
{
    if n >= 10 {
        push_decimal(out, n / 10);
        out.push(digit(n % 10));
        proof {
            let ghost base = old(out)@;
            assert(base + decimal((n / 10) as nat).push(digit_char((n % 10) as nat))
                =~= (base + decimal((n / 10) as nat)).push(digit_char((n % 10) as nat)));
        }
    } else {
        out.push(digit(n));
        proof {
            assert(old(out)@.push(digit_char(n as nat)) =~= old(out)@ + seq![digit_char(n as nat)]);
        }
    }
}

/// Appends the decimal notation of `v`, with a leading `-` when it is
/// negative, to `out`.
pub fn push_signed_decimal(out: &mut String, v: i64)
    ensures
        final(out)@ == old(out)@ + signed_decimal(v as int),
{
    if v < 0 {
        out.push('-');
        let magnitude: u64 = (-(v as i128)) as u64;
        push_decimal(out, magnitude);
        proof {
            assert(old(out)@.push('-') + decimal(magnitude as nat)
                =~= old(out)@ + (seq!['-'] + decimal(magnitude as nat)));
        }
    } else {
        push_decimal(out, v as u64);
    }
}

/// The decimal notation of `v` as a new string (what `v.to_string()` gives).
pub fn signed_decimal_string(v: i64) -> (s: String)
    ensures
        s@ == signed_decimal(v as int),
{
    let mut s = String::new();
    push_signed_decimal(&mut s, v);
    proof {
        assert(Seq::<char>::empty() + signed_decimal(v as int) =~= signed_decimal(v as int));
    }
    s
}


/// The code of `c` after ASCII lowercasing: `A`..=`Z` become `a`..=`z`,
/// every other character is left as it is.
pub open spec fn folded_code(c: char) -> u32 {
    let n = c as u32;
    if 65 <= n <= 90 {
        (n + 32) as u32
    } else {
        n
    }
}

/// `a` and `b` are equal up to ASCII case (what `str::eq_ignore_ascii_case`
/// decides).
pub open spec fn eq_ignoring_ascii_case(a: Seq<char>, b: Seq<char>) -> bool {
    &&& a.len() == b.len()
    &&& forall|i: int| 0 <= i < a.len() ==> #[trigger] folded_code(a[i]) == folded_code(b[i])
}

fn fold_char(c: char) -> (n: u32)
    ensures
        n == folded_code(c),
{
    let n = c as u32;
    if 65 <= n && n <= 90 {
        n + 32
    } else {
        n
    }
}

/// Compares two strings, ignoring the case of ASCII letters.
pub fn eq_ignore_ascii_case(a: &str, b: &str) -> (res: bool)
    ensures
        res == eq_ignoring_ascii_case(a@, b@),
{
    let len = a.unicode_len();
    if len != b.unicode_len() {
        return false;
    }
    let mut i: usize = 0;
    for c in it: a.chars()
        invariant
            it.seq() == a@,
            i == it.index(),
            len == a@.len(),
            len == b@.len(),
            forall|j: int| 0 <= j < it.index() ==> #[trigger] folded_code(a@[j]) == folded_code(b@[j]),
    {
        if fold_char(c) != fold_char(b.get_char(i)) {
            return false;
        }
        i = i + 1;
    }
    true
}


/// `s` between two `q` characters, with every `q` inside written twice:
/// the SQL form of a quoted identifier (`q` is `"`) or string literal
/// (`q` is `'`).
pub open spec fn quoted(s: Seq<char>, q: char) -> Seq<char> {
    seq![q] + double_char(s, q) + seq![q]
}

/// Appends `quoted(s, q)` to `out`.
pub fn push_quoted(out: &mut String, s: &str, q: char)
    ensures
        final(out)@ == old(out)@ + quoted(s@, q),
{
    out.push(q);
    push_doubled(out, s, q);
    out.push(q);
    proof {
        assert(old(out)@.push(q) + double_char(s@, q) + seq![q]
            =~= old(out)@ + quoted(s@, q));
    }
}

/// The parts joined with `sep` between each two neighbours.
pub open spec fn joined(parts: Seq<Seq<char>>, sep: Seq<char>) -> Seq<char>
    decreases parts.len(),
{
    if parts.len() == 0 {
        Seq::empty()
    } else if parts.len() == 1 {
        parts[0]
    } else {
        joined(parts.drop_last(), sep) + sep + parts.last()
    }
}

/// Whether two strings hold the same characters.
pub fn str_eq(a: &str, b: &str) -> (res: bool)
    ensures
        res == (a@ == b@),
{
    let len = a.unicode_len();
    if len != b.unicode_len() {
        return false;
    }
    let mut i: usize = 0;
    for c in it: a.chars()
        invariant
            it.seq() == a@,
            i == it.index(),
            len == a@.len(),
            len == b@.len(),
            forall|j: int| 0 <= j < it.index() ==> a@[j] == b@[j],
    {
        if c != b.get_char(i) {
            return false;
        }
        i = i + 1;
    }
    proof {
        assert(a@ =~= b@);
    }
    true
}


/// Appends the parts to `out`, joined with `sep` between each two neighbours.
pub fn push_joined(out: &mut String, parts: &Vec<String>, sep: &str)
    ensures
        final(out)@ == old(out)@ + joined(parts@.map_values(|p: String| p@), sep@),
{
    let ghost start = out@;
    let ghost views = parts@.map_values(|p: String| p@);
    let n = parts.len();
    let mut i: usize = 0;
    while i < n
        invariant
            n == parts@.len(),
            views == parts@.map_values(|p: String| p@),
            0 <= i <= n,
            out@ == start + joined(views.take(i as int), sep@),
        decreases n - i,
    {
        proof {
            assert(views.take(i + 1).drop_last() =~= views.take(i as int));
        }
        if i > 0 {
            out.append(sep);
        }
        out.append(parts[i].as_str());
        proof {
            if i == 0 {
                assert(start + views.take(1)[0] =~= start + parts@[0]@);
            } else {
                assert(start + joined(views.take(i as int), sep@) + sep@ + parts@[i as int]@
                    =~= start + (joined(views.take(i as int), sep@) + sep@ + parts@[i as int]@));
            }
        }
        i = i + 1;
    }
    proof {
        assert(views.take(n as int) =~= views);
    }
}


/// Equality up to ASCII case is symmetric and transitive.
pub proof fn lemma_eq_ignoring_ascii_case_equivalence(a: Seq<char>, b: Seq<char>, c: Seq<char>)
    ensures
        eq_ignoring_ascii_case(a, b) ==> eq_ignoring_ascii_case(b, a),
        eq_ignoring_ascii_case(a, b) && eq_ignoring_ascii_case(b, c) ==> eq_ignoring_ascii_case(
            a,
            c,
        ),
{
    if eq_ignoring_ascii_case(a, b) {
        assert forall|i: int| 0 <= i < b.len() implies #[trigger] folded_code(b[i]) == folded_code(
            a[i],
        ) by {
            assert(folded_code(a[i]) == folded_code(b[i]));
        }
        if eq_ignoring_ascii_case(b, c) {
            assert forall|i: int| 0 <= i < a.len() implies #[trigger] folded_code(a[i])
                == folded_code(c[i]) by {
                assert(folded_code(a[i]) == folded_code(b[i]));
                assert(folded_code(b[i]) == folded_code(c[i]));
            }
        }
    }
}

/// `double_char` makes a text longer by the number of `q` in it; in
/// particular it is empty only for the empty text.
proof fn lemma_double_char_len(s: Seq<char>, q: char)
    ensures
        double_char(s, q).len() >= s.len(),
    decreases s.len(),
{
    if s.len() > 0 {
        lemma_double_char_len(s.drop_last(), q);
    }
}

/// Different texts stay different when each `q` in them is doubled.
pub proof fn lemma_double_char_injective(a: Seq<char>, b: Seq<char>, q: char)
    requires
        double_char(a, q) == double_char(b, q),
    ensures
        a == b,
    decreases a.len() + b.len(),
{
    lemma_double_char_len(a, q);
    lemma_double_char_len(b, q);
    if a.len() == 0 || b.len() == 0 {
        assert(a =~= b);
    } else {
        let da = double_char(a.drop_last(), q);
        let db = double_char(b.drop_last(), q);
        let d = double_char(a, q);
        if a.last() == q && b.last() == q {
            assert(da =~= d.drop_last().drop_last());
            assert(db =~= d.drop_last().drop_last());
        } else if a.last() != q && b.last() != q {
            assert(da =~= d.drop_last());
            assert(db =~= d.drop_last());
            assert(a.last() == d.last());
            assert(b.last() == d.last());
        } else if a.last() == q {
            // d ends with `q` from `a`, and with `b.last() != q` from `b`
            assert(d.last() == q);
            assert(d.last() == b.last());
        } else {
            assert(d.last() == q);
            assert(d.last() == a.last());
        }
        lemma_double_char_injective(a.drop_last(), b.drop_last(), q);
        assert(a =~= a.drop_last().push(a.last()));
        assert(b =~= b.drop_last().push(b.last()));
    }
}

/// Quoting keeps different texts different: a quoted identifier or literal
/// names exactly one text.
pub proof fn lemma_quoted_injective(a: Seq<char>, b: Seq<char>, q: char)
    requires
        quoted(a, q) == quoted(b, q),
    ensures
        a == b,
{
    let qa = quoted(a, q);
    let qb = quoted(b, q);
    assert(qa.subrange(1, qa.len() - 1) =~= double_char(a, q));
    assert(qb.subrange(1, qb.len() - 1) =~= double_char(b, q));
    lemma_double_char_injective(a, b, q);
}

} // verus!
