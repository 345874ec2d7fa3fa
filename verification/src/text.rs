//! Character-level text helpers.
use vstd::prelude::*;

verus! {

/// The code of `c` with ASCII upper-case letters mapped to lower case.
pub open spec fn ascii_lower_code(c: char) -> int {
    if 'A' <= c <= 'Z' {
        c as int + 32
    } else {
        c as int
    }
}

/// `s` equals `pat`, ignoring ASCII case.
pub open spec fn eq_ignore_ascii_case_spec(s: Seq<char>, pat: Seq<char>) -> bool {
    &&& s.len() == pat.len()
    &&& forall|i: int| 0 <= i < s.len() ==> ascii_lower_code(#[trigger] s[i]) == ascii_lower_code(
        pat[i],
    )
}

/// The code of `c` with ASCII upper-case letters mapped to lower case.
fn ascii_lower_of(c: char) -> (r: u32)
    ensures
        r == ascii_lower_code(c),
{
    if 'A' <= c && c <= 'Z' {
        c as u32 + 32
    } else {
        c as u32
    }
}

/// `s` equals `pat`, ignoring ASCII case, as `str::eq_ignore_ascii_case`.
pub fn eq_ignore_ascii_case(s: &str, pat: &str) -> (r: bool)
    ensures
        r == eq_ignore_ascii_case_spec(s@, pat@),
{
    let n = s.unicode_len();
    if n != pat.unicode_len() {
        return false;
    }
    let mut i: usize = 0;
    while i < n
        invariant
            n == s@.len(),
            n == pat@.len(),
            0 <= i <= n,
            forall|j: int| 0 <= j < i ==> ascii_lower_code(#[trigger] s@[j]) == ascii_lower_code(
                pat@[j],
            ),
        decreases n - i,
    {
        if ascii_lower_of(s.get_char(i)) != ascii_lower_of(pat.get_char(i)) {
            return false;
        }
        i = i + 1;
    }
    true
}

/// `String::push`: appends one character.
#[verifier::external_body]
pub(crate) fn push_char(s: &mut String, c: char)
    ensures
        final(s)@ == old(s)@.push(c),
{
    s.push(c);
}

/// The decimal digits of `n`, most significant first, with no leading
/// zeros (`0` for zero).
pub open spec fn decimal_digits(n: nat) -> Seq<char>
    decreases n,
{
    if n < 10 {
        seq![(n + '0' as nat) as char]
    } else {
        decimal_digits(n / 10).push(((n % 10) + '0' as nat) as char)
    }
}

/// The decimal digits of `n`, padded with zeros to at least two digits.
pub open spec fn two_digits(n: nat) -> Seq<char> {
    if n < 10 {
        seq!['0'].add(decimal_digits(n))
    } else {
        decimal_digits(n)
    }
}

/// The digit character of `d` (below ten).
fn digit_char(d: u8) -> (c: char)
    requires
        d < 10,
    ensures
        c == (d + '0' as nat) as char,
{
    match d {
        0 => '0',
        1 => '1',
        2 => '2',
        3 => '3',
        4 => '4',
        5 => '5',
        6 => '6',
        7 => '7',
        8 => '8',
        _ => '9',
    }
}

/// Appends the decimal digits of `n`, padded to two digits, to `s`.
pub fn push_two_digits(s: &mut String, n: u8)
    ensures
        final(s)@ == old(s)@ + two_digits(n as nat),
{
    if n < 10 {
        push_char(s, '0');
        push_char(s, digit_char(n));
        assert(two_digits(n as nat) == seq!['0', (n + '0' as nat) as char]);
    } else if n < 100 {
        push_char(s, digit_char(n / 10));
        push_char(s, digit_char(n % 10));
        proof {
            assert(decimal_digits((n / 10) as nat) == seq![((n / 10) + '0' as nat) as char]);
            assert(decimal_digits(n as nat) == decimal_digits((n / 10) as nat).push(
                ((n % 10) + '0' as nat) as char,
            ));
        }
    } else {
        push_char(s, digit_char(n / 100));
        push_char(s, digit_char((n / 10) % 10));
        push_char(s, digit_char(n % 10));
        proof {
            assert(decimal_digits((n / 100) as nat) == seq![((n / 100) + '0' as nat) as char]);
            assert((n / 10) / 10 == n / 100);
            assert(decimal_digits((n / 10) as nat) == decimal_digits((n / 100) as nat).push(
                (((n / 10) % 10) + '0' as nat) as char,
            ));
            assert(decimal_digits(n as nat) == decimal_digits((n / 10) as nat).push(
                ((n % 10) + '0' as nat) as char,
            ));
        }
    }
}

/// `a` sorts before `b` when compared from position `i` on, character by
/// character as `str`'s `Ord` does: at the first difference the smaller
/// character wins, and a proper prefix sorts first.
pub open spec fn text_lt_from(a: Seq<char>, b: Seq<char>, i: nat) -> bool
    decreases a.len() - i,
{
    if i >= a.len() {
        i < b.len()
    } else if i >= b.len() {
        false
    } else if a[i as int] != b[i as int] {
        (a[i as int] as int) < (b[i as int] as int)
    } else {
        text_lt_from(a, b, i + 1)
    }
}

/// `a` sorts strictly before `b` in the order of `str`'s `Ord`.
pub open spec fn text_lt(a: Seq<char>, b: Seq<char>) -> bool {
    text_lt_from(a, b, 0)
}

/// No text sorts before itself.
pub proof fn lemma_text_lt_irreflexive(a: Seq<char>, i: nat)
    ensures
        !text_lt_from(a, a, i),
    decreases a.len() - i,
{
    if i < a.len() {
        lemma_text_lt_irreflexive(a, i + 1);
    }
}

/// The text order is transitive.
pub proof fn lemma_text_lt_transitive(a: Seq<char>, b: Seq<char>, c: Seq<char>, i: nat)
    requires
        text_lt_from(a, b, i),
        text_lt_from(b, c, i),
    ensures
        text_lt_from(a, c, i),
    decreases a.len() - i,
{
    if i < a.len() && i < b.len() && i < c.len() && a[i as int] == b[i as int] && b[i as int]
        == c[i as int] {
        lemma_text_lt_transitive(a, b, c, i + 1);
    }
}

/// Of two texts that differ, one sorts before the other.
pub proof fn lemma_text_lt_total(a: Seq<char>, b: Seq<char>, i: nat)
    requires
        i <= a.len(),
        i <= b.len(),
        !text_lt_from(a, b, i),
        !text_lt_from(b, a, i),
    ensures
        a.len() == b.len(),
        forall|j: int| i <= j < a.len() ==> a[j] == b[j],
    decreases a.len() - i,
{
    if i < a.len() && i < b.len() {
        lemma_text_lt_total(a, b, i + 1);
    }
}

/// Of two texts, one sorts before the other or they are equal.
pub proof fn lemma_text_trichotomy(a: Seq<char>, b: Seq<char>)
    ensures
        text_lt(a, b) || text_lt(b, a) || a == b,
{
    if !text_lt(a, b) && !text_lt(b, a) {
        lemma_text_lt_total(a, b, 0);
        assert(a =~= b);
    }
}

/// Positions before `i` where two texts agree do not decide their order.
proof fn lemma_text_lt_skip_agreement(a: Seq<char>, b: Seq<char>, k: nat, i: nat)
    requires
        k <= i <= a.len(),
        i <= b.len(),
        forall|j: int| 0 <= j < i ==> a[j] == b[j],
    ensures
        text_lt_from(a, b, k) == text_lt_from(a, b, i),
        text_lt_from(b, a, k) == text_lt_from(b, a, i),
    decreases i - k,
{
    if k < i {
        lemma_text_lt_skip_agreement(a, b, k + 1, i);
    }
}

/// Texts are ordered at their first difference: where they agree up to
/// position `i` and there `a` ends while `b` goes on, or `a`'s character is
/// smaller than `b`'s, `a` sorts strictly before `b` and not after it.
pub proof fn lemma_text_lt_first_difference(a: Seq<char>, b: Seq<char>, i: int)
    requires
        0 <= i <= a.len(),
        i <= b.len(),
        forall|j: int| 0 <= j < i ==> a[j] == b[j],
        (i == a.len() && i < b.len()) || (i < a.len() && i < b.len() && (a[i] as int) < (
        b[i] as int)),
    ensures
        text_lt(a, b),
        !text_lt(b, a),
{
    lemma_text_lt_skip_agreement(a, b, 0, i as nat);
}

/// Whether `a` sorts strictly before `b`, comparing as `str`'s `Ord` does.
pub fn text_less(a: &str, b: &str) -> (r: bool)
    ensures
        r == text_lt(a@, b@),
{
    let n = a.unicode_len();
    let m = b.unicode_len();
    let mut i: usize = 0;
    while i < n && i < m
        invariant
            n == a@.len(),
            m == b@.len(),
            i <= n,
            i <= m,
            text_lt(a@, b@) == text_lt_from(a@, b@, i as nat),
        decreases n - i,
    {
        let c = a.get_char(i);
        let d = b.get_char(i);
        if c != d {
            return (c as u32) < (d as u32);
        }
        i = i + 1;
    }
    i < m
}

} // verus!
