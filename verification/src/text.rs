//! Text of messages: decimal numbers, concatenation and substring search.

use vstd::prelude::*;

verus! {

/// The decimal digit that stands for `d`.
pub open spec fn digit_char(d: nat) -> char {
    if d == 0 {
        '0'
    } else if d == 1 {
        '1'
    } else if d == 2 {
        '2'
    } else if d == 3 {
        '3'
    } else if d == 4 {
        '4'
    } else if d == 5 {
        '5'
    } else if d == 6 {
        '6'
    } else if d == 7 {
        '7'
    } else if d == 8 {
        '8'
    } else {
        '9'
    }
}

/// `n` in decimal, without leading zeros.
pub open spec fn nat_text(n: nat) -> Seq<char>
    decreases n,
{
    if n < 10 {
        seq![digit_char(n)]
    } else {
        nat_text(n / 10).push(digit_char(n % 10))
    }
}

/// `n` in decimal, with a minus sign where it is negative.
pub open spec fn int_text(n: int) -> Seq<char> {
    if n < 0 {
        seq!['-'] + nat_text((-n) as nat)
    } else {
        nat_text(n as nat)
    }
}

/// Whether `pattern` occurs in `text` from position `at` on.
pub open spec fn occurs_at(text: Seq<char>, pattern: Seq<char>, at: int) -> bool {
    &&& 0 <= at
    &&& at + pattern.len() <= text.len()
    &&& text.subrange(at, at + pattern.len()) =~= pattern
}

/// Whether `pattern` occurs anywhere in `text`.
pub open spec fn contains_text(text: Seq<char>, pattern: Seq<char>) -> bool {
    exists|at: int| #[trigger] occurs_at(text, pattern, at)
}

/// One digit as text.
fn digit(d: u64) -> (s: &'static str)
    requires
        d < 10,
    ensures
        s@ == seq![digit_char(d as nat)],
{
    proof {
        reveal_strlit("0");
        reveal_strlit("1");
        reveal_strlit("2");
        reveal_strlit("3");
        reveal_strlit("4");
        reveal_strlit("5");
        reveal_strlit("6");
        reveal_strlit("7");
        reveal_strlit("8");
        reveal_strlit("9");
    }
    let s: &'static str = match d {
        0 => "0",
        1 => "1",
        2 => "2",
        3 => "3",
        4 => "4",
        5 => "5",
        6 => "6",
        7 => "7",
        8 => "8",
        _ => "9",
    };
    assert(s@ =~= seq![digit_char(d as nat)]);
    s
}

/// `n` in decimal.
pub fn u64_text(n: u64) -> (s: String)
    ensures
        s@ == nat_text(n as nat),
    decreases n,
{
    if n < 10 {
        String::from_str(digit(n))
    } else {
        let mut s = u64_text(n / 10);
        s.append(digit(n % 10));
        assert(s@ =~= nat_text(n as nat / 10).push(digit_char(n as nat % 10)));
        s
    }
}

/// `n` in decimal, signed.
pub fn i32_text(n: i32) -> (s: String)
    ensures
        s@ == int_text(n as int),
{
    if n < 0 {
        let mut s = String::from_str("-");
        proof {
            reveal_strlit("-");
            assert(s@ =~= seq!['-']);
        }
        let magnitude: u64 = (0i64 - n as i64) as u64;
        let digits = u64_text(magnitude);
        s.append(digits.as_str());
        s
    } else {
        u64_text(n as u64)
    }
}

/// `a` followed by `b`.
pub fn join(a: &str, b: &str) -> (s: String)
    ensures
        s@ == a@ + b@,
{
    let mut s = String::from_str(a);
    s.append(b);
    s
}

/// Whether `pattern` occurs in `text` from position `at` on.
fn found_at(text: &str, pattern: &str, at: usize) -> (r: bool)
    requires
        at + pattern@.len() <= text@.len() <= usize::MAX,
    ensures
        r == occurs_at(text@, pattern@, at as int),
{
    let m = pattern.unicode_len();
    let mut k: usize = 0;
    while k < m
        invariant
            k <= m,
            m == pattern@.len(),
            at + m <= text@.len() <= usize::MAX,
            forall|j: int| 0 <= j < k ==> text@[at + j] == pattern@[j],
        decreases m - k,
    {
        if text.get_char(at + k) != pattern.get_char(k) {
            assert(text@.subrange(at as int, at + m)[k as int] != pattern@[k as int]);
            return false;
        }
        k = k + 1;
    }
    assert(text@.subrange(at as int, at + m) =~= pattern@);
    true
}

/// Whether `pattern` occurs in `text`.
pub fn contains(text: &str, pattern: &str) -> (r: bool)
    ensures
        r == contains_text(text@, pattern@),
{
    let n = text.unicode_len();
    let m = pattern.unicode_len();
    if m > n {
        return false;
    }
    let mut at: usize = 0;
    while at <= n - m
        invariant
            m <= n,
            n == text@.len(),
            m == pattern@.len(),
            at <= n - m + 1,
            forall|j: int| 0 <= j < at ==> !#[trigger] occurs_at(text@, pattern@, j),
        decreases n - m + 1 - at,
    {
        if found_at(text, pattern, at) {
            return true;
        }
        at = at + 1;
    }
    false
}

/// Whether two texts are the same.
pub fn same_text(a: &str, b: &str) -> (r: bool)
    ensures
        r == (a@ == b@),
{
    let n = a.unicode_len();
    if b.unicode_len() != n {
        return false;
    }
    let mut i: usize = 0;
    while i < n
        invariant
            i <= n,
            n == a@.len(),
            n == b@.len(),
            forall|j: int| 0 <= j < i ==> a@[j] == b@[j],
        decreases n - i,
    {
        if a.get_char(i) != b.get_char(i) {
            return false;
        }
        i = i + 1;
    }
    assert(a@ =~= b@);
    true
}

/// The number that decimal digits stand for.
pub open spec fn digits_value(s: Seq<char>) -> int
    decreases s.len(),
{
    if s.len() == 0 {
        0
    } else {
        10 * digits_value(s.drop_last()) + (s.last() as int - '0' as int)
    }
}

/// A number in decimal can be read back: it has digits only, they stand for the number, and
/// the first is not a zero unless it is the only one.
pub proof fn decimal_reads_back(n: nat)
    ensures
        nat_text(n).len() > 0,
        digits_value(nat_text(n)) == n,
        forall|i: int| 0 <= i < nat_text(n).len() ==> '0' <= #[trigger] nat_text(n)[i] <= '9',
        n > 0 ==> nat_text(n)[0] != '0',
        n == 0 ==> nat_text(n).len() == 1,
    decreases n,
{
    reveal_with_fuel(digits_value, 2);
    if n < 10 {
        assert(nat_text(n).drop_last() =~= Seq::empty());
    } else {
        decimal_reads_back(n / 10);
        assert(nat_text(n).drop_last() =~= nat_text(n / 10));
    }
}

/// A negative number in decimal is a minus sign and its magnitude.
pub proof fn signed_decimal_reads_back(n: int)
    ensures
        n >= 0 ==> digits_value(int_text(n)) == n && int_text(n)[0] != '-',
        n < 0 ==> int_text(n)[0] == '-' && digits_value(int_text(n).drop_first()) == -n,
{
    if n < 0 {
        decimal_reads_back((-n) as nat);
        assert(int_text(n).drop_first() =~= nat_text((-n) as nat));
    } else {
        decimal_reads_back(n as nat);
    }
}

/// A text contains another if and only if it is that text with something before it and
/// something behind it.
pub proof fn contained_text_is_a_part(text: Seq<char>, pattern: Seq<char>)
    ensures
        contains_text(text, pattern) <==> exists|before: Seq<char>, behind: Seq<char>|
            text == #[trigger] (before + pattern + behind),
{
    if contains_text(text, pattern) {
        let at = choose|at: int| #[trigger] occurs_at(text, pattern, at);
        let (before, behind) = (text.take(at), text.skip(at + pattern.len()));
        assert(before + pattern + behind =~= text) by {
            assert(text.subrange(at, at + pattern.len()) =~= pattern);
            assert forall|i: int| 0 <= i < text.len() implies (before + pattern + behind)[i]
                == text[i] by {
                if at <= i < at + pattern.len() {
                    assert(text.subrange(at, at + pattern.len())[i - at] == pattern[i - at]);
                }
            }
        }
    }
    if exists|before: Seq<char>, behind: Seq<char>|
        text == #[trigger] (before + pattern + behind) {
        let (before, behind) = choose|before: Seq<char>, behind: Seq<char>|
            text == #[trigger] (before + pattern + behind);
        assert(occurs_at(before + pattern + behind, pattern, before.len() as int));
    }
}

} // verus!
