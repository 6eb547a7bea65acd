//! Decimal rendering of integers and small string helpers.

use vstd::prelude::*;

verus! {

/// The character of a decimal digit `d` (`0 <= d < 10`).
pub open spec fn digit_char(d: nat) -> char {
    if d == 0 { '0' }
    else if d == 1 { '1' }
    else if d == 2 { '2' }
    else if d == 3 { '3' }
    else if d == 4 { '4' }
    else if d == 5 { '5' }
    else if d == 6 { '6' }
    else if d == 7 { '7' }
    else if d == 8 { '8' }
    else { '9' }
}

/// The decimal digits of `n`, most significant first, without leading zeros.
pub open spec fn nat_decimal(n: nat) -> Seq<char>
    decreases n,
{
    if n < 10 {
        seq![digit_char(n)]
    } else {
        nat_decimal(n / 10).push(digit_char(n % 10))
    }
}

/// The decimal text of an integer, as `Display` writes it: a `-` before
/// the digits of the magnitude of a negative number.
pub open spec fn int_decimal(n: int) -> Seq<char> {
    if n < 0 {
        seq!['-'] + nat_decimal((-n) as nat)
    } else {
        nat_decimal(n as nat)
    }
}

/// Whether `c` is one of the ten decimal digit characters.
pub open spec fn is_digit_char(c: char) -> bool {
    '0' <= c <= '9'
}

proof fn lemma_digit_char(d: nat)
    requires
        d < 10,
    ensures
        is_digit_char(digit_char(d)),
        digit_char(d) == '0' <==> d == 0,
        forall|e: nat| e < 10 && digit_char(e) == digit_char(d) ==> e == d,
{
}

/// Every decimal text is a non-empty run of digits, of length at least two
/// for numbers from ten on.
pub proof fn lemma_nat_decimal_shape(n: nat)
    ensures
        nat_decimal(n).len() >= 1,
        n >= 10 ==> nat_decimal(n).len() >= 2,
        forall|i: int| 0 <= i < nat_decimal(n).len() ==> is_digit_char(#[trigger] nat_decimal(n)[i]),
    decreases n,
{
    if n < 10 {
        lemma_digit_char(n);
    } else {
        lemma_nat_decimal_shape(n / 10);
        lemma_digit_char(n % 10);
        assert forall|i: int| 0 <= i < nat_decimal(n).len() implies is_digit_char(
            #[trigger] nat_decimal(n)[i],
        ) by {
            if i < nat_decimal(n / 10).len() {
                assert(nat_decimal(n)[i] == nat_decimal(n / 10)[i]);
            }
        }
    }
}

/// Distinct natural numbers have distinct decimal texts.
pub proof fn lemma_nat_decimal_injective(a: nat, b: nat)
    requires
        nat_decimal(a) == nat_decimal(b),
    ensures
        a == b,
    decreases a,
{
    lemma_nat_decimal_shape(a);
    lemma_nat_decimal_shape(b);
    if a < 10 && b < 10 {
        lemma_digit_char(a);
        lemma_digit_char(b);
        assert(nat_decimal(a)[0] == digit_char(a));
        assert(nat_decimal(b)[0] == digit_char(b));
    } else if a >= 10 && b >= 10 {
        let sa = nat_decimal(a);
        let sb = nat_decimal(b);
        assert(sa.last() == digit_char(a % 10));
        assert(sb.last() == digit_char(b % 10));
        assert(sa.drop_last() =~= nat_decimal(a / 10));
        assert(sb.drop_last() =~= nat_decimal(b / 10));
        lemma_nat_decimal_injective(a / 10, b / 10);
        lemma_digit_char(a % 10);
        assert(a % 10 == b % 10);
        assert(a == 10 * (a / 10) + a % 10);
        assert(b == 10 * (b / 10) + b % 10);
    } else if a < 10 {
        assert(nat_decimal(a).len() == 1);
    } else {
        assert(nat_decimal(b).len() == 1);
    }
}

/// Distinct integers have distinct decimal texts.
pub proof fn lemma_int_decimal_injective(a: int, b: int)
    requires
        int_decimal(a) == int_decimal(b),
    ensures
        a == b,
{
    if a < 0 && b < 0 {
        let da = nat_decimal((-a) as nat);
        let db = nat_decimal((-b) as nat);
        assert((seq!['-'] + da).drop_first() =~= da);
        assert((seq!['-'] + db).drop_first() =~= db);
        lemma_nat_decimal_injective((-a) as nat, (-b) as nat);
    } else if a >= 0 && b >= 0 {
        lemma_nat_decimal_injective(a as nat, b as nat);
    } else if a < 0 {
        lemma_nat_decimal_shape(b as nat);
        assert(int_decimal(a)[0] == '-');
        assert(is_digit_char(int_decimal(b)[0]));
    } else {
        lemma_nat_decimal_shape(a as nat);
        assert(int_decimal(b)[0] == '-');
        assert(is_digit_char(int_decimal(a)[0]));
    }
}

/// A decimal text holds only digits and the minus sign.
pub proof fn lemma_int_decimal_chars(n: int)
    ensures
        forall|i: int| 0 <= i < int_decimal(n).len() ==> (is_digit_char(#[trigger] int_decimal(n)[i]) || int_decimal(n)[i] == '-'),
{
    if n < 0 {
        lemma_nat_decimal_shape((-n) as nat);
        assert forall|i: int| 0 <= i < int_decimal(n).len() implies (is_digit_char(#[trigger] int_decimal(n)[i]) || int_decimal(n)[i] == '-') by {
            if i > 0 {
                assert(int_decimal(n)[i] == nat_decimal((-n) as nat)[i - 1]);
            }
        }
    } else {
        lemma_nat_decimal_shape(n as nat);
    }
}

/// Equal texts with the same start agree after it.
pub proof fn lemma_strip_prefix(p: Seq<char>, x: Seq<char>, y: Seq<char>)
    requires
        p + x == p + y,
    ensures
        x == y,
{
    assert(x =~= (p + x).subrange(p.len() as int, (p + x).len() as int));
    assert(y =~= (p + y).subrange(p.len() as int, (p + y).len() as int));
}

/// Where two texts free of the character `q` are each followed by a text
/// that starts with `q`, and the two joins are equal, the parts are equal.
pub proof fn lemma_split_at_marker(a: Seq<char>, s: Seq<char>, b: Seq<char>, t: Seq<char>, q: char)
    requires
        forall|i: int| 0 <= i < a.len() ==> a[i] != q,
        forall|i: int| 0 <= i < b.len() ==> b[i] != q,
        s.len() > 0 && s[0] == q,
        t.len() > 0 && t[0] == q,
        a + s == b + t,
    ensures
        a == b,
        s == t,
{
    if a.len() < b.len() {
        assert((a + s)[a.len() as int] == q);
        assert((b + t)[a.len() as int] == b[a.len() as int]);
    } else if b.len() < a.len() {
        assert((b + t)[b.len() as int] == q);
        assert((a + s)[b.len() as int] == a[b.len() as int]);
    } else {
        assert(a =~= (a + s).subrange(0, a.len() as int));
        assert(b =~= (b + t).subrange(0, b.len() as int));
        assert(s =~= (a + s).subrange(a.len() as int, (a + s).len() as int));
        assert(t =~= (b + t).subrange(b.len() as int, (b + t).len() as int));
    }
}

fn digit_str(d: u64) -> (r: &'static str)
    requires
        d < 10,
    ensures
        r@ == seq![digit_char(d as nat)],
{
    proof {
        reveal_strlit("0");
        reveal_strlit("1");
        reveal_strlit("2");
        reveal_strlit("3");
        reveal_strlit("4");
        reveal_strlit("5");
        reveal_strlit("6");
        reveal_strlit("7");
        reveal_strlit("8");
        reveal_strlit("9");
    }
    if d == 0 { "0" }
    else if d == 1 { "1" }
    else if d == 2 { "2" }
    else if d == 3 { "3" }
    else if d == 4 { "4" }
    else if d == 5 { "5" }
    else if d == 6 { "6" }
    else if d == 7 { "7" }
    else if d == 8 { "8" }
    else { "9" }
}

/// Appends the decimal digits of `n` to `s`.
pub fn push_decimal(s: &mut String, n: u64)
    ensures
        final(s)@ == old(s)@ + nat_decimal(n as nat),
    decreases n,
{
    if n >= 10 {
        push_decimal(s, n / 10);
    }
    s.append(digit_str(n % 10));
    assert(n < 10 ==> n % 10 == n);
}

/// The decimal text of an unsigned integer.
pub fn u64_to_decimal(n: u64) -> (r: String)
    ensures
        r@ == nat_decimal(n as nat),
{
    let mut s = String::new();
    push_decimal(&mut s, n);
    assert(s@ == Seq::<char>::empty() + nat_decimal(n as nat));
    s
}

/// The decimal text of a signed integer, as `i64::to_string` gives it.
pub fn i64_to_decimal(n: i64) -> (r: String)
    ensures
        r@ == int_decimal(n as int),
{
    let mut s = String::new();
    if n < 0 {
        proof { reveal_strlit("-"); }
        s.append("-");
        let magnitude: u64 = ((-(n + 1)) as u64) + 1;
        push_decimal(&mut s, magnitude);
    } else {
        push_decimal(&mut s, n as u64);
    }
    s
}

/// The printed form of a boolean.
pub open spec fn bool_text(b: bool) -> Seq<char> {
    if b { "true"@ } else { "false"@ }
}

/// The printed form of a boolean, as `bool::to_string` gives it.
pub fn bool_to_text(b: bool) -> (r: String)
    ensures
        r@ == bool_text(b),
{
    if b { String::from_str("true") } else { String::from_str("false") }
}

/// Whether two strings hold the same characters.
pub fn str_eq(a: &str, b: &str) -> (r: bool)
    ensures
        r == (a@ == b@),
{
    let x = String::from_str(a);
    let y = String::from_str(b);
    x == y
}

} // verus!
