//! Text utilities with exact specifications: whitespace trimming as `str::trim`
//! does it, unsigned decimal parsing as `u32::from_str` does it, and decimal
//! rendering of integers.

use vstd::prelude::*;

verus! {

/// The Unicode `White_Space` property, which `char::is_whitespace` tests.
pub open spec fn is_white_space(c: char) -> bool {
    let u = c as u32;
    ||| 0x09 <= u <= 0x0d
    ||| u == 0x20
    ||| u == 0x85
    ||| u == 0xa0
    ||| u == 0x1680
    ||| 0x2000 <= u <= 0x200a
    ||| u == 0x2028
    ||| u == 0x2029
    ||| u == 0x202f
    ||| u == 0x205f
    ||| u == 0x3000
}

/// `s` without its leading whitespace.
pub open spec fn trim_front(s: Seq<char>) -> Seq<char>
    decreases s.len(),
{
    if s.len() > 0 && is_white_space(s[0]) {
        trim_front(s.drop_first())
    } else {
        s
    }
}

/// `s` without its trailing whitespace.
pub open spec fn trim_back(s: Seq<char>) -> Seq<char>
    decreases s.len(),
{
    if s.len() > 0 && is_white_space(s.last()) {
        trim_back(s.drop_last())
    } else {
        s
    }
}

/// `s` without leading and trailing whitespace.
pub open spec fn trimmed(s: Seq<char>) -> Seq<char> {
    trim_back(trim_front(s))
}

pub fn is_white_space_char(c: char) -> (r: bool)
    ensures
        r == is_white_space(c),
{
    let u = c as u32;
    (0x09 <= u && u <= 0x0d) || u == 0x20 || u == 0x85 || u == 0xa0 || u == 0x1680 || (0x2000
        <= u && u <= 0x200a) || u == 0x2028 || u == 0x2029 || u == 0x202f || u == 0x205f || u
        == 0x3000
}

proof fn lemma_trim_front_skip(s: Seq<char>, i: int)
    requires
        0 <= i < s.len(),
        is_white_space(s[i]),
    ensures
        trim_front(s.subrange(i, s.len() as int)) == trim_front(s.subrange(i + 1, s.len() as int)),
{
    assert(s.subrange(i, s.len() as int).drop_first() =~= s.subrange(i + 1, s.len() as int));
}

proof fn lemma_trim_back_skip(s: Seq<char>, j: int)
    requires
        0 < j <= s.len(),
        is_white_space(s[j - 1]),
    ensures
        trim_back(s.subrange(0, j)) == trim_back(s.subrange(0, j - 1)),
{
    assert(s.subrange(0, j).drop_last() =~= s.subrange(0, j - 1));
}

/// Removes leading and trailing whitespace, as `str::trim` does.
pub fn trim(s: &str) -> (r: String)
    ensures
        r@ == trimmed(s@),
{
    let n = s.unicode_len();
    let ghost t = s@;
    let mut i: usize = 0;
    assert(t.subrange(0, n as int) =~= t);
    while i < n && is_white_space_char(s.get_char(i))
        invariant
            n == t.len(),
            t == s@,
            i <= n,
            trim_front(t) == trim_front(t.subrange(i as int, n as int)),
        decreases n - i,
    {
        proof {
            lemma_trim_front_skip(t, i as int);
        }
        i = i + 1;
    }
    let ghost front = t.subrange(i as int, n as int);
    assert(trim_front(t) == front) by {
        if i < n {
            assert(front[0] == t[i as int]);
        }
    }
    let mut j: usize = n;
    assert(front.subrange(0, (j - i) as int) =~= front);
    while j > i && is_white_space_char(s.get_char(j - 1))
        invariant
            n == t.len(),
            t == s@,
            i <= j <= n,
            front == t.subrange(i as int, n as int),
            trim_back(front) == trim_back(front.subrange(0, (j - i) as int)),
        decreases j,
    {
        proof {
            assert(front[(j - i) - 1] == t[j - 1]);
            lemma_trim_back_skip(front, (j - i) as int);
        }
        j = j - 1;
    }
    let ghost kept = front.subrange(0, (j - i) as int);
    assert(trim_back(front) == kept) by {
        if j > i {
            assert(kept.last() == t[j - 1]);
        }
    }
    assert(kept =~= t.subrange(i as int, j as int));
    let sub = s.substring_char(i, j);
    String::from_str(sub)
}

/// Whether two strings hold the same characters.
pub fn same_text(a: &str, b: &str) -> (r: bool)
    ensures
        r == (a@ == b@),
{
    let n = a.unicode_len();
    if n != b.unicode_len() {
        return false;
    }
    let mut i: usize = 0;
    while i < n
        invariant
            n == a@.len(),
            n == b@.len(),
            i <= n,
            forall|k: int| 0 <= k < i ==> a@[k] == b@[k],
        decreases n - i,
    {
        if a.get_char(i) != b.get_char(i) {
            return false;
        }
        i = i + 1;
    }
    assert(a@ =~= b@);
    true
}


/// Whether `c` is an ASCII decimal digit.
pub open spec fn is_digit(c: char) -> bool {
    '0' <= c <= '9'
}

/// The numeric value of an ASCII digit.
pub open spec fn digit_value(c: char) -> int {
    (c as int) - ('0' as int)
}

/// The value of a string of decimal digits, most significant first.
pub open spec fn digits_value(s: Seq<char>) -> nat
    decreases s.len(),
{
    if s.len() == 0 {
        0
    } else {
        (digits_value(s.drop_last()) * 10 + digit_value(s.last())) as nat
    }
}

/// The digits part of a numeral: the text after one optional leading `+`.
pub open spec fn unsigned_digits(s: Seq<char>) -> Seq<char> {
    if s.len() > 0 && s[0] == '+' {
        s.drop_first()
    } else {
        s
    }
}

/// What `u32::from_str` gives back: an optional `+` followed by at least one
/// decimal digit, and nothing else, whose value fits in 32 bits.
pub open spec fn parsed_u32(s: Seq<char>) -> Option<u32> {
    let d = unsigned_digits(s);
    if d.len() > 0 && (forall|i: int| 0 <= i < d.len() ==> is_digit(#[trigger] d[i]))
        && digits_value(d) <= u32::MAX {
        Some(digits_value(d) as u32)
    } else {
        None
    }
}

proof fn lemma_digits_value_grows(d: Seq<char>, j: int, k: int)
    requires
        0 <= j <= k <= d.len(),
        forall|i: int| 0 <= i < d.len() ==> is_digit(#[trigger] d[i]),
    ensures
        digits_value(d.subrange(0, j)) <= digits_value(d.subrange(0, k)),
    decreases k - j,
{
    if j < k {
        lemma_digits_value_grows(d, j, k - 1);
        assert(d.subrange(0, k).drop_last() =~= d.subrange(0, k - 1));
        assert(is_digit(d[k - 1]));
    }
}

/// Parses an unsigned 32-bit decimal number as `str::parse::<u32>` does,
/// giving `None` where it would give an error.
pub fn parse_u32(s: &str) -> (r: Option<u32>)
    ensures
        r == parsed_u32(s@),
{
    let n = s.unicode_len();
    let mut i: usize = 0;
    if n > 0 && s.get_char(0) == '+' {
        i = 1;
    }
    let ghost d = unsigned_digits(s@);
    assert(d =~= s@.subrange(i as int, n as int));
    if i == n {
        return None;
    }
    let mut acc: u64 = 0;
    let mut k: usize = i;
    while k < n
        invariant
            n == s@.len(),
            i <= k <= n,
            i < n,
            d == s@.subrange(i as int, n as int),
            d == unsigned_digits(s@),
            forall|m: int| 0 <= m < k - i ==> is_digit(#[trigger] d[m]),
            acc == digits_value(d.subrange(0, (k - i) as int)),
            acc <= u32::MAX,
        decreases n - k,
    {
        let c = s.get_char(k);
        assert(d[(k - i) as int] == c);
        if !('0' <= c && c <= '9') {
            assert(!is_digit(d[(k - i) as int]));
            return None;
        }
        let v = (c as u64) - ('0' as u64);
        assert(d.subrange(0, (k - i + 1) as int).drop_last() =~= d.subrange(0, (k - i) as int));
        assert(d[(k - i) as int] == c);
        acc = acc * 10 + v;
        k = k + 1;
        if acc > 0xffff_ffff {
            proof {
                if forall|m: int| 0 <= m < d.len() ==> is_digit(#[trigger] d[m]) {
                    lemma_digits_value_grows(d, (k - i) as int, d.len() as int);
                    assert(d.subrange(0, d.len() as int) =~= d);
                }
            }
            return None;
        }
    }
    assert(d.subrange(0, (k - i) as int) =~= d);
    Some(acc as u32)
}


/// The ASCII digit for a value below ten.
pub open spec fn digit_char(d: nat) -> char {
    (d + 48) as char
}

/// The decimal numeral of `n`, without leading zeros.
pub open spec fn decimal(n: nat) -> Seq<char>
    decreases n,
{
    if n < 10 {
        seq![digit_char(n)]
    } else {
        decimal(n / 10) + seq![digit_char(n % 10)]
    }
}

/// The decimal numeral of `i`, with a leading `-` when it is negative, as
/// `Display` and `Debug` write integers.
pub open spec fn signed_decimal(i: int) -> Seq<char> {
    if i < 0 {
        seq!['-'] + decimal((-i) as nat)
    } else {
        decimal(i as nat)
    }
}

fn digit_text(d: u64) -> (r: String)
    requires
        d < 10,
    ensures
        r@ == seq![digit_char(d as nat)],
{
    let lit = if d == 0 {
        "0"
    } else if d == 1 {
        "1"
    } else if d == 2 {
        "2"
    } else if d == 3 {
        "3"
    } else if d == 4 {
        "4"
    } else if d == 5 {
        "5"
    } else if d == 6 {
        "6"
    } else if d == 7 {
        "7"
    } else if d == 8 {
        "8"
    } else {
        "9"
    };
    proof {
        reveal_strlit("0");
        reveal_strlit("1");
        reveal_strlit("2");
        reveal_strlit("3");
        reveal_strlit("4");
        reveal_strlit("5");
        reveal_strlit("6");
        reveal_strlit("7");
        reveal_strlit("8");
        reveal_strlit("9");
    }
    let r = String::from_str(lit);
    assert(r@ =~= seq![digit_char(d as nat)]);
    r
}

/// Renders an integer in decimal, as `i32`'s `Display` does.
pub fn decimal_text(v: i32) -> (r: String)
    ensures
        r@ == signed_decimal(v as int),
{
    let negative = v < 0;
    let m0: u64 = if negative {
        (0i64 - (v as i64)) as u64
    } else {
        v as u64
    };
    let mut m: u64 = m0 / 10;
    let mut r = digit_text(m0 % 10);
    while m > 0
        invariant
            decimal(m0 as nat) == (if m == 0 {
                Seq::<char>::empty()
            } else {
                decimal(m as nat)
            }) + r@,
        decreases m,
    {
        let d = digit_text(m % 10);
        let ghost old_r = r@;
        r = d.concat(r.as_str());
        assert(decimal(m as nat) == (if m / 10 == 0 {
            Seq::<char>::empty()
        } else {
            decimal((m / 10) as nat)
        }) + seq![digit_char((m % 10) as nat)]);
        m = m / 10;
    }
    assert(decimal(m0 as nat) =~= r@);
    if negative {
        let minus = String::from_str("-");
        proof {
            reveal_strlit("-");
        }
        let out = minus.concat(r.as_str());
        assert(out@ =~= signed_decimal(v as int));
        out
    } else {
        r
    }
}

/// Renders an optional exit code as `{:?}` does: `Some(3)` or `None`.
pub fn optional_code_text(code: Option<i32>) -> (r: String)
    ensures
        r@ == optional_code(code),
{
    match code {
        Some(c) => {
            let open = String::from_str("Some(");
            let digits = decimal_text(c);
            let with_digits = open.concat(digits.as_str());
            with_digits.concat(")")
        },
        None => String::from_str("None"),
    }
}

/// The `Debug` rendering of an optional `i32`.
pub open spec fn optional_code(code: Option<i32>) -> Seq<char> {
    match code {
        Some(c) => "Some("@ + signed_decimal(c as int) + ")"@,
        None => "None"@,
    }
}


proof fn lemma_trim_front_shape(s: Seq<char>) -> (a: int)
    ensures
        0 <= a <= s.len(),
        trim_front(s) == s.subrange(a, s.len() as int),
        forall|i: int| 0 <= i < a ==> is_white_space(#[trigger] s[i]),
        a < s.len() ==> !is_white_space(s[a]),
    decreases s.len(),
{
    if s.len() > 0 && is_white_space(s[0]) {
        let a1 = lemma_trim_front_shape(s.drop_first());
        assert(s.drop_first().subrange(a1, s.drop_first().len() as int) =~= s.subrange(
            a1 + 1,
            s.len() as int,
        ));
        assert forall|i: int| 0 <= i < a1 + 1 implies is_white_space(#[trigger] s[i]) by {
            if i > 0 {
                assert(s[i] == s.drop_first()[i - 1]);
            }
        }
        a1 + 1
    } else {
        assert(s.subrange(0, s.len() as int) =~= s);
        0
    }
}

proof fn lemma_trim_back_shape(t: Seq<char>) -> (b: int)
    ensures
        0 <= b <= t.len(),
        trim_back(t) == t.subrange(0, b),
        forall|i: int| b <= i < t.len() ==> is_white_space(#[trigger] t[i]),
        b > 0 ==> !is_white_space(t[b - 1]),
    decreases t.len(),
{
    if t.len() > 0 && is_white_space(t.last()) {
        let b1 = lemma_trim_back_shape(t.drop_last());
        assert(t.drop_last().subrange(0, b1) =~= t.subrange(0, b1));
        assert forall|i: int| b1 <= i < t.len() implies is_white_space(#[trigger] t[i]) by {
            if i < t.len() - 1 {
                assert(t[i] == t.drop_last()[i]);
            }
        }
        b1
    } else {
        assert(t.subrange(0, t.len() as int) =~= t);
        t.len() as int
    }
}

/// Trimming keeps one contiguous piece of the text: everything before and
/// after it is whitespace, and when it is not empty it neither starts nor ends
/// with whitespace.
pub proof fn law_trim_keeps_inner_text(s: Seq<char>)
    ensures
        exists|a: int, b: int|
            #![trigger s.subrange(a, b)]
            0 <= a <= b <= s.len() && trimmed(s) == s.subrange(a, b) && (forall|i: int|
                0 <= i < a ==> is_white_space(#[trigger] s[i])) && (forall|i: int|
                b <= i < s.len() ==> is_white_space(#[trigger] s[i])) && (a < b ==> !is_white_space(
                s[a],
            ) && !is_white_space(s[b - 1])),
{
    let a = lemma_trim_front_shape(s);
    let t = s.subrange(a, s.len() as int);
    let c = lemma_trim_back_shape(t);
    let b = a + c;
    assert(t.subrange(0, c) =~= s.subrange(a, b));
    assert forall|i: int| b <= i < s.len() implies is_white_space(#[trigger] s[i]) by {
        assert(s[i] == t[i - a]);
    }
    if a < b {
        assert(s[a] == t[0]);
        assert(s[b - 1] == t[c - 1]);
    }
}

proof fn lemma_decimal_digits(n: nat)
    ensures
        decimal(n).len() > 0,
        decimal(n)[0] != '+',
        forall|i: int| 0 <= i < decimal(n).len() ==> is_digit(#[trigger] decimal(n)[i]),
        digits_value(decimal(n)) == n,
    decreases n,
{
    if n < 10 {
        assert(digit_value(digit_char(n)) == n);
        reveal_with_fuel(digits_value, 2);
        assert(decimal(n).drop_last() =~= Seq::<char>::empty());
    } else {
        lemma_decimal_digits(n / 10);
        let d = decimal(n);
        assert(d.drop_last() =~= decimal(n / 10));
        assert(digit_value(digit_char(n % 10)) == n % 10);
        assert forall|i: int| 0 <= i < d.len() implies is_digit(#[trigger] d[i]) by {
            if i < d.len() - 1 {
                assert(d[i] == decimal(n / 10)[i]);
            }
        }
        assert(d[0] == decimal(n / 10)[0]);
    }
}

/// Parsing the decimal numeral of any value that fits in 32 bits gives that
/// value back.
pub proof fn law_parse_reads_decimal(n: nat)
    requires
        n <= u32::MAX,
    ensures
        parsed_u32(decimal(n)) == Some(n as u32),
{
    lemma_decimal_digits(n);
}

/// A numeral with anything but digits after its optional `+` sign does not parse.
pub proof fn law_parse_rejects_non_digits(s: Seq<char>, i: int)
    requires
        0 <= i < s.len(),
        !is_digit(s[i]),
        !(i == 0 && s[0] == '+'),
    ensures
        parsed_u32(s) is None,
{
    let d = unsigned_digits(s);
    if s.len() > 0 && s[0] == '+' {
        assert(d[i - 1] == s[i]);
    } else {
        assert(d[i] == s[i]);
    }
}

} // verus!
