//! Reading text: the characters of a string, and numbers written in decimal digits.

use vstd::prelude::*;
use vstd::std_specs::iter::IteratorSpec;

verus! {

/// Whether `c` is one of the digits `0` to `9`.
pub open spec fn is_digit(c: char) -> bool {
    '0' <= c <= '9'
}

/// The value of the digit `c`.
pub open spec fn digit_value(c: char) -> int {
    c as int - '0' as int
}

/// Whether every character of `s` is a digit.
pub open spec fn all_digits(s: Seq<char>) -> bool {
    forall|i: int| 0 <= i < s.len() ==> is_digit(#[trigger] s[i])
}

/// The number that the digits `s` write in base ten; 0 for no digits.
pub open spec fn decimal(s: Seq<char>) -> int
    decreases s.len(),
{
    if s.len() == 0 {
        0
    } else {
        decimal(s.drop_last()) * 10 + digit_value(s.last())
    }
}

/// The number that `s` writes, where `s` is one or more digits, with or without a `+`
/// before them, and the number fits in 32 bits; `None` for any other text.
pub open spec fn unsigned(s: Seq<char>) -> Option<u32> {
    let digits = if s.len() > 0 && s[0] == '+' {
        s.skip(1)
    } else {
        s
    };
    if digits.len() > 0 && all_digits(digits) && decimal(digits) <= u32::MAX {
        Some(decimal(digits) as u32)
    } else {
        None
    }
}

/// A number written in digits is not negative, and no smaller than the number that
/// its first `k` digits write.
pub proof fn lemma_decimal_prefix(s: Seq<char>, k: int)
    requires
        all_digits(s),
        0 <= k <= s.len(),
    ensures
        0 <= decimal(s.take(k)) <= decimal(s),
    decreases s.len(),
{
    if s.len() == 0 {
        assert(s.take(k) =~= s);
    } else if k == s.len() {
        assert(s.take(k) =~= s);
        lemma_decimal_prefix(s.drop_last(), 0);
        assert(is_digit(s.last()));
    } else {
        lemma_decimal_prefix(s.drop_last(), k);
        assert(s.drop_last().take(k) =~= s.take(k));
        assert(is_digit(s.last()));
    }
}

/// Four digits write a number below ten thousand.
pub proof fn lemma_four_digits(s: Seq<char>)
    requires
        s.len() == 4,
        all_digits(s),
    ensures
        0 <= decimal(s) <= 9999,
{
    let s3 = s.drop_last();
    let s2 = s3.drop_last();
    let s1 = s2.drop_last();
    let s0 = s1.drop_last();
    assert(is_digit(s[3]) && is_digit(s[2]) && is_digit(s[1]) && is_digit(s[0]));
    assert(s3.last() == s[2] && s2.last() == s[1] && s1.last() == s[0]);
    assert(decimal(s0) == 0);
    assert(decimal(s1) == decimal(s0) * 10 + (s[0] as int - '0' as int));
    assert(decimal(s2) == decimal(s1) * 10 + (s[1] as int - '0' as int));
    assert(decimal(s3) == decimal(s2) * 10 + (s[2] as int - '0' as int));
}

/// The characters of `s`.
pub fn chars_of(s: &str) -> (v: Vec<char>)
    ensures
        v@ == s@,
{
    let mut v: Vec<char> = Vec::new();
    for c in it: s.chars()
        invariant
            it.seq() == s@,
            v@ == it.seq().take(it.index() as int),
    {
        v.push(c);
    }
    v
}

/// Whether the characters of `a` from `from` to `to` spell `b`.
pub fn spells(a: &Vec<char>, from: usize, to: usize, b: &str) -> (r: bool)
    requires
        from <= to <= a.len(),
    ensures
        r == (a@.subrange(from as int, to as int) == b@),
{
    let want = chars_of(b);
    assert(a@.subrange(from as int, to as int).len() == to - from);
    if want.len() != to - from {
        return false;
    }
    let mut i: usize = 0;
    while i < want.len()
        invariant
            from <= to <= a.len(),
            want@ == b@,
            want.len() == to - from,
            i <= want.len(),
            forall|j: int| 0 <= j < i ==> a[from + j] == want[j],
        decreases want.len() - i,
    {
        if a[from + i] != want[i] {
            assert(a@.subrange(from as int, to as int)[i as int] == a@[from + i]);
            return false;
        }
        i += 1;
    }
    assert(a@.subrange(from as int, to as int) =~= want@);
    true
}

/// Whether `a` and `b` are the same text.
pub fn same_text(a: &str, b: &str) -> (r: bool)
    ensures
        r == (a@ == b@),
{
    let a = chars_of(a);
    assert(a@.subrange(0, a.len() as int) =~= a@);
    spells(&a, 0, a.len(), b)
}

/// Whether `c` stands somewhere in `s`.
pub open spec fn has_char(s: Seq<char>, c: char) -> bool {
    exists|k: int| 0 <= k < s.len() && s[k] == c
}

/// Whether `c` stands at index `k` of `s` and nowhere before it.
pub open spec fn first_at(s: Seq<char>, c: char, k: int) -> bool {
    0 <= k < s.len() && s[k] == c && forall|i: int| 0 <= i < k ==> s[i] != c
}

/// The index at which `c` first stands in `s`, where it stands somewhere.
pub open spec fn first_index(s: Seq<char>, c: char) -> int {
    choose|k: int| first_at(s, c, k)
}

/// Finds the first `c` among the characters of `v` from `from` to `to`.
pub fn find_char(v: &Vec<char>, from: usize, to: usize, c: char) -> (r: Option<usize>)
    requires
        from <= to <= v.len(),
    ensures
        r is Some <==> has_char(v@.subrange(from as int, to as int), c),
        r matches Some(k) ==> from <= k < to && first_at(
            v@.subrange(from as int, to as int),
            c,
            k - from,
        ) && first_index(v@.subrange(from as int, to as int), c) == k - from,
{
    let ghost s = v@.subrange(from as int, to as int);
    let mut k: usize = from;
    while k < to
        invariant
            from <= k <= to <= v.len(),
            s == v@.subrange(from as int, to as int),
            forall|i: int| 0 <= i < k - from ==> s[i] != c,
        decreases to - k,
    {
        if v[k] == c {
            assert(s[k - from] == c);
            assert(first_at(s, c, k - from));
            assert(first_at(s, c, first_index(s, c)));
            return Some(k);
        }
        assert(s[k - from] == v@[k as int]);
        k += 1;
    }
    None
}

/// Whether the characters of `v` from `from` to `to` are all digits.
pub fn digits_only(v: &Vec<char>, from: usize, to: usize) -> (r: bool)
    requires
        from <= to <= v.len(),
    ensures
        r == all_digits(v@.subrange(from as int, to as int)),
{
    let mut i: usize = from;
    while i < to
        invariant
            from <= i <= to <= v.len(),
            all_digits(v@.subrange(from as int, i as int)),
        decreases to - i,
    {
        let c: char = v[i];
        if !('0' <= c && c <= '9') {
            assert(v@.subrange(from as int, to as int)[i - from] == c);
            return false;
        }
        assert forall|j: int| 0 <= j < i + 1 - from implies is_digit(
            #[trigger] v@.subrange(from as int, i + 1)[j],
        ) by {
            if j < i - from {
                assert(v@.subrange(from as int, i as int)[j] == v@[from + j]);
            }
        }
        i += 1;
    }
    true
}

/// The number that the digits of `v` from `from` to `to` write, unless it exceeds 32
/// bits.
pub fn read_decimal(v: &Vec<char>, from: usize, to: usize) -> (r: Option<u32>)
    requires
        from <= to <= v.len(),
        all_digits(v@.subrange(from as int, to as int)),
    ensures
        r == if decimal(v@.subrange(from as int, to as int)) <= u32::MAX {
            Some(decimal(v@.subrange(from as int, to as int)) as u32)
        } else {
            None
        },
{
    let ghost whole = v@.subrange(from as int, to as int);
    let mut acc: u64 = 0;
    let mut i: usize = from;
    while i < to
        invariant
            from <= i <= to <= v.len(),
            whole == v@.subrange(from as int, to as int),
            all_digits(whole),
            acc == decimal(v@.subrange(from as int, i as int)),
            acc <= u32::MAX,
        decreases to - i,
    {
        let c: char = v[i];
        assert(whole[i - from] == c);
        assert(is_digit(c));
        let digit: u64 = (c as u32 - '0' as u32) as u64;
        let next: u64 = acc * 10 + digit;
        proof {
            let longer = v@.subrange(from as int, i + 1);
            assert(longer.drop_last() =~= v@.subrange(from as int, i as int));
            assert(longer =~= whole.take(i + 1 - from));
            lemma_decimal_prefix(whole, i + 1 - from);
        }
        if next > u32::MAX as u64 {
            return None;
        }
        acc = next;
        i += 1;
    }
    Some(acc as u32)
}

/// The number that the characters of `v` from `from` to `to` write.
pub fn read_unsigned(v: &Vec<char>, from: usize, to: usize) -> (r: Option<u32>)
    requires
        from <= to <= v.len(),
    ensures
        r == unsigned(v@.subrange(from as int, to as int)),
{
    let ghost s = v@.subrange(from as int, to as int);
    let start: usize = if from < to && v[from] == '+' {
        from + 1
    } else {
        from
    };
    assert(v@.subrange(start as int, to as int) =~= if s.len() > 0 && s[0] == '+' {
        s.skip(1)
    } else {
        s
    });
    if start == to || !digits_only(v, start, to) {
        return None;
    }
    read_decimal(v, start, to)
}

/// The digit that writes `d`, for `d` from 0 to 9.
pub open spec fn digit_char(d: int) -> char {
    if d == 0 {
        '0'
    } else if d == 1 {
        '1'
    } else if d == 2 {
        '2'
    } else if d == 3 {
        '3'
    } else if d == 4 {
        '4'
    } else if d == 5 {
        '5'
    } else if d == 6 {
        '6'
    } else if d == 7 {
        '7'
    } else if d == 8 {
        '8'
    } else {
        '9'
    }
}

/// The digits that write `n` in base ten, without a zero in front.
pub open spec fn decimal_text(n: nat) -> Seq<char>
    decreases n,
{
    if n < 10 {
        seq![digit_char(n as int)]
    } else {
        decimal_text(n / 10).push(digit_char((n % 10) as int))
    }
}

/// The four digits that write `n` in base ten, with zeros in front where `n` is below
/// one thousand.
pub open spec fn four_digits(n: nat) -> Seq<char> {
    seq![
        digit_char((n / 1000 % 10) as int),
        digit_char((n / 100 % 10) as int),
        digit_char((n / 10 % 10) as int),
        digit_char((n % 10) as int),
    ]
}

/// The digits that write a number are digits, and they write that number.
pub proof fn lemma_decimal_text(n: nat)
    ensures
        decimal_text(n).len() > 0,
        all_digits(decimal_text(n)),
        decimal(decimal_text(n)) == n,
    decreases n,
{
    if n < 10 {
        assert(decimal_text(n).drop_last() =~= Seq::<char>::empty());
        assert(decimal(Seq::<char>::empty()) == 0);
        assert(decimal_text(n).last() == digit_char(n as int));
    } else {
        lemma_decimal_text(n / 10);
        assert(decimal_text(n).drop_last() =~= decimal_text(n / 10));
        assert(decimal_text(n).last() == digit_char((n % 10) as int));
    }
}

/// The four digits that write a number below ten thousand are digits, and they write
/// that number.
pub proof fn lemma_four_digits_text(n: nat)
    requires
        n <= 9999,
    ensures
        four_digits(n).len() == 4,
        all_digits(four_digits(n)),
        decimal(four_digits(n)) == n,
{
    let s = four_digits(n);
    let s3 = s.drop_last();
    let s2 = s3.drop_last();
    let s1 = s2.drop_last();
    assert(s1.drop_last() =~= Seq::<char>::empty());
    assert(decimal(Seq::<char>::empty()) == 0);
    assert(s1.last() == s[0] && s2.last() == s[1] && s3.last() == s[2] && s.last() == s[3]);
    assert(decimal(s1) == n / 1000 % 10);
    assert(decimal(s2) == decimal(s1) * 10 + n / 100 % 10);
    assert(decimal(s3) == decimal(s2) * 10 + n / 10 % 10);
}

/// Appends to `s` the digit that writes `d`.
pub fn push_digit(s: &mut String, d: u32)
    requires
        d < 10,
    ensures
        final(s)@ == old(s)@.push(digit_char(d as int)),
{
    proof {
        reveal_strlit("0");
        reveal_strlit("1");
        reveal_strlit("2");
        reveal_strlit("3");
        reveal_strlit("4");
        reveal_strlit("5");
        reveal_strlit("6");
        reveal_strlit("7");
        reveal_strlit("8");
        reveal_strlit("9");
    }
    let ghost before = s@;
    let digit: &str = match d {
        0 => "0",
        1 => "1",
        2 => "2",
        3 => "3",
        4 => "4",
        5 => "5",
        6 => "6",
        7 => "7",
        8 => "8",
        _ => "9",
    };
    assert(digit@ =~= seq![digit_char(d as int)]);
    s.append(digit);
    assert(s@ =~= before.push(digit_char(d as int)));
}

/// Appends to `s` the digits that write `n`.
pub fn push_decimal(s: &mut String, n: u32)
    ensures
        final(s)@ == old(s)@ + decimal_text(n as nat),
    decreases n,
{
    let ghost before = s@;
    if n >= 10 {
        push_decimal(s, n / 10);
    }
    push_digit(s, n % 10);
    assert(s@ =~= before + decimal_text(n as nat));
}

/// Appends to `s` the four digits that write `n`.
pub fn push_four_digits(s: &mut String, n: u32)
    requires
        n <= 9999,
    ensures
        final(s)@ == old(s)@ + four_digits(n as nat),
{
    let ghost before = s@;
    push_digit(s, n / 1000 % 10);
    push_digit(s, n / 100 % 10);
    push_digit(s, n / 10 % 10);
    push_digit(s, n % 10);
    assert(s@ =~= before + four_digits(n as nat));
}

/// The text that writes `n` in base ten, with `-` in front where `n` is negative.
pub open spec fn signed_text(n: int) -> Seq<char> {
    if n < 0 {
        seq!['-'] + decimal_text((-n) as nat)
    } else {
        decimal_text(n as nat)
    }
}

/// Appends to `s` the text that writes `n`.
pub fn push_signed(s: &mut String, n: i32)
    ensures
        final(s)@ == old(s)@ + signed_text(n as int),
{
    let ghost before = s@;
    if n < 0 {
        proof {
            reveal_strlit("-");
        }
        s.append("-");
        push_decimal(s, (-(n as i64)) as u32);
        assert(s@ =~= before + signed_text(n as int));
    } else {
        push_decimal(s, n as u32);
    }
}

} // verus!
