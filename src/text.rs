//! Small verified helpers on characters and decimal text.
use vstd::prelude::*;

verus! {

/// Two string slices hold the same characters.
pub fn str_eq(a: &str, b: &str) -> (r: bool)
    ensures
        r == (a@ == b@),
{
    let n = a.unicode_len();
    let m = b.unicode_len();
    if n != m {
        return false;
    }
    let mut i: usize = 0;
    while i < n
        invariant
            n == a@.len(),
            m == b@.len(),
            n == m,
            i <= n,
            a@.subrange(0, i as int) == b@.subrange(0, i as int),
        decreases n - i,
    {
        if a.get_char(i) != b.get_char(i) {
            assert(a@[i as int] != b@[i as int]);
            return false;
        }
        assert(a@.subrange(0, i + 1) == a@.subrange(0, i as int).push(a@[i as int]));
        assert(b@.subrange(0, i + 1) == b@.subrange(0, i as int).push(b@[i as int]));
        i = i + 1;
    }
    assert(a@ == a@.subrange(0, n as int));
    assert(b@ == b@.subrange(0, n as int));
    true
}

/// The decimal digit character for a value below ten.
pub open spec fn digit_char(d: nat) -> char {
    if d == 0 { '0' } else if d == 1 { '1' } else if d == 2 { '2' } else if d == 3 { '3' }
    else if d == 4 { '4' } else if d == 5 { '5' } else if d == 6 { '6' } else if d == 7 { '7' }
    else if d == 8 { '8' } else { '9' }
}

/// The shortest decimal text of a natural number.
pub open spec fn decimal_of(n: nat) -> Seq<char>
    decreases n,
{
    if n < 10 {
        seq![digit_char(n)]
    } else {
        decimal_of(n / 10).push(digit_char(n % 10))
    }
}

fn digit_str(d: u64) -> (r: &'static str)
    requires
        d < 10,
    ensures
        r@ == seq![digit_char(d as nat)],
{
    proof {
        reveal_strlit("0");
        reveal_strlit("1");
        reveal_strlit("2");
        reveal_strlit("3");
        reveal_strlit("4");
        reveal_strlit("5");
        reveal_strlit("6");
        reveal_strlit("7");
        reveal_strlit("8");
        reveal_strlit("9");
    }
    let r = match d {
        0 => "0",
        1 => "1",
        2 => "2",
        3 => "3",
        4 => "4",
        5 => "5",
        6 => "6",
        7 => "7",
        8 => "8",
        _ => "9",
    };
    assert(r@ =~= seq![digit_char(d as nat)]);
    r
}

/// Decimal text of an unsigned integer, as `to_string` writes it.
pub fn u64_to_decimal(n: u64) -> (r: String)
    ensures
        r@ == decimal_of(n as nat),
    decreases n,
{
    if n < 10 {
        String::from_str(digit_str(n))
    } else {
        let mut s = u64_to_decimal(n / 10);
        s.append(digit_str(n % 10));
        s
    }
}

/// A character class of the number grammar: 0 digit, 1 sign, 2 point,
/// 3 exponent mark, 4 anything else.
pub open spec fn number_class(c: char) -> u8 {
    if '0' <= c && c <= '9' {
        0
    } else if c == '+' || c == '-' {
        1
    } else if c == '.' {
        2
    } else if c == 'e' || c == 'E' {
        3
    } else {
        4
    }
}

/// One step of the automaton for decimal numbers (`-12`, `0.5`, `.5`, `5.`,
/// `1e-7`). States: 0 start, 1 after a sign, 2 integer digits, 3 point with no
/// digit before it, 4 point after digits, 5 fraction digits, 6 exponent mark,
/// 7 exponent sign, 8 exponent digits, 9 refused.
pub open spec fn number_step(state: u8, c: char) -> u8 {
    let k = number_class(c);
    if state == 0 {
        if k == 1 { 1 } else if k == 0 { 2 } else if k == 2 { 3 } else { 9 }
    } else if state == 1 {
        if k == 0 { 2 } else if k == 2 { 3 } else { 9 }
    } else if state == 2 {
        if k == 0 { 2 } else if k == 2 { 4 } else if k == 3 { 6 } else { 9 }
    } else if state == 3 {
        if k == 0 { 5 } else { 9 }
    } else if state == 4 || state == 5 {
        if k == 0 { 5 } else if k == 3 { 6 } else { 9 }
    } else if state == 6 {
        if k == 1 { 7 } else if k == 0 { 8 } else { 9 }
    } else if state == 7 || state == 8 {
        if k == 0 { 8 } else { 9 }
    } else {
        9
    }
}

/// The state the automaton ends in after reading `s` from `state`.
pub open spec fn number_run(state: u8, s: Seq<char>) -> u8
    decreases s.len(),
{
    if s.len() == 0 {
        state
    } else {
        number_run(number_step(state, s[0]), s.drop_first())
    }
}

/// `s` is the decimal text of a number: an optional sign, digits with at
/// most one point and at least one digit, then an optional exponent.
pub open spec fn is_number_text(s: Seq<char>) -> bool {
    let end = number_run(0, s);
    end == 2 || end == 4 || end == 5 || end == 8
}

fn number_step_exec(state: u8, c: char) -> (r: u8)
    ensures
        r == number_step(state, c),
{
    let k: u8 = if '0' <= c && c <= '9' {
        0
    } else if c == '+' || c == '-' {
        1
    } else if c == '.' {
        2
    } else if c == 'e' || c == 'E' {
        3
    } else {
        4
    };
    if state == 0 {
        if k == 1 { 1 } else if k == 0 { 2 } else if k == 2 { 3 } else { 9 }
    } else if state == 1 {
        if k == 0 { 2 } else if k == 2 { 3 } else { 9 }
    } else if state == 2 {
        if k == 0 { 2 } else if k == 2 { 4 } else if k == 3 { 6 } else { 9 }
    } else if state == 3 {
        if k == 0 { 5 } else { 9 }
    } else if state == 4 || state == 5 {
        if k == 0 { 5 } else if k == 3 { 6 } else { 9 }
    } else if state == 6 {
        if k == 1 { 7 } else if k == 0 { 8 } else { 9 }
    } else if state == 7 || state == 8 {
        if k == 0 { 8 } else { 9 }
    } else {
        9
    }
}

/// Whether a string is the decimal text of a number.
pub fn check_number_text(s: &str) -> (r: bool)
    ensures
        r == is_number_text(s@),
{
    let n = s.unicode_len();
    let mut state: u8 = 0;
    let mut i: usize = 0;
    assert(s@.subrange(0, n as int) =~= s@);
    while i < n
        invariant
            n == s@.len(),
            i <= n,
            number_run(0, s@) == number_run(state, s@.subrange(i as int, n as int)),
        decreases n - i,
    {
        let c = s.get_char(i);
        proof {
            let rest = s@.subrange(i as int, n as int);
            assert(rest[0] == c);
            assert(rest.drop_first() =~= s@.subrange(i + 1, n as int));
        }
        state = number_step_exec(state, c);
        i = i + 1;
    }
    assert(s@.subrange(n as int, n as int).len() == 0);
    state == 2 || state == 4 || state == 5 || state == 8
}

} // verus!
