//! Decimal and Roman numerals.

use vstd::prelude::*;

verus! {

/// Trusted: `String::push` appends the given character to the end of the
/// string and changes nothing else.
pub assume_specification[ String::push ](s: &mut String, c: char)
    ensures
        final(s)@ == old(s)@.push(c),
;

/// The character for the decimal digit `d`.
pub open spec fn digit(d: int) -> char
    recommends
        0 <= d < 10,
{
    ('0' as int + d) as char
}

/// `n` written in decimal, without leading zeros.
pub open spec fn decimal(n: nat) -> Seq<char>
    decreases n,
{
    if n < 10 {
        seq![digit(n as int)]
    } else {
        decimal(n / 10).push(digit((n % 10) as int))
    }
}

/// The number that a sequence of decimal digits stands for.
pub open spec fn decimal_value(s: Seq<char>) -> int
    decreases s.len(),
{
    if s.len() == 0 {
        0
    } else {
        10 * decimal_value(s.drop_last()) + (s.last() as int - '0' as int)
    }
}

/// `n` written in decimal, with a leading minus sign where it is negative.
pub open spec fn signed_decimal(n: int) -> Seq<char> {
    if n < 0 {
        seq!['-'] + decimal((-n) as nat)
    } else {
        decimal(n as nat)
    }
}

/// `count` times the same character.
pub open spec fn repeated(c: char, count: nat) -> Seq<char> {
    Seq::new(count, |i: int| c)
}

/// The Roman digit for `tens` tens, below fifty.
pub open spec fn roman_tens(tens: nat) -> Seq<char> {
    if tens == 4 {
        seq!['X', 'L']
    } else {
        repeated('X', tens)
    }
}

/// The Roman digit for `units` units, below ten.
pub open spec fn roman_units(units: nat) -> Seq<char> {
    if units == 9 {
        seq!['I', 'X']
    } else if units >= 5 {
        seq!['V'] + repeated('I', (units - 5) as nat)
    } else if units == 4 {
        seq!['I', 'V']
    } else {
        repeated('I', units)
    }
}

/// `n` as a Roman numeral whose largest symbol is `L`: as many fifties as fit,
/// then the tens and units of what is left. Zero is the empty numeral.
pub open spec fn roman(n: nat) -> Seq<char> {
    repeated('L', n / 50) + roman_tens((n % 50) / 10) + roman_units(n % 10)
}

/// What a single Roman symbol counts for.
pub open spec fn roman_symbol_value(c: char) -> int {
    if c == 'I' {
        1
    } else if c == 'V' {
        5
    } else if c == 'X' {
        10
    } else if c == 'L' {
        50
    } else {
        0
    }
}

/// The number that a Roman numeral reads as: each symbol adds its value, or
/// takes it away where a larger symbol follows.
pub open spec fn roman_value(s: Seq<char>) -> int
    decreases s.len(),
{
    if s.len() == 0 {
        0
    } else if s.len() >= 2 && roman_symbol_value(s[0]) < roman_symbol_value(s[1]) {
        roman_value(s.skip(1)) - roman_symbol_value(s[0])
    } else {
        roman_value(s.skip(1)) + roman_symbol_value(s[0])
    }
}

/// A decimal numeral reads back as the number it was written for.
pub proof fn decimal_reads_back(n: nat)
    ensures
        decimal_value(decimal(n)) == n,
    decreases n,
{
    let s = decimal(n);
    if n < 10 {
        assert(s.drop_last() =~= Seq::<char>::empty());
        assert(decimal_value(s.drop_last()) == 0);
        assert(s.last() == digit(n as int));
    } else {
        decimal_reads_back(n / 10);
        assert(s.drop_last() =~= decimal(n / 10));
        assert(s.last() == digit((n % 10) as int));
    }
}

/// A decimal numeral holds decimal digits alone, at least one of them, and
/// starts with a zero only where it stands for zero.
pub proof fn decimal_is_plain(n: nat)
    ensures
        decimal(n).len() > 0,
        forall|i: int| 0 <= i < decimal(n).len() ==> '0' <= #[trigger] decimal(n)[i] <= '9',
        decimal(n)[0] == '0' <==> n == 0,
    decreases n,
{
    if n >= 10 {
        decimal_is_plain(n / 10);
        assert(decimal(n)[0] == decimal(n / 10)[0]);
    }
}

/// Two numbers written alike in decimal are the same number.
pub proof fn decimal_is_injective(a: nat, b: nat)
    requires
        decimal(a) == decimal(b),
    ensures
        a == b,
{
    decimal_reads_back(a);
    decimal_reads_back(b);
}

/// Putting a symbol that no larger one follows in front adds its value.
proof fn roman_value_of_front(c: char, rest: Seq<char>)
    requires
        rest.len() > 0 ==> roman_symbol_value(rest[0]) <= roman_symbol_value(c),
    ensures
        roman_value(seq![c] + rest) == roman_symbol_value(c) + roman_value(rest),
{
    let s = seq![c] + rest;
    assert(s.skip(1) =~= rest);
    if rest.len() > 0 {
        assert(s[1] == rest[0]);
    }
}

/// Putting a smaller symbol in front takes its value away.
proof fn roman_value_of_smaller_front(c: char, rest: Seq<char>)
    requires
        rest.len() > 0,
        roman_symbol_value(c) < roman_symbol_value(rest[0]),
    ensures
        roman_value(seq![c] + rest) == roman_value(rest) - roman_symbol_value(c),
{
    let s = seq![c] + rest;
    assert(s.skip(1) =~= rest);
    assert(s[1] == rest[0]);
}

/// A run of one symbol that no larger one follows adds up.
proof fn roman_value_of_run(c: char, count: nat, rest: Seq<char>)
    requires
        rest.len() > 0 ==> roman_symbol_value(rest[0]) <= roman_symbol_value(c),
    ensures
        roman_value(repeated(c, count) + rest) == count * roman_symbol_value(c) + roman_value(rest),
    decreases count,
{
    if count == 0 {
        assert(repeated(c, 0) + rest =~= rest);
    } else {
        let shorter = repeated(c, (count - 1) as nat) + rest;
        roman_value_of_run(c, (count - 1) as nat, rest);
        roman_value_of_front(c, shorter);
        assert(repeated(c, count) + rest =~= seq![c] + shorter);
        assert(count * roman_symbol_value(c) == (count - 1) * roman_symbol_value(c)
            + roman_symbol_value(c)) by (nonlinear_arith);
    }
}

/// The units of a numeral read as the units.
proof fn roman_value_of_units(units: nat)
    requires
        units < 10,
    ensures
        roman_value(roman_units(units)) == units,
        roman_units(units).len() > 0 ==> roman_symbol_value(roman_units(units)[0]) <= 5,
{
    let none = Seq::<char>::empty();
    if units == 9 {
        roman_value_of_front('X', none);
        assert(seq!['X'] + none =~= seq!['X']);
        roman_value_of_smaller_front('I', seq!['X']);
        assert(seq!['I'] + seq!['X'] =~= roman_units(units));
    } else if units >= 5 {
        let ones = repeated('I', (units - 5) as nat);
        roman_value_of_run('I', (units - 5) as nat, none);
        assert(ones + none =~= ones);
        roman_value_of_front('V', ones);
    } else if units == 4 {
        roman_value_of_front('V', none);
        assert(seq!['V'] + none =~= seq!['V']);
        roman_value_of_smaller_front('I', seq!['V']);
        assert(seq!['I'] + seq!['V'] =~= roman_units(units));
    } else {
        roman_value_of_run('I', units, none);
        assert(repeated('I', units) + none =~= roman_units(units));
    }
}

/// A Roman numeral reads back as the number it was written for.
pub proof fn roman_reads_back(n: nat)
    ensures
        roman_value(roman(n)) == n,
{
    let fifties = n / 50;
    let tens = (n % 50) / 10;
    let units = n % 10;
    let low = roman_units(units);
    roman_value_of_units(units);
    let middle = roman_tens(tens) + low;
    if tens == 4 {
        roman_value_of_front('L', low);
        roman_value_of_smaller_front('X', seq!['L'] + low);
        assert(seq!['X'] + (seq!['L'] + low) =~= middle);
    } else {
        roman_value_of_run('X', tens, low);
    }
    assert(roman_value(middle) == 10 * tens + units);
    assert(middle.len() > 0 ==> roman_symbol_value(middle[0]) <= 50);
    roman_value_of_run('L', fifties, middle);
    assert(roman(n) =~= repeated('L', fifties) + middle);
    assert(n == 50 * fifties + 10 * tens + units);
}

/// Two numbers written alike as Roman numerals are the same number.
pub proof fn roman_is_injective(a: nat, b: nat)
    requires
        roman(a) == roman(b),
    ensures
        a == b,
{
    roman_reads_back(a);
    roman_reads_back(b);
}

/// Appends `value` in decimal.
fn push_decimal(out: &mut String, value: u32)
    ensures
        final(out)@ == old(out)@ + decimal(value as nat),
    decreases value,
{
    if value >= 10 {
        push_decimal(out, value / 10);
    }
    let units: u8 = (value % 10) as u8;
    // The digits follow each other in ASCII, from 48 for zero.
    out.push((48u8 + units) as char);
}

/// `value` in decimal.
pub fn decimal_numeral(value: u32) -> (numeral: String)
    ensures
        numeral@ == decimal(value as nat),
{
    let mut numeral = String::new();
    push_decimal(&mut numeral, value);
    numeral
}

/// `value` in decimal, with a minus sign in front where it is negative.
pub fn signed_decimal_numeral(value: i32) -> (numeral: String)
    ensures
        numeral@ == signed_decimal(value as int),
{
    let mut numeral = String::new();
    let wide: i64 = value as i64;
    if wide < 0 {
        numeral.push('-');
        push_decimal(&mut numeral, (-wide) as u32);
    } else {
        push_decimal(&mut numeral, wide as u32);
    }
    numeral
}

/// The numeral below ten is its units alone.
proof fn roman_below_ten(n: nat)
    requires
        n < 10,
    ensures
        roman(n) == roman_units(n),
{
    assert(repeated('L', 0) + roman_tens(0) + roman_units(n) =~= roman_units(n));
}

/// Taking one of the leading fifties away takes one `L` away.
proof fn roman_without_fifty(n: nat)
    requires
        n >= 50,
    ensures
        roman(n) == seq!['L'] + roman((n - 50) as nat),
{
    let rest = (n - 50) as nat;
    assert(n / 50 == rest / 50 + 1);
    assert(n % 50 == rest % 50);
    assert(n % 10 == rest % 10);
    assert(repeated('L', n / 50) =~= seq!['L'] + repeated('L', rest / 50));
    assert(roman(n) =~= seq!['L'] + roman(rest));
}

/// Taking the leading forty away takes `XL` away.
proof fn roman_without_forty(n: nat)
    requires
        40 <= n < 50,
    ensures
        roman(n) == seq!['X', 'L'] + roman((n - 40) as nat),
{
    let rest = (n - 40) as nat;
    roman_below_ten(rest);
    assert(n % 10 == rest);
    assert(roman(n) =~= seq!['X', 'L'] + roman_units(rest));
}

/// Taking one of the leading tens away takes one `X` away.
proof fn roman_without_ten(n: nat)
    requires
        10 <= n < 40,
    ensures
        roman(n) == seq!['X'] + roman((n - 10) as nat),
{
    let rest = (n - 10) as nat;
    assert(n % 10 == rest % 10);
    assert(n / 10 == rest / 10 + 1);
    assert(repeated('X', n / 10) =~= seq!['X'] + repeated('X', rest / 10));
    assert(roman(n) =~= seq!['X'] + roman(rest));
}

/// Taking the leading nine, five, four or one away takes its symbols away.
proof fn roman_without_units(n: nat, weight: nat, symbol: Seq<char>)
    requires
        0 < n < 10,
        n == 9 ==> weight == 9 && symbol == seq!['I', 'X'],
        5 <= n < 9 ==> weight == 5 && symbol == seq!['V'],
        n == 4 ==> weight == 4 && symbol == seq!['I', 'V'],
        n < 4 ==> weight == 1 && symbol == seq!['I'],
    ensures
        roman(n) == symbol + roman((n - weight) as nat),
{
    let rest = (n - weight) as nat;
    roman_below_ten(n);
    roman_below_ten(rest);
    assert(roman_units(n) =~= symbol + roman_units(rest));
}

/// The largest weight of the Roman system that fits into `remaining`, with the
/// symbols that stand for it.
fn largest_symbol(remaining: u32) -> (found: (u32, &'static str))
    requires
        remaining > 0,
    ensures
        0 < found.0 <= remaining,
        roman(remaining as nat) == found.1@ + roman((remaining - found.0) as nat),
{
    let ghost n = remaining as nat;
    if remaining >= 50 {
        proof {
            reveal_strlit("L");
            assert("L"@ =~= seq!['L']);
            roman_without_fifty(n);
        }
        (50, "L")
    } else if remaining >= 40 {
        proof {
            reveal_strlit("XL");
            assert("XL"@ =~= seq!['X', 'L']);
            roman_without_forty(n);
        }
        (40, "XL")
    } else if remaining >= 10 {
        proof {
            reveal_strlit("X");
            assert("X"@ =~= seq!['X']);
            roman_without_ten(n);
        }
        (10, "X")
    } else if remaining >= 9 {
        proof {
            reveal_strlit("IX");
            assert("IX"@ =~= seq!['I', 'X']);
            roman_without_units(n, 9, "IX"@);
        }
        (9, "IX")
    } else if remaining >= 5 {
        proof {
            reveal_strlit("V");
            assert("V"@ =~= seq!['V']);
            roman_without_units(n, 5, "V"@);
        }
        (5, "V")
    } else if remaining >= 4 {
        proof {
            reveal_strlit("IV");
            assert("IV"@ =~= seq!['I', 'V']);
            roman_without_units(n, 4, "IV"@);
        }
        (4, "IV")
    } else {
        proof {
            reveal_strlit("I");
            assert("I"@ =~= seq!['I']);
            roman_without_units(n, 1, "I"@);
        }
        (1, "I")
    }
}

/// `value` as a Roman numeral without symbols above `L`.
pub fn roman_numeral(value: u32) -> (numeral: String)
    ensures
        numeral@ == roman(value as nat),
{
    let mut remaining: u32 = value;
    let mut numeral = String::new();
    assert(numeral@ + roman(remaining as nat) =~= roman(value as nat));
    while remaining > 0
        invariant
            numeral@ + roman(remaining as nat) == roman(value as nat),
        decreases remaining,
    {
        let (weight, symbol) = largest_symbol(remaining);
        let ghost before = numeral@;
        remaining = remaining - weight;
        numeral.append(symbol);
        assert(numeral@ + roman(remaining as nat) =~= before + (symbol@ + roman(
            remaining as nat,
        )));
    }
    assert(roman(0) =~= Seq::<char>::empty());
    assert(numeral@ + roman(0) =~= numeral@);
    numeral
}

/// A Roman numeral starts with the symbols of the largest of fifty, forty, ten,
/// nine, five, four and one that fits into its number, and goes on as the
/// numeral of what is left. Nothing is left of zero, and zero has no symbols.
pub proof fn roman_starts_with_the_largest_weight(n: nat)
    ensures
        n == 0 ==> roman(n) == Seq::<char>::empty(),
        n >= 50 ==> roman(n) == seq!['L'] + roman((n - 50) as nat),
        40 <= n < 50 ==> roman(n) == seq!['X', 'L'] + roman((n - 40) as nat),
        10 <= n < 40 ==> roman(n) == seq!['X'] + roman((n - 10) as nat),
        n == 9 ==> roman(n) == seq!['I', 'X'],
        5 <= n < 9 ==> roman(n) == seq!['V'] + roman((n - 5) as nat),
        n == 4 ==> roman(n) == seq!['I', 'V'],
        1 <= n < 4 ==> roman(n) == seq!['I'] + roman((n - 1) as nat),
{
    if n >= 50 {
        roman_without_fifty(n);
    } else if n >= 40 {
        roman_without_forty(n);
    } else if n >= 10 {
        roman_without_ten(n);
    } else if n == 9 || n == 4 || n == 0 {
        roman_below_ten(n);
    } else if n >= 5 {
        roman_without_units(n, 5, seq!['V']);
    } else {
        roman_without_units(n, 1, seq!['I']);
    }
}

/// A signed numeral reads back as its number: a negative one is a minus sign
/// before the digits of its magnitude, any other is its digits alone.
pub proof fn signed_decimal_reads_back(n: int)
    ensures
        n < 0 ==> signed_decimal(n).len() > 1 && signed_decimal(n)[0] == '-' && decimal_value(
            signed_decimal(n).skip(1),
        ) == -n && signed_decimal(n)[1] != '0',
        n >= 0 ==> decimal_value(signed_decimal(n)) == n,
        n > 0 ==> signed_decimal(n).len() > 0 && signed_decimal(n)[0] != '0',
        forall|i: int|
            (if n < 0 {
                1int
            } else {
                0int
            }) <= i < signed_decimal(n).len() ==> '0' <= #[trigger] signed_decimal(n)[i] <= '9',
{
    if n < 0 {
        decimal_reads_back((-n) as nat);
        decimal_is_plain((-n) as nat);
        assert(signed_decimal(n).skip(1) =~= decimal((-n) as nat));
        assert forall|i: int| 1 <= i < signed_decimal(n).len() implies '0'
            <= #[trigger] signed_decimal(n)[i] <= '9' by {
            assert(signed_decimal(n)[i] == decimal((-n) as nat)[i - 1]);
        }
    } else {
        decimal_reads_back(n as nat);
        decimal_is_plain(n as nat);
    }
}

} // verus!
