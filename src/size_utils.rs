use vstd::prelude::*;

verus! {

pub const KB: u64 = 1000;

pub const MB: u64 = KB * 1000;

pub const GB: u64 = MB * 1000;

pub open spec fn digit_char(d: nat) -> char {
    if d == 0 {
        '0'
    } else if d == 1 {
        '1'
    } else if d == 2 {
        '2'
    } else if d == 3 {
        '3'
    } else if d == 4 {
        '4'
    } else if d == 5 {
        '5'
    } else if d == 6 {
        '6'
    } else if d == 7 {
        '7'
    } else if d == 8 {
        '8'
    } else {
        '9'
    }
}

/// The decimal digits of `n`, most significant first, without leading zeros.
pub open spec fn decimal(n: nat) -> Seq<char>
    decreases n,
{
    if n < 10 {
        seq![digit_char(n)]
    } else {
        decimal(n / 10).push(digit_char(n % 10))
    }
}

/// `size` in units of `unit`, with two decimals rounded half up, then the unit's suffix.
pub open spec fn scaled(size: nat, unit: nat, suffix: Seq<char>) -> Seq<char>
    recommends
        unit > 0,
{
    let hundredths = ((size % unit) * 100 + unit / 2) / unit;
    decimal(size / unit + hundredths / 100) + seq!['.', digit_char((hundredths % 100) / 10), digit_char(hundredths % 10), ' ']
        + suffix
}

/// A byte count as text: bytes below a kilobyte, else kilo-, mega- or gigabytes.
pub open spec fn human_size(size: nat) -> Seq<char> {
    if size < KB {
        decimal(size) + seq![' ', 'B']
    } else if size < MB {
        scaled(size, KB as nat, seq!['K', 'B'])
    } else if size < GB {
        scaled(size, MB as nat, seq!['M', 'B'])
    } else {
        scaled(size, GB as nat, seq!['G', 'B'])
    }
}

fn digit_str(d: u64) -> (r: &'static str)
    requires
        d < 10,
    ensures
        r@ == seq![digit_char(d as nat)],
{
    proof {
        reveal_strlit("0");
        reveal_strlit("1");
        reveal_strlit("2");
        reveal_strlit("3");
        reveal_strlit("4");
        reveal_strlit("5");
        reveal_strlit("6");
        reveal_strlit("7");
        reveal_strlit("8");
        reveal_strlit("9");
    }
    if d == 0 {
        "0"
    } else if d == 1 {
        "1"
    } else if d == 2 {
        "2"
    } else if d == 3 {
        "3"
    } else if d == 4 {
        "4"
    } else if d == 5 {
        "5"
    } else if d == 6 {
        "6"
    } else if d == 7 {
        "7"
    } else if d == 8 {
        "8"
    } else {
        "9"
    }
}

fn push_decimal(s: &mut String, n: u64)
    ensures
        final(s)@ == old(s)@ + decimal(n as nat),
    decreases n,
{
    if n >= 10 {
        push_decimal(s, n / 10);
    }
    s.append(digit_str(n % 10));
}

fn push_scaled(s: &mut String, size: u64, unit: u64)
    requires
        1000 <= unit <= GB,
    ensures
        final(s)@ == old(s)@ + scaled(size as nat, unit as nat, Seq::empty()),
{
    let rem: u64 = size % unit;
    assert(rem * 100 + unit / 2 < 101 * unit) by (nonlinear_arith)
        requires
            rem < unit,
    ;
    let hundredths: u64 = (rem * 100 + unit / 2) / unit;
    assert(hundredths <= 100) by (nonlinear_arith)
        requires
            hundredths as int == (rem * 100 + unit / 2) as int / unit as int,
            rem * 100 + unit / 2 < 101 * unit,
            unit > 0,
    ;
    assert(size / unit <= size / 1000) by (nonlinear_arith)
        requires
            1000 <= unit,
    ;
    push_decimal(s, size / unit + hundredths / 100);
    s.append(".");
    s.append(digit_str((hundredths % 100) / 10));
    s.append(digit_str(hundredths % 10));
    s.append(" ");
    proof {
        reveal_strlit(".");
        reveal_strlit(" ");
    }
}

/// Formats a byte count for display.
pub fn human_readable(size: u64) -> (r: String)
    ensures
        r@ == human_size(size as nat),
{
    let mut s = String::new();
    proof {
        reveal_strlit(" B");
        reveal_strlit("KB");
        reveal_strlit("MB");
        reveal_strlit("GB");
    }
    if size < KB {
        push_decimal(&mut s, size);
        s.append(" B");
    } else if size < MB {
        push_scaled(&mut s, size, KB);
        s.append("KB");
    } else if size < GB {
        push_scaled(&mut s, size, MB);
        s.append("MB");
    } else {
        push_scaled(&mut s, size, GB);
        s.append("GB");
    }
    assert(s@ =~= human_size(size as nat));
    s
}

} // verus!
