use vstd::prelude::*;

verus! {

pub const KIB: u64 = 1024;

pub const MIB: u64 = 1048576;

pub const GIB: u64 = 1073741824;

pub const TIB: u64 = 1099511627776;

/// `n / d` rounded to the nearest integer, a tie going to the even neighbour.
pub open spec fn div_round_even(n: nat, d: nat) -> nat
    recommends
        d > 0,
{
    let q = n / d;
    let r = n % d;
    if 2 * r > d || (2 * r == d && q % 2 == 1) {
        q + 1
    } else {
        q
    }
}

/// The character of a decimal digit.
pub open spec fn digit_char(d: nat) -> char
    recommends
        d < 10,
{
    "0123456789"@[d as int]
}

/// The decimal numeral of `n`, without leading zeros.
pub open spec fn decimal(n: nat) -> Seq<char>
    decreases n,
{
    if n < 10 {
        seq![digit_char(n)]
    } else {
        decimal(n / 10).push(digit_char(n % 10))
    }
}

/// `x / 10` written with one decimal place.
pub open spec fn tenths(x: nat) -> Seq<char> {
    decimal(x / 10) + seq!['.', digit_char(x % 10)]
}

/// `x / 100` written with two decimal places.
pub open spec fn hundredths(x: nat) -> Seq<char> {
    decimal(x / 100) + seq!['.', digit_char((x / 10) % 10), digit_char(x % 10)]
}

/// A byte count on a binary scale: whole bytes below one KiB, KiB and MiB
/// with one decimal place, GiB and TiB with two.
pub open spec fn human_bytes_text(bytes: u64) -> Seq<char> {
    let b = bytes as nat;
    if b < KIB {
        decimal(b) + " B"@
    } else if b < MIB {
        tenths(div_round_even(b * 10, KIB as nat)) + " KiB"@
    } else if b < GIB {
        tenths(div_round_even(b * 10, MIB as nat)) + " MiB"@
    } else if b < TIB {
        hundredths(div_round_even(b * 100, GIB as nat)) + " GiB"@
    } else {
        hundredths(div_round_even(b * 100, TIB as nat)) + " TiB"@
    }
}

fn round_div_even(n: u128, d: u128) -> (r: u128)
    requires
        d > 0,
        n / d < u128::MAX,
    ensures
        r as nat == div_round_even(n as nat, d as nat),
{
    let q = n / d;
    let rem = n % d;
    if rem > d - rem || (rem == d - rem && q % 2 == 1) {
        q + 1
    } else {
        q
    }
}

fn digit_text(d: u128) -> (r: &'static str)
    requires
        d < 10,
    ensures
        r@ == seq![digit_char(d as nat)],
{
    let all = "0123456789";
    proof {
        reveal_strlit("0123456789");
    }
    let r = all.substring_char(d as usize, d as usize + 1);
    assert(r@ =~= seq![digit_char(d as nat)]);
    r
}

fn push_decimal(out: &mut String, n: u128)
    ensures
        final(out)@ == old(out)@ + decimal(n as nat),
    decreases n,
{
    if n >= 10 {
        push_decimal(out, n / 10);
    }
    out.append(digit_text(n % 10));
    assert(final(out)@ =~= old(out)@ + decimal(n as nat));
}

fn push_tenths(out: &mut String, x: u128)
    ensures
        final(out)@ == old(out)@ + tenths(x as nat),
{
    push_decimal(out, x / 10);
    out.append(".");
    out.append(digit_text(x % 10));
    proof {
        reveal_strlit(".");
    }
    assert(final(out)@ =~= old(out)@ + tenths(x as nat));
}

fn push_hundredths(out: &mut String, x: u128)
    ensures
        final(out)@ == old(out)@ + hundredths(x as nat),
{
    push_decimal(out, x / 100);
    out.append(".");
    out.append(digit_text((x / 10) % 10));
    out.append(digit_text(x % 10));
    proof {
        reveal_strlit(".");
    }
    assert(final(out)@ =~= old(out)@ + hundredths(x as nat));
}

/// Renders a byte count on a binary (1024-based) scale, as in `1.50 GiB`.
pub fn human_bytes(bytes: u64) -> (r: String)
    ensures
        r@ == human_bytes_text(bytes),
{
    let b = bytes as u128;
    let mut out = String::new();
    if bytes < KIB {
        push_decimal(&mut out, b);
        out.append(" B");
        proof {
            reveal_strlit(" B");
        }
    } else if bytes < MIB {
        push_tenths(&mut out, round_div_even(b * 10, KIB as u128));
        out.append(" KiB");
    } else if bytes < GIB {
        push_tenths(&mut out, round_div_even(b * 10, MIB as u128));
        out.append(" MiB");
    } else if bytes < TIB {
        push_hundredths(&mut out, round_div_even(b * 100, GIB as u128));
        out.append(" GiB");
    } else {
        push_hundredths(&mut out, round_div_even(b * 100, TIB as u128));
        out.append(" TiB");
    }
    assert(out@ =~= human_bytes_text(bytes));
    out
}

} // verus!
