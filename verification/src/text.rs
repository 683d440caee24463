//! Text composed by the bot: the console notice that names a shard once
//! it has connected. The shard identifier is rendered in decimal by a
//! verified formatter.

use vstd::prelude::*;

verus! {

/// The decimal digit character for a value below ten.
pub open spec fn spec_digit(d: int) -> char {
    if d == 0 {
        '0'
    } else if d == 1 {
        '1'
    } else if d == 2 {
        '2'
    } else if d == 3 {
        '3'
    } else if d == 4 {
        '4'
    } else if d == 5 {
        '5'
    } else if d == 6 {
        '6'
    } else if d == 7 {
        '7'
    } else if d == 8 {
        '8'
    } else {
        '9'
    }
}

/// The decimal rendering of a natural number: most significant digit
/// first, no leading zeros (a single `'0'` for zero itself).
pub open spec fn spec_decimal(n: nat) -> Seq<char>
    decreases n,
{
    if n < 10 {
        seq![spec_digit(n as int)]
    } else {
        spec_decimal(n / 10).push(spec_digit((n % 10) as int))
    }
}

/// A one-character string holding the digit for `d`.
fn digit_str(d: u64) -> (s: &'static str)
    requires
        d < 10,
    ensures
        s@ == seq![spec_digit(d as int)],
{
    let digits = "0123456789";
    proof {
        reveal_strlit("0123456789");
    }
    let s = digits.substring_ascii(d as usize, (d + 1) as usize);
    proof {
        assert(s@ =~= seq![spec_digit(d as int)]);
    }
    s
}

/// Renders `n` in decimal, most significant digit first.
pub fn u64_to_decimal(n: u64) -> (s: String)
    ensures
        s@ == spec_decimal(n as nat),
    decreases n,
{
    if n < 10 {
        let s = digit_str(n).to_owned();
        s
    } else {
        let mut s = u64_to_decimal(n / 10);
        s.append(digit_str(n % 10));
        proof {
            assert(s@ =~= spec_decimal(n as nat));
        }
        s
    }
}

/// The console notice announcing that a shard has connected.
pub open spec fn notice_text(shard_id: u64) -> Seq<char> {
    "Connected on shard "@ + spec_decimal(shard_id as nat)
}

/// Builds the notice text for one shard-connected event.
pub fn connected_notice(shard_id: u64) -> (s: String)
    ensures
        s@ == notice_text(shard_id),
{
    let mut s = "Connected on shard ".to_owned();
    let num = u64_to_decimal(shard_id);
    s.append(num.as_str());
    s
}

} // verus!
