//! Content selection for the status display.
//!
//! The display task redraws a small ASCII scene every second: a speech
//! bubble that spells out a three-letter word one letter per tick, a pair of
//! eyes that blink shut every tenth tick, and an uptime counter line. This
//! module decides the content from the tick counter; drawing the chosen text
//! on a screen is I/O and happens outside the library.

use vstd::prelude::*;

verus! {

/// The three speech-bubble letters (ASCII, space for "not yet shown") for a
/// tick counter, cycling over five frames: the full word, an empty bubble,
/// then the word growing back letter by letter.
pub open spec fn spec_bubble_letters(counter: u32) -> (u8, u8, u8) {
    if counter % 5 == 1 || counter % 5 == 0 {
        (0x42u8, 0x4cu8, 0x45u8)
    } else if counter % 5 == 2 {
        (0x20u8, 0x20u8, 0x20u8)
    } else if counter % 5 == 3 {
        (0x42u8, 0x20u8, 0x20u8)
    } else {
        (0x42u8, 0x4cu8, 0x20u8)
    }
}

/// The speech-bubble letters shown at a tick.
pub fn bubble_letters(counter: u32) -> (r: (u8, u8, u8))
    ensures
        r == spec_bubble_letters(counter),
{
    let phase = counter % 5;
    if phase == 1 || phase == 0 {
        (0x42, 0x4c, 0x45)
    } else if phase == 2 {
        (0x20, 0x20, 0x20)
    } else if phase == 3 {
        (0x42, 0x20, 0x20)
    } else {
        (0x42, 0x4c, 0x20)
    }
}

/// Whether the eyes are drawn crossed at a tick: on every tenth tick.
pub fn eyes_crossed(counter: u32) -> (r: bool)
    ensures
        r <==> counter % 10 == 0,
{
    counter % 10 == 0
}

/// The decimal digits of `n`, most significant first, as ASCII bytes.
pub open spec fn spec_decimal(n: nat) -> Seq<u8>
    decreases n,
{
    if n < 10 {
        seq![(48 + n) as u8]
    } else {
        spec_decimal(n / 10) + seq![(48 + n % 10) as u8]
    }
}

/// The decimal digits of `n`, most significant first, as ASCII bytes.
pub fn u32_decimal(n: u32) -> (r: Vec<u8>)
    ensures
        r@ == spec_decimal(n as nat),
    decreases n,
{
    if n < 10 {
        let mut r: Vec<u8> = Vec::new();
        r.push(48 + (n as u8));
        proof {
            assert(r@ =~= spec_decimal(n as nat));
        }
        r
    } else {
        let mut r = u32_decimal(n / 10);
        r.push(48 + ((n % 10) as u8));
        proof {
            assert(r@ =~= spec_decimal(n as nat));
        }
        r
    }
}

/// The uptime line for a tick counter: `Moo: `, the counter in decimal,
/// then `s`.
pub open spec fn spec_counter_label(counter: u32) -> Seq<u8> {
    seq![0x4du8, 0x6fu8, 0x6fu8, 0x3au8, 0x20u8] + spec_decimal(counter as nat) + seq![0x73u8]
}

/// The uptime line shown at a tick.
pub fn counter_label(counter: u32) -> (r: Vec<u8>)
    ensures
        r@ == spec_counter_label(counter),
{
    let mut r: Vec<u8> = Vec::new();
    r.push(0x4d);
    r.push(0x6f);
    r.push(0x6f);
    r.push(0x3a);
    r.push(0x20);
    let digits = u32_decimal(counter);
    let mut i: usize = 0;
    while i < digits.len()
        invariant
            i <= digits@.len(),
            digits@ == spec_decimal(counter as nat),
            r@ == seq![0x4du8, 0x6fu8, 0x6fu8, 0x3au8, 0x20u8] + digits@.take(i as int),
        decreases digits@.len() - i,
    {
        r.push(digits[i]);
        i = i + 1;
    }
    r.push(0x73);
    proof {
        assert(digits@.take(digits@.len() as int) =~= digits@);
        assert(r@ =~= spec_counter_label(counter));
    }
    r
}

} // verus!
