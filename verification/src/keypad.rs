//! The keypad as the KEYINPUT register shows it.
use vstd::prelude::*;

verus! {

/// Buttons in the order of their KEYINPUT bits: A, B, Select, Start,
/// Right, Left, Up, Down, R, L.
pub const BUTTONS: usize = 10;

/// KEYINPUT value for the buttons `held` (button `i` at bit `i`): a bit
/// is cleared while its button is held.
pub open spec fn keyinput_spec(held: Seq<bool>) -> nat
    decreases held.len(),
{
    if held.len() == 0 {
        0
    } else {
        (if held[0] {
            0nat
        } else {
            1nat
        }) + 2 * keyinput_spec(held.drop_first())
    }
}

/// KEYINPUT value for the buttons held.
pub fn keyinput(held: &[bool; 10]) -> (r: u16)
    ensures
        r == keyinput_spec(held@),
        r < 0x400,
{
    let mut r: u16 = 0;
    let mut i: usize = BUTTONS;
    proof {
        vstd::arithmetic::power2::lemma2_to64();
    }
    while i > 0
        invariant
            i <= 10,
            held@.len() == 10,
            r == keyinput_spec(held@.subrange(i as int, 10)),
            r < vstd::arithmetic::power2::pow2((10 - i) as nat),
            vstd::arithmetic::power2::pow2(10) == 0x400,
        decreases i,
    {
        i = i - 1;
        let ghost rest = held@.subrange(i as int + 1, 10);
        assert(held@.subrange(i as int, 10).drop_first() =~= rest);
        proof {
            vstd::arithmetic::power2::lemma_pow2_unfold((10 - i) as nat);
            if 10 - i < 10 {
                vstd::arithmetic::power2::lemma_pow2_strictly_increases((10 - i) as nat, 10);
            }
        }
        let bit: u16 = if held[i] {
            0
        } else {
            1
        };
        r = bit + 2 * r;
    }
    assert(held@.subrange(0, 10) =~= held@);
    r
}

} // verus!
