//! Thumb format 1 under its second name: move shifted register.
use vstd::prelude::*;
use crate::cpu::CPU;
use crate::cpu::thumb::move_shifted::{ms_spec, ms_fields, decode, execute};

verus! {

/// Decode and execute (the same instruction as `move_shifted`).
pub fn decode_execute(cpu: &mut CPU, instruction: u16)
    ensures
        final(cpu)@ == ms_spec(old(cpu)@, ms_fields(instruction)),
{
    execute(cpu, decode(instruction));
}

} // verus!
