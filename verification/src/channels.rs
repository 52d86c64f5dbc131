//! Motor channels: the 16 independently controllable PWM outputs, plus the
//! controller's reserved "all channels" identifier, and the resolution of a
//! motor index to its channel.

use vstd::prelude::*;

verus! {

/// One of the 16 PWM outputs of the controller, or the reserved identifier
/// addressing every channel at once.
#[derive(Clone, Copy, PartialEq, Eq, Structural, Debug)]
pub enum MotorChannel {
    C0,
    C1,
    C2,
    C3,
    C4,
    C5,
    C6,
    C7,
    C8,
    C9,
    C10,
    C11,
    C12,
    C13,
    C14,
    C15,
    All,
}

/// The channel that a motor index resolves to: indices 0 through 15 map to
/// the 16 single channels in order; anything larger maps to `All`.
pub open spec fn channel_of(v: u8) -> MotorChannel {
    if v == 0 {
        MotorChannel::C0
    } else if v == 1 {
        MotorChannel::C1
    } else if v == 2 {
        MotorChannel::C2
    } else if v == 3 {
        MotorChannel::C3
    } else if v == 4 {
        MotorChannel::C4
    } else if v == 5 {
        MotorChannel::C5
    } else if v == 6 {
        MotorChannel::C6
    } else if v == 7 {
        MotorChannel::C7
    } else if v == 8 {
        MotorChannel::C8
    } else if v == 9 {
        MotorChannel::C9
    } else if v == 10 {
        MotorChannel::C10
    } else if v == 11 {
        MotorChannel::C11
    } else if v == 12 {
        MotorChannel::C12
    } else if v == 13 {
        MotorChannel::C13
    } else if v == 14 {
        MotorChannel::C14
    } else if v == 15 {
        MotorChannel::C15
    } else {
        MotorChannel::All
    }
}

/// The motor index a single channel stands for; `All` is assigned the
/// out-of-range position 16.
pub open spec fn channel_index(c: MotorChannel) -> int {
    match c {
        MotorChannel::C0 => 0,
        MotorChannel::C1 => 1,
        MotorChannel::C2 => 2,
        MotorChannel::C3 => 3,
        MotorChannel::C4 => 4,
        MotorChannel::C5 => 5,
        MotorChannel::C6 => 6,
        MotorChannel::C7 => 7,
        MotorChannel::C8 => 8,
        MotorChannel::C9 => 9,
        MotorChannel::C10 => 10,
        MotorChannel::C11 => 11,
        MotorChannel::C12 => 12,
        MotorChannel::C13 => 13,
        MotorChannel::C14 => 14,
        MotorChannel::C15 => 15,
        MotorChannel::All => 16,
    }
}

/// Resolves a motor index to its PWM channel.
pub fn channel_from(v: u8) -> (c: MotorChannel)
    ensures
        c == channel_of(v),
{
    match v {
        0 => MotorChannel::C0,
        1 => MotorChannel::C1,
        2 => MotorChannel::C2,
        3 => MotorChannel::C3,
        4 => MotorChannel::C4,
        5 => MotorChannel::C5,
        6 => MotorChannel::C6,
        7 => MotorChannel::C7,
        8 => MotorChannel::C8,
        9 => MotorChannel::C9,
        10 => MotorChannel::C10,
        11 => MotorChannel::C11,
        12 => MotorChannel::C12,
        13 => MotorChannel::C13,
        14 => MotorChannel::C14,
        15 => MotorChannel::C15,
        _ => MotorChannel::All,
    }
}

/// Channel resolution is a total bijection from indices 0 through 15 onto
/// the 16 single-channel identifiers (with `channel_index` as its inverse),
/// distinct indices resolve to distinct channels, no in-range index resolves
/// to the reserved identifier, and every out-of-range index resolves to it.
pub proof fn lemma_channel_resolution_bijective()
    ensures
        forall|v: u8| v < 16 ==> channel_index(#[trigger] channel_of(v)) == v as int,
        forall|v: u8| v < 16 ==> !(#[trigger] channel_of(v) is All),
        forall|v: u8, w: u8| v < 16 && w < 16 && v != w ==> #[trigger] channel_of(v) != #[trigger] channel_of(w),
        forall|v: u8| v >= 16 ==> #[trigger] channel_of(v) is All,
{
    assert forall|v: u8, w: u8| v < 16 && w < 16 && v != w implies #[trigger] channel_of(v) != #[trigger] channel_of(w) by {
        assert(channel_index(channel_of(v)) == v as int);
        assert(channel_index(channel_of(w)) == w as int);
    };
}

} // verus!
