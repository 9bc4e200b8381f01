use vstd::prelude::*;

verus! {

/// No flag set.
pub const NO_FLAG: u8 = 0x00;

/// Carry out of bit 7.
pub const C_FLAG: u8 = 0x01;

/// Signed overflow.
pub const V_FLAG: u8 = 0x02;

/// Result is zero.
pub const Z_FLAG: u8 = 0x04;

/// Result is negative (bit 7 set).
pub const N_FLAG: u8 = 0x08;

/// I interrupt mask.
pub const I_FLAG: u8 = 0x10;

/// Half carry out of bit 3.
pub const H_FLAG: u8 = 0x20;

/// X interrupt mask.
pub const X_FLAG: u8 = 0x40;

/// Stop disable.
pub const S_FLAG: u8 = 0x80;

} // verus!
