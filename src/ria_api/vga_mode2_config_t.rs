//! Field offsets of the Mode 2 configuration structure in XRAM.

use vstd::prelude::*;

verus! {

pub const X_WRAP: u16 = 0;
pub const Y_WRAP: u16 = 1;
pub const X_POS_PX: u16 = 2;
pub const Y_POS_PX: u16 = 4;
pub const WIDTH_TILES: u16 = 6;
pub const HEIGHT_TILES: u16 = 8;
pub const XRAM_DATA_PTR: u16 = 10;
pub const XRAM_PALETTE_PTR: u16 = 12;
pub const XRAM_TILE_PTR: u16 = 14;

} // verus!
