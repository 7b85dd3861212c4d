//! Verified model of the RP6502 graphics pipeline: the RIA register and
//! portal engine, the PIX side channel, and the VGA plane renderer.

pub mod bus;
pub mod font;
pub mod layout;
pub mod mode1;
pub mod mode2;
pub mod mode3;
pub mod palette;
pub mod pix;
pub mod test_harness;
pub mod ria;
pub mod ria_api;
pub mod vga;
pub mod xram;
