//! Settings of the networks that the project trains.

use vstd::prelude::*;

verus! {

/// Block sizes of the segmentation network: the number of convolutions in
/// each decoder block and in the centre block, and the number of channels
/// of its input.
#[derive(Debug, Clone, Copy, PartialEq, Eq, Structural)]
pub struct UnetProps {
    pub decoder_block_convolutions: u32,
    pub center_block_convolutions: u32,
    pub input_chanels: i64,
}

} // verus!
