//! Decoding of a request body into the classifier's grey-scale input.
//!
//! A request carries a 28x28 picture as interleaved 4-byte pixels (RGBA,
//! row-major).  The classifier reads one channel of it: the first byte of
//! every pixel.

use vstd::prelude::*;

verus! {

/// Side of the square picture, in pixels.
pub const SIDE: usize = 28;

/// Bytes per pixel in a request body.
pub const CHANNELS: usize = 4;

/// Number of pixels, and so the length of a decoded input.
pub const PIXELS: usize = 784;

/// Length of a well-formed request body.
pub const BODY_LEN: usize = 3136;

/// Why a request body was rejected before any work was queued.
#[derive(Debug, Clone, Copy, PartialEq, Eq, Structural)]
pub enum DecodeError {
    /// The body does not hold exactly `SIDE * SIDE * CHANNELS` bytes.
    WrongSize,
}

/// A new drawing handed to the inference client: the canvas's RGBA bytes,
/// posted unchanged as a request body.
pub enum InferenceAgentInput {
    NewInput(Vec<u8>),
}

/// The grey value of pixel `p` of a body: the first channel of that pixel.
pub open spec fn grey_at(body: Seq<u8>, p: int) -> u8 {
    body[CHANNELS * p]
}

/// The decoded input of a well-formed body.
pub open spec fn grey_of(body: Seq<u8>) -> Seq<u8> {
    Seq::new(PIXELS as nat, |p: int| grey_at(body, p))
}

/// Turns a request body into the classifier's input: the first channel of
/// each pixel, in row-major order.
pub fn decode_image(body: &Vec<u8>) -> (r: Result<Vec<u8>, DecodeError>)
    ensures
        body@.len() != BODY_LEN ==> r == Err::<Vec<u8>, DecodeError>(DecodeError::WrongSize),
        body@.len() == BODY_LEN ==> (r matches Ok(g) && g@ == grey_of(body@)),
{
    if body.len() != BODY_LEN {
        return Err(DecodeError::WrongSize);
    }
    let mut grey: Vec<u8> = Vec::with_capacity(PIXELS);
    let mut p: usize = 0;
    while p < PIXELS
        invariant
            body@.len() == BODY_LEN,
            p <= PIXELS,
            grey@ == grey_of(body@).take(p as int),
        decreases PIXELS - p,
    {
        grey.push(body[CHANNELS * p]);
        p = p + 1;
        assert(grey@ =~= grey_of(body@).take(p as int));
    }
    assert(grey@ =~= grey_of(body@));
    Ok(grey)
}

} // verus!
