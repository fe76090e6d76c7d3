//! Firmware control plane for a network-connected sign: a paged external
//! memory configuration store and a self-update pipeline (manifest
//! resolution, redirect following, HTTP framing, chunked image write).
use vstd::prelude::*;

pub mod eeprom;
pub mod framing;
pub mod manifest;
pub mod net;
pub mod printer;
pub mod update;

verus! {

/// The five lit regions of the sign, each driven by three PWM channels.
#[derive(Debug, PartialEq, Eq, Structural, Clone, Copy)]
pub enum Block {
    Center,
    BottomLeft,
    BottomRight,
    Right,
    Top,
}

/// One color channel of a block.
#[derive(Debug, PartialEq, Eq, Structural, Clone, Copy)]
pub enum Color {
    Red,
    Green,
    Blue,
}

/// A block's position in the channel bank.
pub open spec fn spec_block_index(b: Block) -> int {
    match b {
        Block::Center => 0,
        Block::BottomLeft => 1,
        Block::BottomRight => 2,
        Block::Right => 3,
        Block::Top => 4,
    }
}

/// A color's offset within a block's three channels.
pub open spec fn spec_color_index(c: Color) -> int {
    match c {
        Color::Red => 0,
        Color::Green => 1,
        Color::Blue => 2,
    }
}

impl Block {
    /// The PWM channel that drives the given color of this block: three
    /// consecutive channels per block, ordered red, green, blue.
    pub fn channel_for_color(&self, color: Color) -> (r: usize)
        ensures
            r == spec_block_index(*self) * 3 + spec_color_index(color),
    {
        let b: usize = match self {
            Block::Center => 0,
            Block::BottomLeft => 1,
            Block::BottomRight => 2,
            Block::Right => 3,
            Block::Top => 4,
        };
        let c: usize = match color {
            Color::Red => 0,
            Color::Green => 1,
            Color::Blue => 2,
        };
        b * 3 + c
    }
}

/// Errors of the configuration store: a bus failure, or a failed
/// power-on self-test of the memory device.
#[derive(Debug, PartialEq, Eq, Structural, Clone, Copy)]
pub enum StoreError {
    Transport,
    SelfTestFailure,
}

/// Errors of the update pipeline. Every one of them aborts the current
/// update attempt; recovery is by a later re-invocation, never by an
/// in-process retry.
#[derive(Debug, PartialEq, Eq, Structural, Clone, Copy)]
pub enum UpdateError {
    /// Malformed UTF-8, JSON or semantic version text.
    Decode,
    /// A missing header boundary, redirect location or expected asset.
    ProtocolViolation,
    /// A connect, read or write on the secure stream failed.
    Network,
}

/// True exactly when the two byte slices hold the same bytes.
pub fn bytes_equal(a: &[u8], b: &[u8]) -> (r: bool)
    ensures
        r == (a@ == b@),
{
    if a.len() != b.len() {
        proof {
            assert(a@ != b@);
        }
        return false;
    }
    let mut i: usize = 0;
    while i < a.len()
        invariant
            i <= a@.len(),
            a@.len() == b@.len(),
            forall|j: int| 0 <= j < i ==> a@[j] == b@[j],
        decreases a@.len() - i,
    {
        if a[i] != b[i] {
            proof {
                assert(a@[i as int] != b@[i as int]);
            }
            return false;
        }
        i = i + 1;
    }
    proof {
        assert(a@ =~= b@);
    }
    true
}

/// True exactly when the two strings hold the same characters.
pub fn str_equal(a: &str, b: &str) -> (r: bool)
    ensures
        r == (a@ == b@),
{
    let r = bytes_equal(a.as_bytes(), b.as_bytes());
    proof {
        vstd::utf8::encode_utf8_decode_utf8(a@);
        vstd::utf8::encode_utf8_decode_utf8(b@);
    }
    r
}

} // verus!
