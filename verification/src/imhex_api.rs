//! The host application's bookmark and control API surface: the plain
//! values handed across it.

use crate::color::spec_pack_rgba;
use vstd::prelude::*;

verus! {

/// A memory region of the host application's loaded data.
#[derive(Copy, Clone, Eq, PartialEq, Structural, Debug)]
pub struct Region {
    /// The start address of the region.
    pub address: u64,
    /// The size of the region in bytes.
    pub size: usize,
}

impl Region {
    /// Creates a region from its start address and size.
    pub fn new(address: u64, size: usize) -> (r: Region)
        ensures
            r.address == address,
            r.size == size,
    {
        Region { address, size }
    }
}

/// A highlight color for use with the host's bookmark API.
#[derive(Copy, Clone, Eq, PartialEq, Structural, Debug)]
pub struct Color {
    /// The alpha channel.
    pub a: u8,
    /// The green channel.
    pub g: u8,
    /// The blue channel.
    pub b: u8,
    /// The red channel.
    pub r: u8,
}

impl Color {
    /// Creates a color from its four channels.
    pub fn new(r: u8, g: u8, b: u8, a: u8) -> (c: Color)
        ensures
            c.r == r && c.g == g && c.b == b && c.a == a,
    {
        Color { a, g, b, r }
    }

    /// Packs the color into the `0xAABBGGRR` format the host expects.
    pub fn rgba(self) -> (u: u32)
        ensures
            u == spec_pack_rgba(self.r, self.g, self.b, self.a),
    {
        let c = crate::color::ImColor32::from_rgba(self.r, self.g, self.b, self.a);
        c.to_bits()
    }
}

} // verus!
