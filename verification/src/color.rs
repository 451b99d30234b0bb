//! Packed 32-bit RGBA colors as used by the low level drawing API.

use vstd::prelude::*;

verus! {

/// Number of bits to shift the byte of the red channel. Always 0.
pub const R_SHIFT: u32 = 0;

/// Number of bits to shift the byte of the green channel. Always 8.
pub const G_SHIFT: u32 = 8;

/// Number of bits to shift the byte of the blue channel. Always 16.
pub const B_SHIFT: u32 = 16;

/// Number of bits to shift the byte of the alpha channel. Always 24.
pub const A_SHIFT: u32 = 24;

/// What the packed bits of a color are, given its four channels:
/// little-endian RGBA, i.e. `0xAABBGGRR`.
pub open spec fn spec_pack_rgba(r: u8, g: u8, b: u8, a: u8) -> int {
    (r as u32) + (g as u32) * 0x100 + (b as u32) * 0x1_0000 + (a as u32) * 0x100_0000
}

/// Wraps a `u32` that represents a packed RGBA color, in `0xAABBGGRR`
/// format (RGBA as little endian bytes).
#[derive(Copy, Clone, Eq, PartialEq, Structural, Debug)]
pub struct ImColor32 {
    pub bits: u32,
}

impl ImColor32 {
    /// Construct a color from 4 single-byte `u8` channel values.
    pub fn from_rgba(r: u8, g: u8, b: u8, a: u8) -> (c: Self)
        ensures
            c.bits == spec_pack_rgba(r, g, b, a),
    {
        let c = ImColor32 {
            bits: ((a as u32) << A_SHIFT) | ((r as u32) << R_SHIFT) | ((g as u32) << G_SHIFT)
                | ((b as u32) << B_SHIFT),
        };
        proof {
            let u: u32 = c.bits;
            assert(u == spec_pack_rgba(r, g, b, a)) by (bit_vector)
                requires
                    u == ((a as u32) << 24u32) | ((r as u32) << 0u32) | ((g as u32) << 8u32) | ((
                    b as u32) << 16u32),
            ;
        }
        c
    }

    /// Construct a fully opaque color from 3 single-byte `u8` channel
    /// values. Same as [`Self::from_rgba`] with `a == 255`.
    pub fn from_rgb(r: u8, g: u8, b: u8) -> (c: Self)
        ensures
            c.bits == spec_pack_rgba(r, g, b, 0xff),
    {
        Self::from_rgba(r, g, b, 0xff)
    }

    /// Return the channels as an array of `u8` in `[r, g, b, a]` order.
    pub fn to_rgba(self) -> (rgba: [u8; 4])
        ensures
            self.bits == spec_pack_rgba(rgba[0], rgba[1], rgba[2], rgba[3]),
    {
        let fields = self.fields();
        let rgba = [fields.r, fields.g, fields.b, fields.a];
        proof {
            assert(rgba[0] == fields.r && rgba[1] == fields.g && rgba[2] == fields.b && rgba[3]
                == fields.a);
        }
        rgba
    }

    /// Construct a color from the `u32` that makes up the bits, in
    /// `0xAABBGGRR` format.
    pub fn from_bits(u: u32) -> (c: Self)
        ensures
            c.bits == u,
    {
        ImColor32 { bits: u }
    }

    /// Return the bits of the color as a `u32`, in `0xAABBGGRR` format.
    pub fn to_bits(self) -> (u: u32)
        ensures
            u == self.bits,
    {
        self.bits
    }

    /// The packed bits, for use in specifications.
    pub open spec fn spec_bits(self) -> u32 {
        self.bits
    }

    /// Unpack the color into its four channels.
    pub fn fields(self) -> (f: ImColor32Fields)
        ensures
            self.bits == spec_pack_rgba(f.r, f.g, f.b, f.a),
    {
        let f = ImColor32Fields {
            r: (self.bits & 0xff) as u8,
            g: ((self.bits >> 8) & 0xff) as u8,
            b: ((self.bits >> 16) & 0xff) as u8,
            a: ((self.bits >> 24) & 0xff) as u8,
        };
        proof {
            let u = self.bits;
            assert(u == spec_pack_rgba(
                (u & 0xff) as u8,
                ((u >> 8) & 0xff) as u8,
                ((u >> 16) & 0xff) as u8,
                ((u >> 24) & 0xff) as u8,
            )) by (bit_vector);
        }
        f
    }

    /// Solid black.
    pub fn black() -> (c: Self)
        ensures
            c.bits == 0xff_00_00_00,
    {
        ImColor32 { bits: 0xff_00_00_00 }
    }

    /// Solid white.
    pub fn white() -> (c: Self)
        ensures
            c.bits == 0xff_ff_ff_ff,
    {
        ImColor32 { bits: 0xff_ff_ff_ff }
    }

    /// Full transparency.
    pub fn transparent() -> (c: Self)
        ensures
            c.bits == 0,
    {
        ImColor32 { bits: 0 }
    }
}

impl Default for ImColor32 {
    /// The default color is full transparency.
    fn default() -> (c: Self)
        ensures
            c.bits == 0,
    {
        ImColor32 { bits: 0 }
    }
}

/// The four channels of an [`ImColor32`], unpacked into bytes.
#[derive(Copy, Clone, Eq, PartialEq, Structural, Debug)]
pub struct ImColor32Fields {
    pub r: u8,
    pub g: u8,
    pub b: u8,
    pub a: u8,
}

/// Round trip: packing four channels and unpacking them again yields the
/// original channels.
pub proof fn lemma_rgba_pack_unpack(r: u8, g: u8, b: u8, a: u8, r2: u8, g2: u8, b2: u8, a2: u8)
    requires
        spec_pack_rgba(r, g, b, a) == spec_pack_rgba(r2, g2, b2, a2),
    ensures
        r == r2 && g == g2 && b == b2 && a == a2,
{
    assert(r == r2 && g == g2 && b == b2 && a == a2) by (nonlinear_arith)
        requires
            spec_pack_rgba(r, g, b, a) == spec_pack_rgba(r2, g2, b2, a2),
    ;
}

} // verus!
