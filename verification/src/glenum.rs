//! The enumerated constants understood by the host rendering API.

use vstd::prelude::*;

verus! {

/// A fixed integer code (buffer target, shader stage, primitive type, data
/// type, usage hint, clear mask) whose numeric value is dictated by an
/// external standard and must match exactly for the host to interpret a
/// call correctly.
///
/// The wire value of each variant is given by [`GLEnum::spec_code`]; it is
/// what crosses the boundary, as a 32-bit integer.
#[derive(Clone, Copy, PartialEq, Eq, Structural, Debug)]
pub enum GLEnum {
    Triangles,
    ArrayBuffer,
    ElementArrayBuffer,
    VertexShader,
    FragmentShader,
    Byte,
    UnsignedByte,
    Short,
    UnsignedShort,
    Int,
    UnsignedInt,
    Float,
    StaticDraw,
    DynamicDraw,
    ColorBufferBit,
}

impl GLEnum {
    /// The standard-mandated 32-bit code for this constant.
    pub open spec fn spec_code(self) -> u32 {
        match self {
            GLEnum::Triangles => 0x0004,
            GLEnum::ArrayBuffer => 0x8892,
            GLEnum::ElementArrayBuffer => 0x8893,
            GLEnum::VertexShader => 0x8B31,
            GLEnum::FragmentShader => 0x8B30,
            GLEnum::Byte => 0x1400,
            GLEnum::UnsignedByte => 0x1401,
            GLEnum::Short => 0x1402,
            GLEnum::UnsignedShort => 0x1403,
            GLEnum::Int => 0x1404,
            GLEnum::UnsignedInt => 0x1405,
            GLEnum::Float => 0x1406,
            GLEnum::StaticDraw => 0x88E4,
            GLEnum::DynamicDraw => 0x88E8,
            GLEnum::ColorBufferBit => 0x00004000,
        }
    }

    /// The 32-bit code passed across the boundary for this constant.
    pub fn code(self) -> (c: u32)
        ensures
            c == self.spec_code(),
    {
        match self {
            GLEnum::Triangles => 0x0004,
            GLEnum::ArrayBuffer => 0x8892,
            GLEnum::ElementArrayBuffer => 0x8893,
            GLEnum::VertexShader => 0x8B31,
            GLEnum::FragmentShader => 0x8B30,
            GLEnum::Byte => 0x1400,
            GLEnum::UnsignedByte => 0x1401,
            GLEnum::Short => 0x1402,
            GLEnum::UnsignedShort => 0x1403,
            GLEnum::Int => 0x1404,
            GLEnum::UnsignedInt => 0x1405,
            GLEnum::Float => 0x1406,
            GLEnum::StaticDraw => 0x88E4,
            GLEnum::DynamicDraw => 0x88E8,
            GLEnum::ColorBufferBit => 0x00004000,
        }
    }
}

} // verus!
