//! Records of single crossings into the host rendering API.

use vstd::prelude::*;

verus! {

/// What one call into the host carries, at the specification level.
///
/// Each variant mirrors one host entry point.  Enum constants and handles
/// appear as the 32-bit integers that cross the boundary; a data buffer
/// appears as its payload together with the element count that is passed
/// beside its address; a string appears as its UTF-8 bytes together with
/// the byte length that is passed beside its address.  Floating-point
/// values cross as their 32-bit bit patterns.
pub ghost enum HostCallData {
    SetupCanvas,
    CreateBuffer,
    BindBuffer { target: u32, object: u32 },
    BufferDataF32 { target: u32, data: Seq<u32>, len: usize, usage: u32 },
    BufferDataU16 { target: u32, data: Seq<u16>, len: usize, usage: u32 },
    CreateShader { shader_type: u32 },
    ShaderSource { shader: u32, source: Seq<u8>, len: usize },
    CompileShader { shader: u32 },
    CreateProgram,
    AttachShader { program: u32, shader: u32 },
    LinkProgram { program: u32 },
    UseProgram { program: u32 },
    GetAttribLocation { program: u32, name: Seq<u8>, len: usize },
    VertexAttribPointer {
        index: u32,
        size: i32,
        elem_type: u32,
        normalized: bool,
        stride: i32,
        pointer: i32,
    },
    EnableVertexAttribArray { index: u32 },
    ClearColor { red_bits: u32, green_bits: u32, blue_bits: u32, alpha_bits: u32 },
    Clear { mask: u32 },
    DrawElements { mode: u32, count: i32, elem_type: u32, offset: i32 },
}

/// One marshaled call into the host, ready to be issued.
///
/// A value of this type holds exactly what crosses the boundary for the
/// corresponding entry point, already in the flat calling convention; its
/// view is the [`HostCallData`] record with the same fields.  Issuing the
/// call (the actual foreign crossing) is outside this crate.
pub enum HostCall {
    SetupCanvas,
    CreateBuffer,
    BindBuffer { target: u32, object: u32 },
    BufferDataF32 { target: u32, data: Vec<u32>, len: usize, usage: u32 },
    BufferDataU16 { target: u32, data: Vec<u16>, len: usize, usage: u32 },
    CreateShader { shader_type: u32 },
    ShaderSource { shader: u32, source: Vec<u8>, len: usize },
    CompileShader { shader: u32 },
    CreateProgram,
    AttachShader { program: u32, shader: u32 },
    LinkProgram { program: u32 },
    UseProgram { program: u32 },
    GetAttribLocation { program: u32, name: Vec<u8>, len: usize },
    VertexAttribPointer {
        index: u32,
        size: i32,
        elem_type: u32,
        normalized: bool,
        stride: i32,
        pointer: i32,
    },
    EnableVertexAttribArray { index: u32 },
    ClearColor { red_bits: u32, green_bits: u32, blue_bits: u32, alpha_bits: u32 },
    Clear { mask: u32 },
    DrawElements { mode: u32, count: i32, elem_type: u32, offset: i32 },
}

impl View for HostCall {
    type V = HostCallData;

    open spec fn view(&self) -> HostCallData {
        match self {
            HostCall::SetupCanvas => HostCallData::SetupCanvas,
            HostCall::CreateBuffer => HostCallData::CreateBuffer,
            HostCall::BindBuffer { target, object } => HostCallData::BindBuffer {
                target: *target,
                object: *object,
            },
            HostCall::BufferDataF32 { target, data, len, usage } => HostCallData::BufferDataF32 {
                target: *target,
                data: data@,
                len: *len,
                usage: *usage,
            },
            HostCall::BufferDataU16 { target, data, len, usage } => HostCallData::BufferDataU16 {
                target: *target,
                data: data@,
                len: *len,
                usage: *usage,
            },
            HostCall::CreateShader { shader_type } => HostCallData::CreateShader {
                shader_type: *shader_type,
            },
            HostCall::ShaderSource { shader, source, len } => HostCallData::ShaderSource {
                shader: *shader,
                source: source@,
                len: *len,
            },
            HostCall::CompileShader { shader } => HostCallData::CompileShader { shader: *shader },
            HostCall::CreateProgram => HostCallData::CreateProgram,
            HostCall::AttachShader { program, shader } => HostCallData::AttachShader {
                program: *program,
                shader: *shader,
            },
            HostCall::LinkProgram { program } => HostCallData::LinkProgram { program: *program },
            HostCall::UseProgram { program } => HostCallData::UseProgram { program: *program },
            HostCall::GetAttribLocation { program, name, len } => HostCallData::GetAttribLocation {
                program: *program,
                name: name@,
                len: *len,
            },
            HostCall::VertexAttribPointer {
                index,
                size,
                elem_type,
                normalized,
                stride,
                pointer,
            } => HostCallData::VertexAttribPointer {
                index: *index,
                size: *size,
                elem_type: *elem_type,
                normalized: *normalized,
                stride: *stride,
                pointer: *pointer,
            },
            HostCall::EnableVertexAttribArray { index } => HostCallData::EnableVertexAttribArray {
                index: *index,
            },
            HostCall::ClearColor { red_bits, green_bits, blue_bits, alpha_bits } => (
                HostCallData::ClearColor {
                    red_bits: *red_bits,
                    green_bits: *green_bits,
                    blue_bits: *blue_bits,
                    alpha_bits: *alpha_bits,
                }
            ),
            HostCall::Clear { mask } => HostCallData::Clear { mask: *mask },
            HostCall::DrawElements { mode, count, elem_type, offset } => (
                HostCallData::DrawElements {
                    mode: *mode,
                    count: *count,
                    elem_type: *elem_type,
                    offset: *offset,
                }
            ),
        }
    }
}

impl DeepView for HostCall {
    type V = HostCallData;

    open spec fn deep_view(&self) -> HostCallData {
        self.view()
    }
}

} // verus!
