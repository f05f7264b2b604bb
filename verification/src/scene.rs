//! The one scene this library draws: a single colored triangle, set up
//! and submitted through an ordered, straight-line sequence of host
//! calls.
//!
//! Host-side failures (invalid enum, compile error, link error) are the
//! host's to signal out-of-band and are not modeled here; the sequence
//! itself is fixed and is stated call for call.

use vstd::prelude::*;

use crate::binding::bind_buffer;
use crate::binding::buffer_data_f32;
use crate::binding::buffer_data_u16;
use crate::binding::get_attrib_location;
use crate::binding::shader_source;
use crate::binding::spec_buffer_data_f32;
use crate::binding::spec_buffer_data_u16;
use crate::binding::spec_get_attrib_location;
use crate::binding::spec_shader_source;
use crate::glenum::GLEnum;
use crate::handle::JSObject;
use crate::host_call::HostCall;
use crate::host_call::HostCallData;

verus! {

/// Bit pattern of the 32-bit float -0.5, a triangle corner coordinate.
pub const NEG_HALF_BITS: u32 = 0xBF00_0000;

/// Bit pattern of the 32-bit float 0.5, a triangle corner coordinate.
pub const HALF_BITS: u32 = 0x3F00_0000;

/// Bit pattern of the 32-bit float 0.0, a triangle corner coordinate.
pub const ZERO_BITS: u32 = 0x0000_0000;

/// Bit pattern of the clear color's red channel, the 32-bit float 0.3765.
pub const CLEAR_RED_BITS: u32 = 0x3EC0_C49C;

/// Bit pattern of the clear color's green channel, the 32-bit float 0.3137.
pub const CLEAR_GREEN_BITS: u32 = 0x3EA0_9D49;

/// Bit pattern of the clear color's blue channel, the 32-bit float 0.8627.
pub const CLEAR_BLUE_BITS: u32 = 0x3F5C_D9E8;

/// Bit pattern of the clear color's alpha channel, the 32-bit float 1.0.
pub const CLEAR_ALPHA_BITS: u32 = 0x3F80_0000;

/// The nine vertex coordinates of the triangle (three corners, three
/// coordinates each), as 32-bit float bit patterns:
/// (-0.5, 0.5, 0.0), (-0.5, -0.5, 0.0), (0.5, -0.5, 0.0).
pub open spec fn spec_triangle_vertex_bits() -> Seq<u32> {
    seq![
        NEG_HALF_BITS,
        HALF_BITS,
        ZERO_BITS,
        NEG_HALF_BITS,
        NEG_HALF_BITS,
        ZERO_BITS,
        HALF_BITS,
        NEG_HALF_BITS,
        ZERO_BITS,
    ]
}

/// The triangle's vertex coordinates as 32-bit float bit patterns.
pub fn triangle_vertex_bits() -> (v: Vec<u32>)
    ensures
        v@ == spec_triangle_vertex_bits(),
{
    let mut v: Vec<u32> = Vec::new();
    v.push(NEG_HALF_BITS);
    v.push(HALF_BITS);
    v.push(ZERO_BITS);
    v.push(NEG_HALF_BITS);
    v.push(NEG_HALF_BITS);
    v.push(ZERO_BITS);
    v.push(HALF_BITS);
    v.push(NEG_HALF_BITS);
    v.push(ZERO_BITS);
    proof {
        assert(v@ =~= spec_triangle_vertex_bits());
    }
    v
}

/// The three 16-bit indices of the triangle's one face.
pub open spec fn spec_triangle_indices() -> Seq<u16> {
    seq![0u16, 1u16, 2u16]
}

/// The triangle's index data.
pub fn triangle_indices() -> (v: Vec<u16>)
    ensures
        v@ == spec_triangle_indices(),
{
    let mut v: Vec<u16> = Vec::new();
    v.push(0);
    v.push(1);
    v.push(2);
    proof {
        assert(v@ =~= spec_triangle_indices());
    }
    v
}

/// The vertex shader's source text.
pub open spec fn spec_vertex_shader_text() -> Seq<char> {
    "\n            attribute vec3 vertex_position;\n\n            void main(void) {\n                gl_Position = vec4(vertex_position, 1.0);\n            }\n        "@
}

/// The vertex shader's source text: it forwards the per-vertex position
/// attribute to the output position.
pub fn vertex_shader_text() -> (s: &'static str)
    ensures
        s@ == spec_vertex_shader_text(),
{
    "\n            attribute vec3 vertex_position;\n\n            void main(void) {\n                gl_Position = vec4(vertex_position, 1.0);\n            }\n        "
}

/// The fragment shader's source text.
pub open spec fn spec_fragment_shader_text() -> Seq<char> {
    "void main() {\n                gl_FragColor = vec4(1.0, 0.5, 0.313, 1.0);\n              }\n          "@
}

/// The fragment shader's source text: it paints every fragment one fixed
/// color.
pub fn fragment_shader_text() -> (s: &'static str)
    ensures
        s@ == spec_fragment_shader_text(),
{
    "void main() {\n                gl_FragColor = vec4(1.0, 0.5, 0.313, 1.0);\n              }\n          "
}

/// The name of the vertex shader's position attribute.
pub open spec fn spec_attrib_name() -> Seq<char> {
    "vertex_position"@
}

/// The name of the vertex shader's position attribute.
pub fn attrib_name() -> (s: &'static str)
    ensures
        s@ == spec_attrib_name(),
{
    "vertex_position"
}

/// The full ordered call sequence that draws the triangle, given the
/// handles the host assigned along the way and the location the host
/// reported for the position attribute: upload vertex and index data,
/// compile and link the two shader stages, bind the vertex attribute,
/// clear the framebuffer, and issue one indexed draw.  Each listed call
/// is issued exactly once, in exactly this order.
pub open spec fn spec_triangle_scene(
    vertex_buffer: u32,
    index_buffer: u32,
    vertex_shader: u32,
    fragment_shader: u32,
    program: u32,
    attrib_location: u32,
) -> Seq<HostCallData> {
    seq![
        HostCallData::SetupCanvas,
        HostCallData::CreateBuffer,
        HostCallData::BindBuffer {
            target: GLEnum::ArrayBuffer.spec_code(),
            object: vertex_buffer,
        },
        spec_buffer_data_f32(GLEnum::ArrayBuffer, spec_triangle_vertex_bits(), GLEnum::StaticDraw),
        HostCallData::CreateBuffer,
        HostCallData::BindBuffer {
            target: GLEnum::ElementArrayBuffer.spec_code(),
            object: index_buffer,
        },
        spec_buffer_data_u16(
            GLEnum::ElementArrayBuffer,
            spec_triangle_indices(),
            GLEnum::StaticDraw,
        ),
        HostCallData::CreateShader { shader_type: GLEnum::VertexShader.spec_code() },
        spec_shader_source(vertex_shader, spec_vertex_shader_text()),
        HostCallData::CompileShader { shader: vertex_shader },
        HostCallData::CreateShader { shader_type: GLEnum::FragmentShader.spec_code() },
        spec_shader_source(fragment_shader, spec_fragment_shader_text()),
        HostCallData::CompileShader { shader: fragment_shader },
        HostCallData::CreateProgram,
        HostCallData::AttachShader { program: program, shader: vertex_shader },
        HostCallData::AttachShader { program: program, shader: fragment_shader },
        HostCallData::LinkProgram { program: program },
        HostCallData::UseProgram { program: program },
        spec_get_attrib_location(program, spec_attrib_name()),
        HostCallData::EnableVertexAttribArray { index: attrib_location },
        HostCallData::BindBuffer {
            target: GLEnum::ArrayBuffer.spec_code(),
            object: vertex_buffer,
        },
        HostCallData::VertexAttribPointer {
            index: attrib_location,
            size: 3,
            elem_type: GLEnum::Float.spec_code(),
            normalized: false,
            stride: 0,
            pointer: 0,
        },
        HostCallData::BindBuffer {
            target: GLEnum::ElementArrayBuffer.spec_code(),
            object: index_buffer,
        },
        HostCallData::ClearColor {
            red_bits: CLEAR_RED_BITS,
            green_bits: CLEAR_GREEN_BITS,
            blue_bits: CLEAR_BLUE_BITS,
            alpha_bits: CLEAR_ALPHA_BITS,
        },
        HostCallData::Clear { mask: GLEnum::ColorBufferBit.spec_code() },
        HostCallData::DrawElements {
            mode: GLEnum::Triangles.spec_code(),
            count: 3,
            elem_type: GLEnum::UnsignedShort.spec_code(),
            offset: 0,
        },
    ]
}

/// Builds the marshaled call sequence that draws the triangle.
///
/// The handles are the ones the host assigned for the two buffers, the
/// two shader stages and the program, and `attrib_location` is the
/// location the host reported for the position attribute; the result is
/// exactly the sequence [`spec_triangle_scene`] lists for them, with no
/// call missing, duplicated or reordered.
pub fn triangle_scene_calls(
    vertex_buffer: JSObject,
    index_buffer: JSObject,
    vertex_shader: JSObject,
    fragment_shader: JSObject,
    program: JSObject,
    attrib_location: u32,
) -> (calls: Vec<HostCall>)
    ensures
        calls.deep_view() =~= spec_triangle_scene(
            vertex_buffer@,
            index_buffer@,
            vertex_shader@,
            fragment_shader@,
            program@,
            attrib_location,
        ),
{
    let mut calls: Vec<HostCall> = Vec::new();
    calls.push(HostCall::SetupCanvas);
    calls.push(HostCall::CreateBuffer);
    calls.push(bind_buffer(GLEnum::ArrayBuffer, Some(vertex_buffer)));
    let vertices = triangle_vertex_bits();
    calls.push(buffer_data_f32(GLEnum::ArrayBuffer, vertices.as_slice(), GLEnum::StaticDraw));
    calls.push(HostCall::CreateBuffer);
    calls.push(bind_buffer(GLEnum::ElementArrayBuffer, Some(index_buffer)));
    let indices = triangle_indices();
    calls.push(buffer_data_u16(GLEnum::ElementArrayBuffer, indices.as_slice(), GLEnum::StaticDraw));
    calls.push(HostCall::CreateShader { shader_type: GLEnum::VertexShader.code() });
    calls.push(shader_source(vertex_shader, vertex_shader_text()));
    calls.push(HostCall::CompileShader { shader: vertex_shader.raw() });
    calls.push(HostCall::CreateShader { shader_type: GLEnum::FragmentShader.code() });
    calls.push(shader_source(fragment_shader, fragment_shader_text()));
    calls.push(HostCall::CompileShader { shader: fragment_shader.raw() });
    calls.push(HostCall::CreateProgram);
    calls.push(HostCall::AttachShader { program: program.raw(), shader: vertex_shader.raw() });
    calls.push(HostCall::AttachShader { program: program.raw(), shader: fragment_shader.raw() });
    calls.push(HostCall::LinkProgram { program: program.raw() });
    calls.push(HostCall::UseProgram { program: program.raw() });
    calls.push(get_attrib_location(program, attrib_name()));
    calls.push(HostCall::EnableVertexAttribArray { index: attrib_location });
    calls.push(bind_buffer(GLEnum::ArrayBuffer, Some(vertex_buffer)));
    calls.push(
        HostCall::VertexAttribPointer {
            index: attrib_location,
            size: 3,
            elem_type: GLEnum::Float.code(),
            normalized: false,
            stride: 0,
            pointer: 0,
        },
    );
    calls.push(bind_buffer(GLEnum::ElementArrayBuffer, Some(index_buffer)));
    calls.push(
        HostCall::ClearColor {
            red_bits: CLEAR_RED_BITS,
            green_bits: CLEAR_GREEN_BITS,
            blue_bits: CLEAR_BLUE_BITS,
            alpha_bits: CLEAR_ALPHA_BITS,
        },
    );
    calls.push(HostCall::Clear { mask: GLEnum::ColorBufferBit.code() });
    calls.push(
        HostCall::DrawElements {
            mode: GLEnum::Triangles.code(),
            count: 3,
            elem_type: GLEnum::UnsignedShort.code(),
            offset: 0,
        },
    );
    calls
}

} // verus!
