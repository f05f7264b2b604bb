//! The binding layer: conversions between native data and the flat
//! calling convention of the host rendering API.
//!
//! Each function here builds the [`HostCall`] record for one host entry
//! point, or converts a host return value back into a native-friendly
//! type.  Ordering correctness (bind before upload, compile before link)
//! is the caller's responsibility; every call is independent.

use vstd::prelude::*;
use vstd::slice::slice_to_vec;
use vstd::utf8::encode_utf8;

use crate::glenum::GLEnum;
use crate::handle::JSObject;
use crate::host_call::HostCall;
use crate::host_call::HostCallData;

verus! {

/// The raw handle substituted for an optional one: the handle's own value
/// when present, the reserved null sentinel 0 when absent.
pub open spec fn spec_handle_or_null(gl_object: Option<JSObject>) -> u32 {
    match gl_object {
        Some(h) => h@,
        None => 0,
    }
}

/// Substitutes the reserved null handle for an absent optional handle, so
/// that "no object" crosses the boundary as the sentinel value 0.
pub fn handle_or_null(gl_object: Option<JSObject>) -> (h: JSObject)
    ensures
        h@ == spec_handle_or_null(gl_object),
{
    match gl_object {
        Some(h) => h,
        None => JSObject::null(),
    }
}

/// The attribute location wrapped from the host's signed return value:
/// the sentinel -1 means "not found" and becomes `None`; any other value
/// is the location, reinterpreted as unsigned.
pub open spec fn spec_attrib_location(raw: i32) -> Option<u32> {
    if raw == -1 {
        None
    } else {
        Some(raw as u32)
    }
}

/// Converts the host's signed attribute-lookup return into an optional
/// unsigned location: -1 (the host's "not found" sentinel) becomes
/// `None`; any value `v >= 0` becomes `Some(v)`.
pub fn attrib_location_from_raw(raw: i32) -> (loc: Option<u32>)
    ensures
        loc == spec_attrib_location(raw),
        raw == -1 <==> loc is None,
        raw >= 0 ==> loc == Some(raw as u32),
{
    if raw == -1 {
        None
    } else {
        Some(raw as u32)
    }
}

/// The record for binding a buffer object (or the null handle) to a
/// buffer target.
pub open spec fn spec_bind_buffer(target: GLEnum, gl_object: Option<JSObject>) -> HostCallData {
    HostCallData::BindBuffer {
        target: target.spec_code(),
        object: spec_handle_or_null(gl_object),
    }
}

/// Marshals a buffer binding: the target crosses as its 32-bit code, the
/// optional handle as its raw value, with the null sentinel substituted
/// when absent.
pub fn bind_buffer(target: GLEnum, gl_object: Option<JSObject>) -> (call: HostCall)
    ensures
        call@ == spec_bind_buffer(target, gl_object),
{
    HostCall::BindBuffer { target: target.code(), object: handle_or_null(gl_object).raw() }
}

/// The record for uploading 32-bit float data to a buffer target.  The
/// length beside the payload is the element count, not the byte count.
pub open spec fn spec_buffer_data_f32(target: GLEnum, data: Seq<u32>, usage: GLEnum) -> HostCallData {
    HostCallData::BufferDataF32 {
        target: target.spec_code(),
        data,
        len: data.len() as usize,
        usage: usage.spec_code(),
    }
}

/// Marshals a float-array upload.  Each element is the 32-bit bit pattern
/// of one float; the length passed beside the payload is the exact
/// element count of the input array.
pub fn buffer_data_f32(target: GLEnum, data: &[u32], usage: GLEnum) -> (call: HostCall)
    ensures
        call@ == spec_buffer_data_f32(target, data@, usage),
{
    HostCall::BufferDataF32 {
        target: target.code(),
        data: slice_to_vec(data),
        len: data.len(),
        usage: usage.code(),
    }
}

/// The record for uploading 16-bit unsigned index data to a buffer
/// target.  The length beside the payload is the element count, not the
/// byte count.
pub open spec fn spec_buffer_data_u16(target: GLEnum, data: Seq<u16>, usage: GLEnum) -> HostCallData {
    HostCallData::BufferDataU16 {
        target: target.spec_code(),
        data,
        len: data.len() as usize,
        usage: usage.spec_code(),
    }
}

/// Marshals a short-array upload: the length passed beside the payload is
/// the exact element count of the input array.
pub fn buffer_data_u16(target: GLEnum, data: &[u16], usage: GLEnum) -> (call: HostCall)
    ensures
        call@ == spec_buffer_data_u16(target, data@, usage),
{
    HostCall::BufferDataU16 {
        target: target.code(),
        data: slice_to_vec(data),
        len: data.len(),
        usage: usage.code(),
    }
}

/// The record for handing shader source text to a shader object.  The
/// length beside the bytes is the UTF-8 byte length of the text, not its
/// character count.
pub open spec fn spec_shader_source(shader: u32, text: Seq<char>) -> HostCallData {
    HostCallData::ShaderSource {
        shader: shader,
        source: encode_utf8(text),
        len: encode_utf8(text).len() as usize,
    }
}

/// Marshals shader source text: the string crosses as its UTF-8 bytes
/// together with its byte length (no terminating marker); the receiving
/// side must not read past that length.
pub fn shader_source(shader: JSObject, source: &str) -> (call: HostCall)
    ensures
        call@ == spec_shader_source(shader@, source@),
{
    HostCall::ShaderSource {
        shader: shader.raw(),
        source: source.as_bytes_vec(),
        len: source.len(),
    }
}

/// The record for looking up a vertex attribute by name in a linked
/// program.  The length beside the bytes is the UTF-8 byte length of the
/// name, not its character count.
pub open spec fn spec_get_attrib_location(program: u32, name: Seq<char>) -> HostCallData {
    HostCallData::GetAttribLocation {
        program: program,
        name: encode_utf8(name),
        len: encode_utf8(name).len() as usize,
    }
}

/// Marshals an attribute-location lookup: the name crosses as its UTF-8
/// bytes together with its byte length.  The host answers with a signed
/// value; [`attrib_location_from_raw`] wraps that answer.
pub fn get_attrib_location(program: JSObject, name: &str) -> (call: HostCall)
    ensures
        call@ == spec_get_attrib_location(program@, name@),
{
    HostCall::GetAttribLocation {
        program: program.raw(),
        name: name.as_bytes_vec(),
        len: name.len(),
    }
}

} // verus!
