//! A verified marshaling layer for a host-provided rendering API.
//!
//! The host exposes a fixed set of entry points behind a flat calling
//! convention: enums and handles cross the boundary as 32-bit integers,
//! data buffers as (payload, element count) pairs, strings as (bytes,
//! byte length) pairs.  This crate models each crossing as a `HostCall`
//! record and proves that the conversions from native data (slices,
//! UTF-8 strings, optional handles) into that convention are exact.

mod binding;
mod glenum;
mod handle;
mod host_call;
mod scene;

pub use binding::attrib_location_from_raw;
pub use binding::bind_buffer;
pub use binding::buffer_data_f32;
pub use binding::buffer_data_u16;
pub use binding::get_attrib_location;
pub use binding::handle_or_null;
pub use binding::shader_source;
pub use glenum::GLEnum;
pub use handle::JSObject;
pub use host_call::HostCall;
pub use host_call::HostCallData;
pub use scene::attrib_name;
pub use scene::fragment_shader_text;
pub use scene::triangle_indices;
pub use scene::triangle_scene_calls;
pub use scene::triangle_vertex_bits;
pub use scene::vertex_shader_text;
