//! The renderer's long-lived resources: the linked shader program and the
//! three buffers that every drawable shares.
use crate::shader::{compile_shader, link_program};
use vstd::prelude::*;
use web_sys::{WebGlBuffer, WebGlProgram, WebGlRenderingContext};

verus! {

#[verifier::external_type_specification]
#[verifier::external_body]
pub struct ExWebGlBuffer(WebGlBuffer);

/// The position, texture-coordinate and index buffers, made once and
/// overwritten by every drawable of every frame.
pub struct SharedBuffers {
    pub position_buffer: WebGlBuffer,
    pub uv_buffer: WebGlBuffer,
    pub index_buffer: WebGlBuffer,
}

/// A renderer ready to draw: its program and its shared buffers.
pub struct Renderer {
    pub program: WebGlProgram,
    pub buffers: SharedBuffers,
}

/// The WebGL shader kind of a vertex shader.
pub const VERTEX_SHADER: u32 = 35633;

/// The WebGL shader kind of a fragment shader.
pub const FRAGMENT_SHADER: u32 = 35632;

/// The error when a shared buffer cannot be created.
pub open spec fn no_buffer_text() -> Seq<char> {
    "Unable to create buffer object"@
}

/// Relies on WebGlRenderingContext::create_buffer: a new buffer object, or
/// None when the context cannot make one.
#[verifier::external_body]
fn new_buffer(gl: &WebGlRenderingContext) -> Option<WebGlBuffer> {
    gl.create_buffer()
}

/// Creates the three shared buffers; fails, with a non-empty diagnostic, when
/// the context cannot make one.
pub fn create_buffers(gl: &WebGlRenderingContext) -> (r: Result<SharedBuffers, String>)
    ensures
        r is Err ==> r->Err_0@ == no_buffer_text(),
        r is Err ==> r->Err_0@.len() > 0,
{
    proof {
        reveal_strlit("Unable to create buffer object");
    }
    let position_buffer = match new_buffer(gl) {
        Some(b) => b,
        None => return Err("Unable to create buffer object".to_string()),
    };
    let uv_buffer = match new_buffer(gl) {
        Some(b) => b,
        None => return Err("Unable to create buffer object".to_string()),
    };
    let index_buffer = match new_buffer(gl) {
        Some(b) => b,
        None => return Err("Unable to create buffer object".to_string()),
    };
    Ok(SharedBuffers { position_buffer, uv_buffer, index_buffer })
}

/// Builds the renderer from vertex and fragment shader source: compiles both,
/// links them, then makes the shared buffers. The first failure ends the
/// build, and its diagnostic is never empty.
pub fn init_renderer(gl: &WebGlRenderingContext, vertex_source: &str, fragment_source: &str) -> (r: Result<Renderer, String>)
    ensures
        r is Err ==> r->Err_0@.len() > 0,
{
    let vert_shader = compile_shader(gl, VERTEX_SHADER, vertex_source)?;
    let frag_shader = compile_shader(gl, FRAGMENT_SHADER, fragment_source)?;
    let program = link_program(gl, &vert_shader, &frag_shader)?;
    let buffers = create_buffers(gl)?;
    Ok(Renderer { program, buffers })
}

} // verus!
