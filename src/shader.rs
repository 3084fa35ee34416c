//! Compiling and linking the shader program, with the driver's diagnostics.
use vstd::prelude::*;
use web_sys::{WebGlProgram, WebGlRenderingContext, WebGlShader};

verus! {

#[verifier::external_type_specification]
#[verifier::external_body]
pub struct ExWebGlRenderingContext(WebGlRenderingContext);

#[verifier::external_type_specification]
#[verifier::external_body]
pub struct ExWebGlShader(WebGlShader);

#[verifier::external_type_specification]
#[verifier::external_body]
pub struct ExWebGlProgram(WebGlProgram);

/// The error when no shader or program object can be created.
pub open spec fn no_shader_text() -> Seq<char> {
    "Unable to create shader object"@
}

/// The error of a failed compile whose info log is empty or missing.
pub open spec fn shader_fallback_text() -> Seq<char> {
    "Unknown error creating shader"@
}

/// The error of a failed link whose info log is empty or missing.
pub open spec fn program_fallback_text() -> Seq<char> {
    "Unknown error creating program object"@
}

/// The diagnostic of a failure: the driver's info log where it says
/// something, else the fallback.
pub open spec fn diagnosis(log: Option<Seq<char>>, fallback: Seq<char>) -> Seq<char> {
    if log is Some && log.unwrap().len() > 0 {
        log.unwrap()
    } else {
        fallback
    }
}

/// The view of an optional info log.
pub open spec fn log_view(log: Option<String>) -> Option<Seq<char>> {
    match log {
        Some(s) => Some(s@),
        None => None,
    }
}

fn diagnose(log: Option<String>, fallback: &str) -> (r: String)
    ensures
        r@ == diagnosis(log_view(log), fallback@),
{
    match log {
        Some(s) => {
            if s.as_str().is_empty() {
                fallback.to_string()
            } else {
                s
            }
        },
        None => fallback.to_string(),
    }
}

/// The error text of a failed compile, from the shader's info log.
pub fn shader_error_text(log: Option<String>) -> (r: String)
    ensures
        r@ == diagnosis(log_view(log), shader_fallback_text()),
        r@.len() > 0,
{
    proof {
        reveal_strlit("Unknown error creating shader");
    }
    diagnose(log, "Unknown error creating shader")
}

/// The error text of a failed link, from the program's info log.
pub fn program_error_text(log: Option<String>) -> (r: String)
    ensures
        r@ == diagnosis(log_view(log), program_fallback_text()),
        r@.len() > 0,
{
    proof {
        reveal_strlit("Unknown error creating program object");
    }
    diagnose(log, "Unknown error creating program object")
}

/// Relies on WebGlRenderingContext::create_shader: a new shader object, or
/// None when the context cannot make one.
#[verifier::external_body]
fn new_shader(gl: &WebGlRenderingContext, shader_type: u32) -> Option<WebGlShader> {
    gl.create_shader(shader_type)
}

/// Relies on WebGlRenderingContext::shader_source: sets the shader's source text.
#[verifier::external_body]
fn set_shader_source(gl: &WebGlRenderingContext, shader: &WebGlShader, source: &str) {
    gl.shader_source(shader, source)
}

/// Relies on WebGlRenderingContext::compile_shader: compiles the shader.
#[verifier::external_body]
fn compile(gl: &WebGlRenderingContext, shader: &WebGlShader) {
    gl.compile_shader(shader)
}

/// Relies on WebGlRenderingContext::get_shader_parameter with COMPILE_STATUS,
/// read as a boolean: whether the compile succeeded, None where the driver
/// gives no boolean.
#[verifier::external_body]
fn compile_status(gl: &WebGlRenderingContext, shader: &WebGlShader) -> Option<bool> {
    gl.get_shader_parameter(shader, WebGlRenderingContext::COMPILE_STATUS).as_bool()
}

/// Relies on WebGlRenderingContext::get_shader_info_log: the compile log.
#[verifier::external_body]
fn shader_info_log(gl: &WebGlRenderingContext, shader: &WebGlShader) -> Option<String> {
    gl.get_shader_info_log(shader)
}

/// Relies on WebGlRenderingContext::create_program: a new program object, or
/// None when the context cannot make one.
#[verifier::external_body]
fn new_program(gl: &WebGlRenderingContext) -> Option<WebGlProgram> {
    gl.create_program()
}

/// Relies on WebGlRenderingContext::attach_shader: attaches a shader to the program.
#[verifier::external_body]
fn attach(gl: &WebGlRenderingContext, program: &WebGlProgram, shader: &WebGlShader) {
    gl.attach_shader(program, shader)
}

/// Relies on WebGlRenderingContext::link_program: links the program.
#[verifier::external_body]
fn link(gl: &WebGlRenderingContext, program: &WebGlProgram) {
    gl.link_program(program)
}

/// Relies on WebGlRenderingContext::get_program_parameter with LINK_STATUS,
/// read as a boolean: whether the link succeeded, None where the driver gives
/// no boolean.
#[verifier::external_body]
fn link_status(gl: &WebGlRenderingContext, program: &WebGlProgram) -> Option<bool> {
    gl.get_program_parameter(program, WebGlRenderingContext::LINK_STATUS).as_bool()
}

/// Relies on WebGlRenderingContext::get_program_info_log: the link log.
#[verifier::external_body]
fn program_info_log(gl: &WebGlRenderingContext, program: &WebGlProgram) -> Option<String> {
    gl.get_program_info_log(program)
}

/// The result of a compile from the driver's answers: `shader` is what
/// creating the shader object gave, `status` the compile status read as a
/// boolean, `log` the info log. Success only with a shader and a status of
/// true; otherwise the fixed create error, or the log's diagnosis.
pub fn compile_outcome<S>(shader: Option<S>, status: Option<bool>, log: Option<String>) -> (r: Result<S, String>)
    ensures
        shader is None ==> r is Err && r->Err_0@ == no_shader_text(),
        shader is Some ==> (r is Ok <==> status == Some(true)),
        r is Ok ==> r->Ok_0 == shader->Some_0,
        shader is Some && status != Some(true) ==> r is Err && r->Err_0@ == diagnosis(log_view(log), shader_fallback_text()),
        r is Err ==> r->Err_0@.len() > 0,
{
    proof {
        reveal_strlit("Unable to create shader object");
    }
    match shader {
        None => Err("Unable to create shader object".to_string()),
        Some(s) => {
            if status == Some(true) {
                Ok(s)
            } else {
                Err(shader_error_text(log))
            }
        },
    }
}

/// The result of a link from the driver's answers: `program` is what
/// creating the program object gave, `status` the link status read as a
/// boolean, `log` the info log. Success only with a program and a status of
/// true; otherwise the fixed create error, or the log's diagnosis.
pub fn link_outcome<P>(program: Option<P>, status: Option<bool>, log: Option<String>) -> (r: Result<P, String>)
    ensures
        program is None ==> r is Err && r->Err_0@ == no_shader_text(),
        program is Some ==> (r is Ok <==> status == Some(true)),
        r is Ok ==> r->Ok_0 == program->Some_0,
        program is Some && status != Some(true) ==> r is Err && r->Err_0@ == diagnosis(log_view(log), program_fallback_text()),
        r is Err ==> r->Err_0@.len() > 0,
{
    proof {
        reveal_strlit("Unable to create shader object");
    }
    match program {
        None => Err("Unable to create shader object".to_string()),
        Some(p) => {
            if status == Some(true) {
                Ok(p)
            } else {
                Err(program_error_text(log))
            }
        },
    }
}

/// Compiles `source` as a shader of kind `shader_type`: creates the shader
/// object, sets its source, compiles it and reads the compile status, and the
/// info log only when the status is not true. The result is
/// `compile_outcome` of those answers; an error's text is never empty.
pub fn compile_shader(gl: &WebGlRenderingContext, shader_type: u32, source: &str) -> (r: Result<WebGlShader, String>)
    ensures
        r is Err ==> r->Err_0@.len() > 0,
{
    let shader = new_shader(gl, shader_type);
    let mut status: Option<bool> = None;
    let mut log: Option<String> = None;
    if let Some(s) = &shader {
        set_shader_source(gl, s, source);
        compile(gl, s);
        status = compile_status(gl, s);
        if status != Some(true) {
            log = shader_info_log(gl, s);
        }
    }
    compile_outcome(shader, status, log)
}

/// Links a program from a vertex and a fragment shader: creates the program
/// object, attaches both shaders, links it and reads the link status, and the
/// info log only when the status is not true. The result is `link_outcome`
/// of those answers; an error's text is never empty.
pub fn link_program(gl: &WebGlRenderingContext, vert_shader: &WebGlShader, frag_shader: &WebGlShader) -> (r: Result<WebGlProgram, String>)
    ensures
        r is Err ==> r->Err_0@.len() > 0,
{
    let program = new_program(gl);
    let mut status: Option<bool> = None;
    let mut log: Option<String> = None;
    if let Some(p) = &program {
        attach(gl, p, vert_shader);
        attach(gl, p, frag_shader);
        link(gl, p);
        status = link_status(gl, p);
        if status != Some(true) {
            log = program_info_log(gl, p);
        }
    }
    link_outcome(program, status, log)
}

} // verus!
