use bevy_webgl1::shader::{compile_outcome, link_outcome, program_error_text, shader_error_text};

#[test]
fn compile_error_carries_the_info_log() {
    let log = "ERROR: 0:1: 'not' : syntax error".to_string();
    let text = shader_error_text(Some(log.clone()));
    assert_eq!(text, log);
    assert!(!text.is_empty());
}

#[test]
fn compile_error_without_log_has_fallback_text() {
    assert_eq!(shader_error_text(None), "Unknown error creating shader");
    assert_eq!(shader_error_text(Some(String::new())), "Unknown error creating shader");
}

#[test]
fn link_error_text() {
    assert_eq!(program_error_text(Some("link failed".to_string())), "link failed");
    assert_eq!(program_error_text(None), "Unknown error creating program object");
    assert_eq!(program_error_text(Some(String::new())), "Unknown error creating program object");
}

#[test]
fn failed_compile_gives_error_and_no_shader() {
    let log = "ERROR: 0:1: 'this is not glsl' : syntax error".to_string();
    let r = compile_outcome(Some(7u32), Some(false), Some(log.clone()));
    assert_eq!(r, Err(log));
    let r = compile_outcome(Some(7u32), Some(false), Some(String::new()));
    assert_eq!(r, Err("Unknown error creating shader".to_string()));
}

#[test]
fn compile_without_boolean_status_fails() {
    assert_eq!(compile_outcome(Some(7u32), None, None), Err("Unknown error creating shader".to_string()));
}

#[test]
fn successful_compile_returns_the_shader() {
    assert_eq!(compile_outcome(Some(7u32), Some(true), None), Ok(7));
}

#[test]
fn missing_shader_object_gives_create_error() {
    assert_eq!(compile_outcome::<u32>(None, None, None), Err("Unable to create shader object".to_string()));
}

#[test]
fn link_outcomes() {
    assert_eq!(link_outcome(Some(3u32), Some(true), None), Ok(3));
    assert_eq!(link_outcome(Some(3u32), Some(false), Some("link failed".to_string())), Err("link failed".to_string()));
    assert_eq!(link_outcome(Some(3u32), None, None), Err("Unknown error creating program object".to_string()));
    assert_eq!(link_outcome::<u32>(None, None, None), Err("Unable to create shader object".to_string()));
}
