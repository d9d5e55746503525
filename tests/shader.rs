use gl_triangle::{compile_shader, link_program, ErrorKind};

#[test]
fn compiled_shader_is_handed_out() {
    let r = compile_shader(Some(7u32), Some(true), None);
    assert_eq!(r.unwrap(), 7);
}

#[test]
fn invalid_source_gives_compile_error_with_diagnostic() {
    let log = String::from("ERROR: 0:1: 'garbage' : syntax error");
    let r = compile_shader(Some(7u32), Some(false), Some(log.clone()));
    let e = r.unwrap_err();
    assert_eq!(e.kind, ErrorKind::ShaderCompileFailed);
    assert_eq!(e.message, log);
}

#[test]
fn compile_error_without_diagnostic_uses_fallback() {
    let e = compile_shader(Some(7u32), None, None).unwrap_err();
    assert_eq!(e.kind, ErrorKind::ShaderCompileFailed);
    assert_eq!(e.message, "Unknown error creating shader");
}

#[test]
fn missing_shader_object_is_a_compile_error() {
    let e = compile_shader::<u32>(None, Some(true), Some(String::from("ignored"))).unwrap_err();
    assert_eq!(e.kind, ErrorKind::ShaderCompileFailed);
    assert_eq!(e.message, "Unable to create shader object");
}

#[test]
fn linked_program_is_handed_out() {
    let r = link_program(Some(3u32), Some(true), Some(String::new()));
    assert_eq!(r.unwrap(), 3);
}

#[test]
fn mismatched_shaders_give_link_error() {
    let log = String::from("Varyings with the same name but different type");
    let e = link_program(Some(3u32), Some(false), Some(log.clone())).unwrap_err();
    assert_eq!(e.kind, ErrorKind::ProgramLinkFailed);
    assert_eq!(e.message, log);
}

#[test]
fn link_error_without_diagnostic_uses_fallback() {
    let e = link_program(Some(3u32), Some(false), None).unwrap_err();
    assert_eq!(e.kind, ErrorKind::ProgramLinkFailed);
    assert_eq!(e.message, "Unknown error creating program object");
}

#[test]
fn missing_program_object_is_a_link_error() {
    let e = link_program::<u32>(None, None, None).unwrap_err();
    assert_eq!(e.kind, ErrorKind::ProgramLinkFailed);
    assert_eq!(e.message, "Unable to create program object");
}
