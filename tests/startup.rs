use gl_triangle::{Action, ErrorKind, GlError, ShaderKind, Stage, Startup};

#[test]
fn startup_runs_every_step_in_order() {
    let mut s = Startup::new();
    assert_eq!(s.action(), Action::AcquireContext);
    assert_eq!(s.step(Ok(())).unwrap(), Action::CompileShader(ShaderKind::Vertex));
    assert_eq!(s.step(Ok(())).unwrap(), Action::CompileShader(ShaderKind::Fragment));
    assert_eq!(s.step(Ok(())).unwrap(), Action::LinkProgram);
    assert_eq!(s.step(Ok(())).unwrap(), Action::StartAnimation);
    assert_eq!(s.step(Ok(())).unwrap(), Action::Finish);
    assert_eq!(s.stage, Stage::Running);
    assert_eq!(s.step(Ok(())).unwrap(), Action::Finish);
    assert_eq!(s.stage, Stage::Running);
}

#[test]
fn missing_context_ends_startup() {
    let mut s = Startup::new();
    let error = GlError { kind: ErrorKind::ContextUnavailable, message: String::from("no canvas") };
    let e = s.step(Err(error)).unwrap_err();
    assert_eq!(e.kind, ErrorKind::ContextUnavailable);
    assert_eq!(e.message, "no canvas");
    assert_eq!(s.stage, Stage::Failed);
    assert_eq!(s.action(), Action::Finish);
}

#[test]
fn compile_failure_never_reaches_animation() {
    let mut s = Startup::new();
    s.step(Ok(())).unwrap();
    s.step(Ok(())).unwrap();
    let error = GlError { kind: ErrorKind::ShaderCompileFailed, message: String::from("bad") };
    let e = s.step(Err(error)).unwrap_err();
    assert_eq!(e.kind, ErrorKind::ShaderCompileFailed);
    assert_eq!(s.stage, Stage::Failed);
    assert_eq!(s.step(Ok(())).unwrap(), Action::Finish);
    assert_eq!(s.stage, Stage::Failed);
}
