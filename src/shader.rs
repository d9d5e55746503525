use vstd::prelude::*;

verus! {

/// The two stages of the shader pair.
#[derive(PartialEq, Eq, Structural, Clone, Copy, Debug)]
pub enum ShaderKind {
    Vertex,
    Fragment,
}

/// What went wrong, and whether the animation can go on.
#[derive(PartialEq, Eq, Structural, Clone, Copy, Debug)]
pub enum ErrorKind {
    /// No drawing surface, or no context of the expected API on it (fatal).
    ContextUnavailable,
    /// A shader did not compile (fatal).
    ShaderCompileFailed,
    /// The program did not link (fatal).
    ProgramLinkFailed,
    /// One frame could not be drawn; the loop goes on with the next.
    RenderFailed,
}

/// An error with the diagnostic text that explains it.
#[derive(Clone, Debug)]
pub struct GlError {
    pub kind: ErrorKind,
    pub message: String,
}

/// Message when no shader object could be created.
pub const SHADER_CREATE_FAILED: &'static str = "Unable to create shader object";

/// Message when a shader failed and the compiler gave no diagnostic.
pub const SHADER_UNKNOWN_ERROR: &'static str = "Unknown error creating shader";

/// Message when no program object could be created.
pub const PROGRAM_CREATE_FAILED: &'static str = "Unable to create program object";

/// Message when the program failed and the linker gave no diagnostic.
pub const PROGRAM_UNKNOWN_ERROR: &'static str = "Unknown error creating program object";

/// The diagnostic if there is one, else the fallback.
pub open spec fn diagnostic(log: Option<String>, fallback: Seq<char>) -> Seq<char> {
    match log {
        Some(text) => text@,
        None => fallback,
    }
}

/// A status flag that reads as success: present and true.
pub open spec fn succeeded(status: Option<bool>) -> bool {
    status == Some(true)
}

/// The outcome of a stage whose object was created and queried: success with
/// the object when the status reads as true, else an error of `kind` with the
/// diagnostic or the fallback.
fn outcome<H>(
    object: H,
    status: Option<bool>,
    log: Option<String>,
    kind: ErrorKind,
    fallback: &str,
) -> (r: Result<H, GlError>)
    ensures
        succeeded(status) ==> r == Ok::<H, GlError>(object),
        !succeeded(status) ==> r.is_err() && r->Err_0.kind == kind
            && r->Err_0.message@ == diagnostic(log, fallback@),
{
    match status {
        Some(true) => Ok(object),
        _ => {
            let message = match log {
                Some(text) => text,
                None => fallback.to_owned(),
            };
            Err(GlError { kind, message })
        },
    }
}

/// Decides the result of compiling one shader from what the graphics context
/// reported: the shader object it created (if any), the compile-status flag it
/// read back, and the compiler's diagnostic text. A shader is handed out only
/// when it was created and its status reads as true.
pub fn compile_shader<H>(
    shader: Option<H>,
    compile_status: Option<bool>,
    info_log: Option<String>,
) -> (r: Result<H, GlError>)
    ensures
        r.is_ok() <==> shader.is_some() && succeeded(compile_status),
        r.is_ok() ==> r == Ok::<H, GlError>(shader->Some_0),
        r.is_err() ==> r->Err_0.kind == ErrorKind::ShaderCompileFailed,
        shader.is_none() ==> r.is_err() && r->Err_0.message@ == SHADER_CREATE_FAILED@,
        shader.is_some() && !succeeded(compile_status) ==> r.is_err()
            && r->Err_0.message@ == diagnostic(info_log, SHADER_UNKNOWN_ERROR@),
{
    match shader {
        None => Err(
            GlError {
                kind: ErrorKind::ShaderCompileFailed,
                message: SHADER_CREATE_FAILED.to_owned(),
            },
        ),
        Some(object) => outcome(
            object,
            compile_status,
            info_log,
            ErrorKind::ShaderCompileFailed,
            SHADER_UNKNOWN_ERROR,
        ),
    }
}

/// Decides the result of linking the program from what the graphics context
/// reported: the program object it created (if any), the link-status flag it
/// read back, and the linker's diagnostic text.
pub fn link_program<H>(
    program: Option<H>,
    link_status: Option<bool>,
    info_log: Option<String>,
) -> (r: Result<H, GlError>)
    ensures
        r.is_ok() <==> program.is_some() && succeeded(link_status),
        r.is_ok() ==> r == Ok::<H, GlError>(program->Some_0),
        r.is_err() ==> r->Err_0.kind == ErrorKind::ProgramLinkFailed,
        program.is_none() ==> r.is_err() && r->Err_0.message@ == PROGRAM_CREATE_FAILED@,
        program.is_some() && !succeeded(link_status) ==> r.is_err()
            && r->Err_0.message@ == diagnostic(info_log, PROGRAM_UNKNOWN_ERROR@),
{
    match program {
        None => Err(
            GlError {
                kind: ErrorKind::ProgramLinkFailed,
                message: PROGRAM_CREATE_FAILED.to_owned(),
            },
        ),
        Some(object) => outcome(
            object,
            link_status,
            info_log,
            ErrorKind::ProgramLinkFailed,
            PROGRAM_UNKNOWN_ERROR,
        ),
    }
}

} // verus!
