use vstd::prelude::*;

use crate::shader::{GlError, ShaderKind};

verus! {

/// Work that the host carries out for startup, one piece at a time.
#[derive(PartialEq, Eq, Structural, Clone, Copy, Debug)]
pub enum Action {
    /// Find the drawing surface and obtain its rendering context.
    AcquireContext,
    /// Compile the shader of this kind.
    CompileShader(ShaderKind),
    /// Link the two shaders into the program.
    LinkProgram,
    /// Activate the program and register the first frame callback.
    StartAnimation,
    /// Nothing is left to do.
    Finish,
}

/// Where startup stands: the piece of work that is pending, or an end.
#[derive(PartialEq, Eq, Structural, Clone, Copy, Debug)]
pub enum Stage {
    AcquireContext,
    CompileVertex,
    CompileFragment,
    LinkProgram,
    StartAnimation,
    Running,
    Failed,
}

/// The two stages from which startup goes no further.
pub open spec fn is_terminal(stage: Stage) -> bool {
    stage == Stage::Running || stage == Stage::Failed
}

/// The work that a stage asks for.
pub open spec fn action_of(stage: Stage) -> Action {
    match stage {
        Stage::AcquireContext => Action::AcquireContext,
        Stage::CompileVertex => Action::CompileShader(ShaderKind::Vertex),
        Stage::CompileFragment => Action::CompileShader(ShaderKind::Fragment),
        Stage::LinkProgram => Action::LinkProgram,
        Stage::StartAnimation => Action::StartAnimation,
        Stage::Running => Action::Finish,
        Stage::Failed => Action::Finish,
    }
}

/// The stage that follows when the pending work succeeded.
pub open spec fn stage_after(stage: Stage) -> Stage {
    match stage {
        Stage::AcquireContext => Stage::CompileVertex,
        Stage::CompileVertex => Stage::CompileFragment,
        Stage::CompileFragment => Stage::LinkProgram,
        Stage::LinkProgram => Stage::StartAnimation,
        Stage::StartAnimation => Stage::Running,
        Stage::Running => Stage::Running,
        Stage::Failed => Stage::Failed,
    }
}

/// The startup sequence: acquire the context, compile the vertex and then the
/// fragment shader, link, then start the animation. The first failure ends it
/// and is reported; no step is retried.
pub struct Startup {
    pub stage: Stage,
}

impl Startup {
    /// A sequence that has not begun: the context is acquired first.
    pub fn new() -> (r: Startup)
        ensures
            r.stage == Stage::AcquireContext,
    {
        Startup { stage: Stage::AcquireContext }
    }

    /// The work that is pending.
    pub fn action(&self) -> (r: Action)
        ensures
            r == action_of(self.stage),
    {
        match self.stage {
            Stage::AcquireContext => Action::AcquireContext,
            Stage::CompileVertex => Action::CompileShader(ShaderKind::Vertex),
            Stage::CompileFragment => Action::CompileShader(ShaderKind::Fragment),
            Stage::LinkProgram => Action::LinkProgram,
            Stage::StartAnimation => Action::StartAnimation,
            Stage::Running => Action::Finish,
            Stage::Failed => Action::Finish,
        }
    }

    /// Takes the outcome of the pending work and returns the next piece of work,
    /// or the error that ends startup. Once ended, the sequence stays where it is
    /// and asks for nothing more.
    pub fn step(&mut self, outcome: Result<(), GlError>) -> (r: Result<Action, GlError>)
        ensures
            is_terminal(old(self).stage) ==> final(self).stage == old(self).stage
                && r == Ok::<Action, GlError>(Action::Finish),
            !is_terminal(old(self).stage) && outcome.is_ok() ==> final(self).stage == stage_after(
                old(self).stage,
            ) && r == Ok::<Action, GlError>(action_of(final(self).stage)),
            !is_terminal(old(self).stage) && outcome.is_err() ==> final(self).stage
                == Stage::Failed && r == Err::<Action, GlError>(outcome->Err_0),
    {
        match self.stage {
            Stage::Running | Stage::Failed => Ok(Action::Finish),
            _ => match outcome {
                Ok(()) => {
                    self.stage = match self.stage {
                        Stage::AcquireContext => Stage::CompileVertex,
                        Stage::CompileVertex => Stage::CompileFragment,
                        Stage::CompileFragment => Stage::LinkProgram,
                        Stage::LinkProgram => Stage::StartAnimation,
                        _ => Stage::Running,
                    };
                    Ok(self.action())
                },
                Err(error) => {
                    self.stage = Stage::Failed;
                    Err(error)
                },
            },
        }
    }
}

} // verus!
