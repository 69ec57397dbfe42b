//! The two stages of the text pipeline, and what compiling them comes to.

use vstd::prelude::*;
use crate::error::RenderError;

verus! {

/// The two programmable stages of the text pipeline.
#[derive(Clone, Copy, Debug, PartialEq, Eq, Structural)]
pub enum ShaderType {
    Vert,
    Frag,
}

impl ShaderType {
    /// The stage's name as it appears in messages.
    pub fn stage_name(&self) -> (name: &'static str)
        ensures
            name@ == (match *self {
                ShaderType::Vert => "vertex"@,
                ShaderType::Frag => "fragment"@,
            }),
    {
        match self {
            ShaderType::Vert => "vertex",
            ShaderType::Frag => "fragment",
        }
    }
}

/// What compiling the two stages of a program came to: both stages, or the
/// failure to report. Where both stages failed, it is that of the vertex
/// stage.
pub fn compile<S>(vert: Result<S, RenderError>, frag: Result<S, RenderError>) -> (r: Result<
    (S, S),
    RenderError,
>)
    ensures
        r == (match (vert, frag) {
            (Ok(v), Ok(f)) => Ok::<(S, S), RenderError>((v, f)),
            (Err(e), _) => Err::<(S, S), RenderError>(e),
            (Ok(_), Err(e)) => Err::<(S, S), RenderError>(e),
        }),
{
    match (vert, frag) {
        (Ok(v), Ok(f)) => Ok((v, f)),
        (Err(e), _) => Err(e),
        (_, Err(e)) => Err(e),
    }
}

} // verus!
