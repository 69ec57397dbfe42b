//! What can go wrong while a renderer is set up or text is cached.

use vstd::prelude::*;
use vstd::string::StringExecFns;
use crate::shader::ShaderType;

verus! {

/// The failures of a renderer. The first three end its construction; the
/// other two leave glyphs out of a text.
#[derive(Debug, PartialEq, Eq)]
pub enum RenderError {
    /// A stage did not compile; `message` is the compiler's log.
    ShaderCompileError { stage: ShaderType, message: String },
    /// The stages did not link; `message` is the linker's log.
    ProgramLinkError { message: String },
    /// No texture could be created for the atlas.
    TextureCreateError,
    /// The atlas is as large as it gets and the glyphs still do not fit.
    CacheExhaustedError,
    /// The text has more code points than a layout can hold.
    TextTooLongError,
}

impl RenderError {
    /// The failure in words.
    pub open spec fn message_spec(&self) -> Seq<char> {
        match *self {
            RenderError::ShaderCompileError { stage, message } => (match stage {
                ShaderType::Vert => "vertex"@,
                ShaderType::Frag => "fragment"@,
            }) + " shader compile error: "@ + message@,
            RenderError::ProgramLinkError { message } => "shader program link error: "@ + message@,
            RenderError::TextureCreateError => "Failed to create GPU text cache texture"@,
            RenderError::CacheExhaustedError => "Failed to increase GPU text cache size"@,
            RenderError::TextTooLongError => "Text is too long to lay out"@,
        }
    }

    /// Whether the failure keeps a renderer from being set up. The others
    /// only leave glyphs out of a text.
    pub open spec fn is_fatal_spec(&self) -> bool {
        !(*self is CacheExhaustedError) && !(*self is TextTooLongError)
    }

    /// The failure in words.
    pub fn message(&self) -> (text: String)
        ensures
            text@ == self.message_spec(),
    {
        match self {
            RenderError::ShaderCompileError { stage, message } => {
                let text = String::from_str(stage.stage_name());
                let text = text.concat(" shader compile error: ");
                text.concat(message.as_str())
            },
            RenderError::ProgramLinkError { message } => {
                let text = String::from_str("shader program link error: ");
                text.concat(message.as_str())
            },
            RenderError::TextureCreateError => String::from_str(
                "Failed to create GPU text cache texture",
            ),
            RenderError::CacheExhaustedError => String::from_str(
                "Failed to increase GPU text cache size",
            ),
            RenderError::TextTooLongError => String::from_str("Text is too long to lay out"),
        }
    }

    /// Whether the failure keeps a renderer from being set up.
    pub fn is_fatal(&self) -> (fatal: bool)
        ensures
            fatal == self.is_fatal_spec(),
    {
        match self {
            RenderError::CacheExhaustedError => false,
            RenderError::TextTooLongError => false,
            _ => true,
        }
    }
}

} // verus!
