use glyph_text::error::RenderError;
use glyph_text::shader::{compile, ShaderType};

fn stage_failure(stage: ShaderType, log: &str) -> RenderError {
    RenderError::ShaderCompileError { stage, message: log.to_string() }
}

#[test]
fn stage_names() {
    assert_eq!(ShaderType::Vert.stage_name(), "vertex");
    assert_eq!(ShaderType::Frag.stage_name(), "fragment");
}

#[test]
fn error_messages() {
    assert_eq!(
        stage_failure(ShaderType::Vert, "0:3 syntax error").message(),
        "vertex shader compile error: 0:3 syntax error"
    );
    assert_eq!(
        stage_failure(ShaderType::Frag, "").message(),
        "fragment shader compile error: "
    );
    assert_eq!(
        RenderError::ProgramLinkError { message: "unresolved".to_string() }.message(),
        "shader program link error: unresolved"
    );
    assert_eq!(
        RenderError::TextureCreateError.message(),
        "Failed to create GPU text cache texture"
    );
    assert_eq!(
        RenderError::CacheExhaustedError.message(),
        "Failed to increase GPU text cache size"
    );
    assert_eq!(RenderError::TextTooLongError.message(), "Text is too long to lay out");
}

#[test]
fn failures_of_a_text_are_not_fatal() {
    assert!(stage_failure(ShaderType::Vert, "x").is_fatal());
    assert!(RenderError::ProgramLinkError { message: String::new() }.is_fatal());
    assert!(RenderError::TextureCreateError.is_fatal());
    assert!(!RenderError::CacheExhaustedError.is_fatal());
    assert!(!RenderError::TextTooLongError.is_fatal());
}

#[test]
fn both_stages_compiled() {
    assert_eq!(compile(Ok(3u32), Ok(4u32)), Ok((3, 4)));
}

#[test]
fn vertex_failure_is_reported_first() {
    let vert = stage_failure(ShaderType::Vert, "v");
    let frag = stage_failure(ShaderType::Frag, "f");
    assert_eq!(compile::<u32>(Err(vert), Err(frag)), Err(stage_failure(ShaderType::Vert, "v")));
    let vert = stage_failure(ShaderType::Vert, "v");
    assert_eq!(compile(Err(vert), Ok(4u32)), Err(stage_failure(ShaderType::Vert, "v")));
}

#[test]
fn fragment_failure_is_reported_after_a_good_vertex_stage() {
    let frag = stage_failure(ShaderType::Frag, "f");
    assert_eq!(compile(Ok(3u32), Err(frag)), Err(stage_failure(ShaderType::Frag, "f")));
}
