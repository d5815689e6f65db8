use mandel_viewer::shader::{
    shader_type_name, BuildError, Command, Shader, COMPILE_STATUS, FRAGMENT_SHADER,
    GEOMETRY_SHADER, INFO_LOG_LENGTH, LINK_STATUS, TRUE, VERTEX_SHADER,
};

#[test]
fn constants_are_those_of_gl() {
    assert_eq!(FRAGMENT_SHADER, gl::FRAGMENT_SHADER);
    assert_eq!(VERTEX_SHADER, gl::VERTEX_SHADER);
    assert_eq!(GEOMETRY_SHADER, gl::GEOMETRY_SHADER);
    assert_eq!(COMPILE_STATUS, gl::COMPILE_STATUS);
    assert_eq!(LINK_STATUS, gl::LINK_STATUS);
    assert_eq!(INFO_LOG_LENGTH, gl::INFO_LOG_LENGTH);
    assert_eq!(TRUE, gl::TRUE as gl::types::GLint);
}

#[test]
fn shader_type_name_knows_three_types() {
    assert_eq!(shader_type_name(gl::FRAGMENT_SHADER), Some("Fragment"));
    assert_eq!(shader_type_name(gl::GEOMETRY_SHADER), Some("Geometry"));
    assert_eq!(shader_type_name(gl::VERTEX_SHADER), Some("Vertex"));
    assert_eq!(shader_type_name(gl::COMPUTE_SHADER), None);
    assert_eq!(shader_type_name(0), None);
}

#[test]
fn activate_uses_the_program() {
    let shader = Shader { name: 42 };
    assert_eq!(shader.activate(), Command::UseProgram { program: 42 });
}

#[test]
fn release_deletes_the_program() {
    let shader = Shader { name: 42 };
    assert_eq!(shader.release(), Command::DeleteProgram { program: 42 });
}

#[test]
fn messages_of_the_errors() {
    assert_eq!(
        BuildError::UnknownShaderType(35633).message(),
        "Unknown shader type 35633"
    );
    assert_eq!(BuildError::UnknownShaderType(0).message(), "Unknown shader type 0");
    assert_eq!(
        BuildError::UnknownShaderType(u32::MAX).message(),
        "Unknown shader type 4294967295"
    );
    assert_eq!(
        BuildError::NulInSource(17).message(),
        "nul byte found in shader source at position: 17"
    );
    assert_eq!(
        BuildError::ShaderInfoLogNotUtf8.message(),
        "ShaderInfoLog not valid utf8"
    );
    assert_eq!(
        BuildError::ProgramInfoLogNotUtf8.message(),
        "ProgramInfoLog not valid utf8"
    );
    assert_eq!(
        BuildError::ProgramInfoLogLost.message(),
        "ProgramInfoLog has no length"
    );
    assert_eq!(BuildError::CompileFailed.message(), "Failed to compile shader");
    assert_eq!(BuildError::LinkFailed.message(), "Failed to link shader");
    assert_eq!(
        BuildError::UnexpectedReply.message(),
        "Unexpected reply to a GL command"
    );
}
