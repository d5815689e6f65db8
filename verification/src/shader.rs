//! Shader programs: the kinds of shader, the GL commands that build and use
//! a program, and the ways in which a build fails.

use crate::text::{decimal, push_decimal};
use vstd::prelude::*;

verus! {

pub const FRAGMENT_SHADER: u32 = 0x8B30;

pub const VERTEX_SHADER: u32 = 0x8B31;

pub const GEOMETRY_SHADER: u32 = 0x8DD9;

pub const COMPILE_STATUS: u32 = 0x8B81;

pub const LINK_STATUS: u32 = 0x8B82;

pub const INFO_LOG_LENGTH: u32 = 0x8B84;

/// The value of a status query that reports success.
pub const TRUE: i32 = 1;

/// Whether a shader type is one that the viewer can compile.
pub open spec fn known_type(ty: u32) -> bool {
    ty == FRAGMENT_SHADER || ty == GEOMETRY_SHADER || ty == VERTEX_SHADER
}

/// The word under which the info log of a shader of a known type is
/// printed.
pub open spec fn kind_word(ty: u32) -> Seq<char> {
    if ty == FRAGMENT_SHADER {
        "Fragment"@
    } else if ty == GEOMETRY_SHADER {
        "Geometry"@
    } else {
        "Vertex"@
    }
}

/// Names a shader type, or tells that the type is not a known one.
pub fn shader_type_name(ty: u32) -> (name: Option<&'static str>)
    ensures
        name is Some <==> known_type(ty),
        name matches Some(word) ==> word@ == kind_word(ty),
{
    match ty {
        FRAGMENT_SHADER => Some("Fragment"),
        GEOMETRY_SHADER => Some("Geometry"),
        VERTEX_SHADER => Some("Vertex"),
        _ => None,
    }
}

/// One step of work for whoever holds the GL context. `CreateShader` and
/// `CreateProgram` are answered with the new name, `GetShaderiv` and
/// `GetProgramiv` with the value read, the two info-log commands with the
/// bytes of the log; the others have no answer.
#[derive(Clone, Copy, Debug, PartialEq, Eq, Structural)]
pub enum Command {
    CreateShader { ty: u32 },
    /// Hand the text of the source at position `source` of the build's list
    /// to the shader.
    ShaderSource { shader: u32, source: usize },
    CompileShader { shader: u32 },
    GetShaderiv { shader: u32, pname: u32 },
    /// Read the log into a buffer of `buf_size` bytes and answer with its
    /// first `buf_size - 1` bytes, which leaves out the closing NUL.
    GetShaderInfoLog { shader: u32, buf_size: i32 },
    DeleteShader { shader: u32 },
    CreateProgram,
    AttachShader { program: u32, shader: u32 },
    LinkProgram { program: u32 },
    DetachShader { program: u32, shader: u32 },
    GetProgramiv { program: u32, pname: u32 },
    /// As `GetShaderInfoLog`, for a program.
    GetProgramInfoLog { program: u32, buf_size: i32 },
    UseProgram { program: u32 },
    DeleteProgram { program: u32 },
    /// Read the GL error queue to its end and report what it held.
    ReportErrors,
    /// Give up with this error; nothing follows.
    Fail(BuildError),
}

/// Why the build of a shader program was given up.
#[derive(Clone, Copy, Debug, PartialEq, Eq, Structural)]
pub enum BuildError {
    /// A source asks for a shader type that is not a known one.
    UnknownShaderType(u32),
    /// A source holds a NUL byte, here at the byte position given, and so
    /// cannot be handed to GL as a C string.
    NulInSource(usize),
    ShaderInfoLogNotUtf8,
    ProgramInfoLogNotUtf8,
    /// The program's info log had a length when first asked and none when
    /// asked again.
    ProgramInfoLogLost,
    CompileFailed,
    LinkFailed,
    /// The answer does not fit the command that was last given.
    UnexpectedReply,
}

impl BuildError {
    /// The text of the message that tells of this error.
    pub open spec fn text(self) -> Seq<char> {
        match self {
            BuildError::UnknownShaderType(ty) => "Unknown shader type "@ + decimal(ty as nat),
            BuildError::NulInSource(at) => "nul byte found in shader source at position: "@
                + decimal(at as nat),
            BuildError::ShaderInfoLogNotUtf8 => "ShaderInfoLog not valid utf8"@,
            BuildError::ProgramInfoLogNotUtf8 => "ProgramInfoLog not valid utf8"@,
            BuildError::ProgramInfoLogLost => "ProgramInfoLog has no length"@,
            BuildError::CompileFailed => "Failed to compile shader"@,
            BuildError::LinkFailed => "Failed to link shader"@,
            BuildError::UnexpectedReply => "Unexpected reply to a GL command"@,
        }
    }

    /// The message with which the viewer gives up on this error.
    pub fn message(&self) -> (message: String)
        ensures
            message@ == self.text(),
    {
        match self {
            BuildError::UnknownShaderType(ty) => {
                let mut message = String::from_str("Unknown shader type ");
                push_decimal(&mut message, *ty as u64);
                message
            },
            BuildError::NulInSource(at) => {
                let mut message = String::from_str(
                    "nul byte found in shader source at position: ",
                );
                push_decimal(&mut message, *at as u64);
                message
            },
            BuildError::ShaderInfoLogNotUtf8 => String::from_str("ShaderInfoLog not valid utf8"),
            BuildError::ProgramInfoLogNotUtf8 => String::from_str("ProgramInfoLog not valid utf8"),
            BuildError::ProgramInfoLogLost => String::from_str("ProgramInfoLog has no length"),
            BuildError::CompileFailed => String::from_str("Failed to compile shader"),
            BuildError::LinkFailed => String::from_str("Failed to link shader"),
            BuildError::UnexpectedReply => String::from_str("Unexpected reply to a GL command"),
        }
    }
}

/// A linked shader program, known by the name that GL gave it.
#[derive(Debug)]
pub struct Shader {
    pub name: u32,
}

impl Shader {
    /// The command that makes this program the one that draws.
    pub fn activate(&self) -> (command: Command)
        ensures
            command == (Command::UseProgram { program: self.name }),
    {
        Command::UseProgram { program: self.name }
    }

    /// The command that gives the program back to GL; the viewer runs it
    /// when it is done with the shader.
    pub fn release(&self) -> (command: Command)
        ensures
            command == (Command::DeleteProgram { program: self.name }),
    {
        Command::DeleteProgram { program: self.name }
    }
}

} // verus!
