//! The decisions of building a shader program: which stage to compile or
//! link next, and when the build is over. The host does the graphics calls
//! and records each outcome in a [`ShaderProgramBuild`].
use vstd::prelude::*;

verus! {

#[derive(Clone, Copy, Debug, PartialEq, Eq, Structural)]
pub enum ShaderType {
    FragmentShader,
    VertexShader,
}

#[derive(Clone, Copy, Debug, PartialEq, Eq, Structural)]
pub enum ShaderError {
    /// The source file could not be read, or holds a nul byte.
    ShaderFileNotFound,
    ShaderCompilationError,
    ShaderLinkingError,
}

/// The outcomes recorded so far: a compiled shader or program handle, or the
/// error of its stage.
pub struct ShaderProgramBuild {
    pub vertex_shader: Option<Result<u32, ShaderError>>,
    pub fragment_shader: Option<Result<u32, ShaderError>>,
    pub program: Option<Result<u32, ShaderError>>,
}

/// The next stage of a build.
#[derive(Clone, Copy, Debug, PartialEq, Eq)]
pub enum ShaderAction {
    /// Read and compile the source of this stage.
    Compile { shader_type: ShaderType },
    /// Link the two shaders into a program, deleting them afterwards when
    /// `destroy_shaders` holds.
    Link { vertex_shader: u32, fragment_shader: u32, destroy_shaders: bool },
    /// The build is over.
    Finished { result: Result<u32, ShaderError> },
}

/// The vertex shader is compiled first, then the fragment shader, then both
/// are linked and dropped; the first failure ends the build with its error.
pub open spec fn shader_program_step(b: ShaderProgramBuild) -> ShaderAction {
    match b.vertex_shader {
        None => ShaderAction::Compile { shader_type: ShaderType::VertexShader },
        Some(Err(e)) => ShaderAction::Finished { result: Err(e) },
        Some(Ok(vertex_shader)) => match b.fragment_shader {
            None => ShaderAction::Compile { shader_type: ShaderType::FragmentShader },
            Some(Err(e)) => ShaderAction::Finished { result: Err(e) },
            Some(Ok(fragment_shader)) => match b.program {
                None => ShaderAction::Link { vertex_shader, fragment_shader, destroy_shaders: true },
                Some(result) => ShaderAction::Finished { result },
            },
        },
    }
}

impl ShaderProgramBuild {
    /// A build with nothing done yet.
    pub fn new() -> (r: ShaderProgramBuild)
        ensures
            r.vertex_shader is None,
            r.fragment_shader is None,
            r.program is None,
    {
        ShaderProgramBuild { vertex_shader: None, fragment_shader: None, program: None }
    }
}

/// Decides the next stage of building a program from a vertex and a fragment
/// shader, given what has been done so far.
pub fn create_shader_program(build: &ShaderProgramBuild) -> (r: ShaderAction)
    ensures
        r == shader_program_step(*build),
{
    match build.vertex_shader {
        None => ShaderAction::Compile { shader_type: ShaderType::VertexShader },
        Some(Err(e)) => ShaderAction::Finished { result: Err(e) },
        Some(Ok(vertex_shader)) => match build.fragment_shader {
            None => ShaderAction::Compile { shader_type: ShaderType::FragmentShader },
            Some(Err(e)) => ShaderAction::Finished { result: Err(e) },
            Some(Ok(fragment_shader)) => match build.program {
                None => ShaderAction::Link { vertex_shader, fragment_shader, destroy_shaders: true },
                Some(result) => ShaderAction::Finished { result },
            },
        },
    }
}

} // verus!
