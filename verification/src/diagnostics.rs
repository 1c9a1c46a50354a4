//! Fatal failures of the viewer and the diagnostic that each one ends the
//! program with. There is no recovery from any of them.

use vstd::prelude::*;
use vstd::string::StringExecFns;

verus! {

/// A kind of object that the graphics API creates on request.
#[derive(Clone, Copy, Debug, PartialEq, Eq, Structural)]
pub enum GpuObject {
    Shader,
    Program,
    VertexArray,
    Buffer,
    Texture,
}

impl GpuObject {
    /// The object's kind in words.
    pub open spec fn label(self) -> Seq<char> {
        match self {
            GpuObject::Shader => "shader"@,
            GpuObject::Program => "program"@,
            GpuObject::VertexArray => "vertex array"@,
            GpuObject::Buffer => "buffer"@,
            GpuObject::Texture => "texture"@,
        }
    }

    pub fn name(self) -> (name: &'static str)
        ensures
            name@ == self.label(),
    {
        match self {
            GpuObject::Shader => "shader",
            GpuObject::Program => "program",
            GpuObject::VertexArray => "vertex array",
            GpuObject::Buffer => "buffer",
            GpuObject::Texture => "texture",
        }
    }
}

/// Why the viewer cannot go on.
#[derive(Debug, PartialEq, Eq)]
pub enum Failure {
    /// A shader source file could not be read.
    ShaderFile { path: String },
    /// A mesh file is missing or cannot be parsed or assembled.
    MeshFile { path: String },
    /// An image file is missing or cannot be decoded.
    ImageFile { path: String },
    /// The shader compiler rejected a stage; `log` is what it reported.
    ShaderCompile { log: String },
    /// The linker rejected the program; `log` is what it reported.
    ProgramLink { log: String },
    /// The graphics API could not create an object; `reason` is what it reported.
    CreateObject { object: GpuObject, reason: String },
    /// The finished frame could not be presented; `reason` is what the
    /// platform reported.
    Present { reason: String },
}

impl Failure {
    /// The diagnostic: what failed, followed by the offending path or by the
    /// compiler's or linker's log, unchanged.
    pub open spec fn text(&self) -> Seq<char> {
        match self {
            Failure::ShaderFile { path } => "Failed to read shader file: "@ + path@,
            Failure::MeshFile { path } => "Failed to load OBJ file: "@ + path@,
            Failure::ImageFile { path } => "Failed to load image file: "@ + path@,
            Failure::ShaderCompile { log } => "Failed to compile shader: "@ + log@,
            Failure::ProgramLink { log } => "Failed to link program: "@ + log@,
            Failure::CreateObject { object, reason } => "Cannot create "@ + object.label() + ": "@
                + reason@,
            Failure::Present { reason } => "Failed to present the frame: "@ + reason@,
        }
    }

    pub fn message(&self) -> (message: String)
        ensures
            message@ == self.text(),
    {
        match self {
            Failure::ShaderFile { path } => String::from_str("Failed to read shader file: ").concat(
                path.as_str(),
            ),
            Failure::MeshFile { path } => String::from_str("Failed to load OBJ file: ").concat(
                path.as_str(),
            ),
            Failure::ImageFile { path } => String::from_str("Failed to load image file: ").concat(
                path.as_str(),
            ),
            Failure::ShaderCompile { log } => String::from_str("Failed to compile shader: ").concat(
                log.as_str(),
            ),
            Failure::ProgramLink { log } => String::from_str("Failed to link program: ").concat(
                log.as_str(),
            ),
            Failure::CreateObject { object, reason } => String::from_str("Cannot create ").concat(
                object.name(),
            ).concat(": ").concat(reason.as_str()),
            Failure::Present { reason } => String::from_str("Failed to present the frame: ").concat(
                reason.as_str(),
            ),
        }
    }
}

/// The outcome of asking the graphics API for an object: the object, or a
/// failure that names its kind and carries the reported reason.
pub fn creation_outcome<T>(object: GpuObject, created: Result<T, String>) -> (outcome: Result<
    T,
    Failure,
>)
    ensures
        match created {
            Ok(handle) => outcome == Ok::<T, Failure>(handle),
            Err(reason) => outcome == Err::<T, Failure>(Failure::CreateObject { object, reason }),
        },
{
    match created {
        Ok(handle) => Ok(handle),
        Err(reason) => Err(Failure::CreateObject { object, reason }),
    }
}

/// The outcome of compiling one shader stage: a failure that carries the
/// compiler's log exactly when the stage did not compile.
pub fn compile_outcome(compiled: bool, log: String) -> (outcome: Result<(), Failure>)
    ensures
        compiled ==> outcome.is_ok(),
        !compiled ==> outcome == Err::<(), Failure>(Failure::ShaderCompile { log }),
{
    if compiled {
        Ok(())
    } else {
        Err(Failure::ShaderCompile { log })
    }
}

/// The outcome of linking the program: a failure that carries the linker's
/// log exactly when the program did not link.
pub fn link_outcome(linked: bool, log: String) -> (outcome: Result<(), Failure>)
    ensures
        linked ==> outcome.is_ok(),
        !linked ==> outcome == Err::<(), Failure>(Failure::ProgramLink { log }),
{
    if linked {
        Ok(())
    } else {
        Err(Failure::ProgramLink { log })
    }
}

} // verus!
