use vstd::prelude::*;
use vstd::string::StringExecFns;

verus! {

/// The graphics objects whose creation can fail.
#[derive(Copy, Clone, PartialEq, Eq, Structural, Debug)]
pub enum Resource {
    /// A shader program object.
    Program,
    /// A shader stage object, before it is compiled.
    Shader,
    /// A shader stage, at compilation.
    CompiledShader,
    /// A vertex array object.
    VertexArray,
    /// A vertex buffer object.
    Buffer,
}

/// A failure to create a graphics object, with the diagnostic that the
/// graphics context gave.
#[derive(Debug)]
pub struct ResourceCreationError {
    pub resource: Resource,
    pub diagnostic: String,
}

impl Resource {
    /// The words that open the message of a failure on this object.
    pub open spec fn heading(self) -> Seq<char> {
        match self {
            Resource::Program => "Failed to create program: "@,
            Resource::Shader => "Failed to create shader: "@,
            Resource::CompiledShader => "Failed to compile shader: "@,
            Resource::VertexArray => "Failed to create vertex array: "@,
            Resource::Buffer => "Failed to create buffer object: "@,
        }
    }
}

impl ResourceCreationError {
    /// The message of the failure: the heading of its object, then the
    /// diagnostic as it was given.
    pub open spec fn text(self) -> Seq<char> {
        self.resource.heading() + self.diagnostic@
    }

    /// The message of the failure.
    pub fn message(&self) -> (s: String)
        ensures
            s@ == self.text(),
    {
        let heading = match self.resource {
            Resource::Program => "Failed to create program: ",
            Resource::Shader => "Failed to create shader: ",
            Resource::CompiledShader => "Failed to compile shader: ",
            Resource::VertexArray => "Failed to create vertex array: ",
            Resource::Buffer => "Failed to create buffer object: ",
        };
        String::from_str(heading).concat(self.diagnostic.as_str())
    }
}

/// What a shader stage's compilation comes to: success when the stage
/// reports that it compiled, else a failure that carries its information log.
pub fn compileOutcome(compiled: bool, infoLog: String) -> (r: Result<(), ResourceCreationError>)
    ensures
        compiled ==> r is Ok,
        !compiled ==> r == Err::<(), ResourceCreationError>(
            (ResourceCreationError { resource: Resource::CompiledShader, diagnostic: infoLog }),
        ),
{
    if compiled {
        Ok(())
    } else {
        Err(ResourceCreationError { resource: Resource::CompiledShader, diagnostic: infoLog })
    }
}

} // verus!
