//! GPU pipeline resource lifecycle.
//!
//! The graphics context itself lives outside the library; these types pin
//! down the ordering and ownership rules of the handles it yields.  A
//! `ShaderBuild` collects compiled stages and is consumed by the link, so no
//! stage can attach afterwards and the stale stage handles are handed out
//! exactly once for detaching and release.  A `GpuPipeline` owns the linked
//! program, the vertex buffer and the vertex array; `destroy` consumes it
//! and surrenders the handles, so a second release — or any use after the
//! release — does not type-check.

use vstd::prelude::*;

verus! {

/// The resolved locations of the uniforms the renderer writes each frame:
/// the elapsed time, the view matrix, the eye position, the fixed
/// projection, and the wave parameter arrays with their count.  A uniform
/// the shader does not expose resolves to `None`, and updates to it are
/// silently skipped rather than an error.
pub struct UniformLocations {
    pub time: Option<u32>,
    pub camera: Option<u32>,
    pub camera_pos: Option<u32>,
    pub perspective: Option<u32>,
    pub num_params: Option<u32>,
    pub a: Option<u32>,
    pub b: Option<u32>,
    pub c: Option<u32>,
    pub d: Option<u32>,
}

/// A fatal GPU setup fault, carrying the driver's diagnostic log verbatim.
#[derive(Debug, PartialEq, Eq)]
pub enum ShaderError {
    Compile(String),
    Link(String),
}

/// A shader program being assembled: the program handle and the stage
/// handles attached so far.  Only the link consumes it.
pub struct ShaderBuild {
    pub program: u32,
    pub attached: Vec<u32>,
}

impl ShaderBuild {
    /// The stage handles attached so far.
    pub open spec fn attached_view(self) -> Seq<u32> {
        self.attached@
    }

    /// Start assembling a program.
    pub fn begin(program: u32) -> (b: ShaderBuild)
        ensures
            b.program == program,
            b.attached_view() == Seq::<u32>::empty(),
    {
        ShaderBuild { program, attached: Vec::new() }
    }

    /// Record one compiled stage: accepted exactly when the driver reported
    /// a successful compile; a failed compile surfaces the diagnostic as the
    /// compile fault and attaches nothing.
    pub fn attach(&mut self, shader: u32, compile_ok: bool, log: String) -> (r: Result<
        (),
        ShaderError,
    >)
        ensures
            final(self).program == old(self).program,
            compile_ok ==> r is Ok && final(self).attached_view()
                == old(self).attached_view().push(shader),
            !compile_ok ==> r == Err::<(), ShaderError>(ShaderError::Compile(log))
                && final(self).attached_view() == old(self).attached_view(),
    {
        if compile_ok {
            self.attached.push(shader);
            Ok(())
        } else {
            Err(ShaderError::Compile(log))
        }
    }

    /// Conclude the link, consuming the build: on a successful link the
    /// stage handles come back, exactly once, to be detached and released;
    /// a failed link surfaces the diagnostic as the link fault.
    pub fn link(self, link_ok: bool, log: String) -> (r: Result<(u32, Vec<u32>), ShaderError>)
        ensures
            link_ok ==> (r matches Ok(ok) && ok.0 == self.program && ok.1@ == self.attached_view()),
            !link_ok ==> r == Err::<(u32, Vec<u32>), ShaderError>(ShaderError::Link(log)),
    {
        if link_ok {
            Ok((self.program, self.attached))
        } else {
            Err(ShaderError::Link(log))
        }
    }
}

/// The linked, uploaded pipeline: the program, the vertex buffer and vertex
/// array holding the grid, and the resolved uniform slots.
pub struct GpuPipeline {
    pub program: u32,
    pub vbo: u32,
    pub vao: u32,
    pub uniforms: UniformLocations,
}

impl GpuPipeline {
    /// Assemble the pipeline from the handles the context created.
    pub fn assemble(program: u32, vbo: u32, vao: u32, uniforms: UniformLocations) -> (p:
        GpuPipeline)
        ensures
            p.program == program && p.vbo == vbo && p.vao == vao && p.uniforms == uniforms,
    {
        GpuPipeline { program, vbo, vao, uniforms }
    }

    /// Tear the pipeline down: consumes it and surrenders the program,
    /// vertex-array and buffer handles for release, in that order.  Because
    /// the pipeline is consumed, a second release — and any draw after the
    /// release — is unreachable at the type level.
    pub fn destroy(self) -> (handles: (u32, u32, u32))
        ensures
            handles.0 == self.program && handles.1 == self.vao && handles.2 == self.vbo,
    {
        (self.program, self.vao, self.vbo)
    }
}

} // verus!
