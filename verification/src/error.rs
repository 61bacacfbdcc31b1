//! The errors a stage can report.

use vstd::prelude::*;

verus! {

/// A device object that belongs to a stage and that the device may refuse to create.
#[derive(Clone, Copy, Debug, PartialEq, Eq, Structural)]
pub enum StageResource {
    ShaderModule,
    SetLayout,
    Pool,
    PipelineLayout,
    Pipeline,
}

/// How a bind or dispatch call disagrees with the stage's declaration.
#[derive(Clone, Copy, Debug, PartialEq, Eq, Structural)]
pub enum Mismatch {
    /// The number of buffers differs from the number of declared slots.
    BufferCount { slots: usize, buffers: usize },
    /// The buffer offered for `slot` is not of the kind declared for it.
    BufferKind { slot: u32 },
    /// The push-constant payload does not have the declared length in bytes.
    PushConstantLength { expected: u32, found: usize },
    /// The stage was built for another binding declaration.
    Layout,
}

/// Why a stage could not be built, bound or dispatched.
#[derive(Clone, Copy, Debug, PartialEq, Eq, Structural)]
pub enum StageError {
    /// Shader source text did not compile to the binary form.
    ShaderCompileError,
    /// The device refused to create `resource`, or the shader binary cannot be
    /// handed to it at all.
    ResourceCreationError { resource: StageResource },
    /// Buffers or push constants disagree with the declaration.
    BindingMismatchError { mismatch: Mismatch },
    /// The pool cannot provide the descriptor set that the layout asks for.
    AllocationExhausted,
    /// A dispatch was asked of a stage whose descriptor set was never written.
    NotBound,
    /// The device refused the batched descriptor write.
    WriteRejected,
}

} // verus!
