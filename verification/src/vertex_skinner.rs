//! The stage that skins vertices.
//!
//! Four storage buffers: the indices in slot 0, the vertices in slot 1, the
//! triangles in slot 2, the model and bone transforms in slot 3. Eight bytes
//! of push constants, two 32-bit values, come with every dispatch.

use vstd::prelude::*;
use crate::builder::{BuilderView, StageBuilder};
use crate::declaration::{
    BindingDeclaration,
    BindingEntry,
    DeclarationView,
    PushConstantRange,
    ResourceKind,
};
use crate::error::{Mismatch, StageError};
use crate::shader::ShaderBinary;
use crate::stage::{BufferHandle, ComputeStage, DescriptorWrite, DispatchCommand, StageView};

verus! {

/// The number of push-constant bytes that a dispatch of the stage takes.
pub const PUSH_CONSTANT_BYTES: u32 = 8;

/// A built vertex-skinning stage.
#[derive(Debug)]
pub struct VertexSkinner {
    stage: ComputeStage,
}

impl View for VertexSkinner {
    type V = StageView;

    closed spec fn view(&self) -> StageView {
        self.stage@
    }
}

impl VertexSkinner {
    /// The stage is well formed and was built for this stage's declaration.
    #[verifier::type_invariant]
    pub open spec fn wf(&self) -> bool {
        &&& self@.wf()
        &&& self@.declaration == Self::declaration_spec()
    }

    /// What the stage's program expects to find bound and pushed.
    pub open spec fn declaration_spec() -> DeclarationView {
        DeclarationView {
            entries: seq![
                BindingEntry { slot: 0, kind: ResourceKind::StorageBuffer },
                BindingEntry { slot: 1, kind: ResourceKind::StorageBuffer },
                BindingEntry { slot: 2, kind: ResourceKind::StorageBuffer },
                BindingEntry { slot: 3, kind: ResourceKind::StorageBuffer },
            ],
            push_constants: Some(PushConstantRange { offset: 0, len: PUSH_CONSTANT_BYTES }),
        }
    }

    /// The buffers of a bind, in slot order.
    pub open spec fn buffers_spec(
        model_buffer: BufferHandle,
        vertex_buffer: BufferHandle,
        triangle_buffer: BufferHandle,
        index_buffer: BufferHandle,
    ) -> Seq<BufferHandle> {
        seq![index_buffer, vertex_buffer, triangle_buffer, model_buffer]
    }

    /// What the stage's program expects to find bound and pushed.
    pub fn declaration() -> (declaration: BindingDeclaration)
        ensures
            declaration@ == Self::declaration_spec(),
    {
        let mut entries: Vec<BindingEntry> = Vec::new();
        entries.push(BindingEntry { slot: 0, kind: ResourceKind::StorageBuffer });
        entries.push(BindingEntry { slot: 1, kind: ResourceKind::StorageBuffer });
        entries.push(BindingEntry { slot: 2, kind: ResourceKind::StorageBuffer });
        entries.push(BindingEntry { slot: 3, kind: ResourceKind::StorageBuffer });
        assert(entries@ =~= Self::declaration_spec().entries);
        let range = PushConstantRange { offset: 0, len: PUSH_CONSTANT_BYTES };
        BindingDeclaration::new(entries, Some(range)).unwrap()
    }

    /// Starts the build of the stage from its compiled program.
    pub fn builder(binary: ShaderBinary) -> (builder: StageBuilder)
        ensures
            builder@ == BuilderView::start(binary@, Self::declaration_spec()),
    {
        StageBuilder::new(binary, Self::declaration()).unwrap()
    }

    /// Takes a stage that the builder completed. A stage that was built for
    /// another declaration is refused.
    pub fn new(stage: ComputeStage) -> (made: Result<VertexSkinner, StageError>)
        ensures
            match made {
                Ok(skinner) => {
                    &&& stage@.declaration == Self::declaration_spec()
                    &&& skinner@ == stage@
                },
                Err(e) => {
                    &&& stage@.declaration != Self::declaration_spec()
                    &&& e == StageError::BindingMismatchError { mismatch: Mismatch::Layout }
                },
            },
    {
        let expected = Self::declaration();
        if stage.declaration().same_as(&expected) {
            Ok(VertexSkinner { stage })
        } else {
            Err(StageError::BindingMismatchError { mismatch: Mismatch::Layout })
        }
    }

    /// The stage as the generic stage that it is.
    pub fn stage(&self) -> (stage: &ComputeStage)
        ensures
            stage@ == self@,
            self.wf(),
    {
        proof {
            use_type_invariant(self);
        }
        &self.stage
    }

    /// Computes the batch of writes that binds the four buffers: indices to
    /// slot 0, vertices to slot 1, triangles to slot 2, transforms to slot 3.
    /// Each has to be a storage buffer.
    pub fn write_desc_set(
        &self,
        model_buffer: BufferHandle,
        vertex_buffer: BufferHandle,
        triangle_buffer: BufferHandle,
        index_buffer: BufferHandle,
    ) -> (batch: Result<Vec<DescriptorWrite>, StageError>)
        ensures
            match (
                batch,
                self@.prepare_bind(
                    Self::buffers_spec(model_buffer, vertex_buffer, triangle_buffer, index_buffer),
                ),
            ) {
                (Ok(writes), Ok(expected)) => writes@ == expected,
                (Err(e), Err(x)) => e == x,
                _ => false,
            },
    {
        let buffers = Self::buffers(model_buffer, vertex_buffer, triangle_buffer, index_buffer);
        self.stage.prepare_bind(&buffers)
    }

    /// Records how the bind of the four buffers ended: `written` says whether
    /// the device took the batch.
    pub fn complete_bind(
        &mut self,
        model_buffer: BufferHandle,
        vertex_buffer: BufferHandle,
        triangle_buffer: BufferHandle,
        index_buffer: BufferHandle,
        written: bool,
    ) -> (done: Result<(), StageError>)
        ensures
            done == old(self)@.bind_result(
                Self::buffers_spec(model_buffer, vertex_buffer, triangle_buffer, index_buffer),
                written,
            ),
            final(self)@ == old(self)@.after_bind(
                Self::buffers_spec(model_buffer, vertex_buffer, triangle_buffer, index_buffer),
                written,
            ),
    {
        let buffers = Self::buffers(model_buffer, vertex_buffer, triangle_buffer, index_buffer);
        let verdict = self.stage.bind_verdict(&buffers, written);
        if verdict.is_ok() {
            proof {
                use_type_invariant(&*self);
            }
            self.stage.set_bound(buffers);
        }
        verdict
    }

    /// Checks a dispatch and hands back the command to record. The payload
    /// has to be exactly `PUSH_CONSTANT_BYTES` long, and the stage bound.
    pub fn record_dispatch(&self, workgroups: [u32; 3], push_constants: Vec<u8>) -> (command: Result<
        DispatchCommand,
        StageError,
    >)
        ensures
            command is Ok <==> self@.dispatch_ready() && push_constants@.len()
                == PUSH_CONSTANT_BYTES,
            match (command, self@.check_dispatch(push_constants@)) {
                (Ok(c), Ok(_)) => {
                    &&& c.bundle == self@.bundle()
                    &&& c.workgroups == workgroups
                    &&& c.push_constants@ == push_constants@
                },
                (Err(e), Err(x)) => e == x,
                _ => false,
            },
    {
        proof {
            use_type_invariant(self);
        }
        self.stage.record_dispatch(workgroups, push_constants)
    }

    fn buffers(
        model_buffer: BufferHandle,
        vertex_buffer: BufferHandle,
        triangle_buffer: BufferHandle,
        index_buffer: BufferHandle,
    ) -> (buffers: Vec<BufferHandle>)
        ensures
            buffers@ == Self::buffers_spec(
                model_buffer,
                vertex_buffer,
                triangle_buffer,
                index_buffer,
            ),
    {
        let mut buffers: Vec<BufferHandle> = Vec::new();
        buffers.push(index_buffer);
        buffers.push(vertex_buffer);
        buffers.push(triangle_buffer);
        buffers.push(model_buffer);
        assert(buffers@ =~= Self::buffers_spec(
            model_buffer,
            vertex_buffer,
            triangle_buffer,
            index_buffer,
        ));
        buffers
    }

    /// Gives the stage up as the generic stage that it is.
    pub fn into_stage(self) -> (stage: ComputeStage)
        ensures
            stage@ == self@,
    {
        self.stage
    }
}

/// A dispatch of the vertex-skinning stage goes through with eight bytes of
/// push constants and with no other number: a bound stage refuses every
/// other payload as a mismatch of its length, before the device sees it.
pub proof fn lemma_push_constants_exactly_eight(stage: StageView, payload: Seq<u8>)
    requires
        stage.declaration == VertexSkinner::declaration_spec(),
    ensures
        stage.check_dispatch(payload) is Ok <==> stage.dispatch_ready() && payload.len() == 8,
        stage.dispatch_ready() && payload.len() != 8 ==> stage.check_dispatch(payload) == Err::<
            (),
            StageError,
        >(
            StageError::BindingMismatchError {
                mismatch: Mismatch::PushConstantLength {
                    expected: 8,
                    found: payload.len() as usize,
                },
            },
        ),
{
}

} // verus!
