//! The stage that generates camera rays.
//!
//! A uniform buffer with the camera's parameters in slot 0, read on every
//! dispatch, and a storage buffer in slot 1 that the program fills with one
//! ray, origin and direction, per element. No push constants.

use vstd::prelude::*;
use crate::builder::{BuilderView, StageBuilder};
use crate::declaration::{BindingDeclaration, BindingEntry, DeclarationView, ResourceKind};
use crate::error::{Mismatch, StageError};
use crate::shader::ShaderBinary;
use crate::stage::{BufferHandle, ComputeStage, DescriptorWrite, DispatchCommand, StageView};

verus! {

/// The file in `SHADER_DIR` that holds the stage's source text.
pub const SHADER_FILE: &'static str = "camera_rays.comp";

/// A built camera-ray stage.
#[derive(Debug)]
pub struct CameraRays {
    stage: ComputeStage,
}

impl View for CameraRays {
    type V = StageView;

    closed spec fn view(&self) -> StageView {
        self.stage@
    }
}

impl CameraRays {
    /// The stage is well formed and was built for this stage's declaration.
    #[verifier::type_invariant]
    pub open spec fn wf(&self) -> bool {
        &&& self@.wf()
        &&& self@.declaration == Self::declaration_spec()
    }

    /// What the stage's program expects to find bound.
    pub open spec fn declaration_spec() -> DeclarationView {
        DeclarationView {
            entries: seq![
                BindingEntry { slot: 0, kind: ResourceKind::UniformBuffer },
                BindingEntry { slot: 1, kind: ResourceKind::StorageBuffer },
            ],
            push_constants: None,
        }
    }

    /// The buffers of a bind, in slot order.
    pub open spec fn buffers_spec(camera_buffer: BufferHandle, ray_buffer: BufferHandle) -> Seq<
        BufferHandle,
    > {
        seq![camera_buffer, ray_buffer]
    }

    /// What the stage's program expects to find bound.
    pub fn declaration() -> (declaration: BindingDeclaration)
        ensures
            declaration@ == Self::declaration_spec(),
    {
        let mut entries: Vec<BindingEntry> = Vec::new();
        entries.push(BindingEntry { slot: 0, kind: ResourceKind::UniformBuffer });
        entries.push(BindingEntry { slot: 1, kind: ResourceKind::StorageBuffer });
        assert(entries@ =~= Self::declaration_spec().entries);
        BindingDeclaration::new(entries, None).unwrap()
    }

    /// Starts the build of the stage from its compiled program.
    pub fn builder(binary: ShaderBinary) -> (builder: StageBuilder)
        ensures
            builder@ == BuilderView::start(binary@, Self::declaration_spec()),
    {
        StageBuilder::new(binary, Self::declaration()).unwrap()
    }

    /// Takes a stage that the builder completed. A stage that was built for
    /// another declaration is refused.
    pub fn new(stage: ComputeStage) -> (made: Result<CameraRays, StageError>)
        ensures
            match made {
                Ok(camera_rays) => {
                    &&& stage@.declaration == Self::declaration_spec()
                    &&& camera_rays@ == stage@
                },
                Err(e) => {
                    &&& stage@.declaration != Self::declaration_spec()
                    &&& e == StageError::BindingMismatchError { mismatch: Mismatch::Layout }
                },
            },
    {
        let expected = Self::declaration();
        if stage.declaration().same_as(&expected) {
            Ok(CameraRays { stage })
        } else {
            Err(StageError::BindingMismatchError { mismatch: Mismatch::Layout })
        }
    }

    /// The stage as the generic stage that it is.
    pub fn stage(&self) -> (stage: &ComputeStage)
        ensures
            stage@ == self@,
            self.wf(),
    {
        proof {
            use_type_invariant(self);
        }
        &self.stage
    }

    /// Computes the batch of writes that binds the two buffers: the camera's
    /// parameters, a uniform buffer, to slot 0, and the rays, a storage
    /// buffer, to slot 1.
    pub fn write_desc_set(&self, camera_buffer: BufferHandle, ray_buffer: BufferHandle) -> (batch:
        Result<Vec<DescriptorWrite>, StageError>)
        ensures
            match (batch, self@.prepare_bind(Self::buffers_spec(camera_buffer, ray_buffer))) {
                (Ok(writes), Ok(expected)) => writes@ == expected,
                (Err(e), Err(x)) => e == x,
                _ => false,
            },
    {
        let buffers = Self::buffers(camera_buffer, ray_buffer);
        self.stage.prepare_bind(&buffers)
    }

    /// Records how the bind of the two buffers ended: `written` says whether
    /// the device took the batch.
    pub fn complete_bind(
        &mut self,
        camera_buffer: BufferHandle,
        ray_buffer: BufferHandle,
        written: bool,
    ) -> (done: Result<(), StageError>)
        ensures
            done == old(self)@.bind_result(Self::buffers_spec(camera_buffer, ray_buffer), written),
            final(self)@ == old(self)@.after_bind(
                Self::buffers_spec(camera_buffer, ray_buffer),
                written,
            ),
    {
        let buffers = Self::buffers(camera_buffer, ray_buffer);
        let verdict = self.stage.bind_verdict(&buffers, written);
        if verdict.is_ok() {
            proof {
                use_type_invariant(&*self);
            }
            self.stage.set_bound(buffers);
        }
        verdict
    }

    fn buffers(camera_buffer: BufferHandle, ray_buffer: BufferHandle) -> (buffers: Vec<BufferHandle>)
        ensures
            buffers@ == Self::buffers_spec(camera_buffer, ray_buffer),
    {
        let mut buffers: Vec<BufferHandle> = Vec::new();
        buffers.push(camera_buffer);
        buffers.push(ray_buffer);
        assert(buffers@ =~= Self::buffers_spec(camera_buffer, ray_buffer));
        buffers
    }

    /// Checks a dispatch of `workgroups` work groups and hands back the
    /// command to record. The stage takes no push constants, so the command
    /// carries none. A stage that was never bound is refused.
    pub fn record_dispatch(&self, workgroups: [u32; 3]) -> (command: Result<
        DispatchCommand,
        StageError,
    >)
        ensures
            match command {
                Ok(c) => {
                    &&& self@.dispatch_ready()
                    &&& c.bundle == self@.bundle()
                    &&& c.workgroups == workgroups
                    &&& c.push_constants@ == Seq::<u8>::empty()
                },
                Err(e) => !self@.dispatch_ready() && e == StageError::NotBound,
            },
    {
        proof {
            use_type_invariant(self);
        }
        self.stage.record_dispatch(workgroups, Vec::new())
    }

    /// Gives the stage up as the generic stage that it is.
    pub fn into_stage(self) -> (stage: ComputeStage)
        ensures
            stage@ == self@,
    {
        self.stage
    }
}

} // verus!
