//! The stage that intersects rays with triangles.
//!
//! Four storage buffers: the rays to trace in slot 0, the triangles in slot
//! 1, the intersections found in slot 2, the bounding boxes that speed the
//! search up in slot 3. No push constants.

use vstd::prelude::*;
use crate::builder::{BuilderView, StageBuilder};
use crate::declaration::{BindingDeclaration, BindingEntry, DeclarationView, ResourceKind};
use crate::error::{Mismatch, StageError};
use crate::shader::ShaderBinary;
use crate::stage::{BufferHandle, ComputeStage, DescriptorWrite, DispatchCommand, StageView};

verus! {

/// The file in `SHADER_DIR` that holds the stage's source text.
pub const SHADER_FILE: &'static str = "triangle_intersection.comp";

/// A built ray/triangle intersection stage.
#[derive(Debug)]
pub struct RayTriangleIntersector {
    stage: ComputeStage,
}

impl View for RayTriangleIntersector {
    type V = StageView;

    closed spec fn view(&self) -> StageView {
        self.stage@
    }
}

impl RayTriangleIntersector {
    /// The stage is well formed and was built for this stage's declaration.
    #[verifier::type_invariant]
    pub open spec fn wf(&self) -> bool {
        &&& self@.wf()
        &&& self@.declaration == Self::declaration_spec()
    }

    /// What the stage's program expects to find bound.
    pub open spec fn declaration_spec() -> DeclarationView {
        DeclarationView {
            entries: seq![
                BindingEntry { slot: 0, kind: ResourceKind::StorageBuffer },
                BindingEntry { slot: 1, kind: ResourceKind::StorageBuffer },
                BindingEntry { slot: 2, kind: ResourceKind::StorageBuffer },
                BindingEntry { slot: 3, kind: ResourceKind::StorageBuffer },
            ],
            push_constants: None,
        }
    }

    /// The buffers of a bind, in slot order.
    pub open spec fn buffers_spec(
        ray_buffer: BufferHandle,
        triangle_buffer: BufferHandle,
        intersection_buffer: BufferHandle,
        aabb_buffer: BufferHandle,
    ) -> Seq<BufferHandle> {
        seq![ray_buffer, triangle_buffer, intersection_buffer, aabb_buffer]
    }

    /// What the stage's program expects to find bound.
    pub fn declaration() -> (declaration: BindingDeclaration)
        ensures
            declaration@ == Self::declaration_spec(),
    {
        let mut entries: Vec<BindingEntry> = Vec::new();
        entries.push(BindingEntry { slot: 0, kind: ResourceKind::StorageBuffer });
        entries.push(BindingEntry { slot: 1, kind: ResourceKind::StorageBuffer });
        entries.push(BindingEntry { slot: 2, kind: ResourceKind::StorageBuffer });
        entries.push(BindingEntry { slot: 3, kind: ResourceKind::StorageBuffer });
        assert(entries@ =~= Self::declaration_spec().entries);
        BindingDeclaration::new(entries, None).unwrap()
    }

    /// Starts the build of the stage from its compiled program.
    pub fn builder(binary: ShaderBinary) -> (builder: StageBuilder)
        ensures
            builder@ == BuilderView::start(binary@, Self::declaration_spec()),
    {
        StageBuilder::new(binary, Self::declaration()).unwrap()
    }

    /// Takes a stage that the builder completed. A stage that was built for
    /// another declaration is refused.
    pub fn new(stage: ComputeStage) -> (made: Result<RayTriangleIntersector, StageError>)
        ensures
            match made {
                Ok(intersector) => {
                    &&& stage@.declaration == Self::declaration_spec()
                    &&& intersector@ == stage@
                },
                Err(e) => {
                    &&& stage@.declaration != Self::declaration_spec()
                    &&& e == StageError::BindingMismatchError { mismatch: Mismatch::Layout }
                },
            },
    {
        let expected = Self::declaration();
        if stage.declaration().same_as(&expected) {
            Ok(RayTriangleIntersector { stage })
        } else {
            Err(StageError::BindingMismatchError { mismatch: Mismatch::Layout })
        }
    }

    /// The stage as the generic stage that it is.
    pub fn stage(&self) -> (stage: &ComputeStage)
        ensures
            stage@ == self@,
            self.wf(),
    {
        proof {
            use_type_invariant(self);
        }
        &self.stage
    }

    /// Computes the batch of writes that binds the four buffers: rays to
    /// slot 0, triangles to slot 1, intersections to slot 2, bounding boxes to
    /// slot 3. Each has to be a storage buffer.
    pub fn write_desc_set(
        &self,
        ray_buffer: BufferHandle,
        triangle_buffer: BufferHandle,
        intersection_buffer: BufferHandle,
        aabb_buffer: BufferHandle,
    ) -> (batch: Result<Vec<DescriptorWrite>, StageError>)
        ensures
            match (
                batch,
                self@.prepare_bind(
                    Self::buffers_spec(ray_buffer, triangle_buffer, intersection_buffer, aabb_buffer),
                ),
            ) {
                (Ok(writes), Ok(expected)) => writes@ == expected,
                (Err(e), Err(x)) => e == x,
                _ => false,
            },
    {
        let buffers = Self::buffers(ray_buffer, triangle_buffer, intersection_buffer, aabb_buffer);
        self.stage.prepare_bind(&buffers)
    }

    /// Records how the bind of the four buffers ended: `written` says whether
    /// the device took the batch.
    pub fn complete_bind(
        &mut self,
        ray_buffer: BufferHandle,
        triangle_buffer: BufferHandle,
        intersection_buffer: BufferHandle,
        aabb_buffer: BufferHandle,
        written: bool,
    ) -> (done: Result<(), StageError>)
        ensures
            done == old(self)@.bind_result(
                Self::buffers_spec(ray_buffer, triangle_buffer, intersection_buffer, aabb_buffer),
                written,
            ),
            final(self)@ == old(self)@.after_bind(
                Self::buffers_spec(ray_buffer, triangle_buffer, intersection_buffer, aabb_buffer),
                written,
            ),
    {
        let buffers = Self::buffers(ray_buffer, triangle_buffer, intersection_buffer, aabb_buffer);
        let verdict = self.stage.bind_verdict(&buffers, written);
        if verdict.is_ok() {
            proof {
                use_type_invariant(&*self);
            }
            self.stage.set_bound(buffers);
        }
        verdict
    }

    fn buffers(
        ray_buffer: BufferHandle,
        triangle_buffer: BufferHandle,
        intersection_buffer: BufferHandle,
        aabb_buffer: BufferHandle,
    ) -> (buffers: Vec<BufferHandle>)
        ensures
            buffers@ == Self::buffers_spec(
                ray_buffer,
                triangle_buffer,
                intersection_buffer,
                aabb_buffer,
            ),
    {
        let mut buffers: Vec<BufferHandle> = Vec::new();
        buffers.push(ray_buffer);
        buffers.push(triangle_buffer);
        buffers.push(intersection_buffer);
        buffers.push(aabb_buffer);
        assert(buffers@ =~= Self::buffers_spec(
            ray_buffer,
            triangle_buffer,
            intersection_buffer,
            aabb_buffer,
        ));
        buffers
    }

    /// Checks a dispatch of `workgroups` work groups and hands back the
    /// command to record. The stage takes no push constants, so the command
    /// carries none. A stage that was never bound is refused.
    pub fn record_dispatch(&self, workgroups: [u32; 3]) -> (command: Result<
        DispatchCommand,
        StageError,
    >)
        ensures
            match command {
                Ok(c) => {
                    &&& self@.dispatch_ready()
                    &&& c.bundle == self@.bundle()
                    &&& c.workgroups == workgroups
                    &&& c.push_constants@ == Seq::<u8>::empty()
                },
                Err(e) => !self@.dispatch_ready() && e == StageError::NotBound,
            },
    {
        proof {
            use_type_invariant(self);
        }
        self.stage.record_dispatch(workgroups, Vec::new())
    }

    /// Gives the stage up as the generic stage that it is.
    pub fn into_stage(self) -> (stage: ComputeStage)
        ensures
            stage@ == self@,
    {
        self.stage
    }
}

} // verus!
