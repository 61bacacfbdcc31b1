//! A built compute stage: binding its descriptor set and dispatching it.
//!
//! A stage comes out of the builder with every device object in place and a
//! descriptor set that refers to no buffer yet. Binding writes every declared
//! slot in one batch; only after a batch went through may the stage be
//! dispatched. Binding again, with the same or with other buffers, is always
//! in order.

use vstd::prelude::*;
use crate::declaration::{
    count_kind,
    BindingDeclaration,
    BindingEntry,
    DeclarationView,
    ResourceKind,
};
use crate::error::{Mismatch, StageError};
use crate::pool::{lemma_counts_add_up, lemma_sizing_exact, sizing_of, PoolSizing};

verus! {

/// The caller's name for a device object.
#[derive(Clone, Copy, Debug, PartialEq, Eq, Structural)]
pub struct Handle {
    pub id: u64,
}

/// The caller's name for a buffer, and the kind of descriptor it can back.
#[derive(Clone, Copy, Debug, PartialEq, Eq, Structural)]
pub struct BufferHandle {
    pub id: u64,
    pub kind: ResourceKind,
}

/// One entry of a batched descriptor write: `buffer`, whole, goes to array
/// element `array_offset` of slot `binding` in `set`.
#[derive(Clone, Copy, Debug, PartialEq, Eq, Structural)]
pub struct DescriptorWrite {
    pub set: Handle,
    pub binding: u32,
    pub array_offset: usize,
    pub buffer: BufferHandle,
}

/// The device objects of one stage.
#[derive(Clone, Copy, Debug, PartialEq, Eq, Structural)]
pub struct StageHandles {
    pub shader: Handle,
    pub set_layout: Handle,
    pub pool: Handle,
    pub desc_set: Handle,
    pub layout: Handle,
    pub pipeline: Handle,
}

/// What recording a dispatch of a stage takes.
#[derive(Clone, Copy, Debug, PartialEq, Eq, Structural)]
pub struct DispatchBundle {
    pub pipeline: Handle,
    pub layout: Handle,
    pub desc_set: Handle,
    pub push_constant_len: u32,
}

/// A dispatch that passed the stage's checks and is ready to be recorded.
#[derive(Debug, PartialEq, Eq)]
pub struct DispatchCommand {
    pub bundle: DispatchBundle,
    pub workgroups: [u32; 3],
    pub push_constants: Vec<u8>,
}

/// `buffers` offers, slot for slot, a buffer of the declared kind.
pub open spec fn buffers_match(entries: Seq<BindingEntry>, buffers: Seq<BufferHandle>) -> bool {
    &&& buffers.len() == entries.len()
    &&& forall|i: int| 0 <= i < entries.len() ==> !kind_mismatch_at(entries, buffers, i)
}

/// The buffer offered for the `i`-th declared slot is of another kind.
pub open spec fn kind_mismatch_at(
    entries: Seq<BindingEntry>,
    buffers: Seq<BufferHandle>,
    i: int,
) -> bool {
    0 <= i < entries.len() && entries[i].kind != buffers[i].kind
}

/// `i` is the first position at which the kinds disagree.
pub open spec fn is_first_mismatch(
    entries: Seq<BindingEntry>,
    buffers: Seq<BufferHandle>,
    i: int,
) -> bool {
    &&& kind_mismatch_at(entries, buffers, i)
    &&& forall|k: int| 0 <= k < i ==> !kind_mismatch_at(entries, buffers, k)
}

/// The first position at which the kinds disagree, where there is one.
pub open spec fn first_mismatch(entries: Seq<BindingEntry>, buffers: Seq<BufferHandle>) -> int {
    choose|i: int| is_first_mismatch(entries, buffers, i)
}

/// The verdict on a list of buffers offered for `entries`: a wrong count is
/// reported before a wrong kind, and of the wrong kinds the first.
pub open spec fn check_buffers(entries: Seq<BindingEntry>, buffers: Seq<BufferHandle>) -> Result<
    (),
    StageError,
> {
    if buffers.len() != entries.len() {
        Err(
            StageError::BindingMismatchError {
                mismatch: Mismatch::BufferCount {
                    slots: entries.len() as usize,
                    buffers: buffers.len() as usize,
                },
            },
        )
    } else if exists|i: int| kind_mismatch_at(entries, buffers, i) {
        Err(
            StageError::BindingMismatchError {
                mismatch: Mismatch::BufferKind { slot: entries[first_mismatch(entries, buffers)].slot },
            },
        )
    } else {
        Ok(())
    }
}

/// Where `i` is the first position at which the kinds disagree, and the
/// counts agree, the verdict names the slot declared at `i`.
pub proof fn lemma_first_mismatch_reported(
    entries: Seq<BindingEntry>,
    buffers: Seq<BufferHandle>,
    i: int,
)
    requires
        buffers.len() == entries.len(),
        is_first_mismatch(entries, buffers, i),
    ensures
        first_mismatch(entries, buffers) == i,
        check_buffers(entries, buffers) == Err::<(), StageError>(
            StageError::BindingMismatchError {
                mismatch: Mismatch::BufferKind { slot: entries[i].slot },
            },
        ),
{
    let first = first_mismatch(entries, buffers);
    assert(is_first_mismatch(entries, buffers, first));
    if first < i {
        assert(!kind_mismatch_at(entries, buffers, first));
    } else if first > i {
        assert(!kind_mismatch_at(entries, buffers, i));
    }
}

/// The batch that puts `buffers` into the slots of `entries` in `set`: one
/// write per slot, in declaration order, each to the slot's first element.
pub open spec fn writes_for(
    set: Handle,
    entries: Seq<BindingEntry>,
    buffers: Seq<BufferHandle>,
) -> Seq<DescriptorWrite> {
    Seq::new(
        entries.len(),
        |i: int|
            DescriptorWrite { set, binding: entries[i].slot, array_offset: 0, buffer: buffers[i] },
    )
}

/// A built stage, as mathematical values.
pub struct StageView {
    pub declaration: DeclarationView,
    pub pool: PoolSizing,
    pub handles: StageHandles,
    /// The buffers that the descriptor set refers to, slot by slot; `None`
    /// until the first batch of writes went through.
    pub bound: Option<Seq<BufferHandle>>,
}

impl StageView {
    /// The declaration is well formed and not empty, the pool is sized for
    /// exactly the one set of the stage, and what is bound matches the
    /// declaration slot for slot.
    pub open spec fn wf(self) -> bool {
        &&& self.declaration.wf()
        &&& 0 < self.declaration.entries.len() <= usize::MAX
        &&& self.pool == sizing_of(self.declaration.entries)
        &&& self.bound matches Some(buffers) ==> buffers_match(self.declaration.entries, buffers)
    }

    /// Whether a dispatch may be recorded.
    pub open spec fn dispatch_ready(self) -> bool {
        self.bound is Some
    }

    /// What recording a dispatch of the stage takes: the pipeline, its layout,
    /// the descriptor set, and the number of push-constant bytes to supply.
    pub open spec fn bundle(self) -> DispatchBundle {
        DispatchBundle {
            pipeline: self.handles.pipeline,
            layout: self.handles.layout,
            desc_set: self.handles.desc_set,
            push_constant_len: self.declaration.push_constant_len(),
        }
    }

    /// The batch of writes that binds `buffers`, or why they cannot be bound.
    pub open spec fn prepare_bind(self, buffers: Seq<BufferHandle>) -> Result<
        Seq<DescriptorWrite>,
        StageError,
    > {
        match check_buffers(self.declaration.entries, buffers) {
            Ok(_) => Ok(writes_for(self.handles.desc_set, self.declaration.entries, buffers)),
            Err(e) => Err(e),
        }
    }

    /// The verdict on a bind of `buffers` whose batch the device took
    /// (`written`) or refused.
    pub open spec fn bind_result(self, buffers: Seq<BufferHandle>, written: bool) -> Result<
        (),
        StageError,
    > {
        match check_buffers(self.declaration.entries, buffers) {
            Ok(_) => if written {
                Ok(())
            } else {
                Err(StageError::WriteRejected)
            },
            Err(e) => Err(e),
        }
    }

    /// The stage after a bind of `buffers`: bound to them where the bind
    /// succeeded, and as it was where it failed.
    pub open spec fn after_bind(self, buffers: Seq<BufferHandle>, written: bool) -> StageView {
        if self.bind_result(buffers, written) is Ok {
            StageView { bound: Some(buffers), ..self }
        } else {
            self
        }
    }

    /// The verdict on a dispatch with `payload` as push constants: an unbound
    /// stage is refused first, then a payload of another length than declared.
    pub open spec fn check_dispatch(self, payload: Seq<u8>) -> Result<(), StageError> {
        if !self.dispatch_ready() {
            Err(StageError::NotBound)
        } else if payload.len() != self.declaration.push_constant_len() {
            Err(
                StageError::BindingMismatchError {
                    mismatch: Mismatch::PushConstantLength {
                        expected: self.declaration.push_constant_len(),
                        found: payload.len() as usize,
                    },
                },
            )
        } else {
            Ok(())
        }
    }
}

/// A compute stage whose device objects all exist.
#[derive(Debug)]
pub struct ComputeStage {
    declaration: BindingDeclaration,
    pool: PoolSizing,
    handles: StageHandles,
    bound: Option<Vec<BufferHandle>>,
}

impl View for ComputeStage {
    type V = StageView;

    closed spec fn view(&self) -> StageView {
        StageView {
            declaration: self.declaration@,
            pool: self.pool,
            handles: self.handles,
            bound: match self.bound {
                Some(buffers) => Some(buffers@),
                None => None,
            },
        }
    }
}

/// Checks `buffers` against `entries`, slot for slot.
pub fn check_buffer_kinds(entries: &Vec<BindingEntry>, buffers: &Vec<BufferHandle>) -> (checked:
    Result<(), StageError>)
    ensures
        checked == check_buffers(entries@, buffers@),
{
    if buffers.len() != entries.len() {
        return Err(
            StageError::BindingMismatchError {
                mismatch: Mismatch::BufferCount { slots: entries.len(), buffers: buffers.len() },
            },
        );
    }
    let mut i: usize = 0;
    while i < entries.len()
        invariant
            i <= entries.len(),
            buffers.len() == entries.len(),
            forall|k: int| 0 <= k < i ==> !kind_mismatch_at(entries@, buffers@, k),
        decreases entries.len() - i,
    {
        if entries[i].kind != buffers[i].kind {
            proof {
                lemma_first_mismatch_reported(entries@, buffers@, i as int);
            }
            return Err(
                StageError::BindingMismatchError {
                    mismatch: Mismatch::BufferKind { slot: entries[i].slot },
                },
            );
        }
        i += 1;
    }
    Ok(())
}

impl ComputeStage {
    /// Every stage that exists is well formed.
    #[verifier::type_invariant]
    pub open spec fn wf(&self) -> bool {
        self@.wf()
    }

    /// The stage as the builder leaves it: every device object in place, the
    /// descriptor set unbound.
    pub(crate) fn built(declaration: BindingDeclaration, pool: PoolSizing, handles: StageHandles) -> (stage:
        ComputeStage)
        requires
            0 < declaration@.entries.len() <= usize::MAX,
            pool == sizing_of(declaration@.entries),
        ensures
            stage@ == (StageView { declaration: declaration@, pool, handles, bound: None }),
    {
        proof {
            use_type_invariant(&declaration);
        }
        ComputeStage { declaration, pool, handles, bound: None }
    }

    /// The binding declaration that the stage was built for.
    pub fn declaration(&self) -> (declaration: &BindingDeclaration)
        ensures
            declaration@ == self@.declaration,
            self@.wf(),
    {
        proof {
            use_type_invariant(self);
        }
        &self.declaration
    }

    /// The capacity that the stage's pool was created with.
    pub fn pool(&self) -> (pool: PoolSizing)
        ensures
            pool == self@.pool,
            pool.exact_for(self@.declaration.entries),
            self@.wf(),
    {
        proof {
            use_type_invariant(self);
            lemma_sizing_exact(self@.declaration.entries);
        }
        self.pool
    }

    /// The stage's device objects.
    pub fn handles(&self) -> (handles: StageHandles)
        ensures
            handles == self@.handles,
    {
        self.handles
    }

    /// Whether a batch of writes has gone through, so that a dispatch may be
    /// recorded.
    pub fn is_dispatch_ready(&self) -> (ready: bool)
        ensures
            ready == self@.dispatch_ready(),
    {
        self.bound.is_some()
    }

    /// The buffers that the descriptor set refers to, slot by slot.
    pub fn bound_buffers(&self) -> (buffers: Option<&Vec<BufferHandle>>)
        ensures
            match buffers {
                Some(b) => self@.bound == Some(b@),
                None => self@.bound is None,
            },
    {
        self.bound.as_ref()
    }

    /// Computes the batch of writes that binds `buffers`, the `i`-th to the
    /// `i`-th declared slot. Where the count or a kind disagrees with the
    /// declaration nothing is to be written. The stage itself does not
    /// change: see `complete_bind`.
    pub fn prepare_bind(&self, buffers: &Vec<BufferHandle>) -> (batch: Result<
        Vec<DescriptorWrite>,
        StageError,
    >)
        ensures
            match (batch, self@.prepare_bind(buffers@)) {
                (Ok(writes), Ok(expected)) => writes@ == expected,
                (Err(e), Err(x)) => e == x,
                _ => false,
            },
    {
        let entries = self.declaration.entries();
        match check_buffer_kinds(entries, buffers) {
            Err(e) => Err(e),
            Ok(_) => {
                let set = self.handles.desc_set;
                let mut writes: Vec<DescriptorWrite> = Vec::new();
                let mut i: usize = 0;
                while i < entries.len()
                    invariant
                        i <= entries.len(),
                        buffers.len() == entries.len(),
                        writes.len() == i,
                        forall|k: int|
                            0 <= k < i ==> writes@[k] == #[trigger] writes_for(
                                set,
                                entries@,
                                buffers@,
                            )[k],
                    decreases entries.len() - i,
                {
                    writes.push(
                        DescriptorWrite {
                            set,
                            binding: entries[i].slot,
                            array_offset: 0,
                            buffer: buffers[i],
                        },
                    );
                    i += 1;
                }
                assert(writes@ =~= writes_for(set, entries@, buffers@));
                Ok(writes)
            },
        }
    }

    /// The verdict on a bind of `buffers` whose batch the device took
    /// (`written`) or refused. The stage does not change.
    pub fn bind_verdict(&self, buffers: &Vec<BufferHandle>, written: bool) -> (verdict: Result<
        (),
        StageError,
    >)
        ensures
            verdict == self@.bind_result(buffers@, written),
    {
        match check_buffer_kinds(self.declaration.entries(), buffers) {
            Err(e) => Err(e),
            Ok(_) => if written {
                Ok(())
            } else {
                Err(StageError::WriteRejected)
            },
        }
    }

    /// Notes that the descriptor set now refers to `buffers`.
    pub(crate) fn set_bound(&mut self, buffers: Vec<BufferHandle>)
        requires
            buffers_match(old(self)@.declaration.entries, buffers@),
        ensures
            final(self)@ == (StageView { bound: Some(buffers@), ..old(self)@ }),
        no_unwind
    {
        proof {
            use_type_invariant(&*self);
        }
        self.bound = Some(buffers);
    }

    /// Records how a bind of `buffers` ended. `written` says whether the
    /// device took the batch. Where it did, the set now refers to `buffers`
    /// and the stage may be dispatched. Where it did not, or where `buffers`
    /// disagree with the declaration, the stage is left as it was.
    pub fn complete_bind(&mut self, buffers: Vec<BufferHandle>, written: bool) -> (done: Result<
        (),
        StageError,
    >)
        ensures
            done == old(self)@.bind_result(buffers@, written),
            final(self)@ == old(self)@.after_bind(buffers@, written),
    {
        let verdict = self.bind_verdict(&buffers, written);
        if verdict.is_ok() {
            self.set_bound(buffers);
        }
        verdict
    }

    /// What recording a dispatch takes; `None` as long as the stage is not
    /// bound.
    pub fn dispatch_bundle(&self) -> (bundle: Option<DispatchBundle>)
        ensures
            bundle == if self@.dispatch_ready() {
                Some(self@.bundle())
            } else {
                None
            },
    {
        if self.bound.is_some() {
            Some(
                DispatchBundle {
                    pipeline: self.handles.pipeline,
                    layout: self.handles.layout,
                    desc_set: self.handles.desc_set,
                    push_constant_len: self.declaration.push_constant_len(),
                },
            )
        } else {
            None
        }
    }

    /// Checks a dispatch of `workgroups` work groups with `push_constants` as
    /// payload, and hands back the command to record. A stage that was never
    /// bound is refused, and so is a payload whose length is not the declared
    /// one.
    pub fn record_dispatch(&self, workgroups: [u32; 3], push_constants: Vec<u8>) -> (command: Result<
        DispatchCommand,
        StageError,
    >)
        ensures
            match (command, self@.check_dispatch(push_constants@)) {
                (Ok(c), Ok(_)) => {
                    &&& c.bundle == self@.bundle()
                    &&& c.workgroups == workgroups
                    &&& c.push_constants@ == push_constants@
                },
                (Err(e), Err(x)) => e == x,
                _ => false,
            },
    {
        match self.dispatch_bundle() {
            None => Err(StageError::NotBound),
            Some(bundle) => {
                if push_constants.len() != bundle.push_constant_len as usize {
                    Err(
                        StageError::BindingMismatchError {
                            mismatch: Mismatch::PushConstantLength {
                                expected: bundle.push_constant_len,
                                found: push_constants.len(),
                            },
                        },
                    )
                } else {
                    Ok(DispatchCommand { bundle, workgroups, push_constants })
                }
            },
        }
    }

    /// Ends the stage. Hands back its device objects, all of which are to be
    /// destroyed together.
    pub fn teardown(self) -> (handles: StageHandles)
        ensures
            handles == self@.handles,
    {
        self.handles
    }
}

/// A stage's pool has room for exactly the descriptors of its one set: per
/// kind as many as the declaration has slots of that kind, no fewer and no
/// more. Its number of sets is the number of slots, which is the sum of the
/// two capacities. The stage's set can be drawn from it.
pub proof fn lemma_pool_exact(stage: StageView, kind: ResourceKind)
    requires
        stage.wf(),
    ensures
        stage.pool.capacity(kind) == count_kind(stage.declaration.entries, kind),
        stage.pool.max_sets == stage.declaration.entries.len(),
        stage.pool.max_sets == stage.pool.uniform_buffers + stage.pool.storage_buffers,
        stage.pool.covers(stage.declaration.entries),
{
    lemma_sizing_exact(stage.declaration.entries);
    lemma_counts_add_up(stage.declaration.entries);
    assert(stage.pool.capacity(ResourceKind::UniformBuffer) == stage.pool.uniform_buffers);
    assert(stage.pool.capacity(ResourceKind::StorageBuffer) == stage.pool.storage_buffers);
}

/// Binding the same buffers a second time changes nothing. Once a bind of
/// `buffers` has succeeded, another bind of them leaves the stage as it is,
/// whether the device takes the second batch or not; the batch to write is
/// the same as the first time; and every dispatch is judged as before.
pub proof fn lemma_rebind_idempotent(
    stage: StageView,
    buffers: Seq<BufferHandle>,
    again: bool,
    payload: Seq<u8>,
)
    requires
        stage.bind_result(buffers, true) is Ok,
    ensures
        ({
            let once = stage.after_bind(buffers, true);
            let twice = once.after_bind(buffers, again);
            &&& once.dispatch_ready()
            &&& once.prepare_bind(buffers) == stage.prepare_bind(buffers)
            &&& twice == once
            &&& twice.bundle() == once.bundle()
            &&& twice.check_dispatch(payload) == once.check_dispatch(payload)
        }),
{
}

/// A bind keeps a well-formed stage well formed, and it changes nothing but
/// what is bound.
pub proof fn lemma_bind_keeps_wf(stage: StageView, buffers: Seq<BufferHandle>, written: bool)
    requires
        stage.wf(),
    ensures
        ({
            let after = stage.after_bind(buffers, written);
            &&& after.wf()
            &&& after.declaration == stage.declaration
            &&& after.pool == stage.pool
            &&& after.handles == stage.handles
            &&& after.bound == if stage.bind_result(buffers, written) is Ok {
                Some(buffers)
            } else {
                stage.bound
            }
        }),
{
}

/// A stage that is not bound is never dispatched: whatever the payload, the
/// dispatch is refused as not bound, and no bundle is handed out. A bind that
/// fails leaves such a stage unbound.
pub proof fn lemma_unbound_refuses_dispatch(
    stage: StageView,
    payload: Seq<u8>,
    buffers: Seq<BufferHandle>,
    written: bool,
)
    requires
        !stage.dispatch_ready(),
    ensures
        stage.check_dispatch(payload) == Err::<(), StageError>(StageError::NotBound),
        stage.bind_result(buffers, written) is Err ==> !stage.after_bind(
            buffers,
            written,
        ).dispatch_ready(),
{
}

} // verus!
