//! Building a stage, one device call at a time.
//!
//! The builder never talks to a device. It says which call is due next and
//! with which arguments; the caller makes the call and reports what came
//! back. The calls come in a fixed order: shader module, set layout, pool,
//! descriptor set, pipeline layout, pipeline. The first refusal ends the
//! build with an error; a stage exists only once the last call succeeded.

use vstd::prelude::*;
use crate::declaration::{BindingDeclaration, BindingEntry, DeclarationView, PushConstantRange};
use crate::error::{StageError, StageResource};
use crate::pool::{sizing_of, PoolRange, PoolSizing};
use crate::shader::ShaderBinary;
use crate::stage::{ComputeStage, Handle, StageHandles, StageView};

verus! {

/// The name of the function at which every stage's program starts.
pub const ENTRY_NAME: &'static str = "main";

/// What the device answered to a call.
#[derive(Clone, Copy, Debug, PartialEq, Eq, Structural)]
pub enum DeviceReply {
    /// The object exists; the caller knows it as `handle`.
    Created { handle: Handle },
    /// The device refused.
    Rejected,
}

/// The objects that exist so far.
#[derive(Clone, Copy, Debug, PartialEq, Eq, Structural)]
pub enum Progress {
    Nothing,
    HaveShader { shader: Handle },
    HaveSetLayout { shader: Handle, set_layout: Handle },
    HavePool { shader: Handle, set_layout: Handle, pool: Handle },
    HaveSet { shader: Handle, set_layout: Handle, pool: Handle, desc_set: Handle },
    HavePipelineLayout {
        shader: Handle,
        set_layout: Handle,
        pool: Handle,
        desc_set: Handle,
        layout: Handle,
    },
}

impl Progress {
    /// The number of calls that are still due.
    pub open spec fn calls_left(self) -> nat {
        match self {
            Progress::Nothing => 6,
            Progress::HaveShader { .. } => 5,
            Progress::HaveSetLayout { .. } => 4,
            Progress::HavePool { .. } => 3,
            Progress::HaveSet { .. } => 2,
            Progress::HavePipelineLayout { .. } => 1,
        }
    }
}

/// A call that the caller is to make on the device.
#[derive(Debug, PartialEq, Eq)]
pub enum BuildAction {
    /// Create the shader module from the program's words.
    CreateShaderModule { words: Vec<u32> },
    /// Create the set layout with these slots, each visible to the compute
    /// stage and holding one descriptor.
    CreateSetLayout { bindings: Vec<BindingEntry> },
    /// Create a pool for `max_sets` sets with room for `ranges`.
    CreatePool { max_sets: usize, ranges: Vec<PoolRange> },
    /// Allocate one set laid out as `set_layout` from `pool`.
    AllocateSet { pool: Handle, set_layout: Handle },
    /// Create the pipeline layout of `set_layout` and `push_constants`.
    CreatePipelineLayout { set_layout: Handle, push_constants: Option<PushConstantRange> },
    /// Create the compute pipeline that runs `shader`, starting at the
    /// function named `entry`, with `layout`.
    CreatePipeline { shader: Handle, layout: Handle, entry: &'static str },
}

/// A call on the device, as mathematical values.
pub enum ActionView {
    CreateShaderModule { words: Seq<u32> },
    CreateSetLayout { bindings: Seq<BindingEntry> },
    CreatePool { max_sets: usize, ranges: Seq<PoolRange> },
    AllocateSet { pool: Handle, set_layout: Handle },
    CreatePipelineLayout { set_layout: Handle, push_constants: Option<PushConstantRange> },
    CreatePipeline { shader: Handle, layout: Handle, entry: Seq<char> },
}

impl View for BuildAction {
    type V = ActionView;

    open spec fn view(&self) -> ActionView {
        match *self {
            BuildAction::CreateShaderModule { words } => ActionView::CreateShaderModule {
                words: words@,
            },
            BuildAction::CreateSetLayout { bindings } => ActionView::CreateSetLayout {
                bindings: bindings@,
            },
            BuildAction::CreatePool { max_sets, ranges } => ActionView::CreatePool {
                max_sets,
                ranges: ranges@,
            },
            BuildAction::AllocateSet { pool, set_layout } => ActionView::AllocateSet {
                pool,
                set_layout,
            },
            BuildAction::CreatePipelineLayout {
                set_layout,
                push_constants,
            } => ActionView::CreatePipelineLayout { set_layout, push_constants },
            BuildAction::CreatePipeline { shader, layout, entry } => ActionView::CreatePipeline {
                shader,
                layout,
                entry: entry@,
            },
        }
    }
}

/// A build under way, as mathematical values.
pub struct BuilderView {
    pub words: Seq<u32>,
    pub declaration: DeclarationView,
    pub progress: Progress,
}

/// Where a build stands after a reply.
pub enum StepView {
    /// More calls are due.
    Pending(BuilderView),
    /// The stage is complete.
    Built(StageView),
}

impl BuilderView {
    /// The declaration is well formed and declares at least one slot.
    pub open spec fn wf(self) -> bool {
        &&& self.declaration.wf()
        &&& 0 < self.declaration.entries.len() <= usize::MAX
    }

    /// The build before any call: nothing exists.
    pub open spec fn start(words: Seq<u32>, declaration: DeclarationView) -> BuilderView {
        BuilderView { words, declaration, progress: Progress::Nothing }
    }

    /// The capacity that the pool is created with.
    pub open spec fn pool(self) -> PoolSizing {
        sizing_of(self.declaration.entries)
    }

    /// The call that is due.
    pub open spec fn action(self) -> ActionView {
        match self.progress {
            Progress::Nothing => ActionView::CreateShaderModule { words: self.words },
            Progress::HaveShader { .. } => ActionView::CreateSetLayout {
                bindings: self.declaration.entries,
            },
            Progress::HaveSetLayout { .. } => ActionView::CreatePool {
                max_sets: self.pool().max_sets,
                ranges: self.pool().ranges_spec(),
            },
            Progress::HavePool { set_layout, pool, .. } => ActionView::AllocateSet { pool, set_layout },
            Progress::HaveSet { set_layout, .. } => ActionView::CreatePipelineLayout {
                set_layout,
                push_constants: self.declaration.push_constants,
            },
            Progress::HavePipelineLayout { shader, layout, .. } => ActionView::CreatePipeline {
                shader,
                layout,
                entry: ENTRY_NAME@,
            },
        }
    }

    /// The error that a refusal of the call that is due ends the build with.
    pub open spec fn refusal(self) -> StageError {
        match self.progress {
            Progress::Nothing => StageError::ResourceCreationError {
                resource: StageResource::ShaderModule,
            },
            Progress::HaveShader { .. } => StageError::ResourceCreationError {
                resource: StageResource::SetLayout,
            },
            Progress::HaveSetLayout { .. } => StageError::ResourceCreationError {
                resource: StageResource::Pool,
            },
            Progress::HavePool { .. } => StageError::AllocationExhausted,
            Progress::HaveSet { .. } => StageError::ResourceCreationError {
                resource: StageResource::PipelineLayout,
            },
            Progress::HavePipelineLayout { .. } => StageError::ResourceCreationError {
                resource: StageResource::Pipeline,
            },
        }
    }

    /// Where the build stands once the call that is due has created `handle`.
    pub open spec fn created(self, handle: Handle) -> StepView {
        match self.progress {
            Progress::Nothing => StepView::Pending(
                BuilderView { progress: Progress::HaveShader { shader: handle }, ..self },
            ),
            Progress::HaveShader { shader } => StepView::Pending(
                BuilderView { progress: Progress::HaveSetLayout { shader, set_layout: handle }, ..self },
            ),
            Progress::HaveSetLayout { shader, set_layout } => StepView::Pending(
                BuilderView {
                    progress: Progress::HavePool { shader, set_layout, pool: handle },
                    ..self
                },
            ),
            Progress::HavePool { shader, set_layout, pool } => StepView::Pending(
                BuilderView {
                    progress: Progress::HaveSet { shader, set_layout, pool, desc_set: handle },
                    ..self
                },
            ),
            Progress::HaveSet { shader, set_layout, pool, desc_set } => StepView::Pending(
                BuilderView {
                    progress: Progress::HavePipelineLayout {
                        shader,
                        set_layout,
                        pool,
                        desc_set,
                        layout: handle,
                    },
                    ..self
                },
            ),
            Progress::HavePipelineLayout {
                shader,
                set_layout,
                pool,
                desc_set,
                layout,
            } => StepView::Built(
                StageView {
                    declaration: self.declaration,
                    pool: self.pool(),
                    handles: StageHandles {
                        shader,
                        set_layout,
                        pool,
                        desc_set,
                        layout,
                        pipeline: handle,
                    },
                    bound: None,
                },
            ),
        }
    }

    /// Where the build stands after `reply` to the call that is due.
    pub open spec fn step(self, reply: DeviceReply) -> Result<StepView, StageError> {
        match reply {
            DeviceReply::Created { handle } => Ok(self.created(handle)),
            DeviceReply::Rejected => Err(self.refusal()),
        }
    }

    /// Where the build stands after the replies `replies`, each to the call
    /// that was due when it came. Replies that come after the build has ended
    /// are an error of the caller; they have no meaning and give `None`.
    pub open spec fn run(self, replies: Seq<DeviceReply>) -> Option<Result<StepView, StageError>>
        decreases replies.len(),
    {
        if replies.len() == 0 {
            Some(Ok(StepView::Pending(self)))
        } else {
            match self.step(replies[0]) {
                Ok(StepView::Pending(next)) => next.run(replies.drop_first()),
                ended => if replies.len() == 1 {
                    Some(ended)
                } else {
                    None
                },
            }
        }
    }
}

/// A build under way.
#[derive(Debug)]
pub struct StageBuilder {
    binary: ShaderBinary,
    declaration: BindingDeclaration,
    progress: Progress,
}

impl View for StageBuilder {
    type V = BuilderView;

    closed spec fn view(&self) -> BuilderView {
        BuilderView {
            words: self.binary@,
            declaration: self.declaration@,
            progress: self.progress,
        }
    }
}

/// Where a build stands after a reply.
#[derive(Debug)]
pub enum BuildStep {
    /// More calls are due.
    Pending(StageBuilder),
    /// The stage is complete: built, and not yet bound.
    Built(ComputeStage),
}

impl View for BuildStep {
    type V = StepView;

    open spec fn view(&self) -> StepView {
        match *self {
            BuildStep::Pending(builder) => StepView::Pending(builder@),
            BuildStep::Built(stage) => StepView::Built(stage@),
        }
    }
}

fn copy_of<T: Copy>(items: &Vec<T>) -> (copy: Vec<T>)
    ensures
        copy@ == items@,
{
    let mut copy: Vec<T> = Vec::new();
    let mut i: usize = 0;
    while i < items.len()
        invariant
            i <= items.len(),
            copy@ == items@.take(i as int),
        decreases items.len() - i,
    {
        copy.push(items[i]);
        assert(items@.take(i + 1) == items@.take(i as int).push(items@[i as int]));
        i += 1;
    }
    assert(items@.take(i as int) == items@);
    copy
}

impl StageBuilder {
    /// Every builder that exists is well formed.
    #[verifier::type_invariant]
    pub open spec fn wf(&self) -> bool {
        self@.wf()
    }

    /// Starts the build of a stage that runs `binary` with the resources that
    /// `declaration` lists. The pool is sized for the declaration: as many
    /// sets as it has slots, and per kind as many descriptors as it has slots
    /// of that kind. A declaration without slots leaves the pool without room
    /// for the stage's set, so it is refused here, before the device is asked
    /// for anything.
    pub fn new(binary: ShaderBinary, declaration: BindingDeclaration) -> (started: Result<
        StageBuilder,
        StageError,
    >)
        ensures
            match started {
                Ok(builder) => {
                    &&& declaration@.entries.len() > 0
                    &&& builder@ == BuilderView::start(binary@, declaration@)
                },
                Err(e) => {
                    &&& declaration@.entries.len() == 0
                    &&& e == StageError::AllocationExhausted
                },
            },
    {
        let pool = PoolSizing::for_declaration(&declaration);
        proof {
            use_type_invariant(&declaration);
        }
        match pool.check_allocation(&declaration) {
            Err(e) => Err(e),
            Ok(_) => Ok(StageBuilder { binary, declaration, progress: Progress::Nothing }),
        }
    }

    /// The call that is due.
    pub fn next_action(&self) -> (action: BuildAction)
        ensures
            action@ == self@.action(),
    {
        proof {
            use_type_invariant(self);
        }
        match self.progress {
            Progress::Nothing => BuildAction::CreateShaderModule {
                words: copy_of(&self.binary.words),
            },
            Progress::HaveShader { .. } => BuildAction::CreateSetLayout {
                bindings: copy_of(self.declaration.entries()),
            },
            Progress::HaveSetLayout { .. } => {
                let pool = PoolSizing::for_declaration(&self.declaration);
                BuildAction::CreatePool { max_sets: pool.max_sets, ranges: pool.ranges() }
            },
            Progress::HavePool { set_layout, pool, .. } => BuildAction::AllocateSet { pool, set_layout },
            Progress::HaveSet { set_layout, .. } => BuildAction::CreatePipelineLayout {
                set_layout,
                push_constants: self.declaration.push_constants(),
            },
            Progress::HavePipelineLayout { shader, layout, .. } => BuildAction::CreatePipeline {
                shader,
                layout,
                entry: ENTRY_NAME,
            },
        }
    }

    /// The objects that exist so far.
    pub fn progress(&self) -> (progress: Progress)
        ensures
            progress == self@.progress,
    {
        self.progress
    }

    /// Takes the device's reply to the call that was due. A refusal ends the
    /// build with the error that belongs to the call, and nothing of the
    /// stage is handed out. After the last call the stage itself comes back;
    /// before that, the builder with the next call due.
    pub fn advance(self, reply: DeviceReply) -> (stepped: Result<BuildStep, StageError>)
        ensures
            match (stepped, self@.step(reply)) {
                (Ok(step), Ok(expected)) => step@ == expected,
                (Err(e), Err(x)) => e == x,
                _ => false,
            },
    {
        proof {
            use_type_invariant(&self);
        }
        let StageBuilder { binary, declaration, progress } = self;
        let handle = match reply {
            DeviceReply::Created { handle } => handle,
            DeviceReply::Rejected => {
                return Err(
                    match progress {
                        Progress::Nothing => StageError::ResourceCreationError {
                            resource: StageResource::ShaderModule,
                        },
                        Progress::HaveShader { .. } => StageError::ResourceCreationError {
                            resource: StageResource::SetLayout,
                        },
                        Progress::HaveSetLayout { .. } => StageError::ResourceCreationError {
                            resource: StageResource::Pool,
                        },
                        Progress::HavePool { .. } => StageError::AllocationExhausted,
                        Progress::HaveSet { .. } => StageError::ResourceCreationError {
                            resource: StageResource::PipelineLayout,
                        },
                        Progress::HavePipelineLayout { .. } => StageError::ResourceCreationError {
                            resource: StageResource::Pipeline,
                        },
                    },
                );
            },
        };
        let next = match progress {
            Progress::Nothing => Progress::HaveShader { shader: handle },
            Progress::HaveShader { shader } => Progress::HaveSetLayout { shader, set_layout: handle },
            Progress::HaveSetLayout { shader, set_layout } => Progress::HavePool {
                shader,
                set_layout,
                pool: handle,
            },
            Progress::HavePool { shader, set_layout, pool } => Progress::HaveSet {
                shader,
                set_layout,
                pool,
                desc_set: handle,
            },
            Progress::HaveSet { shader, set_layout, pool, desc_set } => Progress::HavePipelineLayout {
                shader,
                set_layout,
                pool,
                desc_set,
                layout: handle,
            },
            Progress::HavePipelineLayout { shader, set_layout, pool: pool_handle, desc_set, layout } => {
                let handles = StageHandles {
                    shader,
                    set_layout,
                    pool: pool_handle,
                    desc_set,
                    layout,
                    pipeline: handle,
                };
                let pool = PoolSizing::for_declaration(&declaration);
                return Ok(BuildStep::Built(ComputeStage::built(declaration, pool, handles)));
            },
        };
        Ok(BuildStep::Pending(StageBuilder { binary, declaration, progress: next }))
    }

    /// Takes a whole series of replies, each as the answer to the call that
    /// was due when it came, and says where the build stands after the last.
    /// A series that goes on after the build has ended, with a stage or with
    /// an error, answers calls that were never due: it gives `None`.
    pub fn replay(self, replies: &Vec<DeviceReply>) -> (ended: Option<Result<BuildStep, StageError>>)
        ensures
            match (ended, self@.run(replies@)) {
                (Some(Ok(step)), Some(Ok(expected))) => step@ == expected,
                (Some(Err(e)), Some(Err(x))) => e == x,
                (None, None) => true,
                _ => false,
            },
    {
        let ghost start = self@;
        let mut builder = self;
        let mut i: usize = 0;
        assert(replies@.skip(0) == replies@);
        while i < replies.len()
            invariant
                i <= replies.len(),
                builder@.run(replies@.skip(i as int)) == start.run(replies@),
                start == self@,
            decreases replies.len() - i,
        {
            let ghost rest = replies@.skip(i as int);
            assert(rest.len() == replies.len() - i);
            assert(rest[0] == replies@[i as int]);
            assert(rest.drop_first() == replies@.skip(i + 1));
            let last = i + 1 == replies.len();
            match builder.advance(replies[i]) {
                Err(e) => {
                    return if last {
                        Some(Err(e))
                    } else {
                        None
                    };
                },
                Ok(BuildStep::Built(stage)) => {
                    return if last {
                        Some(Ok(BuildStep::Built(stage)))
                    } else {
                        None
                    };
                },
                Ok(BuildStep::Pending(next)) => {
                    builder = next;
                },
            }
            i += 1;
        }
        Some(Ok(BuildStep::Pending(builder)))
    }
}

/// Every reply says that the object was created.
pub open spec fn all_created(replies: Seq<DeviceReply>) -> bool {
    forall|i: int| 0 <= i < replies.len() ==> #[trigger] replies[i] is Created
}

/// A build ends with a stage exactly when every call that was due has been
/// answered with a creation: six calls from the start, and not one refusal
/// among the answers.
pub proof fn lemma_built_after_all_calls(builder: BuilderView, replies: Seq<DeviceReply>)
    ensures
        builder.run(replies) matches Some(Ok(StepView::Built(_))) <==> replies.len()
            == builder.progress.calls_left() && all_created(replies),
    decreases replies.len(),
{
    if replies.len() > 0 {
        let rest = replies.drop_first();
        assert(all_created(replies) <==> replies[0] is Created && all_created(rest)) by {
            if replies[0] is Created && all_created(rest) {
                assert forall|i: int| 0 <= i < replies.len() implies #[trigger] replies[i]
                    is Created by {
                    if i > 0 {
                        assert(replies[i] == rest[i - 1]);
                    }
                }
            }
            if all_created(replies) {
                assert(replies[0] is Created);
                assert forall|i: int| 0 <= i < rest.len() implies #[trigger] rest[i]
                    is Created by {
                    assert(rest[i] == replies[i + 1]);
                }
            }
        }
        match builder.step(replies[0]) {
            Ok(StepView::Pending(next)) => {
                lemma_built_after_all_calls(next, rest);
            },
            _ => {},
        }
    }
}

/// Where a build is still under way after `replies`, one more reply takes
/// it where a step from there takes it.
pub proof fn lemma_run_appends(builder: BuilderView, replies: Seq<DeviceReply>, reply: DeviceReply)
    requires
        builder.run(replies) matches Some(Ok(StepView::Pending(_))),
    ensures
        builder.run(replies.push(reply)) == Some(
            builder.run(replies)->0->Ok_0->Pending_0.step(reply),
        ),
    decreases replies.len(),
{
    let longer = replies.push(reply);
    if replies.len() == 0 {
        assert(longer.drop_first() == Seq::<DeviceReply>::empty());
        assert(longer[0] == reply);
        match builder.step(reply) {
            Ok(StepView::Pending(next)) => {
                assert(next.run(longer.drop_first()) == Some(
                    Ok::<StepView, StageError>(StepView::Pending(next)),
                ));
            },
            _ => {},
        }
    } else {
        assert(longer[0] == replies[0]);
        assert(longer.drop_first() == replies.drop_first().push(reply));
        match builder.step(replies[0]) {
            Ok(StepView::Pending(next)) => {
                lemma_run_appends(next, replies.drop_first(), reply);
            },
            _ => {},
        }
    }
}

/// The objects of a stage are made of each other as they belong together.
/// When the six calls create `shader`, `set_layout`, `pool`, `desc_set`,
/// `layout` and `pipeline`, in this order, then the set is allocated from
/// `pool` with `set_layout`, the pipeline layout is made of the same
/// `set_layout` and of the declared push constants, the pipeline is made of
/// `shader` and of that pipeline layout, and these six are the stage's.
pub proof fn lemma_chain_is_wired(
    words: Seq<u32>,
    declaration: DeclarationView,
    shader: Handle,
    set_layout: Handle,
    pool: Handle,
    desc_set: Handle,
    layout: Handle,
    pipeline: Handle,
)
    ensures
        ({
            let start = BuilderView::start(words, declaration);
            let replies = seq![
                DeviceReply::Created { handle: shader },
                DeviceReply::Created { handle: set_layout },
                DeviceReply::Created { handle: pool },
                DeviceReply::Created { handle: desc_set },
                DeviceReply::Created { handle: layout },
                DeviceReply::Created { handle: pipeline },
            ];
            &&& start.run(replies.take(3)) matches Some(Ok(StepView::Pending(b))) && b.action()
                == (ActionView::AllocateSet { pool, set_layout })
            &&& start.run(replies.take(4)) matches Some(Ok(StepView::Pending(b))) && b.action()
                == (ActionView::CreatePipelineLayout {
                set_layout,
                push_constants: declaration.push_constants,
            })
            &&& start.run(replies.take(5)) matches Some(Ok(StepView::Pending(b))) && b.action()
                == (ActionView::CreatePipeline { shader, layout, entry: ENTRY_NAME@ })
            &&& start.run(replies) matches Some(Ok(StepView::Built(stage))) && stage.handles
                == (StageHandles { shader, set_layout, pool, desc_set, layout, pipeline })
        }),
{
    let start = BuilderView::start(words, declaration);
    let r0 = DeviceReply::Created { handle: shader };
    let r1 = DeviceReply::Created { handle: set_layout };
    let r2 = DeviceReply::Created { handle: pool };
    let r3 = DeviceReply::Created { handle: desc_set };
    let r4 = DeviceReply::Created { handle: layout };
    let r5 = DeviceReply::Created { handle: pipeline };
    let replies = seq![r0, r1, r2, r3, r4, r5];
    lemma_run_appends(start, Seq::empty(), r0);
    assert(Seq::<DeviceReply>::empty().push(r0) == seq![r0]);
    lemma_run_appends(start, seq![r0], r1);
    assert(seq![r0].push(r1) == seq![r0, r1]);
    lemma_run_appends(start, seq![r0, r1], r2);
    assert(seq![r0, r1].push(r2) == seq![r0, r1, r2]);
    lemma_run_appends(start, seq![r0, r1, r2], r3);
    assert(seq![r0, r1, r2].push(r3) == seq![r0, r1, r2, r3]);
    lemma_run_appends(start, seq![r0, r1, r2, r3], r4);
    assert(seq![r0, r1, r2, r3].push(r4) == seq![r0, r1, r2, r3, r4]);
    lemma_run_appends(start, seq![r0, r1, r2, r3, r4], r5);
    assert(seq![r0, r1, r2, r3, r4].push(r5) == replies);
    assert(replies.take(3) == seq![r0, r1, r2]);
    assert(replies.take(4) == seq![r0, r1, r2, r3]);
    assert(replies.take(5) == seq![r0, r1, r2, r3, r4]);
}

/// A stage that has just been built is not bound: it comes out of the last
/// step with a descriptor set that refers to no buffer, and a dispatch of it
/// is refused whatever the payload.
pub proof fn lemma_built_is_unbound(builder: BuilderView, reply: DeviceReply, payload: Seq<u8>)
    ensures
        builder.step(reply) matches Ok(StepView::Built(stage)) ==> {
            &&& !stage.dispatch_ready()
            &&& stage.check_dispatch(payload) == Err::<(), StageError>(StageError::NotBound)
        },
{
}

/// A build keeps to its plan. However many replies have come, the builder
/// still holds the program and the declaration that it was started with; and
/// the stage that comes out at the end has that declaration, a pool sized for
/// it, nothing bound, and is well formed if the builder was.
pub proof fn lemma_run_keeps_plan(builder: BuilderView, replies: Seq<DeviceReply>)
    ensures
        match builder.run(replies) {
            Some(Ok(StepView::Pending(next))) => {
                &&& next.words == builder.words
                &&& next.declaration == builder.declaration
            },
            Some(Ok(StepView::Built(stage))) => {
                &&& stage.declaration == builder.declaration
                &&& stage.pool == builder.pool()
                &&& stage.bound is None
                &&& builder.wf() ==> stage.wf()
            },
            _ => true,
        },
    decreases replies.len(),
{
    if replies.len() > 0 {
        match builder.step(replies[0]) {
            Ok(StepView::Pending(next)) => {
                lemma_run_keeps_plan(next, replies.drop_first());
            },
            _ => {},
        }
    }
}

/// Building twice from the same program and the same declaration gives two
/// stages that can stand for each other: the same slots, the same pool
/// sizing, the same number of push-constant bytes, both unbound. Only the
/// device objects may differ, and they do not where the device answered the
/// same.
pub proof fn lemma_rebuild_agrees(
    words: Seq<u32>,
    declaration: DeclarationView,
    first: Seq<DeviceReply>,
    second: Seq<DeviceReply>,
)
    requires
        BuilderView::start(words, declaration).run(first) matches Some(Ok(StepView::Built(_))),
        BuilderView::start(words, declaration).run(second) matches Some(Ok(StepView::Built(_))),
    ensures
        ({
            let a = BuilderView::start(words, declaration).run(first)->0->Ok_0->Built_0;
            let b = BuilderView::start(words, declaration).run(second)->0->Ok_0->Built_0;
            &&& a.declaration == declaration
            &&& a.declaration == b.declaration
            &&& a.pool == b.pool
            &&& a.bundle().push_constant_len == b.bundle().push_constant_len
            &&& a.bound == b.bound
            &&& a == (StageView { handles: a.handles, ..b })
            &&& first == second ==> a == b
        }),
{
    lemma_run_keeps_plan(BuilderView::start(words, declaration), first);
    lemma_run_keeps_plan(BuilderView::start(words, declaration), second);
}

} // verus!
