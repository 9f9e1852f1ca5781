//! The frame node: what the compute passes of one frame bind and dispatch.
//!
//! The node waits for the pipelines to compile, one stage at a time, and
//! never goes back a stage. Every frame it plans two passes. The agent pass
//! moves the agents; the image pass then works on the whole frame. Both see
//! the texture pair, in opposite order, and the order swaps with every
//! frame: what one frame's image pass has written, the next frame's reads.

use crate::agents::BufferHandle;
use crate::bind::{
    BindGroup, BindGroupContent, BindingResource, ShaderBindGroups, ShaderBindGroupsContent,
};
use crate::image::ImagesContent;
use crate::layout::{EntryPoint, Layout};
use crate::WORKGROUP_SIZE;
use vstd::prelude::*;

verus! {

/// Pixels along each side of the square that one workgroup of the image pass
/// handles.
pub const IMAGE_WORKGROUP_SIZE: u32 = 8;

/// What the pipeline cache reports of a pipeline.
#[derive(Clone, Copy, Debug, PartialEq, Eq, Structural)]
pub enum CachedPipelineState {
    /// Compilation has been asked for and has not ended.
    Queued,
    /// The pipeline is compiled and can be dispatched.
    Ready,
    /// Compilation failed.
    Failed,
}

/// The stage that the node has reached.
#[derive(Clone, Copy, Debug, PartialEq, Eq, Structural)]
pub enum ShaderState {
    /// Waiting for the `init` pipeline.
    Loading,
    /// Waiting for the `update` pipeline.
    Init,
    /// The agents are updated every frame.
    Update,
}

impl ShaderState {
    /// The place of the stage in the order of stages.
    pub open spec fn rank(self) -> nat {
        match self {
            ShaderState::Loading => 0,
            ShaderState::Init => 1,
            ShaderState::Update => 2,
        }
    }

    /// The stage after one poll of the pipelines: the node leaves `Loading`
    /// once `init` is compiled, leaves `Init` once `update` is compiled, and
    /// stays in `Update`.
    pub open spec fn next(
        self,
        init_pipeline: CachedPipelineState,
        update_pipeline: CachedPipelineState,
    ) -> ShaderState {
        match self {
            ShaderState::Loading => if init_pipeline == CachedPipelineState::Ready {
                ShaderState::Init
            } else {
                ShaderState::Loading
            },
            ShaderState::Init => if update_pipeline == CachedPipelineState::Ready {
                ShaderState::Update
            } else {
                ShaderState::Init
            },
            ShaderState::Update => ShaderState::Update,
        }
    }

    /// The stage after a run of polls, one poll per frame. Each poll holds
    /// the state of `init`, then that of `update`.
    pub open spec fn after(
        self,
        polls: Seq<(CachedPipelineState, CachedPipelineState)>,
    ) -> ShaderState
        decreases polls.len(),
    {
        if polls.len() == 0 {
            self
        } else {
            self.after(polls.drop_last()).next(polls.last().0, polls.last().1)
        }
    }
}

impl Default for ShaderState {
    fn default() -> (state: ShaderState)
        ensures
            state == ShaderState::Loading,
    {
        ShaderState::Loading
    }
}

/// One of the bind groups of a frame.
#[derive(Clone, Copy, Debug, PartialEq, Eq, Structural)]
pub enum BindGroupId {
    Data,
    /// The textures, A written and B read.
    TextureA,
    /// The textures, B written and A read.
    TextureB,
    Agents,
}

impl BindGroupId {
    /// The layout of the group.
    pub open spec fn layout(self) -> Layout {
        match self {
            BindGroupId::Data => Layout::Data,
            BindGroupId::TextureA | BindGroupId::TextureB => Layout::Texture,
            BindGroupId::Agents => Layout::Agents,
        }
    }

    /// The group among `groups`.
    pub open spec fn spec_select(self, groups: ShaderBindGroupsContent) -> BindGroupContent {
        match self {
            BindGroupId::Data => groups.data_bind_group,
            BindGroupId::TextureA => groups.texture_a_bind_group,
            BindGroupId::TextureB => groups.texture_b_bind_group,
            BindGroupId::Agents => groups.agents_bind_group,
        }
    }

    /// The group among `groups`.
    pub fn select<'a>(&self, groups: &'a ShaderBindGroups) -> (group: &'a BindGroup)
        ensures
            group@ == self.spec_select(groups@),
    {
        match self {
            BindGroupId::Data => &groups.data_bind_group,
            BindGroupId::TextureA => &groups.texture_a_bind_group,
            BindGroupId::TextureB => &groups.texture_b_bind_group,
            BindGroupId::Agents => &groups.agents_bind_group,
        }
    }
}

/// A dispatch of `x` by `y` by `z` workgroups of a pipeline.
#[derive(Clone, Copy, Debug, PartialEq, Eq, Structural)]
pub struct Dispatch {
    pub pipeline: EntryPoint,
    pub x: u32,
    pub y: u32,
    pub z: u32,
}

/// One compute pass: the groups that it binds, by bind group index, and
/// what it dispatches, if anything.
#[derive(Debug, PartialEq, Eq)]
pub struct ComputePass {
    pub bind_groups: Vec<BindGroupId>,
    pub dispatch: Option<Dispatch>,
}

/// The mathematical content of a [`ComputePass`].
pub struct ComputePassContent {
    pub bind_groups: Seq<BindGroupId>,
    pub dispatch: Option<Dispatch>,
}

impl View for ComputePass {
    type V = ComputePassContent;

    open spec fn view(&self) -> ComputePassContent {
        ComputePassContent { bind_groups: self.bind_groups@, dispatch: self.dispatch }
    }
}

impl ComputePassContent {
    /// The layouts of the groups that the pass binds, by bind group index.
    pub open spec fn layouts(self) -> Seq<Layout> {
        Seq::new(self.bind_groups.len(), |i: int| self.bind_groups[i].layout())
    }

    /// What the pass writes: the resource in the first slot of the texture
    /// group, which is the group at index 1.
    pub open spec fn target(self, groups: ShaderBindGroupsContent) -> BindingResource {
        self.bind_groups[1].spec_select(groups).entries[0].resource
    }

    /// What the pass reads: the resource in the second slot of the texture
    /// group.
    pub open spec fn source(self, groups: ShaderBindGroupsContent) -> BindingResource {
        self.bind_groups[1].spec_select(groups).entries[1].resource
    }
}

/// The two passes of a frame, in the order in which they are recorded.
/// Nothing but that order stands between the writes of the first and the
/// reads of the second.
#[derive(Debug, PartialEq, Eq)]
pub struct FramePlan {
    pub agent_pass: ComputePass,
    pub image_pass: ComputePass,
}

/// The mathematical content of a [`FramePlan`].
pub struct FramePlanContent {
    pub agent_pass: ComputePassContent,
    pub image_pass: ComputePassContent,
}

impl View for FramePlan {
    type V = FramePlanContent;

    open spec fn view(&self) -> FramePlanContent {
        FramePlanContent { agent_pass: self.agent_pass@, image_pass: self.image_pass@ }
    }
}

/// The texture group of the agent pass in frame `frames`.
pub open spec fn agent_textures(frames: u32) -> BindGroupId {
    if frames % 2 == 0 {
        BindGroupId::TextureA
    } else {
        BindGroupId::TextureB
    }
}

/// The texture group of the image pass in frame `frames`: the one that the
/// agent pass does not bind.
pub open spec fn image_textures(frames: u32) -> BindGroupId {
    if frames % 2 == 0 {
        BindGroupId::TextureB
    } else {
        BindGroupId::TextureA
    }
}

/// The number of workgroups that move `agents_len` agents. The count is
/// taken as a 32-bit number, that is modulo 2^32, and the division rounds
/// down: the agents past the last full workgroup are not moved.
pub open spec fn agent_workgroups(agents_len: usize) -> u32 {
    ((agents_len as int % 0x1_0000_0000) / (WORKGROUP_SIZE as int)) as u32
}

/// The number of workgroups that cover `pixels` pixels along one side: the
/// quotient by the workgroup's side, rounded up.
pub open spec fn image_workgroups(pixels: u32) -> u32 {
    ((pixels + IMAGE_WORKGROUP_SIZE - 1) / (IMAGE_WORKGROUP_SIZE as int)) as u32
}

impl ComputePassContent {
    /// The agent pass of frame `frames` for a node in `state` and
    /// `agents_len` agents. It binds the parameters, its texture group and
    /// the agents. It dispatches `update`, one row of workgroups, once the
    /// node has reached `Update` and while the pipeline is compiled.
    pub open spec fn agent_pass(
        state: ShaderState,
        frames: u32,
        agents_len: usize,
        update_pipeline: CachedPipelineState,
    ) -> ComputePassContent {
        ComputePassContent {
            bind_groups: seq![BindGroupId::Data, agent_textures(frames), BindGroupId::Agents],
            dispatch: if state == ShaderState::Update && update_pipeline
                == CachedPipelineState::Ready {
                Some(
                    Dispatch {
                        pipeline: EntryPoint::Update,
                        x: agent_workgroups(agents_len),
                        y: 1,
                        z: 1,
                    },
                )
            } else {
                None
            },
        }
    }

    /// The image pass of frame `frames` for a canvas of `size` pixels. It
    /// binds the parameters and its texture group. It dispatches `image`
    /// over the canvas whenever that pipeline is compiled, whatever the
    /// node's stage.
    pub open spec fn image_pass(
        frames: u32,
        size: (u32, u32),
        image_pipeline: CachedPipelineState,
    ) -> ComputePassContent {
        ComputePassContent {
            bind_groups: seq![BindGroupId::Data, image_textures(frames)],
            dispatch: if image_pipeline == CachedPipelineState::Ready {
                Some(
                    Dispatch {
                        pipeline: EntryPoint::Image,
                        x: image_workgroups(size.0),
                        y: image_workgroups(size.1),
                        z: 1,
                    },
                )
            } else {
                None
            },
        }
    }
}

impl FramePlanContent {
    /// The passes of frame `frames`.
    pub open spec fn planned(
        state: ShaderState,
        frames: u32,
        size: (u32, u32),
        agents_len: usize,
        update_pipeline: CachedPipelineState,
        image_pipeline: CachedPipelineState,
    ) -> FramePlanContent {
        FramePlanContent {
            agent_pass: ComputePassContent::agent_pass(state, frames, agents_len, update_pipeline),
            image_pass: ComputePassContent::image_pass(frames, size, image_pipeline),
        }
    }
}

/// The frame node.
#[derive(Debug, PartialEq, Eq)]
pub struct ShaderNode {
    state: ShaderState,
}

impl View for ShaderNode {
    type V = ShaderState;

    closed spec fn view(&self) -> ShaderState {
        self.state
    }
}

impl Default for ShaderNode {
    fn default() -> (node: ShaderNode)
        ensures
            node@ == ShaderState::Loading,
    {
        ShaderNode { state: ShaderState::Loading }
    }
}

fn agent_workgroups_of(agents_len: usize) -> (groups: u32)
    ensures
        groups == agent_workgroups(agents_len),
{
    let count = (agents_len as u64 % 0x1_0000_0000) as u32;
    count / WORKGROUP_SIZE
}

fn image_workgroups_of(pixels: u32) -> (groups: u32)
    ensures
        groups == image_workgroups(pixels),
{
    if pixels % IMAGE_WORKGROUP_SIZE == 0 {
        pixels / IMAGE_WORKGROUP_SIZE
    } else {
        pixels / IMAGE_WORKGROUP_SIZE + 1
    }
}

impl ShaderNode {
    /// The stage that the node has reached.
    pub fn state(&self) -> (state: ShaderState)
        ensures
            state == self@,
    {
        self.state
    }

    /// Advances the node by what the pipeline cache reports this frame.
    pub fn update(
        &mut self,
        init_pipeline: CachedPipelineState,
        update_pipeline: CachedPipelineState,
    )
        ensures
            final(self)@ == old(self)@.next(init_pipeline, update_pipeline),
    {
        match self.state {
            ShaderState::Loading => {
                if init_pipeline == CachedPipelineState::Ready {
                    self.state = ShaderState::Init;
                }
            },
            ShaderState::Init => {
                if update_pipeline == CachedPipelineState::Ready {
                    self.state = ShaderState::Update;
                }
            },
            ShaderState::Update => (),
        }
    }

    /// Plans the passes of frame `frames`. Without bind groups the frame is
    /// skipped: there is no plan.
    pub fn run(
        &self,
        bind_groups: Option<&ShaderBindGroups>,
        frames: u32,
        size: (u32, u32),
        agents_len: usize,
        update_pipeline: CachedPipelineState,
        image_pipeline: CachedPipelineState,
    ) -> (plan: Option<FramePlan>)
        ensures
            plan is Some <==> bind_groups is Some,
            plan matches Some(plan) ==> plan@ == FramePlanContent::planned(
                self@,
                frames,
                size,
                agents_len,
                update_pipeline,
                image_pipeline,
            ),
    {
        if bind_groups.is_none() {
            return None;
        }
        let (texturesa, texturesb) = if frames % 2 == 0 {
            (BindGroupId::TextureA, BindGroupId::TextureB)
        } else {
            (BindGroupId::TextureB, BindGroupId::TextureA)
        };

        let mut agent_groups: Vec<BindGroupId> = Vec::new();
        agent_groups.push(BindGroupId::Data);
        agent_groups.push(texturesa);
        agent_groups.push(BindGroupId::Agents);
        let agent_dispatch = match self.state {
            ShaderState::Loading | ShaderState::Init => None,
            ShaderState::Update => if update_pipeline == CachedPipelineState::Ready {
                Some(
                    Dispatch {
                        pipeline: EntryPoint::Update,
                        x: agent_workgroups_of(agents_len),
                        y: 1,
                        z: 1,
                    },
                )
            } else {
                None
            },
        };

        let mut image_groups: Vec<BindGroupId> = Vec::new();
        image_groups.push(BindGroupId::Data);
        image_groups.push(texturesb);
        let image_dispatch = if image_pipeline == CachedPipelineState::Ready {
            Some(
                Dispatch {
                    pipeline: EntryPoint::Image,
                    x: image_workgroups_of(size.0),
                    y: image_workgroups_of(size.1),
                    z: 1,
                },
            )
        } else {
            None
        };

        let plan = FramePlan {
            agent_pass: ComputePass { bind_groups: agent_groups, dispatch: agent_dispatch },
            image_pass: ComputePass { bind_groups: image_groups, dispatch: image_dispatch },
        };
        proof {
            let planned = FramePlanContent::planned(
                self@,
                frames,
                size,
                agents_len,
                update_pipeline,
                image_pipeline,
            );
            assert(plan@.agent_pass.bind_groups =~= planned.agent_pass.bind_groups);
            assert(plan@.image_pass.bind_groups =~= planned.image_pass.bind_groups);
        }
        Some(plan)
    }
}

/// The frame counter after `frames`. It wraps.
pub open spec fn next_frame(frames: u32) -> u32 {
    if frames == u32::MAX {
        0
    } else {
        (frames + 1) as u32
    }
}

/// The stage never goes back: of two moments, the later one finds the node
/// in the same stage or in a later one, and a node that has reached `Update`
/// stays there. Here the moment `i` is the one after the first `i` polls.
pub proof fn lemma_stage_never_regresses(
    start: ShaderState,
    polls: Seq<(CachedPipelineState, CachedPipelineState)>,
    i: int,
    j: int,
)
    requires
        0 <= i <= j <= polls.len(),
    ensures
        start.after(polls.take(i)).rank() <= start.after(polls.take(j)).rank(),
        start.after(polls.take(i)) == ShaderState::Update ==> start.after(polls.take(j))
            == ShaderState::Update,
    decreases j - i,
{
    if i < j {
        lemma_stage_never_regresses(start, polls, i, j - 1);
        assert(polls.take(j).drop_last() =~= polls.take(j - 1));
    }
}

/// One poll moves the node by one stage at most, and only if the pipeline
/// that the stage waits for is compiled.
pub proof fn lemma_stage_advances_by_one(
    state: ShaderState,
    init_pipeline: CachedPipelineState,
    update_pipeline: CachedPipelineState,
)
    ensures
        state.rank() <= state.next(init_pipeline, update_pipeline).rank() <= state.rank() + 1,
        state.next(init_pipeline, update_pipeline) != state <==> {
            ||| state == ShaderState::Loading && init_pipeline == CachedPipelineState::Ready
            ||| state == ShaderState::Init && update_pipeline == CachedPipelineState::Ready
        },
{
}

/// The two textures swap roles with every frame: what the image pass of one
/// frame writes is what the image pass of the next frame reads, and the
/// other way round. Within a frame the two passes see the pair in opposite
/// order, and no pass reads the texture that it writes.
pub proof fn lemma_ping_pong(
    images: ImagesContent,
    buffer: BufferHandle,
    frames: u32,
    size: (u32, u32),
    image_pipeline: CachedPipelineState,
    next_size: (u32, u32),
    next_image_pipeline: CachedPipelineState,
    state: ShaderState,
    agents_len: usize,
    update_pipeline: CachedPipelineState,
)
    ensures
        ({
            let groups = ShaderBindGroupsContent::derived(images.handles(), buffer);
            let this = ComputePassContent::image_pass(frames, size, image_pipeline);
            let next = ComputePassContent::image_pass(
                next_frame(frames),
                next_size,
                next_image_pipeline,
            );
            let agents = ComputePassContent::agent_pass(state, frames, agents_len, update_pipeline);
            &&& this.target(groups) == next.source(groups)
            &&& this.source(groups) == next.target(groups)
            &&& this.target(groups) != this.source(groups)
            &&& agents.target(groups) == this.source(groups)
            &&& agents.source(groups) == this.target(groups)
        }),
{
}

/// Each pass binds, at every index, a group of the layout that its pipeline
/// was compiled for at that index, and dispatches no other pipeline.
pub proof fn lemma_passes_bind_compiled_layouts(
    state: ShaderState,
    frames: u32,
    size: (u32, u32),
    agents_len: usize,
    update_pipeline: CachedPipelineState,
    image_pipeline: CachedPipelineState,
)
    ensures
        ({
            let plan = FramePlanContent::planned(
                state,
                frames,
                size,
                agents_len,
                update_pipeline,
                image_pipeline,
            );
            &&& plan.agent_pass.layouts() == EntryPoint::Update.spec_layout()
            &&& plan.image_pass.layouts() == EntryPoint::Image.spec_layout()
            &&& plan.agent_pass.dispatch matches Some(dispatch) ==> dispatch.pipeline
                == EntryPoint::Update
            &&& plan.image_pass.dispatch matches Some(dispatch) ==> dispatch.pipeline
                == EntryPoint::Image
        }),
{
    let plan = FramePlanContent::planned(
        state,
        frames,
        size,
        agents_len,
        update_pipeline,
        image_pipeline,
    );
    assert(plan.agent_pass.layouts() =~= EntryPoint::Update.spec_layout());
    assert(plan.image_pass.layouts() =~= EntryPoint::Image.spec_layout());
}

/// The workgroups of the agent pass move whole workgroups of agents only:
/// of up to `u32::MAX` agents, the `agents_len % WORKGROUP_SIZE` last ones
/// are left out, and all are moved where the workgroup size divides their
/// number.
pub proof fn lemma_agent_workgroups_round_down(agents_len: usize)
    requires
        agents_len <= u32::MAX,
    ensures
        agent_workgroups(agents_len) == agents_len / (WORKGROUP_SIZE as usize),
        agent_workgroups(agents_len) * WORKGROUP_SIZE + agents_len % (WORKGROUP_SIZE as usize)
            == agents_len,
        agents_len % (WORKGROUP_SIZE as usize) == 0 ==> agent_workgroups(agents_len)
            * WORKGROUP_SIZE == agents_len,
{
}

/// The workgroups of the image pass cover every pixel of a side, and none
/// of them lies wholly outside it.
pub proof fn lemma_image_workgroups_cover(pixels: u32)
    ensures
        image_workgroups(pixels) * IMAGE_WORKGROUP_SIZE >= pixels,
        image_workgroups(pixels) * IMAGE_WORKGROUP_SIZE < pixels + IMAGE_WORKGROUP_SIZE,
{
}

} // verus!
