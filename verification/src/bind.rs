//! The bind groups that the compute passes consume.
//!
//! A bind group ties resources to the slots of one layout. The groups are
//! derived from the texture pair and the agent buffer, and name both by
//! handle: once a texture or the buffer has been replaced, the groups that
//! were derived before are stale and must be derived again.

use crate::agents::{AgentsBuffer, BufferHandle};
use crate::image::{
    accepts, lemma_accepted_resizes_change_generation, ImagesContent, TextureHandle, TextureSlot,
    WindowResized,
};
use crate::layout::{BindingType, Layout};
use vstd::prelude::*;

verus! {

/// The parameter blocks that the shaders read as uniforms.
#[derive(Clone, Copy, Debug, PartialEq, Eq, Structural)]
pub enum ParameterBlock {
    /// Canvas size, diffusion, evaporation and the time since the last frame.
    Simulation,
    /// Size, distance and spread of an agent's sensors.
    Sensor,
    /// Turning and moving speed of an agent.
    Agent,
}

/// A resource that can be tied to a slot.
#[derive(Clone, Copy, Debug, PartialEq, Eq, Structural)]
pub enum BindingResource {
    TextureView(TextureHandle),
    Uniform(ParameterBlock),
    Buffer(BufferHandle),
}

/// Whether a slot of type `ty` takes `resource`.
pub open spec fn slot_takes(ty: BindingType, resource: BindingResource) -> bool {
    match resource {
        BindingResource::TextureView(_) => ty == BindingType::StorageTexture || ty
            == BindingType::Texture,
        BindingResource::Uniform(_) => ty == BindingType::Uniform,
        BindingResource::Buffer(_) => ty == BindingType::StorageBuffer,
    }
}

/// A resource tied to the slot `binding`.
#[derive(Clone, Copy, Debug, PartialEq, Eq, Structural)]
pub struct BindGroupEntry {
    pub binding: u32,
    pub resource: BindingResource,
}

/// Resources tied to the slots of one layout.
#[derive(Debug, PartialEq, Eq)]
pub struct BindGroup {
    pub layout: Layout,
    pub entries: Vec<BindGroupEntry>,
}

/// The mathematical content of a [`BindGroup`].
pub struct BindGroupContent {
    pub layout: Layout,
    pub entries: Seq<BindGroupEntry>,
}

impl View for BindGroup {
    type V = BindGroupContent;

    open spec fn view(&self) -> BindGroupContent {
        BindGroupContent { layout: self.layout, entries: self.entries@ }
    }
}

impl BindGroupContent {
    /// The group fills the slots of its layout, one resource for each slot,
    /// in order, and each of a kind that the slot takes.
    pub open spec fn matches_layout(self) -> bool {
        &&& self.entries.len() == self.layout.spec_entries().len()
        &&& forall|i: int|
            0 <= i < self.entries.len() ==> {
                &&& (#[trigger] self.entries[i]).binding == self.layout.spec_entries()[i].binding
                &&& slot_takes(self.layout.spec_entries()[i].ty, self.entries[i].resource)
            }
    }

    /// Whether some slot of the group is tied to `resource`.
    pub open spec fn references(self, resource: BindingResource) -> bool {
        exists|i: int| 0 <= i < self.entries.len() && (#[trigger] self.entries[i]).resource == resource
    }

    /// The texture group that writes `target` and reads `source`.
    pub open spec fn textures(target: TextureHandle, source: TextureHandle) -> BindGroupContent {
        BindGroupContent {
            layout: Layout::Texture,
            entries: seq![
                BindGroupEntry { binding: 0, resource: BindingResource::TextureView(target) },
                BindGroupEntry { binding: 1, resource: BindingResource::TextureView(source) },
            ],
        }
    }

    /// The group of the agent buffer.
    pub open spec fn agents(buffer: BufferHandle) -> BindGroupContent {
        BindGroupContent {
            layout: Layout::Agents,
            entries: seq![BindGroupEntry { binding: 0, resource: BindingResource::Buffer(buffer) }],
        }
    }

    /// The group of the parameter blocks.
    pub open spec fn data() -> BindGroupContent {
        BindGroupContent {
            layout: Layout::Data,
            entries: seq![
                BindGroupEntry {
                    binding: 0,
                    resource: BindingResource::Uniform(ParameterBlock::Simulation),
                },
                BindGroupEntry {
                    binding: 1,
                    resource: BindingResource::Uniform(ParameterBlock::Sensor),
                },
                BindGroupEntry {
                    binding: 2,
                    resource: BindingResource::Uniform(ParameterBlock::Agent),
                },
            ],
        }
    }
}

/// The bind groups of one frame.
#[derive(Debug, PartialEq, Eq)]
pub struct ShaderBindGroups {
    /// Writes texture A and reads texture B.
    pub texture_a_bind_group: BindGroup,
    /// Writes texture B and reads texture A.
    pub texture_b_bind_group: BindGroup,
    pub agents_bind_group: BindGroup,
    pub data_bind_group: BindGroup,
}

/// The mathematical content of a [`ShaderBindGroups`].
pub struct ShaderBindGroupsContent {
    pub texture_a_bind_group: BindGroupContent,
    pub texture_b_bind_group: BindGroupContent,
    pub agents_bind_group: BindGroupContent,
    pub data_bind_group: BindGroupContent,
}

impl View for ShaderBindGroups {
    type V = ShaderBindGroupsContent;

    open spec fn view(&self) -> ShaderBindGroupsContent {
        ShaderBindGroupsContent {
            texture_a_bind_group: self.texture_a_bind_group@,
            texture_b_bind_group: self.texture_b_bind_group@,
            agents_bind_group: self.agents_bind_group@,
            data_bind_group: self.data_bind_group@,
        }
    }
}

impl ShaderBindGroupsContent {
    /// The bind groups of the textures `main_textures`, that of A first, and
    /// an agent buffer.
    pub open spec fn derived(
        main_textures: (TextureHandle, TextureHandle),
        buffer: BufferHandle,
    ) -> ShaderBindGroupsContent {
        ShaderBindGroupsContent {
            texture_a_bind_group: BindGroupContent::textures(main_textures.0, main_textures.1),
            texture_b_bind_group: BindGroupContent::textures(main_textures.1, main_textures.0),
            agents_bind_group: BindGroupContent::agents(buffer),
            data_bind_group: BindGroupContent::data(),
        }
    }

    /// Whether some slot of some group is tied to `resource`.
    pub open spec fn references(self, resource: BindingResource) -> bool {
        ||| self.texture_a_bind_group.references(resource)
        ||| self.texture_b_bind_group.references(resource)
        ||| self.agents_bind_group.references(resource)
        ||| self.data_bind_group.references(resource)
    }

    /// Whether these are the groups of the textures and the buffer as they
    /// are now. Groups that are not current are stale.
    pub open spec fn is_current(
        self,
        main_textures: (TextureHandle, TextureHandle),
        agents_buffer: AgentsBuffer,
    ) -> bool {
        match agents_buffer.0 {
            Some(buffer) => self == Self::derived(main_textures, buffer),
            None => false,
        }
    }
}

/// What the device reports of the resources that the groups are made of.
#[derive(Clone, Copy, Debug, PartialEq, Eq, Structural)]
pub struct PreparedResources {
    /// Texture A has been uploaded.
    pub texture_a: bool,
    /// Texture B has been uploaded.
    pub texture_b: bool,
    /// The parameter blocks have been written to their uniform buffers.
    pub data: bool,
}

/// Whether the bind groups can be derived: both textures and the parameter
/// blocks are on the device, and the agents have been written at least once.
pub open spec fn resources_ready(prepared: PreparedResources, agents_buffer: AgentsBuffer) -> bool {
    prepared.texture_a && prepared.texture_b && prepared.data && agents_buffer.0 is Some
}

fn texture_bind_group(target: TextureHandle, source: TextureHandle) -> (group: BindGroup)
    ensures
        group@ == BindGroupContent::textures(target, source),
{
    let mut entries: Vec<BindGroupEntry> = Vec::new();
    entries.push(BindGroupEntry { binding: 0, resource: BindingResource::TextureView(target) });
    entries.push(BindGroupEntry { binding: 1, resource: BindingResource::TextureView(source) });
    assert(entries@ =~= BindGroupContent::textures(target, source).entries);
    BindGroup { layout: Layout::Texture, entries }
}

fn agents_bind_group(buffer: BufferHandle) -> (group: BindGroup)
    ensures
        group@ == BindGroupContent::agents(buffer),
{
    let mut entries: Vec<BindGroupEntry> = Vec::new();
    entries.push(BindGroupEntry { binding: 0, resource: BindingResource::Buffer(buffer) });
    assert(entries@ =~= BindGroupContent::agents(buffer).entries);
    BindGroup { layout: Layout::Agents, entries }
}

fn data_bind_group() -> (group: BindGroup)
    ensures
        group@ == BindGroupContent::data(),
{
    let mut entries: Vec<BindGroupEntry> = Vec::new();
    entries.push(
        BindGroupEntry { binding: 0, resource: BindingResource::Uniform(ParameterBlock::Simulation) },
    );
    entries.push(
        BindGroupEntry { binding: 1, resource: BindingResource::Uniform(ParameterBlock::Sensor) },
    );
    entries.push(
        BindGroupEntry { binding: 2, resource: BindingResource::Uniform(ParameterBlock::Agent) },
    );
    assert(entries@ =~= BindGroupContent::data().entries);
    BindGroup { layout: Layout::Data, entries }
}

fn same_group(left: &BindGroup, right: &BindGroup) -> (same: bool)
    ensures
        same == (left@ == right@),
{
    if left.layout != right.layout || left.entries.len() != right.entries.len() {
        return false;
    }
    let mut n: usize = 0;
    while n < left.entries.len()
        invariant
            n <= left.entries.len(),
            left.entries.len() == right.entries.len(),
            forall|i: int| 0 <= i < n ==> left.entries@[i] == right.entries@[i],
        decreases left.entries.len() - n,
    {
        if left.entries[n] != right.entries[n] {
            return false;
        }
        n += 1;
    }
    assert(left.entries@ =~= right.entries@);
    true
}

impl ShaderBindGroups {
    /// Whether these are the groups of the textures and the buffer as they
    /// are now. Where they are not, they are stale: a pass must not bind
    /// them.
    pub fn is_current(
        &self,
        main_textures: (TextureHandle, TextureHandle),
        agents_buffer: &AgentsBuffer,
    ) -> (current: bool)
        ensures
            current == self@.is_current(main_textures, *agents_buffer),
    {
        match agents_buffer.0 {
            Some(buffer) => {
                let (a, b) = main_textures;
                same_group(&self.texture_a_bind_group, &texture_bind_group(a, b)) && same_group(
                    &self.texture_b_bind_group,
                    &texture_bind_group(b, a),
                ) && same_group(&self.agents_bind_group, &agents_bind_group(buffer)) && same_group(
                    &self.data_bind_group,
                    &data_bind_group(),
                )
            },
            None => false,
        }
    }
}

/// Derives the bind groups of this frame from the handles of the textures,
/// that of A first, and the agent buffer. Where a resource is not ready
/// there are none, and the frame's passes are skipped.
pub fn queue_bind_group(
    main_textures: (TextureHandle, TextureHandle),
    agents_buffer: &AgentsBuffer,
    prepared: PreparedResources,
) -> (groups: Option<ShaderBindGroups>)
    ensures
        groups is Some <==> resources_ready(prepared, *agents_buffer),
        groups matches Some(groups) ==> groups@.is_current(main_textures, *agents_buffer),
{
    if !(prepared.texture_a && prepared.texture_b && prepared.data) {
        return None;
    }
    match agents_buffer.0 {
        Some(buffer) => {
            let (a, b) = main_textures;
            Some(
                ShaderBindGroups {
                    texture_a_bind_group: texture_bind_group(a, b),
                    texture_b_bind_group: texture_bind_group(b, a),
                    agents_bind_group: agents_bind_group(buffer),
                    data_bind_group: data_bind_group(),
                },
            )
        },
        None => None,
    }
}

/// Every group that is derived fills the slots of its layout.
pub proof fn lemma_derived_groups_match_layouts(
    main_textures: (TextureHandle, TextureHandle),
    buffer: BufferHandle,
)
    ensures
        ShaderBindGroupsContent::derived(main_textures, buffer).texture_a_bind_group.matches_layout(),
        ShaderBindGroupsContent::derived(main_textures, buffer).texture_b_bind_group.matches_layout(),
        ShaderBindGroupsContent::derived(main_textures, buffer).agents_bind_group.matches_layout(),
        ShaderBindGroupsContent::derived(main_textures, buffer).data_bind_group.matches_layout(),
{
}

/// After an accepted resize both textures have the new size, the groups
/// that are derived from the new pair reference neither of the old textures,
/// and the groups that were derived from the old pair are stale.
pub proof fn lemma_resize_retires_textures(
    images: ImagesContent,
    width: u32,
    height: u32,
    buffer: BufferHandle,
    slot: TextureSlot,
)
    requires
        accepts(width, height),
    ensures
        images.resized(width, height).wf(),
        images.resized(width, height).main_textures.0.width == width,
        images.resized(width, height).main_textures.0.height == height,
        images.resized(width, height).main_textures.1.width == width,
        images.resized(width, height).main_textures.1.height == height,
        !ShaderBindGroupsContent::derived(
            images.resized(width, height).handles(),
            buffer,
        ).references(BindingResource::TextureView(images.handle(slot))),
        !ShaderBindGroupsContent::derived(images.handles(), buffer).is_current(
            images.resized(width, height).handles(),
            AgentsBuffer(Some(buffer)),
        ),
{
    let before = ShaderBindGroupsContent::derived(images.handles(), buffer);
    let after = ShaderBindGroupsContent::derived(images.resized(width, height).handles(), buffer);
    assert(before.texture_a_bind_group.entries[0] != after.texture_a_bind_group.entries[0]);
}

/// After a run of resizes that can be held in a vector, and of which one at
/// least is accepted, the groups that are derived from the new pair
/// reference neither of the old textures, and the groups that were derived
/// from the old pair are stale.
pub proof fn lemma_resizes_retire_textures(
    images: ImagesContent,
    resize: Seq<WindowResized>,
    accepted: int,
    buffer: BufferHandle,
    slot: TextureSlot,
)
    requires
        resize.len() <= usize::MAX,
        0 <= accepted < resize.len(),
        accepts(resize[accepted].width, resize[accepted].height),
    ensures
        !ShaderBindGroupsContent::derived(images.resized_all(resize).handles(), buffer).references(
            BindingResource::TextureView(images.handle(slot)),
        ),
        !ShaderBindGroupsContent::derived(images.handles(), buffer).is_current(
            images.resized_all(resize).handles(),
            AgentsBuffer(Some(buffer)),
        ),
{
    lemma_accepted_resizes_change_generation(images, resize, accepted, slot, slot);
    let before = ShaderBindGroupsContent::derived(images.handles(), buffer);
    let after = ShaderBindGroupsContent::derived(images.resized_all(resize).handles(), buffer);
    assert(before.texture_a_bind_group.entries[0] != after.texture_a_bind_group.entries[0]);
}

/// After the agents have been written again, the groups that are derived
/// from the new buffer do not reference the old one, and the groups that
/// were derived from the old buffer are stale.
pub proof fn lemma_rewrite_retires_buffer(
    main_textures: (TextureHandle, TextureHandle),
    buffer: BufferHandle,
    len: usize,
)
    ensures
        AgentsBuffer(Some(buffer)).rewritten(len).0 matches Some(rewritten) && {
            &&& !ShaderBindGroupsContent::derived(main_textures, rewritten).references(
                BindingResource::Buffer(buffer),
            )
            &&& !ShaderBindGroupsContent::derived(main_textures, buffer).is_current(
                main_textures,
                AgentsBuffer(Some(rewritten)),
            )
        },
{
    let rewritten = AgentsBuffer(Some(buffer)).rewritten(len).0->0;
    let before = ShaderBindGroupsContent::derived(main_textures, buffer);
    let after = ShaderBindGroupsContent::derived(main_textures, rewritten);
    assert(before.agents_bind_group.entries[0] != after.agents_bind_group.entries[0]);
}

} // verus!
