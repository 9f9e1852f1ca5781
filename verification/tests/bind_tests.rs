use compute_playground::agents::{prepare_agents, setup, Agents, AgentsBuffer, BufferHandle};
use compute_playground::bind::{
    queue_bind_group, BindGroup, BindGroupEntry, BindingResource, ParameterBlock,
    PreparedResources, ShaderBindGroups,
};
use compute_playground::image::{ComputePlaygroundImages, TextureHandle, TextureSlot};
use compute_playground::layout::{BindingType, Layout};

const READY: PreparedResources = PreparedResources { texture_a: true, texture_b: true, data: true };

fn buffer_of(len: usize) -> AgentsBuffer {
    AgentsBuffer(Some(BufferHandle { generation: 0, len }))
}

fn texture_resources(groups: &ShaderBindGroups) -> Vec<BindingResource> {
    let mut resources = Vec::new();
    for group in [
        &groups.texture_a_bind_group,
        &groups.texture_b_bind_group,
        &groups.agents_bind_group,
        &groups.data_bind_group,
    ] {
        for entry in &group.entries {
            resources.push(entry.resource);
        }
    }
    resources
}

#[test]
fn bind_groups_tie_the_pair_in_both_orders() {
    let images = ComputePlaygroundImages::new(128, 128);
    let groups = queue_bind_group(images.main_textures(), &buffer_of(9), READY).unwrap();
    let a = TextureHandle { slot: TextureSlot::A, generation: 0 };
    let b = TextureHandle { slot: TextureSlot::B, generation: 0 };
    assert_eq!(
        groups.texture_a_bind_group,
        BindGroup {
            layout: Layout::Texture,
            entries: vec![
                BindGroupEntry { binding: 0, resource: BindingResource::TextureView(a) },
                BindGroupEntry { binding: 1, resource: BindingResource::TextureView(b) },
            ],
        }
    );
    assert_eq!(
        groups.texture_b_bind_group,
        BindGroup {
            layout: Layout::Texture,
            entries: vec![
                BindGroupEntry { binding: 0, resource: BindingResource::TextureView(b) },
                BindGroupEntry { binding: 1, resource: BindingResource::TextureView(a) },
            ],
        }
    );
}

#[test]
fn bind_groups_tie_the_agent_buffer_and_the_parameters() {
    let images = ComputePlaygroundImages::new(128, 128);
    let buffer = BufferHandle { generation: 4, len: 9 };
    let groups = queue_bind_group(images.main_textures(), &AgentsBuffer(Some(buffer)), READY).unwrap();
    assert_eq!(
        groups.agents_bind_group,
        BindGroup {
            layout: Layout::Agents,
            entries: vec![BindGroupEntry { binding: 0, resource: BindingResource::Buffer(buffer) }],
        }
    );
    assert_eq!(
        groups.data_bind_group,
        BindGroup {
            layout: Layout::Data,
            entries: vec![
                BindGroupEntry {
                    binding: 0,
                    resource: BindingResource::Uniform(ParameterBlock::Simulation),
                },
                BindGroupEntry {
                    binding: 1,
                    resource: BindingResource::Uniform(ParameterBlock::Sensor),
                },
                BindGroupEntry {
                    binding: 2,
                    resource: BindingResource::Uniform(ParameterBlock::Agent),
                },
            ],
        }
    );
}

#[test]
fn bind_groups_fill_the_slots_of_their_layouts() {
    let images = ComputePlaygroundImages::new(128, 128);
    let groups = queue_bind_group(images.main_textures(), &buffer_of(1), READY).unwrap();
    for group in [
        &groups.texture_a_bind_group,
        &groups.texture_b_bind_group,
        &groups.agents_bind_group,
        &groups.data_bind_group,
    ] {
        let slots = group.layout.entries();
        assert_eq!(group.entries.len(), slots.len());
        for (entry, slot) in group.entries.iter().zip(slots.iter()) {
            assert_eq!(entry.binding, slot.binding);
            let fits = match entry.resource {
                BindingResource::TextureView(_) => {
                    slot.ty == BindingType::StorageTexture || slot.ty == BindingType::Texture
                }
                BindingResource::Uniform(_) => slot.ty == BindingType::Uniform,
                BindingResource::Buffer(_) => slot.ty == BindingType::StorageBuffer,
            };
            assert!(fits);
        }
    }
}

#[test]
fn no_bind_groups_while_a_texture_is_not_uploaded() {
    let images = ComputePlaygroundImages::new(128, 128);
    let missing_a = PreparedResources { texture_a: false, texture_b: true, data: true };
    let missing_b = PreparedResources { texture_a: true, texture_b: false, data: true };
    assert_eq!(queue_bind_group(images.main_textures(), &buffer_of(1), missing_a), None);
    assert_eq!(queue_bind_group(images.main_textures(), &buffer_of(1), missing_b), None);
}

#[test]
fn no_bind_groups_while_the_parameters_are_not_prepared() {
    let images = ComputePlaygroundImages::new(128, 128);
    let missing = PreparedResources { texture_a: true, texture_b: true, data: false };
    assert_eq!(queue_bind_group(images.main_textures(), &buffer_of(1), missing), None);
}

#[test]
fn no_bind_groups_before_the_agents_are_written() {
    let images = ComputePlaygroundImages::new(128, 128);
    assert_eq!(queue_bind_group(images.main_textures(), &AgentsBuffer(None), READY), None);
}

#[test]
fn no_bind_groups_while_nothing_is_ready() {
    let images = ComputePlaygroundImages::new(128, 128);
    let nothing = PreparedResources { texture_a: false, texture_b: false, data: false };
    assert_eq!(queue_bind_group(images.main_textures(), &AgentsBuffer(None), nothing), None);
}

#[test]
fn fresh_bind_groups_are_current() {
    let images = ComputePlaygroundImages::new(128, 128);
    let buffer = buffer_of(3);
    let groups = queue_bind_group(images.main_textures(), &buffer, READY).unwrap();
    assert!(groups.is_current(images.main_textures(), &buffer));
}

#[test]
fn resize_makes_bind_groups_stale() {
    let mut images = ComputePlaygroundImages::new(128, 128);
    let buffer = buffer_of(3);
    let old_groups = queue_bind_group(images.main_textures(), &buffer, READY).unwrap();
    let old_a = images.handle(TextureSlot::A);
    let old_b = images.handle(TextureSlot::B);

    assert!(images.resize(256, 512));
    assert!(!old_groups.is_current(images.main_textures(), &buffer));

    let new_groups = queue_bind_group(images.main_textures(), &buffer, READY).unwrap();
    assert!(new_groups.is_current(images.main_textures(), &buffer));
    for resource in texture_resources(&new_groups) {
        assert_ne!(resource, BindingResource::TextureView(old_a));
        assert_ne!(resource, BindingResource::TextureView(old_b));
    }
}

#[test]
fn ignored_resize_keeps_bind_groups_current() {
    let mut images = ComputePlaygroundImages::new(128, 128);
    let buffer = buffer_of(3);
    let groups = queue_bind_group(images.main_textures(), &buffer, READY).unwrap();
    assert!(!images.resize(100, 512));
    assert!(groups.is_current(images.main_textures(), &buffer));
}

#[test]
fn rewritten_agents_make_bind_groups_stale() {
    let images = ComputePlaygroundImages::new(128, 128);
    let mut data = Agents::new();
    let mut buffer = AgentsBuffer(None);
    setup(&mut data, 2, 2);
    assert!(prepare_agents(&mut data, &mut buffer));
    let groups = queue_bind_group(images.main_textures(), &buffer, READY).unwrap();
    assert!(groups.is_current(images.main_textures(), &buffer));

    setup(&mut data, 2, 2);
    assert!(prepare_agents(&mut data, &mut buffer));
    assert!(!groups.is_current(images.main_textures(), &buffer));
    assert!(!groups.is_current(images.main_textures(), &AgentsBuffer(None)));
}

#[test]
fn altered_bind_groups_are_not_current() {
    let images = ComputePlaygroundImages::new(128, 128);
    let buffer = buffer_of(3);
    let mut groups = queue_bind_group(images.main_textures(), &buffer, READY).unwrap();
    groups.data_bind_group.entries.pop();
    assert!(!groups.is_current(images.main_textures(), &buffer));

    let mut groups = queue_bind_group(images.main_textures(), &buffer, READY).unwrap();
    groups.texture_a_bind_group.entries.swap(0, 1);
    assert!(!groups.is_current(images.main_textures(), &buffer));

    let mut groups = queue_bind_group(images.main_textures(), &buffer, READY).unwrap();
    groups.agents_bind_group.layout = Layout::Data;
    assert!(!groups.is_current(images.main_textures(), &buffer));
}
