//! Binding layouts and the compute pipelines that are compiled against them.
//!
//! A pipeline is compiled for an ordered list of bind group layouts, and a
//! pass may only bind, at each index, a bind group of the layout that the
//! pipeline was compiled for. Everything here is plain data: the host turns a
//! descriptor into the backend's objects.

use vstd::prelude::*;

verus! {

/// What one slot of a bind group layout accepts.
#[derive(Clone, Copy, Debug, PartialEq, Eq, Structural)]
pub enum BindingType {
    /// A 2D RGBA8 storage texture that the shader reads and writes.
    StorageTexture,
    /// A 2D float texture that the shader reads without filtering.
    Texture,
    /// A uniform buffer.
    Uniform,
    /// A storage buffer that the shader reads and writes.
    StorageBuffer,
}

/// One slot of a bind group layout. Every slot is visible to the compute
/// stage.
#[derive(Clone, Copy, Debug, PartialEq, Eq, Structural)]
pub struct BindGroupLayoutEntry {
    pub binding: u32,
    pub ty: BindingType,
}

/// The three bind group layouts of the pipeline.
#[derive(Clone, Copy, Debug, PartialEq, Eq, Structural)]
pub enum Layout {
    /// The parameter blocks: simulation, sensor and agent behaviour.
    Data,
    /// The texture pair: the texture written, then the texture read.
    Texture,
    /// The agent buffer.
    Agents,
}

impl Layout {
    /// The slots of this layout, in binding order.
    pub open spec fn spec_entries(self) -> Seq<BindGroupLayoutEntry> {
        match self {
            Layout::Data => seq![
                BindGroupLayoutEntry { binding: 0, ty: BindingType::Uniform },
                BindGroupLayoutEntry { binding: 1, ty: BindingType::Uniform },
                BindGroupLayoutEntry { binding: 2, ty: BindingType::Uniform },
            ],
            Layout::Texture => seq![
                BindGroupLayoutEntry { binding: 0, ty: BindingType::StorageTexture },
                BindGroupLayoutEntry { binding: 1, ty: BindingType::Texture },
            ],
            Layout::Agents => seq![
                BindGroupLayoutEntry { binding: 0, ty: BindingType::StorageBuffer },
            ],
        }
    }

    /// The slots of this layout, in binding order.
    pub fn entries(&self) -> (entries: Vec<BindGroupLayoutEntry>)
        ensures
            entries@ == self.spec_entries(),
    {
        let mut entries: Vec<BindGroupLayoutEntry> = Vec::new();
        match self {
            Layout::Data => {
                entries.push(BindGroupLayoutEntry { binding: 0, ty: BindingType::Uniform });
                entries.push(BindGroupLayoutEntry { binding: 1, ty: BindingType::Uniform });
                entries.push(BindGroupLayoutEntry { binding: 2, ty: BindingType::Uniform });
            },
            Layout::Texture => {
                entries.push(
                    BindGroupLayoutEntry { binding: 0, ty: BindingType::StorageTexture },
                );
                entries.push(BindGroupLayoutEntry { binding: 1, ty: BindingType::Texture });
            },
            Layout::Agents => {
                entries.push(BindGroupLayoutEntry { binding: 0, ty: BindingType::StorageBuffer });
            },
        }
        entries
    }
}

/// The shader sources that the pipelines are compiled from.
#[derive(Clone, Copy, Debug, PartialEq, Eq, Structural)]
pub enum Shader {
    /// The agent simulation.
    Compute,
    /// The full-frame diffuse and evaporate pass.
    Blur,
}

impl Shader {
    /// Where the shader source is found among the assets.
    pub open spec fn spec_path(self) -> Seq<char> {
        match self {
            Shader::Compute => "shaders/compute.wgsl"@,
            Shader::Blur => "shaders/blurr.wgsl"@,
        }
    }

    /// Where the shader source is found among the assets.
    pub fn path(&self) -> (path: &'static str)
        ensures
            path@ == self.spec_path(),
    {
        match self {
            Shader::Compute => "shaders/compute.wgsl",
            Shader::Blur => "shaders/blurr.wgsl",
        }
    }
}

/// The named compute entry points.
#[derive(Clone, Copy, Debug, PartialEq, Eq, Structural)]
pub enum EntryPoint {
    Init,
    Update,
    Image,
}

impl EntryPoint {
    /// The name of the entry point in its shader source.
    pub open spec fn spec_name(self) -> Seq<char> {
        match self {
            EntryPoint::Init => "init"@,
            EntryPoint::Update => "update"@,
            EntryPoint::Image => "image"@,
        }
    }

    /// The name of the entry point in its shader source.
    pub fn name(&self) -> (name: &'static str)
        ensures
            name@ == self.spec_name(),
    {
        match self {
            EntryPoint::Init => "init",
            EntryPoint::Update => "update",
            EntryPoint::Image => "image",
        }
    }

    /// The shader source that defines the entry point.
    pub open spec fn spec_shader(self) -> Shader {
        match self {
            EntryPoint::Init | EntryPoint::Update => Shader::Compute,
            EntryPoint::Image => Shader::Blur,
        }
    }

    /// The bind group layouts that the entry point is compiled against, by
    /// bind group index. The agent entry points see the parameters, the
    /// textures and the agents; the full-frame entry point sees no agents.
    pub open spec fn spec_layout(self) -> Seq<Layout> {
        match self {
            EntryPoint::Init | EntryPoint::Update => seq![
                Layout::Data,
                Layout::Texture,
                Layout::Agents,
            ],
            EntryPoint::Image => seq![Layout::Data, Layout::Texture],
        }
    }
}

/// A request to compile one compute entry point.
#[derive(Debug, PartialEq, Eq)]
pub struct ComputePipelineDescriptor {
    pub layout: Vec<Layout>,
    pub shader: Shader,
    pub entry_point: EntryPoint,
}

/// The mathematical content of a [`ComputePipelineDescriptor`].
pub struct ComputePipelineDescriptorView {
    pub layout: Seq<Layout>,
    pub shader: Shader,
    pub entry_point: EntryPoint,
}

impl View for ComputePipelineDescriptor {
    type V = ComputePipelineDescriptorView;

    open spec fn view(&self) -> ComputePipelineDescriptorView {
        ComputePipelineDescriptorView {
            layout: self.layout@,
            shader: self.shader,
            entry_point: self.entry_point,
        }
    }
}

impl ComputePipelineDescriptor {
    /// The request that compiles `entry_point`.
    pub open spec fn spec_new(entry_point: EntryPoint) -> ComputePipelineDescriptorView {
        ComputePipelineDescriptorView {
            layout: entry_point.spec_layout(),
            shader: entry_point.spec_shader(),
            entry_point,
        }
    }

    /// The request that compiles `entry_point`.
    pub fn new(entry_point: EntryPoint) -> (descriptor: ComputePipelineDescriptor)
        ensures
            descriptor@ == Self::spec_new(entry_point),
    {
        let mut layout: Vec<Layout> = Vec::new();
        layout.push(Layout::Data);
        layout.push(Layout::Texture);
        let shader = match entry_point {
            EntryPoint::Init | EntryPoint::Update => {
                layout.push(Layout::Agents);
                Shader::Compute
            },
            EntryPoint::Image => Shader::Blur,
        };
        assert(layout@ =~= entry_point.spec_layout());
        ComputePipelineDescriptor { layout, shader, entry_point }
    }
}

/// The compile requests of the three pipelines. Compilation is asynchronous:
/// the host queues each request and polls its state once per frame.
#[derive(Debug, PartialEq, Eq)]
pub struct ShaderPipeline {
    pub init_pipeline: ComputePipelineDescriptor,
    pub update_pipeline: ComputePipelineDescriptor,
    pub image_pipeline: ComputePipelineDescriptor,
}

impl ShaderPipeline {
    /// The three requests, each for the entry point of its name.
    pub fn new() -> (pipeline: ShaderPipeline)
        ensures
            pipeline.init_pipeline@ == ComputePipelineDescriptor::spec_new(EntryPoint::Init),
            pipeline.update_pipeline@ == ComputePipelineDescriptor::spec_new(EntryPoint::Update),
            pipeline.image_pipeline@ == ComputePipelineDescriptor::spec_new(EntryPoint::Image),
    {
        ShaderPipeline {
            init_pipeline: ComputePipelineDescriptor::new(EntryPoint::Init),
            update_pipeline: ComputePipelineDescriptor::new(EntryPoint::Update),
            image_pipeline: ComputePipelineDescriptor::new(EntryPoint::Image),
        }
    }
}

/// Every layout numbers its slots from zero, in order and without a gap.
pub proof fn lemma_layout_slots_are_numbered(layout: Layout, i: int)
    requires
        0 <= i < layout.spec_entries().len(),
    ensures
        layout.spec_entries()[i].binding == i,
{
}

} // verus!
