//! A device that takes note of the resources it is asked for.

use vstd::prelude::*;
use crate::camera::{camera_words, CameraUniform, CameraUniformView};
use crate::gpu::{
    AddressMode, BindGroup, BindGroupEntry, BindGroupLayout, BindGroupLayoutEntry, Buffer,
    BufferUsages, CompareFunction, Extent3d, FilterMode, Sampler, Texture, TextureAspect,
    TextureDimension, TextureFormat, TextureUsages, TextureView, TextureViewDimension,
};
use crate::light::{light_uniform_views, lights_words, words_of_lights, LightUniform, LightUniformView};
use crate::math::push_words;
use crate::model::{
    material_words, vertex_views, vertices_words, words_of_vertices, MaterialUniform,
    MaterialUniformView, Vertex, VertexView,
};
use crate::scenegraph::ModelUniform;

verus! {

/// What is written into a buffer.
#[derive(Debug)]
pub enum BufferContents {
    Vertices(Vec<Vertex>),
    Indices(Vec<u32>),
    Lights(Vec<LightUniform>),
    Material(MaterialUniform),
    Camera(CameraUniform),
    Model(ModelUniform),
}

/// What is written into a buffer, by its numbers.
pub enum BufferContentsView {
    Vertices(Seq<VertexView>),
    Indices(Seq<u32>),
    Lights(Seq<LightUniformView>),
    Material(MaterialUniformView),
    Camera(CameraUniformView),
    Model(Seq<u32>),
}

impl View for BufferContents {
    type V = BufferContentsView;

    open spec fn view(&self) -> BufferContentsView {
        match self {
            BufferContents::Vertices(v) => BufferContentsView::Vertices(vertex_views(v@)),
            BufferContents::Indices(i) => BufferContentsView::Indices(i@),
            BufferContents::Lights(l) => BufferContentsView::Lights(light_uniform_views(l@)),
            BufferContents::Material(m) => BufferContentsView::Material(m@),
            BufferContents::Camera(c) => BufferContentsView::Camera(c@),
            BufferContents::Model(m) => BufferContentsView::Model(m.view_proj@),
        }
    }
}

/// The words, each four bytes wide, that contents take in a buffer, in the
/// order in which the shaders read them.
pub open spec fn contents_words(contents: BufferContents) -> Seq<u32> {
    match contents {
        BufferContents::Vertices(v) => vertices_words(v@),
        BufferContents::Indices(i) => i@,
        BufferContents::Lights(l) => lights_words(l@),
        BufferContents::Material(m) => material_words(m@),
        BufferContents::Camera(c) => camera_words(c),
        BufferContents::Model(m) => m.view_proj.cols@,
    }
}

impl BufferContents {
    /// The words that the contents take in a buffer.
    pub fn words(&self) -> (words: Vec<u32>)
        ensures
            words@ == contents_words(*self),
    {
        match self {
            BufferContents::Vertices(vertices) => words_of_vertices(vertices),
            BufferContents::Indices(indices) => {
                let mut words: Vec<u32> = Vec::new();
                push_words(&mut words, indices.as_slice());
                words
            },
            BufferContents::Lights(lights) => words_of_lights(lights),
            BufferContents::Material(material) => {
                let mut words: Vec<u32> = Vec::new();
                push_words(&mut words, material.words().as_slice());
                words
            },
            BufferContents::Camera(camera) => camera.words(),
            BufferContents::Model(model) => {
                let mut words: Vec<u32> = Vec::new();
                push_words(&mut words, model.view_proj.cols.as_slice());
                words
            },
        }
    }
}

/// A buffer of a given size in bytes, not yet written.
#[derive(Debug)]
pub struct BufferDescriptor {
    pub label: String,
    pub size: u64,
    pub usage: BufferUsages,
    pub mapped_at_creation: bool,
}

/// A buffer of a given size, with its label as a sequence of characters.
pub struct BufferDescriptorView {
    pub label: Seq<char>,
    pub size: u64,
    pub usage: BufferUsages,
    pub mapped_at_creation: bool,
}

impl View for BufferDescriptor {
    type V = BufferDescriptorView;

    open spec fn view(&self) -> BufferDescriptorView {
        BufferDescriptorView {
            label: self.label@,
            size: self.size,
            usage: self.usage,
            mapped_at_creation: self.mapped_at_creation,
        }
    }
}

/// A buffer that is created with its contents.
#[derive(Debug)]
pub struct BufferInitDescriptor {
    pub label: String,
    pub contents: BufferContents,
    pub usage: BufferUsages,
}

/// A buffer with its contents, by the numbers of the contents.
pub struct BufferInitDescriptorView {
    pub label: Seq<char>,
    pub contents: BufferContentsView,
    pub usage: BufferUsages,
}

impl View for BufferInitDescriptor {
    type V = BufferInitDescriptorView;

    open spec fn view(&self) -> BufferInitDescriptorView {
        BufferInitDescriptorView { label: self.label@, contents: self.contents@, usage: self.usage }
    }
}

/// A bind-group layout: its bindings, each with what it holds and who sees
/// it.
#[derive(Debug)]
pub struct BindGroupLayoutDescriptor {
    pub label: String,
    pub entries: Vec<BindGroupLayoutEntry>,
}

/// A bind-group layout, with its bindings as a sequence.
pub struct BindGroupLayoutDescriptorView {
    pub label: Seq<char>,
    pub entries: Seq<BindGroupLayoutEntry>,
}

impl View for BindGroupLayoutDescriptor {
    type V = BindGroupLayoutDescriptorView;

    open spec fn view(&self) -> BindGroupLayoutDescriptorView {
        BindGroupLayoutDescriptorView { label: self.label@, entries: self.entries@ }
    }
}

/// A bind group: its layout, and the resource at each binding.
#[derive(Debug)]
pub struct BindGroupDescriptor {
    pub label: String,
    pub layout: BindGroupLayout,
    pub entries: Vec<BindGroupEntry>,
}

/// A bind group, with its entries as a sequence.
pub struct BindGroupDescriptorView {
    pub label: Seq<char>,
    pub layout: BindGroupLayout,
    pub entries: Seq<BindGroupEntry>,
}

impl View for BindGroupDescriptor {
    type V = BindGroupDescriptorView;

    open spec fn view(&self) -> BindGroupDescriptorView {
        BindGroupDescriptorView { label: self.label@, layout: self.layout, entries: self.entries@ }
    }
}

/// A texture: its size, format and uses.
#[derive(Debug)]
pub struct TextureDescriptor {
    pub label: String,
    pub size: Extent3d,
    pub mip_level_count: u32,
    pub sample_count: u32,
    pub dimension: TextureDimension,
    pub format: TextureFormat,
    pub usage: TextureUsages,
}

/// A texture, with its label as a sequence of characters.
pub struct TextureDescriptorView {
    pub label: Seq<char>,
    pub size: Extent3d,
    pub mip_level_count: u32,
    pub sample_count: u32,
    pub dimension: TextureDimension,
    pub format: TextureFormat,
    pub usage: TextureUsages,
}

impl View for TextureDescriptor {
    type V = TextureDescriptorView;

    open spec fn view(&self) -> TextureDescriptorView {
        TextureDescriptorView {
            label: self.label@,
            size: self.size,
            mip_level_count: self.mip_level_count,
            sample_count: self.sample_count,
            dimension: self.dimension,
            format: self.format,
            usage: self.usage,
        }
    }
}

/// A view of a texture. Where `format` or `dimension` is `None` the view
/// has that of the texture; where a count is `None` the view reaches to the
/// texture's last level or layer.
#[derive(Debug)]
pub struct TextureViewDescriptor {
    pub label: String,
    pub format: Option<TextureFormat>,
    pub dimension: Option<TextureViewDimension>,
    pub aspect: TextureAspect,
    pub base_mip_level: u32,
    pub mip_level_count: Option<u32>,
    pub base_array_layer: u32,
    pub array_layer_count: Option<u32>,
}

/// A view of a texture, with its label as a sequence of characters.
pub struct TextureViewDescriptorView {
    pub label: Seq<char>,
    pub format: Option<TextureFormat>,
    pub dimension: Option<TextureViewDimension>,
    pub aspect: TextureAspect,
    pub base_mip_level: u32,
    pub mip_level_count: Option<u32>,
    pub base_array_layer: u32,
    pub array_layer_count: Option<u32>,
}

impl View for TextureViewDescriptor {
    type V = TextureViewDescriptorView;

    open spec fn view(&self) -> TextureViewDescriptorView {
        TextureViewDescriptorView {
            label: self.label@,
            format: self.format,
            dimension: self.dimension,
            aspect: self.aspect,
            base_mip_level: self.base_mip_level,
            mip_level_count: self.mip_level_count,
            base_array_layer: self.base_array_layer,
            array_layer_count: self.array_layer_count,
        }
    }
}

/// A sampler: what it does outside the texture, how it filters, and the
/// comparison it makes, if any.
#[derive(Clone, Copy, Debug, PartialEq, Eq, Structural)]
pub struct SamplerDescriptor {
    pub address_mode_u: AddressMode,
    pub address_mode_v: AddressMode,
    pub address_mode_w: AddressMode,
    pub mag_filter: FilterMode,
    pub min_filter: FilterMode,
    pub mipmap_filter: FilterMode,
    pub compare: Option<CompareFunction>,
}

/// One step that the device is asked to take. A resource is known from then
/// on by the handle that its creation carries.
#[derive(Debug)]
#[allow(inconsistent_fields)]
pub enum DeviceCommand {
    CreateBuffer { buffer: Buffer, descriptor: BufferDescriptor },
    CreateBufferInit { buffer: Buffer, descriptor: BufferInitDescriptor },
    CreateBindGroupLayout { layout: BindGroupLayout, descriptor: BindGroupLayoutDescriptor },
    CreateBindGroup { bind_group: BindGroup, descriptor: BindGroupDescriptor },
    CreateTexture { texture: Texture, descriptor: TextureDescriptor },
    CreateTextureView { view: TextureView, texture: Texture, descriptor: TextureViewDescriptor },
    CreateSampler { sampler: Sampler, descriptor: SamplerDescriptor },
    /// The holder of the resource with this handle has let go of it.
    Release { id: u64 },
}

/// One step that the device is asked to take, by the views of what it
/// carries.
#[allow(inconsistent_fields)]
pub enum DeviceCommandView {
    CreateBuffer { buffer: Buffer, descriptor: BufferDescriptorView },
    CreateBufferInit { buffer: Buffer, descriptor: BufferInitDescriptorView },
    CreateBindGroupLayout { layout: BindGroupLayout, descriptor: BindGroupLayoutDescriptorView },
    CreateBindGroup { bind_group: BindGroup, descriptor: BindGroupDescriptorView },
    CreateTexture { texture: Texture, descriptor: TextureDescriptorView },
    CreateTextureView { view: TextureView, texture: Texture, descriptor: TextureViewDescriptorView },
    CreateSampler { sampler: Sampler, descriptor: SamplerDescriptor },
    Release { id: u64 },
}

impl View for DeviceCommand {
    type V = DeviceCommandView;

    open spec fn view(&self) -> DeviceCommandView {
        match self {
            DeviceCommand::CreateBuffer { buffer, descriptor } => DeviceCommandView::CreateBuffer {
                buffer: *buffer,
                descriptor: descriptor@,
            },
            DeviceCommand::CreateBufferInit { buffer, descriptor } => DeviceCommandView::CreateBufferInit {
                buffer: *buffer,
                descriptor: descriptor@,
            },
            DeviceCommand::CreateBindGroupLayout { layout, descriptor } => DeviceCommandView::CreateBindGroupLayout {
                layout: *layout,
                descriptor: descriptor@,
            },
            DeviceCommand::CreateBindGroup { bind_group, descriptor } => DeviceCommandView::CreateBindGroup {
                bind_group: *bind_group,
                descriptor: descriptor@,
            },
            DeviceCommand::CreateTexture { texture, descriptor } => DeviceCommandView::CreateTexture {
                texture: *texture,
                descriptor: descriptor@,
            },
            DeviceCommand::CreateTextureView { view, texture, descriptor } => DeviceCommandView::CreateTextureView {
                view: *view,
                texture: *texture,
                descriptor: descriptor@,
            },
            DeviceCommand::CreateSampler { sampler, descriptor } => DeviceCommandView::CreateSampler {
                sampler: *sampler,
                descriptor: *descriptor,
            },
            DeviceCommand::Release { id } => DeviceCommandView::Release { id: *id },
        }
    }
}

/// The steps of a list of commands.
pub open spec fn command_views(commands: Seq<DeviceCommand>) -> Seq<DeviceCommandView> {
    commands.map_values(|c: DeviceCommand| c@)
}

/// A device that takes note of what it is asked for. Each resource gets the
/// next handle in turn; the commands wait, in the order in which they came,
/// until they are taken out to be carried out.
#[derive(Debug)]
pub struct Device {
    next_id: u64,
    commands: Vec<DeviceCommand>,
}

/// A device by the next handle that it will give and the steps that wait.
pub struct DeviceView {
    pub next_id: u64,
    pub commands: Seq<DeviceCommandView>,
}

impl DeviceView {
    /// The device after one more step that used up `ids` handles.
    pub open spec fn after(self, ids: int, command: DeviceCommandView) -> DeviceView {
        DeviceView { next_id: (self.next_id + ids) as u64, commands: self.commands.push(command) }
    }

    /// How many handles the device can still give.
    pub open spec fn remaining(self) -> int {
        u64::MAX - self.next_id
    }
}

impl View for Device {
    type V = DeviceView;

    closed spec fn view(&self) -> DeviceView {
        DeviceView { next_id: self.next_id, commands: command_views(self.commands@) }
    }
}

impl Device {
    /// A device that has given no handle yet.
    pub fn new() -> (device: Device)
        ensures
            device@ == (DeviceView { next_id: 0, commands: Seq::empty() }),
    {
        let device = Device { next_id: 0, commands: Vec::new() };
        assert(device@.commands =~= Seq::empty());
        device
    }

    /// A device whose first handle is `first_id`: the handles below it are
    /// left to resources that were made elsewhere.
    pub fn starting_at(first_id: u64) -> (device: Device)
        ensures
            device@ == (DeviceView { next_id: first_id, commands: Seq::empty() }),
    {
        let device = Device { next_id: first_id, commands: Vec::new() };
        assert(device@.commands =~= Seq::empty());
        device
    }

    /// How many handles the device can still give.
    pub fn remaining(&self) -> (n: u64)
        ensures
            n == self@.remaining(),
    {
        u64::MAX - self.next_id
    }

    /// The handle that the next resource will get.
    pub fn next_id(&self) -> (id: u64)
        ensures
            id == self@.next_id,
    {
        self.next_id
    }

    fn record(&mut self, ids: u64, command: DeviceCommand)
        requires
            ids <= old(self)@.remaining(),
        ensures
            final(self)@ == old(self)@.after(ids as int, command@),
    {
        self.next_id = self.next_id + ids;
        self.commands.push(command);
        assert(final(self)@.commands =~= old(self)@.commands.push(command@));
    }

    /// Asks for a buffer of a given size.
    pub fn create_buffer(&mut self, descriptor: BufferDescriptor) -> (buffer: Buffer)
        requires
            old(self)@.remaining() >= 1,
        ensures
            buffer.id == old(self)@.next_id,
            final(self)@ == old(self)@.after(1, DeviceCommandView::CreateBuffer { buffer, descriptor: descriptor@ }),
    {
        let buffer = Buffer { id: self.next_id };
        self.record(1, DeviceCommand::CreateBuffer { buffer, descriptor });
        buffer
    }

    /// Asks for a buffer with given contents.
    pub fn create_buffer_init(&mut self, descriptor: BufferInitDescriptor) -> (buffer: Buffer)
        requires
            old(self)@.remaining() >= 1,
        ensures
            buffer.id == old(self)@.next_id,
            final(self)@ == old(self)@.after(
                1,
                DeviceCommandView::CreateBufferInit { buffer, descriptor: descriptor@ },
            ),
    {
        let buffer = Buffer { id: self.next_id };
        self.record(1, DeviceCommand::CreateBufferInit { buffer, descriptor });
        buffer
    }

    /// Asks for a bind-group layout.
    pub fn create_bind_group_layout(&mut self, descriptor: BindGroupLayoutDescriptor) -> (layout: BindGroupLayout)
        requires
            old(self)@.remaining() >= 1,
        ensures
            layout.id == old(self)@.next_id,
            final(self)@ == old(self)@.after(
                1,
                DeviceCommandView::CreateBindGroupLayout { layout, descriptor: descriptor@ },
            ),
    {
        let layout = BindGroupLayout { id: self.next_id };
        self.record(1, DeviceCommand::CreateBindGroupLayout { layout, descriptor });
        layout
    }

    /// Asks for a bind group.
    pub fn create_bind_group(&mut self, descriptor: BindGroupDescriptor) -> (bind_group: BindGroup)
        requires
            old(self)@.remaining() >= 1,
        ensures
            bind_group.id == old(self)@.next_id,
            final(self)@ == old(self)@.after(
                1,
                DeviceCommandView::CreateBindGroup { bind_group, descriptor: descriptor@ },
            ),
    {
        let bind_group = BindGroup { id: self.next_id };
        self.record(1, DeviceCommand::CreateBindGroup { bind_group, descriptor });
        bind_group
    }

    /// Asks for a texture. Its handle carries the number of its layers.
    pub fn create_texture(&mut self, descriptor: TextureDescriptor) -> (texture: Texture)
        requires
            old(self)@.remaining() >= 1,
        ensures
            texture.id == old(self)@.next_id,
            texture.array_layers == descriptor.size.depth_or_array_layers,
            final(self)@ == old(self)@.after(1, DeviceCommandView::CreateTexture { texture, descriptor: descriptor@ }),
    {
        let texture = Texture { id: self.next_id, array_layers: descriptor.size.depth_or_array_layers };
        self.record(1, DeviceCommand::CreateTexture { texture, descriptor });
        texture
    }

    /// Asks for a view of a texture.
    pub fn create_texture_view(&mut self, texture: &Texture, descriptor: TextureViewDescriptor) -> (view: TextureView)
        requires
            old(self)@.remaining() >= 1,
        ensures
            view.id == old(self)@.next_id,
            final(self)@ == old(self)@.after(
                1,
                DeviceCommandView::CreateTextureView { view, texture: *texture, descriptor: descriptor@ },
            ),
    {
        let view = TextureView { id: self.next_id };
        self.record(1, DeviceCommand::CreateTextureView { view, texture: *texture, descriptor });
        view
    }

    /// Asks for a sampler.
    pub fn create_sampler(&mut self, descriptor: SamplerDescriptor) -> (sampler: Sampler)
        requires
            old(self)@.remaining() >= 1,
        ensures
            sampler.id == old(self)@.next_id,
            final(self)@ == old(self)@.after(1, DeviceCommandView::CreateSampler { sampler, descriptor }),
    {
        let sampler = Sampler { id: self.next_id };
        self.record(1, DeviceCommand::CreateSampler { sampler, descriptor });
        sampler
    }

    /// Notes that the holder of a resource has let go of it.
    pub fn release(&mut self, id: u64)
        ensures
            final(self)@ == old(self)@.after(0, DeviceCommandView::Release { id }),
    {
        self.record(0, DeviceCommand::Release { id });
    }

    /// Takes out the commands that wait, oldest first. The numbering of
    /// handles goes on from where it was.
    pub fn take_commands(&mut self) -> (commands: Vec<DeviceCommand>)
        ensures
            command_views(commands@) == old(self)@.commands,
            final(self)@ == (DeviceView { next_id: old(self)@.next_id, commands: Seq::empty() }),
    {
        let mut commands: Vec<DeviceCommand> = Vec::new();
        std::mem::swap(&mut self.commands, &mut commands);
        assert(final(self)@.commands =~= Seq::empty());
        commands
    }
}

} // verus!
