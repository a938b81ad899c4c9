//! Lights, their uniforms and the shadow map.

use vstd::prelude::*;
use crate::camera::CameraUniform;
use crate::device::{
    BindGroupLayoutDescriptor, BindGroupLayoutDescriptorView, Device, DeviceCommandView,
    SamplerDescriptor, TextureDescriptor, TextureDescriptorView, TextureViewDescriptor,
    TextureViewDescriptorView,
};
use crate::error::SceneError;
use crate::gpu::{
    AddressMode, BindGroupLayout, BindGroupLayoutEntry, BindingType, BufferBindingType, Extent3d,
    FilterMode, Sampler, SamplerBindingType, ShaderStages, Texture, TextureAspect, TextureDimension,
    TextureFormat, TextureSampleType, TextureUsages, TextureView, TextureViewDimension,
};
use crate::math::{
    look_at_view, mat4_product, number, numbers, perspective_shape, push_words, vec4_image, Mat4,
    Vec3, ONE, ZERO,
};

verus! {

/// A colour of four single-precision numbers: red, green, blue and alpha.
#[derive(Clone, Copy, Debug)]
pub struct Color {
    pub r: u32,
    pub g: u32,
    pub b: u32,
    pub a: u32,
}

impl View for Color {
    type V = Seq<u32>;

    open spec fn view(&self) -> Seq<u32> {
        numbers(seq![self.r, self.g, self.b, self.a])
    }
}

/// A light as the shaders read it.
#[derive(Clone, Copy, Debug)]
pub struct LightUniform {
    pub pos: [u32; 4],
    pub color: [u32; 4],
    pub model_mat: Mat4,
    pub view_proj: Mat4,
}

/// The numbers of a light uniform.
pub struct LightUniformView {
    pub pos: Seq<u32>,
    pub color: Seq<u32>,
    pub model_mat: Seq<u32>,
    pub view_proj: Seq<u32>,
}

impl View for LightUniform {
    type V = LightUniformView;

    open spec fn view(&self) -> LightUniformView {
        LightUniformView {
            pos: numbers(self.pos@),
            color: numbers(self.color@),
            model_mat: self.model_mat@,
            view_proj: self.view_proj@,
        }
    }
}

/// The forty words that the uniform of a light takes in a buffer: position,
/// colour, and the two matrices, column by column.
pub open spec fn light_words(uniform: LightUniform) -> Seq<u32> {
    uniform.pos@ + uniform.color@ + uniform.model_mat.cols@ + uniform.view_proj.cols@
}

/// The words that a list of light uniforms takes in a buffer: those of
/// each uniform in turn.
pub open spec fn lights_words(uniforms: Seq<LightUniform>) -> Seq<u32>
    decreases uniforms.len(),
{
    if uniforms.len() == 0 {
        Seq::empty()
    } else {
        lights_words(uniforms.drop_last()) + light_words(uniforms.last())
    }
}

/// The numbers of each light uniform of a list.
pub open spec fn light_uniform_views(uniforms: Seq<LightUniform>) -> Seq<LightUniformView> {
    uniforms.map_values(|u: LightUniform| u@)
}

/// A point light: where it stands, its colour, and the layer of the shadow
/// map that its shadow pass draws into.
#[derive(Debug)]
pub struct Light {
    pub pos: Vec3,
    pub color: Color,
    pub target_view: TextureView,
}

/// The numbers of a light, with its shadow target.
pub struct LightView {
    pub pos: Seq<u32>,
    pub color: Seq<u32>,
    pub target_view: TextureView,
}

impl View for Light {
    type V = LightView;

    open spec fn view(&self) -> LightView {
        LightView { pos: self.pos@, color: self.color@, target_view: self.target_view }
    }
}

/// The shadow map shared by all lights: a texture with one layer for each
/// light, a view of all its layers, and the sampler to read it with.
#[derive(Clone, Copy, Debug)]
pub struct ShadowMap {
    pub texture: Texture,
    pub view: TextureView,
    pub sampler: Sampler,
}

/// The number `-15`: how far along the third axis the point lies that
/// every light looks at.
pub const LIGHT_TARGET_Z: u32 = 0xc170_0000;

/// The opening angle of a light's view, sixty degrees, in radians.
pub const LIGHT_FOV_Y: u32 = 0x3f86_0a92;

/// The near plane of a light's view, at distance `5`.
pub const LIGHT_Z_NEAR: u32 = 0x40a0_0000;

/// The far plane of a light's view, at distance `50`.
pub const LIGHT_Z_FAR: u32 = 0x4248_0000;

/// Where a light stands in the world under the transform `model`.
pub open spec fn light_eye(light: LightView, model: Seq<u32>) -> Seq<u32> {
    vec4_image(model, light.pos.push(ONE)).take(3)
}

/// The view from where a light stands under the world transform `model`
/// towards the point `(0, 0, -15)`, with the second axis above.
pub open spec fn light_view(light: LightView, model: Seq<u32>) -> Seq<u32> {
    look_at_view(light_eye(light, model), seq![ZERO, ZERO, number(LIGHT_TARGET_Z)], seq![ZERO, ONE, ZERO])
}

/// Whether `matrix` is a view-projection matrix of a light under the world
/// transform `model`: the product of a perspective projection and of the
/// view of the light.
pub open spec fn is_light_matrix(matrix: Seq<u32>, light: LightView, model: Seq<u32>) -> bool {
    exists|projection: Seq<u32>|
        perspective_shape(projection) && matrix == #[trigger] mat4_product(projection, light_view(light, model))
}

/// The numbers of the uniform of a light that stands under the world
/// transform `model` and sees through `view_proj`.
pub open spec fn light_uniform_view(light: LightView, model: Seq<u32>, view_proj: Seq<u32>) -> LightUniformView {
    LightUniformView { pos: light.pos.push(ONE), color: light.color, model_mat: model, view_proj }
}

/// The layout of the bind group of the lights. The first binding is the
/// array of the lights, in a storage buffer where the device has them and
/// in a uniform buffer where not, with one element for each light; the
/// second is the shadow map and the third its sampler.
pub open spec fn light_layout_descriptor(light_count: u32, supports_storage_resources: bool)
    -> BindGroupLayoutDescriptorView {
    BindGroupLayoutDescriptorView {
        label: "light_bind_group_layout"@,
        entries: seq![
            BindGroupLayoutEntry {
                binding: 0,
                visibility: ShaderStages { vertex: false, fragment: true, compute: false },
                ty: BindingType::Buffer {
                    ty: if supports_storage_resources {
                        BufferBindingType::Storage { read_only: true }
                    } else {
                        BufferBindingType::Uniform
                    },
                    has_dynamic_offset: false,
                    min_binding_size: None,
                },
                count: if light_count == 0 {
                    None
                } else {
                    Some(light_count)
                },
            },
            BindGroupLayoutEntry {
                binding: 1,
                visibility: ShaderStages { vertex: false, fragment: true, compute: false },
                ty: BindingType::Texture {
                    sample_type: TextureSampleType::Float { filterable: false },
                    view_dimension: TextureViewDimension::D2Array,
                    multisampled: false,
                },
                count: None,
            },
            BindGroupLayoutEntry {
                binding: 2,
                visibility: ShaderStages { vertex: false, fragment: true, compute: false },
                ty: BindingType::Sampler(SamplerBindingType::NonFiltering),
                count: None,
            },
        ],
    }
}

/// The words that a list of light uniforms takes in a buffer.
pub fn words_of_lights(uniforms: &Vec<LightUniform>) -> (words: Vec<u32>)
    ensures
        words@ == lights_words(uniforms@),
{
    let mut words: Vec<u32> = Vec::new();
    let mut i: usize = 0;
    assert(uniforms@.take(0) =~= Seq::<LightUniform>::empty());
    while i < uniforms.len()
        invariant
            i <= uniforms.len(),
            words@ == lights_words(uniforms@.take(i as int)),
        decreases uniforms.len() - i,
    {
        let uniform = uniforms[i];
        push_words(&mut words, uniform.pos.as_slice());
        push_words(&mut words, uniform.color.as_slice());
        push_words(&mut words, uniform.model_mat.cols.as_slice());
        push_words(&mut words, uniform.view_proj.cols.as_slice());
        assert(uniforms@.take(i + 1).drop_last() =~= uniforms@.take(i as int));
        assert(words@ =~= lights_words(uniforms@.take(i as int)) + light_words(uniform));
        i += 1;
    }
    assert(uniforms@.take(uniforms.len() as int) =~= uniforms@);
    words
}

impl LightUniform {
    /// The uniform of a light under the world transform `model`, where
    /// `view_proj` is the view-projection matrix of the light.
    pub fn assemble(light: &Light, model: Mat4, view_proj: Mat4) -> (uniform: LightUniform)
        ensures
            uniform@ == light_uniform_view(light@, model@, view_proj@),
            uniform.pos@ == seq![light.pos.x, light.pos.y, light.pos.z, ONE],
            uniform.color@ == seq![light.color.r, light.color.g, light.color.b, light.color.a],
            uniform.model_mat == model,
            uniform.view_proj == view_proj,
    {
        let uniform = LightUniform {
            pos: [light.pos.x, light.pos.y, light.pos.z, ONE],
            color: [light.color.r, light.color.g, light.color.b, light.color.a],
            model_mat: model,
            view_proj,
        };
        assert(uniform.pos@ =~= seq![light.pos.x, light.pos.y, light.pos.z, ONE]);
        assert(uniform.color@ =~= seq![light.color.r, light.color.g, light.color.b, light.color.a]);
        assert(numbers(uniform.pos@) =~= light@.pos.push(ONE));
        assert(numbers(uniform.color@) =~= light@.color);
        uniform
    }

    /// The uniform of a light under the world transform `model`: its
    /// position as a point, its colour, the transform, and the
    /// view-projection matrix that [`Light::calculate_matrix`] gives.
    pub fn from_light(light: &Light, model: Mat4) -> (uniform: LightUniform)
        ensures
            uniform@ == light_uniform_view(light@, model@, uniform@.view_proj),
            is_light_matrix(uniform@.view_proj, light@, model@),
    {
        Self::assemble(light, model, light.calculate_matrix(model))
    }

    /// Asks the device for the layout of the bind group of `light_count`
    /// lights. Fails, and asks for nothing, where the device has no handle
    /// left.
    pub fn get_bind_group_layout(device: &mut Device, light_count: u32, supports_storage_resources: bool) -> (layout:
        Result<BindGroupLayout, SceneError>)
        ensures
            match layout {
                Ok(layout) => {
                    &&& old(device)@.remaining() >= 1
                    &&& layout.id == old(device)@.next_id
                    &&& final(device)@ == old(device)@.after(
                        1,
                        DeviceCommandView::CreateBindGroupLayout {
                            layout,
                            descriptor: light_layout_descriptor(light_count, supports_storage_resources),
                        },
                    )
                },
                Err(e) => e == SceneError::ResourceExhaustion && old(device)@.remaining() == 0 && final(device)@
                    == old(device)@,
            },
    {
        if device.remaining() == 0 {
            return Err(SceneError::ResourceExhaustion);
        }
        let fragment = ShaderStages { vertex: false, fragment: true, compute: false };
        let mut entries: Vec<BindGroupLayoutEntry> = Vec::new();
        entries.push(
            BindGroupLayoutEntry {
                binding: 0,
                visibility: fragment,
                ty: BindingType::Buffer {
                    ty: if supports_storage_resources {
                        BufferBindingType::Storage { read_only: true }
                    } else {
                        BufferBindingType::Uniform
                    },
                    has_dynamic_offset: false,
                    min_binding_size: None,
                },
                count: if light_count == 0 {
                    None
                } else {
                    Some(light_count)
                },
            },
        );
        entries.push(
            BindGroupLayoutEntry {
                binding: 1,
                visibility: fragment,
                ty: BindingType::Texture {
                    sample_type: TextureSampleType::Float { filterable: false },
                    view_dimension: TextureViewDimension::D2Array,
                    multisampled: false,
                },
                count: None,
            },
        );
        entries.push(
            BindGroupLayoutEntry {
                binding: 2,
                visibility: fragment,
                ty: BindingType::Sampler(SamplerBindingType::NonFiltering),
                count: None,
            },
        );
        let descriptor = BindGroupLayoutDescriptor { label: String::from_str("light_bind_group_layout"), entries };
        assert(descriptor@.entries =~= light_layout_descriptor(light_count, supports_storage_resources).entries);
        Ok(device.create_bind_group_layout(descriptor))
    }
}

/// The view of one layer of the shadow map, for the light of that number
/// to draw its shadows into.
pub open spec fn shadow_layer_descriptor(light_number: u32) -> TextureViewDescriptorView {
    TextureViewDescriptorView {
        label: "shadow"@,
        format: None,
        dimension: Some(TextureViewDimension::D2),
        aspect: TextureAspect::All,
        base_mip_level: 0,
        mip_level_count: None,
        base_array_layer: light_number,
        array_layer_count: Some(1),
    }
}

impl Light {
    /// A light at `pos` whose shadows go into the layer `light_number` of
    /// `shadow_texture`. Fails, and asks the device for nothing, where the
    /// texture has no such layer, or else where the device has no handle
    /// left.
    pub fn new(device: &mut Device, pos: Vec3, color: Color, shadow_texture: &Texture, light_number: u32) -> (light:
        Result<Light, SceneError>)
        ensures
            match light {
                Ok(light) => {
                    &&& light_number < shadow_texture.array_layers
                    &&& old(device)@.remaining() >= 1
                    &&& light.pos == pos
                    &&& light.color == color
                    &&& light.target_view.id == old(device)@.next_id
                    &&& final(device)@ == old(device)@.after(
                        1,
                        DeviceCommandView::CreateTextureView {
                            view: light.target_view,
                            texture: *shadow_texture,
                            descriptor: shadow_layer_descriptor(light_number),
                        },
                    )
                },
                Err(e) => {
                    &&& final(device)@ == old(device)@
                    &&& e == if light_number >= shadow_texture.array_layers {
                        SceneError::CapacityExceeded
                    } else {
                        SceneError::ResourceExhaustion
                    }
                    &&& light_number >= shadow_texture.array_layers || old(device)@.remaining() == 0
                },
            },
    {
        if light_number >= shadow_texture.array_layers {
            return Err(SceneError::CapacityExceeded);
        }
        if device.remaining() == 0 {
            return Err(SceneError::ResourceExhaustion);
        }
        let target_view = device.create_texture_view(
            shadow_texture,
            TextureViewDescriptor {
                label: String::from_str("shadow"),
                format: None,
                dimension: Some(TextureViewDimension::D2),
                aspect: TextureAspect::All,
                base_mip_level: 0,
                mip_level_count: None,
                base_array_layer: light_number,
                array_layer_count: Some(1),
            },
        );
        Ok(Light { pos, color, target_view })
    }

    /// Where the light stands in the world under the transform `model`.
    pub fn eye(&self, model: Mat4) -> (eye: Vec3)
        ensures
            eye@ == light_eye(self@, model@),
    {
        let point = self.pos.extend(ONE);
        assert(point@ =~= self@.pos.push(ONE));
        model.mul_vec4(point).truncate()
    }

    /// The view-projection matrix of the light under the world transform
    /// `model`: the product of a perspective projection and of the view
    /// from where the light stands towards the point `(0, 0, -15)`.
    pub fn calculate_matrix(&self, model: Mat4) -> (matrix: Mat4)
        ensures
            is_light_matrix(matrix@, self@, model@),
    {
        let target = Vec3 { x: ZERO, y: ZERO, z: LIGHT_TARGET_Z };
        let up = Vec3::unit_y();
        assert(target@ =~= seq![ZERO, ZERO, number(LIGHT_TARGET_Z)]);
        assert(up@ =~= seq![ZERO, ONE, ZERO]);
        let view = Mat4::look_at_rh(self.eye(model), target, up);
        let projection = Mat4::perspective_rh(LIGHT_FOV_Y, ONE, LIGHT_Z_NEAR, LIGHT_Z_FAR);
        let matrix = projection.mul_mat4(&view);
        assert(matrix@ == mat4_product(projection@, light_view(self@, model@)));
        matrix
    }

    /// The light as a camera for its shadow pass: its view-projection
    /// matrix under `model`, and its position as a point.
    pub fn to_camera_uniform(&self, model: Mat4) -> (uniform: CameraUniform)
        ensures
            uniform@.position == self@.pos.push(ONE),
            uniform.position@ == seq![self.pos.x, self.pos.y, self.pos.z, ONE],
            is_light_matrix(uniform@.view_proj, self@, model@),
    {
        CameraUniform::assemble(self.calculate_matrix(model), self.pos)
    }
}

/// The texture of the shadow map: square, with one layer for each light
/// that a scene may hold at most.
pub open spec fn shadow_map_descriptor(usages: Option<TextureUsages>) -> TextureDescriptorView {
    TextureDescriptorView {
        label: "Shadow Map"@,
        size: Extent3d { width: 2048, height: 2048, depth_or_array_layers: 3 },
        mip_level_count: 1,
        sample_count: 1,
        dimension: TextureDimension::D2,
        format: TextureFormat::Rgba32Float,
        usage: match usages {
            Some(usages) => usages,
            None => TextureUsages {
                copy_src: true,
                copy_dst: false,
                texture_binding: true,
                storage_binding: true,
                render_attachment: true,
            },
        },
    }
}

/// The sampler of the shadow map: it reads the nearest texel and keeps to
/// the edge outside the map.
pub open spec fn shadow_sampler_descriptor() -> SamplerDescriptor {
    SamplerDescriptor {
        address_mode_u: AddressMode::ClampToEdge,
        address_mode_v: AddressMode::ClampToEdge,
        address_mode_w: AddressMode::ClampToEdge,
        mag_filter: FilterMode::Nearest,
        min_filter: FilterMode::Nearest,
        mipmap_filter: FilterMode::Nearest,
        compare: None,
    }
}

/// The view of the whole shadow map.
pub open spec fn shadow_map_view_descriptor() -> TextureViewDescriptorView {
    TextureViewDescriptorView {
        label: "Shadow Map View"@,
        format: None,
        dimension: None,
        aspect: TextureAspect::All,
        base_mip_level: 0,
        mip_level_count: None,
        base_array_layer: 0,
        array_layer_count: None,
    }
}

impl ShadowMap {
    /// The most lights that a scene may hold.
    pub const MAX_LIGHTS: u32 = 3;

    /// The format of the shadow map: four single-precision numbers to a
    /// texel.
    pub const DEPTH_FORMAT: TextureFormat = TextureFormat::Rgba32Float;

    /// Width and height of the shadow map.
    pub const SHADOW_MAP_SIZE: u32 = 2048;

    /// Asks the device for a shadow map: its texture, then its sampler,
    /// then a view of all its layers. Without `usages` the texture can be
    /// drawn into, bound as a texture or as storage, and copied from.
    /// Fails, and asks for nothing, where the device has fewer than three
    /// handles left.
    pub fn create_shadow_map(device: &mut Device, usages: Option<TextureUsages>) -> (map: Result<
        ShadowMap,
        SceneError,
    >)
        ensures
            match map {
                Ok(map) => {
                    &&& old(device)@.remaining() >= 3
                    &&& map.texture == (Texture { id: old(device)@.next_id, array_layers: 3 })
                    &&& map.sampler.id == old(device)@.next_id + 1
                    &&& map.view.id == old(device)@.next_id + 2
                    &&& final(device)@ == old(device)@.after(
                        1,
                        DeviceCommandView::CreateTexture {
                            texture: map.texture,
                            descriptor: shadow_map_descriptor(usages),
                        },
                    ).after(
                        1,
                        DeviceCommandView::CreateSampler {
                            sampler: map.sampler,
                            descriptor: shadow_sampler_descriptor(),
                        },
                    ).after(
                        1,
                        DeviceCommandView::CreateTextureView {
                            view: map.view,
                            texture: map.texture,
                            descriptor: shadow_map_view_descriptor(),
                        },
                    )
                },
                Err(e) => e == SceneError::ResourceExhaustion && old(device)@.remaining() < 3 && final(device)@
                    == old(device)@,
            },
    {
        if device.remaining() < 3 {
            return Err(SceneError::ResourceExhaustion);
        }
        let texture = device.create_texture(
            TextureDescriptor {
                label: String::from_str("Shadow Map"),
                size: Extent3d {
                    width: Self::SHADOW_MAP_SIZE,
                    height: Self::SHADOW_MAP_SIZE,
                    depth_or_array_layers: Self::MAX_LIGHTS,
                },
                mip_level_count: 1,
                sample_count: 1,
                dimension: TextureDimension::D2,
                format: Self::DEPTH_FORMAT,
                usage: match usages {
                    Some(usages) => usages,
                    None => TextureUsages {
                        copy_src: true,
                        copy_dst: false,
                        texture_binding: true,
                        storage_binding: true,
                        render_attachment: true,
                    },
                },
            },
        );
        let sampler = device.create_sampler(
            SamplerDescriptor {
                address_mode_u: AddressMode::ClampToEdge,
                address_mode_v: AddressMode::ClampToEdge,
                address_mode_w: AddressMode::ClampToEdge,
                mag_filter: FilterMode::Nearest,
                min_filter: FilterMode::Nearest,
                mipmap_filter: FilterMode::Nearest,
                compare: None,
            },
        );
        let view = device.create_texture_view(
            &texture,
            TextureViewDescriptor {
                label: String::from_str("Shadow Map View"),
                format: None,
                dimension: None,
                aspect: TextureAspect::All,
                base_mip_level: 0,
                mip_level_count: None,
                base_array_layer: 0,
                array_layer_count: None,
            },
        );
        Ok(ShadowMap { texture, view, sampler })
    }
}

} // verus!
