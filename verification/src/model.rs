//! Vertices, meshes, materials and models.

use vstd::prelude::*;
use crate::device::{
    BindGroupDescriptor, BindGroupDescriptorView, BufferContents, BufferContentsView,
    BufferInitDescriptor, BufferInitDescriptorView, Device, DeviceCommandView, DeviceView,
};
use crate::error::SceneError;
use crate::gpu::{
    BindGroup, BindGroupEntry, BindGroupLayout, BindingResource, Buffer, BufferUsages, Sampler,
    Texture, TextureView, VertexAttribute, VertexBufferLayout, VertexFormat, VertexStepMode,
};
use crate::math::{numbers, point_image, push_words, Mat4, Vec3, ONE, ZERO};

verus! {

/// One corner of a mesh: its position, its texture coordinates and its
/// normal, each number held as its single-precision bit pattern.
#[derive(Clone, Copy, Debug)]
pub struct Vertex {
    pub pos: [u32; 3],
    pub tex_coords: [u32; 2],
    pub normal: [u32; 3],
}

/// The numbers of a vertex.
pub struct VertexView {
    pub pos: Seq<u32>,
    pub tex_coords: Seq<u32>,
    pub normal: Seq<u32>,
}

impl View for Vertex {
    type V = VertexView;

    open spec fn view(&self) -> VertexView {
        VertexView {
            pos: numbers(self.pos@),
            tex_coords: numbers(self.tex_coords@),
            normal: numbers(self.normal@),
        }
    }
}

impl VertexView {
    /// The vertex moved by the transform `m`: its position is the image of
    /// the old one; texture coordinates and normal stay.
    pub open spec fn transformed(self, m: Seq<u32>) -> VertexView {
        VertexView { pos: point_image(m, self.pos), tex_coords: self.tex_coords, normal: self.normal }
    }
}

/// The eight words that a vertex takes in a buffer: its position, its
/// texture coordinates, its normal.
pub open spec fn vertex_words(vertex: Vertex) -> Seq<u32> {
    vertex.pos@ + vertex.tex_coords@ + vertex.normal@
}

/// The words that a list of vertices takes in a buffer: those of each
/// vertex in turn.
pub open spec fn vertices_words(vertices: Seq<Vertex>) -> Seq<u32>
    decreases vertices.len(),
{
    if vertices.len() == 0 {
        Seq::empty()
    } else {
        vertices_words(vertices.drop_last()) + vertex_words(vertices.last())
    }
}

/// The numbers of each vertex of a list.
pub open spec fn vertex_views(vertices: Seq<Vertex>) -> Seq<VertexView> {
    vertices.map_values(|v: Vertex| v@)
}

/// Each vertex of a list moved by the transform `m`.
pub open spec fn transformed_views(vertices: Seq<VertexView>, m: Seq<u32>) -> Seq<VertexView> {
    vertices.map_values(|v: VertexView| v.transformed(m))
}

impl Vertex {
    /// Size of one vertex in a vertex buffer, in bytes.
    pub const STRIDE: u64 = 32;

    /// How a vertex lies in a vertex buffer: three numbers of position at
    /// the start, then two of texture coordinates, then three of normal, each
    /// number four bytes wide.
    pub fn desc() -> (layout: VertexBufferLayout)
        ensures
            layout.array_stride == 32,
            layout.step_mode == VertexStepMode::Vertex,
            layout.attributes@ == seq![
                VertexAttribute { format: VertexFormat::Float32x3, offset: 0, shader_location: 0 },
                VertexAttribute { format: VertexFormat::Float32x2, offset: 12, shader_location: 1 },
                VertexAttribute { format: VertexFormat::Float32x3, offset: 20, shader_location: 2 },
            ],
    {
        let mut attributes: Vec<VertexAttribute> = Vec::new();
        attributes.push(VertexAttribute { format: VertexFormat::Float32x3, offset: 0, shader_location: 0 });
        attributes.push(VertexAttribute { format: VertexFormat::Float32x2, offset: 12, shader_location: 1 });
        attributes.push(VertexAttribute { format: VertexFormat::Float32x3, offset: 20, shader_location: 2 });
        VertexBufferLayout { array_stride: Self::STRIDE, step_mode: VertexStepMode::Vertex, attributes }
    }

    /// The words that the vertex takes in a buffer, each four bytes wide,
    /// so that the attributes lie where [`Vertex::desc`] says.
    pub fn words(&self) -> (words: [u32; 8])
        ensures
            words@ == vertex_words(*self),
    {
        let words = [
            self.pos[0],
            self.pos[1],
            self.pos[2],
            self.tex_coords[0],
            self.tex_coords[1],
            self.normal[0],
            self.normal[1],
            self.normal[2],
        ];
        assert(words@ =~= vertex_words(*self));
        words
    }

    /// The vertex with its position moved by `matrix`.
    pub fn transformed(&self, matrix: &Mat4) -> (v: Vertex)
        ensures
            v@ == self@.transformed(matrix@),
            v.tex_coords == self.tex_coords,
            v.normal == self.normal,
    {
        let pos = matrix.transform_point3(Vec3::from_array(self.pos));
        Vertex { pos: pos.to_array(), tex_coords: self.tex_coords, normal: self.normal }
    }
}

/// The words of a vertex hold its attributes where the layout of a vertex
/// buffer says: the position from byte 0 on, the texture coordinates from
/// byte 12 on, the normal from byte 20 on, in 32 bytes in all.
pub proof fn lemma_vertex_layout(vertex: Vertex)
    ensures
        vertex_words(vertex).len() * 4 == Vertex::STRIDE,
        vertex_words(vertex).subrange(0, 3) == vertex.pos@,
        vertex_words(vertex).subrange(3, 5) == vertex.tex_coords@,
        vertex_words(vertex).subrange(5, 8) == vertex.normal@,
{
    let words = vertex_words(vertex);
    assert(words.subrange(0, 3) =~= vertex.pos@);
    assert(words.subrange(3, 5) =~= vertex.tex_coords@);
    assert(words.subrange(5, 8) =~= vertex.normal@);
}

/// The words that a list of vertices takes in a buffer.
pub fn words_of_vertices(vertices: &Vec<Vertex>) -> (words: Vec<u32>)
    ensures
        words@ == vertices_words(vertices@),
{
    let mut words: Vec<u32> = Vec::new();
    let mut i: usize = 0;
    assert(vertices@.take(0) =~= Seq::<Vertex>::empty());
    while i < vertices.len()
        invariant
            i <= vertices.len(),
            words@ == vertices_words(vertices@.take(i as int)),
        decreases vertices.len() - i,
    {
        let vertex = vertices[i].words();
        push_words(&mut words, vertex.as_slice());
        assert(vertices@.take(i + 1).drop_last() =~= vertices@.take(i as int));
        i += 1;
    }
    assert(vertices@.take(vertices.len() as int) =~= vertices@);
    words
}

/// Moves every vertex of a list by `matrix`.
pub fn transform_vertices(vertices: &Vec<Vertex>, matrix: &Mat4) -> (moved: Vec<Vertex>)
    ensures
        vertex_views(moved@) == transformed_views(vertex_views(vertices@), matrix@),
{
    let mut moved: Vec<Vertex> = Vec::new();
    let mut i: usize = 0;
    while i < vertices.len()
        invariant
            i <= vertices.len(),
            moved.len() == i,
            forall|j: int| 0 <= j < i ==> (#[trigger] moved[j])@ == vertices[j]@.transformed(matrix@),
        decreases vertices.len() - i,
    {
        moved.push(vertices[i].transformed(matrix));
        i += 1;
    }
    assert(vertex_views(moved@) =~= transformed_views(vertex_views(vertices@), matrix@));
    moved
}

/// How many vertices lie in a flat list of positions, three numbers each.
pub open spec fn vertex_count(positions: Seq<u32>) -> int {
    positions.len() as int / 3
}

/// Whether flat lists of normals and of texture coordinates reach for as
/// many vertices as the list of positions holds. A model without normals
/// has an empty list of them.
pub open spec fn arrays_suffice(positions: Seq<u32>, normals: Seq<u32>, texcoords: Seq<u32>) -> bool {
    &&& texcoords.len() >= 2 * vertex_count(positions)
    &&& normals.len() == 0 || normals.len() >= 3 * vertex_count(positions)
}

/// The vertex `i` of flat lists: its three numbers of position, its two of
/// texture coordinates, and its three of normal, or the zero vector where
/// the model has no normals.
pub open spec fn vertex_of(positions: Seq<u32>, normals: Seq<u32>, texcoords: Seq<u32>, i: int) -> (Seq<u32>, Seq<u32>, Seq<u32>) {
    (
        positions.subrange(3 * i, 3 * i + 3),
        texcoords.subrange(2 * i, 2 * i + 2),
        if normals.len() == 0 {
            seq![ZERO, ZERO, ZERO]
        } else {
            normals.subrange(3 * i, 3 * i + 3)
        },
    )
}

/// Gathers the vertices of a mesh from flat lists of positions, normals
/// and texture coordinates. Numbers of position beyond the last full
/// triple are left out. Fails where the texture coordinates, or the
/// normals of a model that has any, do not reach for all vertices.
pub fn assemble_vertices(positions: &[u32], normals: &[u32], texcoords: &[u32]) -> (vertices: Result<
    Vec<Vertex>,
    SceneError,
>)
    ensures
        match vertices {
            Ok(vertices) => {
                &&& arrays_suffice(positions@, normals@, texcoords@)
                &&& vertices.len() == vertex_count(positions@)
                &&& forall|i: int|
                    0 <= i < vertices.len() ==> ((#[trigger] vertices[i]).pos@, vertices[i].tex_coords@, vertices[i].normal@)
                        == vertex_of(positions@, normals@, texcoords@, i)
            },
            Err(e) => e == SceneError::MissingMeshData && !arrays_suffice(positions@, normals@, texcoords@),
        },
{
    let count = positions.len() / 3;
    if texcoords.len() / 2 < count {
        return Err(SceneError::MissingMeshData);
    }
    if normals.len() != 0 && normals.len() / 3 < count {
        return Err(SceneError::MissingMeshData);
    }
    let mut vertices: Vec<Vertex> = Vec::new();
    let mut i: usize = 0;
    while i < count
        invariant
            i <= count,
            count == vertex_count(positions@),
            3 * count <= positions.len(),
            2 * count <= texcoords.len(),
            normals.len() == 0 || 3 * count <= normals.len(),
            vertices.len() == i,
            forall|j: int|
                0 <= j < i ==> ((#[trigger] vertices[j]).pos@, vertices[j].tex_coords@, vertices[j].normal@)
                    == vertex_of(positions@, normals@, texcoords@, j),
        decreases count - i,
    {
        let pos = [positions[3 * i], positions[3 * i + 1], positions[3 * i + 2]];
        let tex_coords = [texcoords[2 * i], texcoords[2 * i + 1]];
        let normal = if normals.len() == 0 {
            [ZERO, ZERO, ZERO]
        } else {
            [normals[3 * i], normals[3 * i + 1], normals[3 * i + 2]]
        };
        assert(pos@ =~= positions@.subrange(3 * i, 3 * i + 3));
        assert(tex_coords@ =~= texcoords@.subrange(2 * i, 2 * i + 2));
        assert(normal@ =~= vertex_of(positions@, normals@, texcoords@, i as int).2);
        vertices.push(Vertex { pos, tex_coords, normal });
        i += 1;
    }
    Ok(vertices)
}

/// The colours of a material as a material file gives them; what the file
/// leaves out is `None`.
#[derive(Clone, Copy, Debug)]
pub struct ObjMaterial {
    pub ambient: Option<[u32; 3]>,
    pub diffuse: Option<[u32; 3]>,
    pub specular: Option<[u32; 3]>,
    pub shininess: Option<u32>,
    pub dissolve: Option<u32>,
}

/// A material as the shader reads it.
#[derive(Clone, Copy, Debug)]
pub struct MaterialUniform {
    pub ambient: [u32; 4],
    pub diffuse: [u32; 4],
    pub specular: [u32; 4],
    pub shininess: u32,
    pub dissolve: u32,
    pub padding: [u32; 2],
}

/// A material as the shader reads it, by the bit patterns of its numbers.
pub struct MaterialUniformView {
    pub ambient: Seq<u32>,
    pub diffuse: Seq<u32>,
    pub specular: Seq<u32>,
    pub shininess: u32,
    pub dissolve: u32,
    pub padding: Seq<u32>,
}

impl View for MaterialUniform {
    type V = MaterialUniformView;

    open spec fn view(&self) -> MaterialUniformView {
        MaterialUniformView {
            ambient: self.ambient@,
            diffuse: self.diffuse@,
            specular: self.specular@,
            shininess: self.shininess,
            dissolve: self.dissolve,
            padding: self.padding@,
        }
    }
}

/// The sixteen words that the uniform of a material takes in a buffer.
pub open spec fn material_words(uniform: MaterialUniformView) -> Seq<u32> {
    uniform.ambient + uniform.diffuse + uniform.specular + seq![uniform.shininess, uniform.dissolve]
        + uniform.padding
}

/// A colour of three numbers, or black where there is none, with a fourth
/// number zero.
pub open spec fn padded_color(color: Option<[u32; 3]>) -> Seq<u32> {
    match color {
        Some(c) => seq![c[0], c[1], c[2], ZERO],
        None => seq![ZERO, ZERO, ZERO, ZERO],
    }
}

fn pad_color(color: Option<[u32; 3]>) -> (padded: [u32; 4])
    ensures
        padded@ == padded_color(color),
{
    let padded = match color {
        Some(c) => [c[0], c[1], c[2], ZERO],
        None => [ZERO, ZERO, ZERO, ZERO],
    };
    assert(padded@ =~= padded_color(color));
    padded
}

impl MaterialUniform {
    /// The words that the uniform takes in a buffer, each four bytes wide.
    pub fn words(&self) -> (words: [u32; 16])
        ensures
            words@ == material_words(self@),
    {
        let words = [
            self.ambient[0],
            self.ambient[1],
            self.ambient[2],
            self.ambient[3],
            self.diffuse[0],
            self.diffuse[1],
            self.diffuse[2],
            self.diffuse[3],
            self.specular[0],
            self.specular[1],
            self.specular[2],
            self.specular[3],
            self.shininess,
            self.dissolve,
            self.padding[0],
            self.padding[1],
        ];
        assert(words@ =~= material_words(self@));
        words
    }

    /// The uniform of a material.
    pub fn from_tobj_material(material: &ObjMaterial) -> (u: MaterialUniform)
        ensures
            u@ == material_uniform(*material),
    {
        let padding = [ZERO, ZERO];
        assert(padding@ =~= seq![ZERO, ZERO]);
        MaterialUniform {
            ambient: pad_color(material.ambient),
            diffuse: pad_color(material.diffuse),
            specular: pad_color(material.specular),
            shininess: match material.shininess { Some(s) => s, None => ONE },
            dissolve: match material.dissolve { Some(d) => d, None => ONE },
            padding,
        }
    }
}

/// The texture of a material: the texture itself, a view of it and the
/// sampler to read it with.
#[derive(Clone, Copy, Debug)]
pub struct DiffuseTexture {
    pub texture: Texture,
    pub view: TextureView,
    pub sampler: Sampler,
}

/// A material: its colours, and its texture where it has one.
#[derive(Debug)]
pub struct Material {
    pub name: String,
    pub diffuse_texture: Option<DiffuseTexture>,
    pub material: ObjMaterial,
}

/// The buffer that holds the uniform of a material.
pub open spec fn material_buffer_descriptor(material: ObjMaterial) -> BufferInitDescriptorView {
    BufferInitDescriptorView {
        label: "Material Buffer"@,
        contents: BufferContentsView::Material(material_uniform(material)),
        usage: BufferUsages {
            vertex: false,
            index: false,
            uniform: true,
            storage: false,
            copy_src: false,
            copy_dst: true,
        },
    }
}

/// The uniform of a material: its three colours, black where one is
/// missing, each padded with zero; shininess and dissolve, one where
/// missing.
pub open spec fn material_uniform(material: ObjMaterial) -> MaterialUniformView {
    MaterialUniformView {
        ambient: padded_color(material.ambient),
        diffuse: padded_color(material.diffuse),
        specular: padded_color(material.specular),
        shininess: match material.shininess {
            Some(s) => s,
            None => ONE,
        },
        dissolve: match material.dissolve {
            Some(d) => d,
            None => ONE,
        },
        padding: seq![ZERO, ZERO],
    }
}

/// The bind group of a material with a texture: the view of the texture,
/// its sampler, and the buffer of the uniform.
pub open spec fn material_bind_group_descriptor(
    name: Seq<char>,
    layout: BindGroupLayout,
    texture: DiffuseTexture,
    buffer: Buffer,
) -> BindGroupDescriptorView {
    BindGroupDescriptorView {
        label: name,
        layout,
        entries: seq![
            BindGroupEntry { binding: 0, resource: BindingResource::TextureView(texture.view) },
            BindGroupEntry { binding: 1, resource: BindingResource::Sampler(texture.sampler) },
            BindGroupEntry { binding: 2, resource: BindingResource::Buffer { buffer, offset: 0, size: None } },
        ],
    }
}

impl Material {
    /// How many handles the device has to give for the bind group of the
    /// material.
    pub open spec fn handles_needed(&self) -> int {
        if self.diffuse_texture is Some {
            2
        } else {
            1
        }
    }

    /// What the device is asked for the bind group of the material, from
    /// the state `device` on: the buffer of its uniform; the bind group,
    /// where the material has a texture; and at last the buffer is let go.
    pub open spec fn bind_group_commands(&self, device: DeviceView, layout: BindGroupLayout) -> DeviceView {
        let buffer = Buffer { id: device.next_id };
        let with_buffer = device.after(
            1,
            DeviceCommandView::CreateBufferInit { buffer, descriptor: material_buffer_descriptor(self.material) },
        );
        let with_group = match self.diffuse_texture {
            Some(texture) => with_buffer.after(
                1,
                DeviceCommandView::CreateBindGroup {
                    bind_group: BindGroup { id: (device.next_id + 1) as u64 },
                    descriptor: material_bind_group_descriptor(self.name@, layout, texture, buffer),
                },
            ),
            None => with_buffer,
        };
        with_group.after(0, DeviceCommandView::Release { id: buffer.id })
    }

    /// Asks the device for the bind group of the material. A material
    /// without a texture has none: then only the buffer of its uniform is
    /// made and let go again. Fails, and asks for nothing, where the device
    /// has too few handles left.
    pub fn create_bind_group(&self, device: &mut Device, layout: &BindGroupLayout) -> (bind_group: Result<
        Option<BindGroup>,
        SceneError,
    >)
        ensures
            match bind_group {
                Ok(bind_group) => {
                    &&& old(device)@.remaining() >= self.handles_needed()
                    &&& final(device)@ == self.bind_group_commands(old(device)@, *layout)
                    &&& bind_group == match self.diffuse_texture {
                        Some(_) => Some(BindGroup { id: (old(device)@.next_id + 1) as u64 }),
                        None => None,
                    }
                },
                Err(e) => e == SceneError::ResourceExhaustion && old(device)@.remaining() < self.handles_needed()
                    && final(device)@ == old(device)@,
            },
    {
        let needed: u64 = if self.diffuse_texture.is_some() {
            2
        } else {
            1
        };
        if device.remaining() < needed {
            return Err(SceneError::ResourceExhaustion);
        }
        let material_uniform = MaterialUniform::from_tobj_material(&self.material);
        let material_buffer = device.create_buffer_init(
            BufferInitDescriptor {
                label: String::from_str("Material Buffer"),
                contents: BufferContents::Material(material_uniform),
                usage: BufferUsages {
                    vertex: false,
                    index: false,
                    uniform: true,
                    storage: false,
                    copy_src: false,
                    copy_dst: true,
                },
            },
        );
        let bind_group = match &self.diffuse_texture {
            Some(diffuse_texture) => {
                let mut entries: Vec<BindGroupEntry> = Vec::new();
                entries.push(
                    BindGroupEntry { binding: 0, resource: BindingResource::TextureView(diffuse_texture.view) },
                );
                entries.push(
                    BindGroupEntry { binding: 1, resource: BindingResource::Sampler(diffuse_texture.sampler) },
                );
                entries.push(
                    BindGroupEntry {
                        binding: 2,
                        resource: BindingResource::Buffer { buffer: material_buffer, offset: 0, size: None },
                    },
                );
                let descriptor = BindGroupDescriptor { label: self.name.clone(), layout: *layout, entries };
                assert(descriptor@.entries =~= material_bind_group_descriptor(
                    self.name@,
                    *layout,
                    *diffuse_texture,
                    material_buffer,
                ).entries);
                Some(device.create_bind_group(descriptor))
            },
            None => None,
        };
        device.release(material_buffer.id);
        Ok(bind_group)
    }
}

/// A mesh of a model: its corners, the indices of its triangles, and the
/// place of its material among the materials of the model.
#[derive(Debug)]
pub struct Mesh {
    pub name: String,
    pub vertices: Vec<Vertex>,
    pub indices: Vec<u32>,
    pub num_elements: u32,
    pub material: usize,
}

/// A model: its meshes and the materials that they name.
#[derive(Debug)]
pub struct Model {
    pub meshes: Vec<Mesh>,
    pub materials: Vec<Material>,
}

} // verus!
