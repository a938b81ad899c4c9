//! The camera as the shaders read it.

use vstd::prelude::*;
use crate::device::{BindGroupLayoutDescriptor, BindGroupLayoutDescriptorView, Device, DeviceCommandView};
use crate::error::SceneError;
use crate::gpu::{BindGroupLayout, BindGroupLayoutEntry, BindingType, BufferBindingType, ShaderStages};
use crate::math::{numbers, push_words, Mat4, Vec3, ONE};

verus! {

/// A camera as the shaders read it: its view-projection matrix and its
/// position as a point of four numbers.
#[derive(Clone, Copy, Debug)]
pub struct CameraUniform {
    pub view_proj: Mat4,
    pub position: [u32; 4],
}

/// The numbers of a camera uniform.
pub struct CameraUniformView {
    pub view_proj: Seq<u32>,
    pub position: Seq<u32>,
}

impl View for CameraUniform {
    type V = CameraUniformView;

    open spec fn view(&self) -> CameraUniformView {
        CameraUniformView { view_proj: self.view_proj@, position: numbers(self.position@) }
    }
}

/// The twenty words that the uniform of a camera takes in a buffer: the
/// matrix, column by column, then the position.
pub open spec fn camera_words(uniform: CameraUniform) -> Seq<u32> {
    uniform.view_proj.cols@ + uniform.position@
}

/// The layout of the bind group of a camera: one uniform buffer, seen by
/// the vertex and the fragment stage.
pub open spec fn camera_layout_descriptor() -> BindGroupLayoutDescriptorView {
    BindGroupLayoutDescriptorView {
        label: "camera_bind_group_layout"@,
        entries: seq![
            BindGroupLayoutEntry {
                binding: 0,
                visibility: ShaderStages { vertex: true, fragment: true, compute: false },
                ty: BindingType::Buffer {
                    ty: BufferBindingType::Uniform,
                    has_dynamic_offset: false,
                    min_binding_size: None,
                },
                count: None,
            },
        ],
    }
}

impl CameraUniform {
    /// The uniform of a camera that stands at `eye` and sees through
    /// `view_proj`: the matrix, and the position as a point.
    pub fn assemble(view_proj: Mat4, eye: Vec3) -> (uniform: CameraUniform)
        ensures
            uniform.view_proj == view_proj,
            uniform.position@ == seq![eye.x, eye.y, eye.z, ONE],
            uniform@ == (CameraUniformView { view_proj: view_proj@, position: eye@.push(ONE) }),
    {
        let uniform = CameraUniform { view_proj, position: [eye.x, eye.y, eye.z, ONE] };
        assert(uniform.position@ =~= seq![eye.x, eye.y, eye.z, ONE]);
        assert(numbers(uniform.position@) =~= eye@.push(ONE));
        uniform
    }

    /// Brings the uniform up to date with a camera that stands at `eye`
    /// and sees through `view_proj`.
    pub fn update(&mut self, view_proj: Mat4, eye: Vec3)
        ensures
            final(self).view_proj == view_proj,
            final(self).position@ == seq![eye.x, eye.y, eye.z, ONE],
            final(self)@ == (CameraUniformView { view_proj: view_proj@, position: eye@.push(ONE) }),
    {
        *self = Self::assemble(view_proj, eye);
    }

    /// The words that the uniform takes in a buffer, each four bytes wide.
    pub fn words(&self) -> (words: Vec<u32>)
        ensures
            words@ == camera_words(*self),
    {
        let mut words: Vec<u32> = Vec::new();
        push_words(&mut words, self.view_proj.cols.as_slice());
        push_words(&mut words, self.position.as_slice());
        words
    }

    /// Asks the device for the layout of the bind group of a camera.
    /// Fails, and asks for nothing, where the device has no handle left.
    pub fn get_bind_group_layout(device: &mut Device) -> (layout: Result<BindGroupLayout, SceneError>)
        ensures
            match layout {
                Ok(layout) => {
                    &&& old(device)@.remaining() >= 1
                    &&& layout.id == old(device)@.next_id
                    &&& final(device)@ == old(device)@.after(
                        1,
                        DeviceCommandView::CreateBindGroupLayout { layout, descriptor: camera_layout_descriptor() },
                    )
                },
                Err(e) => e == SceneError::ResourceExhaustion && old(device)@.remaining() == 0 && final(device)@
                    == old(device)@,
            },
    {
        if device.remaining() == 0 {
            return Err(SceneError::ResourceExhaustion);
        }
        let mut entries: Vec<BindGroupLayoutEntry> = Vec::new();
        entries.push(
            BindGroupLayoutEntry {
                binding: 0,
                visibility: ShaderStages { vertex: true, fragment: true, compute: false },
                ty: BindingType::Buffer {
                    ty: BufferBindingType::Uniform,
                    has_dynamic_offset: false,
                    min_binding_size: None,
                },
                count: None,
            },
        );
        let descriptor = BindGroupLayoutDescriptor { label: String::from_str("camera_bind_group_layout"), entries };
        assert(descriptor@.entries =~= camera_layout_descriptor().entries);
        Ok(device.create_bind_group_layout(descriptor))
    }
}

} // verus!
