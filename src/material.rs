use vstd::prelude::*;

verus! {

/// How the alpha channel of a material is read.
#[derive(Clone, Copy, Debug, PartialEq, Eq, Structural)]
pub enum AlphaMode {
    Opaque,
    Mask,
    Blend,
}

/// The texture references and flags of one surface material. Every texture
/// reference is an index into the texture list of the model that owns the
/// material, until the material is merged into a scene; from then on it
/// indexes the scene-global texture map.
pub struct MeshMaterial {
    pub name: String,
    pub alpha_mode: AlphaMode,
    pub double_sided: bool,
    pub unlit: bool,
    pub base_color_texture_index: Option<u8>,
    pub emissive_texture_index: Option<u8>,
    pub metallic_roughness_texture_index: Option<u8>,
    pub normal_texture_index: Option<u8>,
    pub occlusion_texture_index: Option<u8>,
    pub specular_color_texture_index: Option<u8>,
    pub specular_texture_index: Option<u8>,
    pub specular_diffuse_texture_index: Option<u8>,
    pub specular_glossiness_texture_index: Option<u8>,
    pub transmission_texture_index: Option<u8>,
    pub vol_thickness_texture_index: Option<u8>,
}

/// The integer part of the GPU-side material record: each texture slot as
/// an index (0 where the material has none) and the unlit flag as 0 or 1.
#[derive(Clone, Copy, Debug, PartialEq, Eq, Structural)]
pub struct GpuMaterial {
    pub base_color_texture_index: u8,
    pub emissive_texture_index: u8,
    pub metallic_roughness_texture_index: u8,
    pub normal_texture_index: u8,
    pub occlusion_texture_index: u8,
    pub specular_color_texture_index: u8,
    pub specular_texture_index: u8,
    pub specular_diffuse_texture_index: u8,
    pub specular_glossiness_texture_index: u8,
    pub transmission_texture_index: u8,
    pub unlit: u8,
    pub vol_thickness_texture_index: u8,
}

/// A texture reference moved by `offset` slots.
pub open spec fn shifted(index: Option<u8>, offset: u8) -> Option<u8> {
    match index {
        Some(i) => Some((i + offset) as u8),
        None => None,
    }
}

/// Whether a texture reference can be moved by `offset` slots and still
/// fit in one byte.
pub open spec fn shift_fits(index: Option<u8>, offset: u8) -> bool {
    match index {
        Some(i) => i + offset <= u8::MAX,
        None => true,
    }
}

pub open spec fn index_or_zero(index: Option<u8>) -> u8 {
    match index {
        Some(i) => i,
        None => 0,
    }
}

impl MeshMaterial {
    /// All texture references, in a fixed order.
    pub open spec fn texture_slots(&self) -> Seq<Option<u8>> {
        seq![
            self.base_color_texture_index,
            self.emissive_texture_index,
            self.metallic_roughness_texture_index,
            self.normal_texture_index,
            self.occlusion_texture_index,
            self.specular_color_texture_index,
            self.specular_texture_index,
            self.specular_diffuse_texture_index,
            self.specular_glossiness_texture_index,
            self.transmission_texture_index,
            self.vol_thickness_texture_index,
        ]
    }

    pub open spec fn can_shift(&self, offset: u8) -> bool {
        forall|j: int| 0 <= j < self.texture_slots().len() ==> shift_fits(#[trigger] self.texture_slots()[j], offset)
    }

    /// Everything but the texture references.
    pub open spec fn same_flags(&self, other: &MeshMaterial) -> bool {
        &&& self.name@ == other.name@
        &&& self.alpha_mode == other.alpha_mode
        &&& self.double_sided == other.double_sided
        &&& self.unlit == other.unlit
    }

    /// `self` is `old` with every present texture reference moved by
    /// `offset`.
    pub open spec fn is_shift_of(&self, old: &MeshMaterial, offset: u8) -> bool {
        &&& self.same_flags(old)
        &&& self.texture_slots().len() == old.texture_slots().len()
        &&& forall|j: int|
            0 <= j < old.texture_slots().len() ==> #[trigger] self.texture_slots()[j] == shifted(
                old.texture_slots()[j],
                offset,
            )
    }

    /// A copy of this material.
    pub fn copy(&self) -> (r: MeshMaterial)
        ensures
            r.same_flags(self),
            r.texture_slots() == self.texture_slots(),
    {
        MeshMaterial {
            name: self.name.clone(),
            alpha_mode: self.alpha_mode,
            double_sided: self.double_sided,
            unlit: self.unlit,
            base_color_texture_index: self.base_color_texture_index,
            emissive_texture_index: self.emissive_texture_index,
            metallic_roughness_texture_index: self.metallic_roughness_texture_index,
            normal_texture_index: self.normal_texture_index,
            occlusion_texture_index: self.occlusion_texture_index,
            specular_color_texture_index: self.specular_color_texture_index,
            specular_texture_index: self.specular_texture_index,
            specular_diffuse_texture_index: self.specular_diffuse_texture_index,
            specular_glossiness_texture_index: self.specular_glossiness_texture_index,
            transmission_texture_index: self.transmission_texture_index,
            vol_thickness_texture_index: self.vol_thickness_texture_index,
        }
    }

    /// Moves every present texture reference by `scene_tex_arr_len`, the
    /// number of textures the scene held before this material's model was
    /// merged.
    pub fn update_texture_indexs(&mut self, scene_tex_arr_len: u8)
        requires
            old(self).can_shift(scene_tex_arr_len),
        ensures
            final(self).is_shift_of(old(self), scene_tex_arr_len),
    {
        proof {
            let slots = self.texture_slots();
            assert forall|j: int| 0 <= j < slots.len() implies shift_fits(#[trigger] slots[j], scene_tex_arr_len) by {}
        }
        self.base_color_texture_index = shift_index(self.base_color_texture_index, scene_tex_arr_len);
        self.emissive_texture_index = shift_index(self.emissive_texture_index, scene_tex_arr_len);
        self.metallic_roughness_texture_index = shift_index(
            self.metallic_roughness_texture_index,
            scene_tex_arr_len,
        );
        self.normal_texture_index = shift_index(self.normal_texture_index, scene_tex_arr_len);
        self.occlusion_texture_index = shift_index(self.occlusion_texture_index, scene_tex_arr_len);
        self.specular_color_texture_index = shift_index(
            self.specular_color_texture_index,
            scene_tex_arr_len,
        );
        self.specular_texture_index = shift_index(self.specular_texture_index, scene_tex_arr_len);
        self.specular_diffuse_texture_index = shift_index(
            self.specular_diffuse_texture_index,
            scene_tex_arr_len,
        );
        self.specular_glossiness_texture_index = shift_index(
            self.specular_glossiness_texture_index,
            scene_tex_arr_len,
        );
        self.transmission_texture_index = shift_index(
            self.transmission_texture_index,
            scene_tex_arr_len,
        );
        self.vol_thickness_texture_index = shift_index(
            self.vol_thickness_texture_index,
            scene_tex_arr_len,
        );
        assert(self.texture_slots() =~= old(self).texture_slots().map_values(
            |slot: Option<u8>| shifted(slot, scene_tex_arr_len),
        ));
    }

    /// The GPU record of this material: each texture slot as its index, or
    /// 0 where the slot is empty, and the unlit flag as 0 or 1.
    pub open spec fn gpu_material(&self) -> GpuMaterial {
        GpuMaterial {
            base_color_texture_index: index_or_zero(self.base_color_texture_index),
            emissive_texture_index: index_or_zero(self.emissive_texture_index),
            metallic_roughness_texture_index: index_or_zero(self.metallic_roughness_texture_index),
            normal_texture_index: index_or_zero(self.normal_texture_index),
            occlusion_texture_index: index_or_zero(self.occlusion_texture_index),
            specular_color_texture_index: index_or_zero(self.specular_color_texture_index),
            specular_texture_index: index_or_zero(self.specular_texture_index),
            specular_diffuse_texture_index: index_or_zero(self.specular_diffuse_texture_index),
            specular_glossiness_texture_index: index_or_zero(self.specular_glossiness_texture_index),
            transmission_texture_index: index_or_zero(self.transmission_texture_index),
            unlit: if self.unlit {
                1
            } else {
                0
            },
            vol_thickness_texture_index: index_or_zero(self.vol_thickness_texture_index),
        }
    }

    pub fn to_gpu_material(&self) -> (r: GpuMaterial)
        ensures
            r == self.gpu_material(),
    {
        GpuMaterial {
            base_color_texture_index: unwrap_index(self.base_color_texture_index),
            emissive_texture_index: unwrap_index(self.emissive_texture_index),
            metallic_roughness_texture_index: unwrap_index(self.metallic_roughness_texture_index),
            normal_texture_index: unwrap_index(self.normal_texture_index),
            occlusion_texture_index: unwrap_index(self.occlusion_texture_index),
            specular_color_texture_index: unwrap_index(self.specular_color_texture_index),
            specular_texture_index: unwrap_index(self.specular_texture_index),
            specular_diffuse_texture_index: unwrap_index(self.specular_diffuse_texture_index),
            specular_glossiness_texture_index: unwrap_index(
                self.specular_glossiness_texture_index,
            ),
            transmission_texture_index: unwrap_index(self.transmission_texture_index),
            unlit: if self.unlit {
                1
            } else {
                0
            },
            vol_thickness_texture_index: unwrap_index(self.vol_thickness_texture_index),
        }
    }
}

fn shift_index(index: Option<u8>, offset: u8) -> (r: Option<u8>)
    requires
        shift_fits(index, offset),
    ensures
        r == shifted(index, offset),
{
    match index {
        Some(i) => Some(i + offset),
        None => None,
    }
}

fn unwrap_index(index: Option<u8>) -> (r: u8)
    ensures
        r == index_or_zero(index),
{
    match index {
        Some(i) => i,
        None => 0,
    }
}

} // verus!
