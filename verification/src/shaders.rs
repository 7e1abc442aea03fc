//! Texture-unit allocation and uniform marshalling.
//!
//! Shader-uniform sampler bindings share one texture-unit counter per
//! top-level framebuffer draw: the counter is reset exactly once per such
//! draw and every texture bound afterwards takes the next unit, so the
//! units of one draw never collide.  Here the counter is an explicit value
//! passed through the call graph, and the material and light uniform
//! values handed to the shaders are computed exactly; in particular a
//! spotlight that is off contributes zero ambient, diffuse and specular
//! colors.

use vstd::prelude::*;

use crate::algebra::Vec3w;
use crate::fbits::{f32_cos, F32_ZERO};
use crate::lighting::{spec_gated, spec_zero3, DirectionalLight, PointLight, Spotlight};
use crate::textures::{Material, Texture2D};

verus! {

/// The shared texture-unit counter: reset once per top-level draw,
/// incremented by every texture binding within it.
pub struct TexUnits {
    pub count: u32,
}

impl TexUnits {
    /// A fresh counter at unit zero.
    pub fn new() -> (r: TexUnits)
        ensures
            r.count == 0,
    {
        TexUnits { count: 0 }
    }

    /// The current unit count.
    pub fn tex_count(&self) -> (r: u32)
        ensures
            r == self.count,
    {
        self.count
    }

    /// Take the next texture unit.
    pub fn increment_tex_count(&mut self) -> (r: u32)
        requires
            old(self).count < u32::MAX,
        ensures
            r == old(self).count,
            final(self).count == old(self).count + 1,
    {
        let r = self.count;
        self.count = self.count + 1;
        r
    }

    /// Reset the counter for the next top-level draw.
    pub fn reset_tex_count(&mut self)
        ensures
            final(self).count == 0,
    {
        self.count = 0;
    }
}

/// Which material slot a texture binding fills.
#[derive(Clone, Copy, PartialEq, Eq, Structural, Debug)]
pub enum MaterialSlot {
    Diffuse,
    Specular,
}

/// One texture binding of a material: the texture unit it takes, the slot
/// and index it fills, and the texture handle -- or a placeholder where the
/// material has no texture for the slot, so that the shader's texture
/// arrays never index out of bounds.
#[derive(Clone, Copy, PartialEq, Eq, Structural, Debug)]
pub struct TexBinding {
    pub unit: u32,
    pub slot: MaterialSlot,
    pub index: usize,
    pub texture: u32,
    pub placeholder: bool,
}

/// The shader-facing values of one material.
pub struct MaterialUniforms {
    pub bindings: Vec<TexBinding>,
    pub shininess: u32,
    pub loaded_diffuse: u32,
    pub loaded_specular: u32,
}

/// The texture bindings of one slot list: one binding per texture, on
/// consecutive units from `base`; a single placeholder on `base` where the
/// list is empty.
pub open spec fn spec_slot_bindings(
    textures: Seq<Texture2D>,
    slot: MaterialSlot,
    base: u32,
) -> Seq<TexBinding> {
    if textures.len() == 0 {
        seq![
            TexBinding { unit: base, slot, index: 0, texture: 0, placeholder: true },
        ]
    } else {
        Seq::new(
            textures.len(),
            |i: int|
                TexBinding {
                    unit: (base + i) as u32,
                    slot,
                    index: i as usize,
                    texture: textures[i].id,
                    placeholder: false,
                },
        )
    }
}

/// How many units one slot list takes.
pub open spec fn spec_slot_units(textures: Seq<Texture2D>) -> int {
    if textures.len() == 0 {
        1
    } else {
        textures.len() as int
    }
}

/// Bind one slot list on consecutive units.
fn slot_bindings(
    units: &mut TexUnits,
    textures: &Vec<Texture2D>,
    slot: MaterialSlot,
    out: &mut Vec<TexBinding>,
)
    requires
        old(units).count + spec_slot_units(textures@) <= u32::MAX,
    ensures
        final(out)@ == old(out)@ + spec_slot_bindings(textures@, slot, old(units).count),
        final(units).count == old(units).count + spec_slot_units(textures@),
{
    if textures.len() == 0 {
        let unit = units.increment_tex_count();
        out.push(TexBinding { unit, slot, index: 0, texture: 0, placeholder: true });
        proof {
            assert(final(out)@ =~= old(out)@ + spec_slot_bindings(textures@, slot, old(units).count));
        }
    } else {
        let mut i: usize = 0;
        while i < textures.len()
            invariant
                0 <= i <= textures@.len(),
                textures@.len() > 0,
                old(units).count + textures@.len() <= u32::MAX,
                units.count == old(units).count + i,
                out@ == old(out)@ + spec_slot_bindings(textures@, slot, old(units).count).take(
                    i as int,
                ),
            decreases textures@.len() - i,
        {
            let unit = units.increment_tex_count();
            out.push(
                TexBinding { unit, slot, index: i, texture: textures[i].id, placeholder: false },
            );
            proof {
                let full = spec_slot_bindings(textures@, slot, old(units).count);
                assert(full.take(i + 1 as int) =~= full.take(i as int).push(full[i as int]));
                assert(out@ =~= old(out)@ + full.take(i + 1 as int));
            }
            i += 1;
        }
        proof {
            let full = spec_slot_bindings(textures@, slot, old(units).count);
            assert(full.take(textures@.len() as int) =~= full);
        }
    }
}

/// The shader-facing values of a material: its diffuse bindings, then its
/// specular bindings, on consecutive texture units starting at the counter;
/// an empty slot gets one placeholder binding.  The loaded counts never
/// drop below one, matching the placeholder.
pub fn set_material(units: &mut TexUnits, material: &Material) -> (r: MaterialUniforms)
    requires
        old(units).count + spec_slot_units(material.spec_diffuse()) + spec_slot_units(
            material.spec_specular(),
        ) <= u32::MAX,
    ensures
        r.bindings@ == spec_slot_bindings(
            material.spec_diffuse(),
            MaterialSlot::Diffuse,
            old(units).count,
        ) + spec_slot_bindings(
            material.spec_specular(),
            MaterialSlot::Specular,
            (old(units).count + spec_slot_units(material.spec_diffuse())) as u32,
        ),
        final(units).count == old(units).count + spec_slot_units(material.spec_diffuse())
            + spec_slot_units(material.spec_specular()),
        r.shininess == material.spec_shininess(),
        r.loaded_diffuse == if material.spec_diffuse().len() == 0 {
            1int
        } else {
            material.spec_diffuse().len() as int
        },
        r.loaded_specular == if material.spec_specular().len() == 0 {
            1int
        } else {
            material.spec_specular().len() as int
        },
        forall|i: int|
            0 <= i < r.bindings@.len() ==> (#[trigger] r.bindings@[i]).unit == old(units).count + i,
    {
    let mut bindings: Vec<TexBinding> = Vec::new();
    slot_bindings(units, material.get_diffuse_maps(), MaterialSlot::Diffuse, &mut bindings);
    slot_bindings(units, material.get_specular_maps(), MaterialSlot::Specular, &mut bindings);
    let dlen = material.get_diffuse_maps().len();
    let slen = material.get_specular_maps().len();
    let loaded_diffuse: u32 = if dlen == 0 {
        1
    } else {
        if dlen > u32::MAX as usize {
            u32::MAX
        } else {
            dlen as u32
        }
    };
    let loaded_specular: u32 = if slen == 0 {
        1
    } else {
        if slen > u32::MAX as usize {
            u32::MAX
        } else {
            slen as u32
        }
    };
    proof {
        let d = spec_slot_bindings(material.spec_diffuse(), MaterialSlot::Diffuse, old(units).count);
        let s = spec_slot_bindings(
            material.spec_specular(),
            MaterialSlot::Specular,
            (old(units).count + spec_slot_units(material.spec_diffuse())) as u32,
        );
        assert forall|i: int| 0 <= i < (d + s).len() implies (#[trigger] (d + s)[i]).unit == old(
            units,
        ).count + i by {
            if i < d.len() {
                assert((d + s)[i] == d[i]);
            } else {
                assert((d + s)[i] == s[i - d.len()]);
            }
        }
    }
    MaterialUniforms {
        bindings,
        shininess: material.get_shininess(),
        loaded_diffuse,
        loaded_specular,
    }
}

/// The shader-facing values of the directional light.
pub struct DirLightUniforms {
    pub direction: Vec3w,
    pub ambient: Vec3w,
    pub diffuse: Vec3w,
    pub specular: Vec3w,
}

/// Marshal the directional light's uniforms.
pub fn set_directional_light(value: &DirectionalLight) -> (r: DirLightUniforms)
    ensures
        r.direction == value.dir,
        r.ambient == value.amb,
        r.diffuse == value.diff,
        r.specular == value.specular,
{
    DirLightUniforms {
        direction: value.dir,
        ambient: value.amb,
        diffuse: value.diff,
        specular: value.specular,
    }
}

/// The shader-facing values of one point light.
pub struct PointLightUniforms {
    pub position: Vec3w,
    pub constant: u32,
    pub linear_att: u32,
    pub quadratic: u32,
    pub ambient: Vec3w,
    pub diffuse: Vec3w,
    pub specular: Vec3w,
}

/// Marshal a point light's uniforms; the attenuation vector carries the
/// constant, linear and quadratic factors in its components.
pub fn set_point_light(value: &PointLight) -> (r: PointLightUniforms)
    ensures
        r.position == value.pos,
        r.constant == value.att.x,
        r.linear_att == value.att.y,
        r.quadratic == value.att.z,
        r.ambient == value.amb,
        r.diffuse == value.diff,
        r.specular == value.specular,
{
    PointLightUniforms {
        position: value.pos,
        constant: value.att.x,
        linear_att: value.att.y,
        quadratic: value.att.z,
        ambient: value.amb,
        diffuse: value.diff,
        specular: value.specular,
    }
}

/// The shader-facing values of the spotlight.
pub struct SpotlightUniforms {
    pub position: Vec3w,
    pub direction: Vec3w,
    pub constant: u32,
    pub linear_att: u32,
    pub quadratic: u32,
    pub ambient: Vec3w,
    pub diffuse: Vec3w,
    pub specular: Vec3w,
    pub phi_cos: u32,
    pub gamma_cos: u32,
}

/// Marshal the spotlight's uniforms.  A spotlight that is off hands the
/// shader the zero vector for its ambient, diffuse and specular colors,
/// whatever its other parameters hold; the cone cosines go through a cosine
/// of unspecified precision, so they are not pinned.
pub fn set_spotlight(value: &Spotlight) -> (r: SpotlightUniforms)
    ensures
        r.position == value.pos,
        r.direction == value.dir,
        r.constant == value.att.x,
        r.linear_att == value.att.y,
        r.quadratic == value.att.z,
        r.ambient == spec_gated(value.amb, value.on),
        r.diffuse == spec_gated(value.diff, value.on),
        r.specular == spec_gated(value.specular, value.on),
        !value.on ==> r.ambient == spec_zero3() && r.diffuse == spec_zero3() && r.specular
            == spec_zero3(),
{
    SpotlightUniforms {
        position: value.pos,
        direction: value.dir,
        constant: value.att.x,
        linear_att: value.att.y,
        quadratic: value.att.z,
        ambient: value.get_amb(),
        diffuse: value.get_diff(),
        specular: value.get_spec(),
        phi_cos: f32_cos(value.phi),
        gamma_cos: f32_cos(value.gamma),
    }
}

} // verus!
