//! Texture and material descriptors.
//!
//! A texture here is its GPU handle together with its role and source path;
//! creating, loading and binding the GPU object is the renderer's business.
//! A material is the lists of diffuse and specular textures plus a
//! shininess exponent.

use vstd::prelude::*;

verus! {

/// The role a texture plays in a material.
#[derive(Clone, Copy, PartialEq, Eq, Structural, Debug)]
pub enum TextureType {
    Diffuse,
    Specular,
    Attachment,
}

/// A 2D texture: its GPU handle, its role, the path it loads from (as
/// bytes, empty until known) and a solid fallback color for materials that
/// carry a color instead of an image.
#[derive(Debug, Clone)]
pub struct Texture2D {
    pub id: u32,
    pub ttype: TextureType,
    pub path: Vec<u8>,
    pub color: crate::algebra::Vec3w,
}

impl Texture2D {
    /// A texture descriptor around an already-generated GPU handle.
    pub fn new(id: u32, ttype: TextureType) -> (r: Texture2D)
        ensures
            r.id == id,
            r.ttype == ttype,
            r.path@ == Seq::<u8>::empty(),
            r.color == (crate::algebra::Vec3w {
                x: crate::fbits::F32_ZERO,
                y: crate::fbits::F32_ZERO,
                z: crate::fbits::F32_ZERO,
            }),
    {
        Texture2D {
            id,
            ttype,
            path: Vec::new(),
            color: crate::algebra::Vec3w {
                x: crate::fbits::F32_ZERO,
                y: crate::fbits::F32_ZERO,
                z: crate::fbits::F32_ZERO,
            },
        }
    }

    /// The GPU handle.
    pub fn get_id(&self) -> (r: u32)
        ensures
            r == self.id,
    {
        self.id
    }
}

/// A cube map: its GPU handle and its role.
#[derive(Debug, Clone, Copy)]
pub struct CubeMap {
    pub id: u32,
    pub ttype: TextureType,
}

impl CubeMap {
    /// A cube-map descriptor around an already-generated GPU handle.
    pub fn new(id: u32, ttype: TextureType) -> (r: CubeMap)
        ensures
            r.id == id,
            r.ttype == ttype,
    {
        CubeMap { id, ttype }
    }

    /// The GPU handle.
    pub fn get_id(&self) -> (r: u32)
        ensures
            r == self.id,
    {
        self.id
    }
}

/// A material: diffuse and specular texture lists and a shininess exponent.
#[derive(Debug, Clone)]
pub struct Material {
    diffuse: Vec<Texture2D>,
    specular: Vec<Texture2D>,
    shininess: u32,
}

impl Material {
    /// The diffuse texture list.
    pub closed spec fn spec_diffuse(&self) -> Seq<Texture2D> {
        self.diffuse@
    }

    /// The specular texture list.
    pub closed spec fn spec_specular(&self) -> Seq<Texture2D> {
        self.specular@
    }

    /// The shininess exponent pattern.
    pub closed spec fn spec_shininess(&self) -> u32 {
        self.shininess
    }

    /// A material from its parts.
    pub fn new(diffuse: Vec<Texture2D>, specular: Vec<Texture2D>, shininess: u32) -> (r: Material)
        ensures
            r.spec_diffuse() == diffuse@,
            r.spec_specular() == specular@,
            r.spec_shininess() == shininess,
    {
        Material { diffuse, specular, shininess }
    }

    /// The diffuse textures.
    pub fn get_diffuse_maps(&self) -> (r: &Vec<Texture2D>)
        ensures
            r@ == self.spec_diffuse(),
    {
        &self.diffuse
    }

    /// The specular textures.
    pub fn get_specular_maps(&self) -> (r: &Vec<Texture2D>)
        ensures
            r@ == self.spec_specular(),
    {
        &self.specular
    }

    /// The shininess exponent.
    pub fn get_shininess(&self) -> (r: u32)
        ensures
            r == self.spec_shininess(),
    {
        self.shininess
    }
}

} // verus!
