//! Imported models: flattening an asset file's node hierarchy into meshes.
//!
//! The asset-import library yields meshes, materials and a node hierarchy;
//! the loader flattens the hierarchy into a flat mesh list in depth-first
//! order, discarding the per-node transforms.  Vertices carry the imported
//! positions, normals where present, and texture coordinates with the
//! vertical axis flipped.  Material properties yield texture paths
//! (deduplicated against the already-loaded ones), a fallback solid color
//! where a slot has no texture, and the shininess exponent.

use vstd::prelude::*;

use crate::algebra::Vec3w;
use crate::fbits::F32_ZERO;
use crate::meshes::{BasicMesh, Vertex};
use crate::textures::{Material, Texture2D, TextureType};

verus! {

/// What a material property is about.
#[derive(Clone, Copy, PartialEq, Eq, Structural, Debug)]
pub enum TexSemantic {
    Diffuse,
    Specular,
    Other,
}

/// The payload of one material property.
#[derive(Clone, PartialEq, Eq, Debug)]
pub enum PropertyData {
    Floats(Vec<u32>),
    Text(Vec<u8>),
    OtherData,
}

/// One material property: its key, the texture slot it is about and its
/// payload.
#[derive(Clone, Debug)]
pub struct MaterialProperty {
    pub key: Vec<u8>,
    pub semantic: TexSemantic,
    pub data: PropertyData,
}

/// One imported material: its property list.
#[derive(Clone, Debug)]
pub struct ImportedMaterial {
    pub properties: Vec<MaterialProperty>,
}

/// One imported mesh: positions, optional normals and texture coordinates,
/// faces as index lists, and the material it uses.
#[derive(Clone, Debug)]
pub struct ImportedMesh {
    pub vertices: Vec<Vec3w>,
    pub normals: Vec<Vec3w>,
    pub tex_coords: Vec<Vec3w>,
    pub faces: Vec<Vec<u32>>,
    pub material_index: u32,
}

/// One node of the imported hierarchy: the meshes it references and its
/// children.
pub struct ImportedNode {
    pub meshes: Vec<u32>,
    pub children: Vec<ImportedNode>,
}

/// A whole imported scene.
pub struct ImportedScene {
    pub meshes: Vec<ImportedMesh>,
    pub materials: Vec<ImportedMaterial>,
    pub root: ImportedNode,
}

/// The mesh indices of a node subtree in depth-first order: the node's own
/// meshes, then each child's subtree in child order.
pub open spec fn spec_node_meshes(node: ImportedNode) -> Seq<u32>
    decreases node,
{
    node.meshes@ + spec_children_meshes(node.children@)
}

/// The mesh indices of a child list in order.
pub open spec fn spec_children_meshes(children: Seq<ImportedNode>) -> Seq<u32>
    decreases children,
{
    if children.len() == 0 {
        Seq::empty()
    } else {
        spec_node_meshes(children.first()) + spec_children_meshes(children.drop_first())
    }
}

/// The vertices an imported mesh yields: the imported position, the
/// imported normal where the mesh has normals, and the imported texture
/// coordinates with the vertical component's sign flipped where it has
/// them.
pub open spec fn spec_mesh_vertices(im: ImportedMesh) -> Seq<Vertex> {
    Seq::new(
        im.vertices@.len(),
        |i: int|
            Vertex {
                pos: im.vertices@[i],
                normal: if im.normals@.len() > 0 {
                    im.normals@[i]
                } else {
                    Vec3w { x: F32_ZERO, y: F32_ZERO, z: F32_ZERO }
                },
                tex_coords: if im.tex_coords@.len() > 0 {
                    Vec3w {
                        x: im.tex_coords@[i].x,
                        y: im.tex_coords@[i].y ^ 0x8000_0000u32,
                        z: F32_ZERO,
                    }
                } else {
                    Vec3w { x: F32_ZERO, y: F32_ZERO, z: F32_ZERO }
                },
            },
    )
}

/// The indices an imported mesh yields: its faces flattened in order.
pub open spec fn spec_mesh_indices(faces: Seq<Vec<u32>>) -> Seq<u32>
    decreases faces.len(),
{
    if faces.len() == 0 {
        Seq::empty()
    } else {
        spec_mesh_indices(faces.drop_last()) + faces.last()@
    }
}

/// Whether two byte strings hold the same bytes.
fn bytes_eq(a: &Vec<u8>, b: &[u8]) -> (r: bool)
    ensures
        r == (a@ == b@),
{
    if a.len() != b.len() {
        proof {
            assert(a@.len() != b@.len());
        }
        return false;
    }
    let mut i: usize = 0;
    while i < a.len()
        invariant
            0 <= i <= a@.len(),
            a@.len() == b@.len(),
            forall|j: int| 0 <= j < i ==> a@[j] == b@[j],
        decreases a@.len() - i,
    {
        if a[i] != b[i] {
            return false;
        }
        i += 1;
    }
    proof {
        assert(a@ =~= b@);
    }
    true
}

/// The first `Floats` payload under the key, or `None`.
pub open spec fn spec_first_floats(props: Seq<MaterialProperty>, key: Seq<u8>) -> Option<Seq<u32>>
    decreases props.len(),
{
    if props.len() == 0 {
        None
    } else if props.first().key@ == key && props.first().data is Floats {
        Some(props.first().data->Floats_0@)
    } else {
        spec_first_floats(props.drop_first(), key)
    }
}

/// The shininess a material's properties carry: the first float under the
/// shininess key, the zero pattern where there is none or it is empty.
pub open spec fn spec_shininess(props: Seq<MaterialProperty>) -> u32 {
    match spec_first_floats(props, spec_shininess_key()) {
        Some(d) => if d.len() > 0 {
            d[0]
        } else {
            F32_ZERO
        },
        None => F32_ZERO,
    }
}

/// The shininess property key, the bytes of `$mat.shininess`.
pub open spec fn spec_shininess_key() -> Seq<u8> {
    seq![36u8, 109, 97, 116, 46, 115, 104, 105, 110, 105, 110, 101, 115, 115]
}

/// The shininess property key as a value.
pub fn shininess_key() -> (r: Vec<u8>)
    ensures
        r@ == spec_shininess_key(),
{
    let r: Vec<u8> = vec![36u8, 109, 97, 116, 46, 115, 104, 105, 110, 105, 110, 101, 115, 115];
    proof {
        assert(r@ =~= spec_shininess_key());
    }
    r
}

/// The color a material's properties carry for a slot: the first three
/// floats under the slot's color key, the zero vector where there are none.
pub open spec fn spec_material_color(props: Seq<MaterialProperty>, key: Seq<u8>) -> Vec3w {
    match spec_first_floats(props, key) {
        Some(d) => if d.len() >= 3 {
            Vec3w { x: d[0], y: d[1], z: d[2] }
        } else {
            Vec3w { x: F32_ZERO, y: F32_ZERO, z: F32_ZERO }
        },
        None => Vec3w { x: F32_ZERO, y: F32_ZERO, z: F32_ZERO },
    }
}

/// Whether two slot semantics are the same.
fn same_semantic(a: TexSemantic, b: TexSemantic) -> (r: bool)
    ensures
        r == (a == b),
{
    match (a, b) {
        (TexSemantic::Diffuse, TexSemantic::Diffuse) => true,
        (TexSemantic::Specular, TexSemantic::Specular) => true,
        (TexSemantic::Other, TexSemantic::Other) => true,
        _ => false,
    }
}

/// A model imported from an asset file: its meshes in depth-first node
/// order, the directory its textures resolve against, and the texture paths
/// already loaded.
pub struct Model {
    pub meshes: Vec<BasicMesh>,
    pub directory: Vec<u8>,
    pub loaded_textures: Vec<Vec<u8>>,
}

impl Model {
    /// A model from an imported scene: the scene's node hierarchy flattened
    /// into a mesh list in depth-first order, with texture paths resolved
    /// against the given directory.
    pub fn new(directory: Vec<u8>, scene: &ImportedScene) -> (r: Model)
        requires
            spec_scene_wf(*scene),
            spec_node_wf(scene.root, scene.meshes@.len() as int),
        ensures
            r.directory@ == directory@,
            r.meshes@.len() == spec_node_meshes(scene.root).len(),
            forall|j: int|
                0 <= j < spec_node_meshes(scene.root).len() ==> {
                    let im = scene.meshes@[spec_node_meshes(scene.root)[j] as int];
                    &&& (#[trigger] r.meshes@[j]).vertices@ == spec_mesh_vertices(im)
                    &&& r.meshes@[j].indices@ == spec_mesh_indices(im.faces@)
                },
    {
        let mut model = Model { meshes: Vec::new(), directory, loaded_textures: Vec::new() };
        model.process_node(&scene.root, scene);
        proof {
            assert forall|j: int| 0 <= j < spec_node_meshes(scene.root).len() implies {
                let im = scene.meshes@[spec_node_meshes(scene.root)[j] as int];
                &&& (#[trigger] model.meshes@[j]).vertices@ == spec_mesh_vertices(im)
                &&& model.meshes@[j].indices@ == spec_mesh_indices(im.faces@)
            } by {
                assert(model.meshes@[0 + j].vertices@ == spec_mesh_vertices(
                    scene.meshes@[spec_node_meshes(scene.root)[j] as int],
                ));
                assert(model.meshes@[0 + j].indices@ == spec_mesh_indices(
                    scene.meshes@[spec_node_meshes(scene.root)[j] as int].faces@,
                ));
            }
        }
        model
    }

    /// Load the first floats under a key.
    fn first_floats(props: &Vec<MaterialProperty>, key: &Vec<u8>) -> (r: Option<Vec<u32>>)
        ensures
            r is Some <==> spec_first_floats(props@, key@) is Some,
            r is Some ==> r->0@ == spec_first_floats(props@, key@)->0,
    {
        let mut i: usize = 0;
        proof {
            assert(props@.skip(0) =~= props@);
        }
        while i < props.len()
            invariant
                0 <= i <= props@.len(),
                spec_first_floats(props@, key@) == spec_first_floats(
                    props@.skip(i as int),
                    key@,
                ),
            decreases props@.len() - i,
        {
            proof {
                assert(props@.skip(i as int).first() == props@[i as int]);
                assert(props@.skip(i as int).drop_first() =~= props@.skip(i + 1 as int));
            }
            let is_key = bytes_eq(&props[i].key, key.as_slice());
            if is_key {
                match &props[i].data {
                    PropertyData::Floats(d) => {
                        let mut out: Vec<u32> = Vec::new();
                        let mut j: usize = 0;
                        while j < d.len()
                            invariant
                                0 <= j <= d@.len(),
                                out@ == d@.take(j as int),
                            decreases d@.len() - j,
                        {
                            out.push(d[j]);
                            proof {
                                assert(d@.take(j + 1 as int) =~= d@.take(j as int).push(
                                    d@[j as int],
                                ));
                            }
                            j += 1;
                        }
                        proof {
                            assert(d@.take(d@.len() as int) =~= d@);
                        }
                        return Some(out);
                    },
                    _ => {},
                }
            }
            i += 1;
        }
        proof {
            assert(props@.skip(props@.len() as int) =~= Seq::<MaterialProperty>::empty());
        }
        None
    }

    /// The shininess exponent of a material.
    pub fn load_shininess(&self, mat: &ImportedMaterial) -> (r: u32)
        ensures
            r == spec_shininess(mat.properties@),
    {
        let key = shininess_key();
        match Model::first_floats(&mat.properties, &key) {
            Some(d) => {
                if d.len() > 0 {
                    d[0]
                } else {
                    F32_ZERO
                }
            },
            None => F32_ZERO,
        }
    }

    /// The solid fallback color of a material slot.
    pub fn load_material_color(&self, mat: &ImportedMaterial, typename: TextureType) -> (r: Vec3w)
        ensures
            r == spec_material_color(mat.properties@, spec_color_key(typename)),
    {
        let key = color_key(typename);
        match Model::first_floats(&mat.properties, &key) {
            Some(d) => {
                if d.len() >= 3 {
                    Vec3w { x: d[0], y: d[1], z: d[2] }
                } else {
                    Vec3w { x: F32_ZERO, y: F32_ZERO, z: F32_ZERO }
                }
            },
            None => Vec3w { x: F32_ZERO, y: F32_ZERO, z: F32_ZERO },
        }
    }

    /// The textures of a material slot: one texture per text property under
    /// the slot's semantic, its path the property's path joined against the
    /// model directory; a path already loaded is skipped, and every path
    /// handed out is recorded as loaded.
    pub fn load_material_textures(
        &mut self,
        mat: &ImportedMaterial,
        ttype: TexSemantic,
        typename: TextureType,
    ) -> (r: Vec<Texture2D>)
        ensures
            final(self).loaded_textures@.map_values(|v: Vec<u8>| v@) == old(
                self,
            ).loaded_textures@.map_values(|v: Vec<u8>| v@) + r@.map_values(
                |t: Texture2D| t.path@,
            ),
            forall|i: int|
                0 <= i < r@.len() ==> {
                    &&& (#[trigger] r@[i]).ttype == typename
                    &&& r@[i].id == 0
                    &&& exists|p: int|
                        0 <= p < mat.properties@.len() && (#[trigger] mat.properties@[p]).semantic
                            == ttype && mat.properties@[p].data is Text && r@[i].path@ == old(
                            self,
                        ).directory@ + seq![47u8] + mat.properties@[p].data->Text_0@
                },
            forall|i: int, j: int| 0 <= i < j < r@.len() ==> r@[i].path@ != r@[j].path@,
            forall|i: int|
                0 <= i < r@.len() ==> !old(self).loaded_textures@.map_values(
                    |v: Vec<u8>| v@,
                ).contains((#[trigger] r@[i]).path@),
            final(self).directory@ == old(self).directory@,
            final(self).meshes@ == old(self).meshes@,
    {
        let mut textures: Vec<Texture2D> = Vec::new();
        let mut i: usize = 0;
        while i < mat.properties.len()
            invariant
                0 <= i <= mat.properties@.len(),
                self.directory@ == old(self).directory@,
                self.meshes@ == old(self).meshes@,
                self.loaded_textures@.map_values(|v: Vec<u8>| v@) == old(
                    self,
                ).loaded_textures@.map_values(|v: Vec<u8>| v@) + textures@.map_values(
                    |t: Texture2D| t.path@,
                ),
                forall|k: int|
                    0 <= k < textures@.len() ==> {
                        &&& (#[trigger] textures@[k]).ttype == typename
                        &&& textures@[k].id == 0
                        &&& exists|p: int|
                            0 <= p < mat.properties@.len() && (#[trigger] mat.properties@[p]).semantic
                                == ttype && mat.properties@[p].data is Text && textures@[k].path@
                                == old(self).directory@ + seq![47u8]
                                + mat.properties@[p].data->Text_0@
                    },
                forall|k: int, l: int|
                    0 <= k < l < textures@.len() ==> textures@[k].path@ != textures@[l].path@,
                forall|k: int|
                    0 <= k < textures@.len() ==> !old(self).loaded_textures@.map_values(
                        |v: Vec<u8>| v@,
                    ).contains((#[trigger] textures@[k]).path@),
            decreases mat.properties@.len() - i,
        {
            let p = &mat.properties[i];
            if same_semantic(p.semantic, ttype) {
                match &p.data {
                    PropertyData::Text(data_string) => {
                        let mut full: Vec<u8> = Vec::new();
                        let mut j: usize = 0;
                        while j < self.directory.len()
                            invariant
                                0 <= j <= self.directory@.len(),
                                full@ == self.directory@.take(j as int),
                            decreases self.directory@.len() - j,
                        {
                            full.push(self.directory[j]);
                            proof {
                                assert(self.directory@.take(j + 1 as int) =~= self.directory@.take(
                                    j as int,
                                ).push(self.directory@[j as int]));
                            }
                            j += 1;
                        }
                        proof {
                            assert(self.directory@.take(self.directory@.len() as int)
                                =~= self.directory@);
                        }
                        full.push(47u8);
                        let mut j2: usize = 0;
                        while j2 < data_string.len()
                            invariant
                                0 <= j2 <= data_string@.len(),
                                full@ == self.directory@ + seq![47u8] + data_string@.take(
                                    j2 as int,
                                ),
                            decreases data_string@.len() - j2,
                        {
                            full.push(data_string[j2]);
                            proof {
                                assert(self.directory@ + seq![47u8] + data_string@.take(
                                    j2 + 1 as int,
                                ) =~= (self.directory@ + seq![47u8] + data_string@.take(
                                    j2 as int,
                                )).push(data_string@[j2 as int]));
                            }
                            j2 += 1;
                        }
                        proof {
                            assert(data_string@.take(data_string@.len() as int) =~= data_string@);
                            assert(full@ =~= self.directory@ + seq![47u8] + data_string@);
                        }
                        let mut seen = false;
                        let mut l: usize = 0;
                        while l < self.loaded_textures.len() && !seen
                            invariant
                                0 <= l <= self.loaded_textures@.len(),
                                !seen ==> forall|k: int|
                                    0 <= k < l ==> (#[trigger] self.loaded_textures@[k])@ != full@,
                                seen ==> self.loaded_textures@.map_values(
                                    |v: Vec<u8>| v@,
                                ).contains(full@),
                            decreases self.loaded_textures@.len() - l, 1int - if seen {
                                1int
                            } else {
                                0int
                            },
                        {
                            let hit = bytes_eq(&self.loaded_textures[l], full.as_slice());
                            if hit {
                                seen = true;
                                proof {
                                    assert(self.loaded_textures@.map_values(|v: Vec<u8>| v@)[
                                        l as int] == full@);
                                }
                            } else {
                                l += 1;
                            }
                        }
                        if !seen {
                            proof {
                                assert(forall|k: int|
                                    0 <= k < self.loaded_textures@.len()
                                        ==> (#[trigger] self.loaded_textures@[k])@ != full@);
                                assert(!self.loaded_textures@.map_values(|v: Vec<u8>| v@).contains(
                                    full@,
                                )) by {
                                    let cur = self.loaded_textures@.map_values(|v: Vec<u8>| v@);
                                    if cur.contains(full@) {
                                        let k = choose|k: int|
                                            0 <= k < cur.len() && cur[k] == full@;
                                        assert((self.loaded_textures@[k])@ == full@);
                                    }
                                }
                                assert(!old(self).loaded_textures@.map_values(
                                    |v: Vec<u8>| v@,
                                ).contains(full@)) by {
                                    let om = old(self).loaded_textures@.map_values(|v: Vec<u8>| v@);
                                    let cur = self.loaded_textures@.map_values(|v: Vec<u8>| v@);
                                    if om.contains(full@) {
                                        let k = choose|k: int| 0 <= k < om.len() && om[k] == full@;
                                        assert(cur[k] == om[k]);
                                        assert(cur.contains(full@));
                                    }
                                }
                            }
                            let mut path_copy: Vec<u8> = Vec::new();
                            let mut c: usize = 0;
                            while c < full.len()
                                invariant
                                    0 <= c <= full@.len(),
                                    path_copy@ == full@.take(c as int),
                                decreases full@.len() - c,
                            {
                                path_copy.push(full[c]);
                                proof {
                                    assert(full@.take(c + 1 as int) =~= full@.take(c as int).push(
                                        full@[c as int],
                                    ));
                                }
                                c += 1;
                            }
                            proof {
                                assert(full@.take(full@.len() as int) =~= full@);
                            }
                            let ghost loaded0 = self.loaded_textures@;
                            let ghost textures0 = textures@;
                            let texture = Texture2D {
                                id: 0,
                                ttype: typename,
                                path: path_copy,
                                color: Vec3w { x: F32_ZERO, y: F32_ZERO, z: F32_ZERO },
                            };
                            self.loaded_textures.push(full);
                            textures.push(texture);
                            proof {
                                assert(self.loaded_textures@.map_values(|v: Vec<u8>| v@)
                                    =~= loaded0.map_values(|v: Vec<u8>| v@).push(full@));
                                assert(textures@.map_values(|t: Texture2D| t.path@)
                                    =~= textures0.map_values(|t: Texture2D| t.path@).push(full@));
                                assert(old(self).loaded_textures@.map_values(|v: Vec<u8>| v@)
                                    + textures@.map_values(|t: Texture2D| t.path@) =~= (old(
                                    self,
                                ).loaded_textures@.map_values(|v: Vec<u8>| v@) + textures0.map_values(
                                    |t: Texture2D| t.path@,
                                )).push(full@));
                                assert forall|k: int| 0 <= k < textures0.len() implies (
                                #[trigger] textures0[k]).path@ != full@ by {
                                    let om = old(self).loaded_textures@.map_values(
                                        |v: Vec<u8>| v@,
                                    );
                                    let cur = loaded0.map_values(|v: Vec<u8>| v@);
                                    assert(cur == om + textures0.map_values(
                                        |t: Texture2D| t.path@,
                                    ));
                                    assert(cur[om.len() + k] == textures0[k].path@);
                                    if textures0[k].path@ == full@ {
                                        assert(cur.contains(full@));
                                    }
                                }
                                assert(mat.properties@[i as int].semantic == ttype);
                                assert(mat.properties@[i as int].data is Text);
                                assert(texture.path@ == old(self).directory@ + seq![47u8]
                                    + mat.properties@[i as int].data->Text_0@);
                            }
                        }
                    },
                    _ => {},
                }
            }
            i += 1;
        }
        textures
    }
}

/// An imported mesh is well formed when its normal and texture-coordinate
/// lists, where present, cover its vertices, and its material index is in
/// range.
pub open spec fn spec_mesh_wf(im: ImportedMesh, n_materials: int) -> bool {
    &&& (im.normals@.len() > 0 ==> im.normals@.len() >= im.vertices@.len())
    &&& (im.tex_coords@.len() > 0 ==> im.tex_coords@.len() >= im.vertices@.len())
    &&& (im.material_index as int) < n_materials
}

/// Every mesh of the scene is well formed.
pub open spec fn spec_scene_wf(scene: ImportedScene) -> bool {
    forall|i: int|
        0 <= i < scene.meshes@.len() ==> spec_mesh_wf(
            #[trigger] scene.meshes@[i],
            scene.materials@.len() as int,
        )
}

/// Every mesh index of the subtree addresses a mesh.
pub open spec fn spec_node_wf(node: ImportedNode, n_meshes: int) -> bool {
    forall|j: int|
        0 <= j < spec_node_meshes(node).len() ==> 0 <= #[trigger] spec_node_meshes(node)[j]
            < n_meshes
}

/// Taking one more child extends the flattened mesh indices by that child's
/// subtree.
pub proof fn lemma_children_meshes_take(children: Seq<ImportedNode>, c: int)
    requires
        0 <= c < children.len(),
    ensures
        spec_children_meshes(children.take(c + 1)) =~= spec_children_meshes(children.take(c))
            + spec_node_meshes(children[c]),
    decreases c,
{
    if c == 0 {
        assert(children.take(1).first() == children[0]);
        assert(children.take(1).drop_first() =~= Seq::<ImportedNode>::empty());
        assert(children.take(0) =~= Seq::<ImportedNode>::empty());
    } else {
        lemma_children_meshes_take(children.drop_first(), c - 1);
        assert(children.take(c + 1).first() == children.first());
        assert(children.take(c + 1).drop_first() =~= children.drop_first().take(c));
        assert(children.take(c).first() == children.first());
        assert(children.take(c).drop_first() =~= children.drop_first().take(c - 1));
        assert(children.drop_first()[c - 1] == children[c]);
    }
}

impl Model {
    /// Turn one imported mesh into a drawable mesh: the imported vertices
    /// (normals where present, texture coordinates flipped vertically), the
    /// faces flattened into one index list, and the material's textures with
    /// a solid-color fallback for an empty slot.
    pub fn process_mesh(&mut self, mesh: &ImportedMesh, scene: &ImportedScene) -> (r: BasicMesh)
        requires
            spec_mesh_wf(*mesh, scene.materials@.len() as int),
        ensures
            r.vertices@ == spec_mesh_vertices(*mesh),
            r.indices@ == spec_mesh_indices(mesh.faces@),
            r.material.spec_shininess() == spec_shininess(
                scene.materials@[mesh.material_index as int].properties@,
            ),
            r.material.spec_diffuse().len() >= 1,
            r.material.spec_specular().len() >= 1,
            forall|i: int|
                0 <= i < r.material.spec_diffuse().len()
                    ==> (#[trigger] r.material.spec_diffuse()[i]).ttype == TextureType::Diffuse,
            forall|i: int|
                0 <= i < r.material.spec_specular().len() ==> (
                #[trigger] r.material.spec_specular()[i]).ttype == TextureType::Specular,
            r.cull_faces == true,
            final(self).directory@ == old(self).directory@,
            final(self).meshes@ == old(self).meshes@,
    {
        let mut vertices: Vec<Vertex> = Vec::new();
        let mut i: usize = 0;
        while i < mesh.vertices.len()
            invariant
                0 <= i <= mesh.vertices@.len(),
                spec_mesh_wf(*mesh, scene.materials@.len() as int),
                vertices@ == spec_mesh_vertices(*mesh).take(i as int),
            decreases mesh.vertices@.len() - i,
        {
            let normal = if mesh.normals.len() > 0 {
                mesh.normals[i]
            } else {
                Vec3w { x: F32_ZERO, y: F32_ZERO, z: F32_ZERO }
            };
            let tex_coords = if mesh.tex_coords.len() > 0 {
                Vec3w {
                    x: mesh.tex_coords[i].x,
                    y: crate::fbits::neg_bits(mesh.tex_coords[i].y),
                    z: F32_ZERO,
                }
            } else {
                Vec3w { x: F32_ZERO, y: F32_ZERO, z: F32_ZERO }
            };
            vertices.push(Vertex { pos: mesh.vertices[i], normal, tex_coords });
            proof {
                assert(spec_mesh_vertices(*mesh).take(i + 1 as int) =~= spec_mesh_vertices(
                    *mesh,
                ).take(i as int).push(spec_mesh_vertices(*mesh)[i as int]));
            }
            i += 1;
        }
        proof {
            assert(spec_mesh_vertices(*mesh).take(mesh.vertices@.len() as int) =~= spec_mesh_vertices(
                *mesh,
            ));
        }
        let mut indices: Vec<u32> = Vec::new();
        let mut f: usize = 0;
        while f < mesh.faces.len()
            invariant
                0 <= f <= mesh.faces@.len(),
                indices@ == spec_mesh_indices(mesh.faces@.take(f as int)),
            decreases mesh.faces@.len() - f,
        {
            let face = &mesh.faces[f];
            let mut j: usize = 0;
            while j < face.len()
                invariant
                    0 <= j <= face@.len(),
                    indices@ == spec_mesh_indices(mesh.faces@.take(f as int)) + face@.take(j as int),
                decreases face@.len() - j,
            {
                indices.push(face[j]);
                proof {
                    assert(spec_mesh_indices(mesh.faces@.take(f as int)) + face@.take(j + 1 as int)
                        =~= (spec_mesh_indices(mesh.faces@.take(f as int)) + face@.take(
                        j as int,
                    )).push(face@[j as int]));
                }
                j += 1;
            }
            proof {
                assert(mesh.faces@.take(f + 1 as int).drop_last() =~= mesh.faces@.take(f as int));
                assert(mesh.faces@.take(f + 1 as int).last() == mesh.faces@[f as int]);
                assert(face@.take(face@.len() as int) =~= face@);
            }
            f += 1;
        }
        proof {
            assert(mesh.faces@.take(mesh.faces@.len() as int) =~= mesh.faces@);
        }
        let m_material = &scene.materials[mesh.material_index as usize];
        let mut diffuse_maps = self.load_material_textures(
            m_material,
            TexSemantic::Diffuse,
            TextureType::Diffuse,
        );
        if diffuse_maps.len() == 0 {
            let mut clr = Texture2D::new(0, TextureType::Diffuse);
            clr.color = self.load_material_color(m_material, TextureType::Diffuse);
            diffuse_maps = vec![clr];
        }
        let mut specular_maps = self.load_material_textures(
            m_material,
            TexSemantic::Specular,
            TextureType::Specular,
        );
        if specular_maps.len() == 0 {
            let mut clr = Texture2D::new(0, TextureType::Specular);
            clr.color = self.load_material_color(m_material, TextureType::Specular);
            specular_maps = vec![clr];
        }
        let shininess = self.load_shininess(m_material);
        let material = Material::new(diffuse_maps, specular_maps, shininess);
        BasicMesh { vertices, indices, material, cull_faces: true, vao: 0, vbo: 0, ebo: 0 }
    }

    /// Flatten a node's subtree into the mesh list, depth first: the node's
    /// own meshes, then each child's subtree.
    pub fn process_node(&mut self, node: &ImportedNode, scene: &ImportedScene)
        requires
            spec_scene_wf(*scene),
            spec_node_wf(*node, scene.meshes@.len() as int),
        ensures
            final(self).meshes@.len() == old(self).meshes@.len() + spec_node_meshes(*node).len(),
            forall|k: int|
                0 <= k < old(self).meshes@.len() ==> final(self).meshes@[k] == old(self).meshes@[k],
            forall|j: int|
                0 <= j < spec_node_meshes(*node).len() ==> {
                    let im = scene.meshes@[spec_node_meshes(*node)[j] as int];
                    &&& (#[trigger] final(self).meshes@[old(self).meshes@.len() + j]).vertices@
                        == spec_mesh_vertices(im)
                    &&& final(self).meshes@[old(self).meshes@.len() + j].indices@
                        == spec_mesh_indices(im.faces@)
                },
            final(self).directory@ == old(self).directory@,
        decreases *node,
    {
        let ghost base = self.meshes@.len() as int;
        let mut mi: usize = 0;
        proof {
            assert(spec_node_meshes(*node) == node.meshes@ + spec_children_meshes(node.children@));
        }
        while mi < node.meshes.len()
            invariant
                0 <= mi <= node.meshes@.len(),
                spec_scene_wf(*scene),
                spec_node_wf(*node, scene.meshes@.len() as int),
                spec_node_meshes(*node) == node.meshes@ + spec_children_meshes(node.children@),
                self.meshes@.len() == old(self).meshes@.len() + mi,
                self.directory@ == old(self).directory@,
                forall|k: int|
                    0 <= k < old(self).meshes@.len() ==> self.meshes@[k] == old(self).meshes@[k],
                forall|j: int|
                    0 <= j < mi ==> {
                        let im = scene.meshes@[node.meshes@[j] as int];
                        &&& (#[trigger] self.meshes@[old(self).meshes@.len() + j]).vertices@
                            == spec_mesh_vertices(im)
                        &&& self.meshes@[old(self).meshes@.len() + j].indices@ == spec_mesh_indices(
                            im.faces@,
                        )
                    },
            decreases node.meshes@.len() - mi,
        {
            proof {
                assert(spec_node_meshes(*node)[mi as int] == node.meshes@[mi as int]);
            }
            let mesh_index = node.meshes[mi];
            let imported = &scene.meshes[mesh_index as usize];
            let processed = self.process_mesh(imported, scene);
            self.meshes.push(processed);
            mi += 1;
        }
        proof {
            assert(spec_children_meshes(node.children@.take(0)) =~= Seq::<u32>::empty());
            assert(node.meshes@ + spec_children_meshes(node.children@.take(0)) =~= node.meshes@);
        }
        let mut c: usize = 0;
        while c < node.children.len()
            invariant
                0 <= c <= node.children@.len(),
                spec_scene_wf(*scene),
                spec_node_wf(*node, scene.meshes@.len() as int),
                spec_node_meshes(*node) == node.meshes@ + spec_children_meshes(node.children@),
                self.meshes@.len() == old(self).meshes@.len() + node.meshes@.len()
                    + spec_children_meshes(node.children@.take(c as int)).len(),
                self.directory@ == old(self).directory@,
                forall|k: int|
                    0 <= k < old(self).meshes@.len() ==> self.meshes@[k] == old(self).meshes@[k],
                forall|j: int|
                    0 <= j < node.meshes@.len() + spec_children_meshes(
                        node.children@.take(c as int),
                    ).len() ==> {
                        let im = scene.meshes@[(node.meshes@ + spec_children_meshes(
                            node.children@.take(c as int),
                        ))[j] as int];
                        &&& (#[trigger] self.meshes@[old(self).meshes@.len() + j]).vertices@
                            == spec_mesh_vertices(im)
                        &&& self.meshes@[old(self).meshes@.len() + j].indices@ == spec_mesh_indices(
                            im.faces@,
                        )
                    },
            decreases node.children@.len() - c,
        {
            proof {
                lemma_children_meshes_take(node.children@, c as int);
                lemma_node_wf_child(*node, scene.meshes@.len() as int, c as int);
            }
            let ghost prev = self.meshes@;
            let child = &node.children[c];
            self.process_node(child, scene);
            proof {
                let base0 = old(self).meshes@.len() as int;
                let nm = node.meshes@;
                let ct = spec_children_meshes(node.children@.take(c as int));
                let ct1 = spec_children_meshes(node.children@.take(c + 1 as int));
                let cm = spec_node_meshes(node.children@[c as int]);
                assert(ct1 =~= ct + cm);
                assert forall|j: int| 0 <= j < nm.len() + ct1.len() implies {
                    let im = scene.meshes@[(nm + ct1)[j] as int];
                    &&& (#[trigger] self.meshes@[base0 + j]).vertices@ == spec_mesh_vertices(im)
                    &&& self.meshes@[base0 + j].indices@ == spec_mesh_indices(im.faces@)
                } by {
                    if j < nm.len() + ct.len() {
                        assert((nm + ct1)[j] == (nm + ct)[j]);
                        assert(self.meshes@[base0 + j] == prev[base0 + j]);
                    } else {
                        let jj = j - nm.len() - ct.len();
                        assert((nm + ct1)[j] == cm[jj]);
                        assert(self.meshes@[base0 + j] == self.meshes@[prev.len() + jj]);
                    }
                }
            }
            c += 1;
        }
        proof {
            assert(node.children@.take(node.children@.len() as int) =~= node.children@);
        }
    }
}

/// A well-formed subtree has well-formed children, whose flattened indices
/// sit inside the parent's.
pub proof fn lemma_node_wf_child(node: ImportedNode, n_meshes: int, c: int)
    requires
        0 <= c < node.children@.len(),
        spec_node_wf(node, n_meshes),
    ensures
        spec_node_wf(node.children@[c], n_meshes),
        spec_children_meshes(node.children@.take(c + 1)) =~= spec_children_meshes(
            node.children@.take(c),
        ) + spec_node_meshes(node.children@[c]),
{
    lemma_children_meshes_take(node.children@, c);
    lemma_children_meshes_prefix(node.children@, c + 1);
    let flat = spec_node_meshes(node);
    let nm = node.meshes@;
    let ca = spec_children_meshes(node.children@);
    let ct = spec_children_meshes(node.children@.take(c));
    let ct1 = spec_children_meshes(node.children@.take(c + 1));
    let child = node.children@[c];
    assert forall|j: int|
        0 <= j < spec_node_meshes(child).len() implies 0 <= #[trigger] spec_node_meshes(child)[j]
            < n_meshes by {
        assert(ct1[ct.len() + j] == spec_node_meshes(child)[j]);
        assert(ca[ct.len() + j] == ct1[ct.len() + j]);
        assert(flat[nm.len() + ct.len() + j] == ca[ct.len() + j]);
        assert(flat[nm.len() + ct.len() + j] == spec_node_meshes(child)[j]);
        assert(spec_node_wf(node, n_meshes));
    }
}

/// The flattened indices of a child prefix are a prefix of the whole child
/// list's.
pub proof fn lemma_children_meshes_prefix(children: Seq<ImportedNode>, c: int)
    requires
        0 <= c <= children.len(),
    ensures
        forall|j: int|
            0 <= j < spec_children_meshes(children.take(c)).len()
                ==> #[trigger] spec_children_meshes(children.take(c))[j] == spec_children_meshes(
                children,
            )[j],
        spec_children_meshes(children.take(c)).len() <= spec_children_meshes(children).len(),
    decreases children.len() - c,
{
    if c == children.len() {
        assert(children.take(c) =~= children);
    } else {
        lemma_children_meshes_take(children, c);
        lemma_children_meshes_prefix(children, c + 1);
        assert forall|j: int|
            0 <= j < spec_children_meshes(children.take(c)).len() implies #[trigger] spec_children_meshes(
            children.take(c),
        )[j] == spec_children_meshes(children)[j] by {
            assert(spec_children_meshes(children.take(c + 1))[j] == spec_children_meshes(
                children.take(c),
            )[j]);
        }
    }
}

/// The property key a slot's solid color sits under: the bytes of
/// `$clr.diffuse` or `$clr.specular`, none for an attachment.
pub open spec fn spec_color_key(typename: TextureType) -> Seq<u8> {
    match typename {
        TextureType::Attachment => Seq::empty(),
        TextureType::Diffuse => seq![36u8, 99, 108, 114, 46, 100, 105, 102, 102, 117, 115, 101],
        TextureType::Specular => seq![36u8, 99, 108, 114, 46, 115, 112, 101, 99, 117, 108, 97, 114],
    }
}

/// The slot's color key as a value.
pub fn color_key(typename: TextureType) -> (r: Vec<u8>)
    ensures
        r@ == spec_color_key(typename),
{
    let r: Vec<u8> = match typename {
        TextureType::Attachment => Vec::new(),
        TextureType::Diffuse => vec![36u8, 99, 108, 114, 46, 100, 105, 102, 102, 117, 115, 101],
        TextureType::Specular => vec![36u8, 99, 108, 114, 46, 115, 112, 101, 99, 117, 108, 97, 114],
    };
    proof {
        assert(r@ =~= spec_color_key(typename));
    }
    r
}

} // verus!
