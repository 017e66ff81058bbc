use vstd::prelude::*;

use crate::doc::{Document, Image, Material, Mesh, Texture};

verus! {

/// Mathematical model of a [`GltfInfo`].
pub struct GltfInfoModel {
    pub material_names: Seq<Seq<char>>,
    pub images_names: Seq<Seq<char>>,
    pub meshes_names: Seq<Seq<char>>,
    pub texture_names: Seq<Seq<char>>,
}

/// The display names present among `entries`, in order: an entity without a
/// name contributes nothing — not an empty string.
pub open spec fn names_of(entries: Seq<Option<Seq<char>>>) -> Seq<Seq<char>>
    decreases entries.len(),
{
    if entries.len() == 0 {
        Seq::empty()
    } else {
        names_of(entries.drop_last()) + (match entries.last() {
            Some(n) => seq![n],
            None => Seq::<Seq<char>>::empty(),
        })
    }
}

/// A summary of the document's named entities: the display names of its
/// materials, images, meshes and textures, each list in index order and with
/// unnamed entities skipped.
#[derive(Debug, Clone, PartialEq, Eq)]
pub struct GltfInfo {
    pub material_names: Vec<String>,
    pub images_names: Vec<String>,
    pub meshes_names: Vec<String>,
    pub texture_names: Vec<String>,
}

impl View for GltfInfo {
    type V = GltfInfoModel;

    open spec fn view(&self) -> GltfInfoModel {
        GltfInfoModel {
            material_names: self.material_names@.map_values(|s: String| s@),
            images_names: self.images_names@.map_values(|s: String| s@),
            meshes_names: self.meshes_names@.map_values(|s: String| s@),
            texture_names: self.texture_names@.map_values(|s: String| s@),
        }
    }
}

/// Extending the summarized prefix by one entry appends that entry's name
/// when it has one and nothing when it has none.
proof fn lemma_names_of_take_step(entries: Seq<Option<Seq<char>>>, i: int)
    requires
        0 <= i < entries.len(),
    ensures
        names_of(entries.take(i + 1)) == names_of(entries.take(i)) + (match entries[i] {
            Some(n) => seq![n],
            None => Seq::<Seq<char>>::empty(),
        }),
{
    assert(entries.take(i + 1).drop_last() =~= entries.take(i));
    assert(entries.take(i + 1).last() == entries[i]);
}

/// Collects the material names, skipping unnamed materials.
fn material_name_list(materials: &Vec<Material>) -> (r: Vec<String>)
    ensures
        r@.map_values(|s: String| s@) == names_of(
            materials@.map_values(|m: Material| m@.name),
        ),
{
    let ghost entries = materials@.map_values(|m: Material| m@.name);
    let mut r: Vec<String> = Vec::new();
    let mut i: usize = 0;
    while i < materials.len()
        invariant
            i <= materials.len(),
            entries == materials@.map_values(|m: Material| m@.name),
            r@.map_values(|s: String| s@) == names_of(entries.take(i as int)),
        decreases materials@.len() - i,
    {
        proof {
            lemma_names_of_take_step(entries, i as int);
        }
        match &materials[i].name {
            Some(name) => {
                let ghost before = r@;
                r.push(name.clone());
                proof {
                    assert(r@.map_values(|s: String| s@) =~= before.map_values(|s: String| s@)
                        + seq![name@]);
                }
            },
            None => {},
        }
        i += 1;
    }
    proof {
        assert(entries.take(materials@.len() as int) =~= entries);
    }
    r
}

/// Collects the image names, skipping unnamed images.
fn image_name_list(images: &Vec<Image>) -> (r: Vec<String>)
    ensures
        r@.map_values(|s: String| s@) == names_of(images@.map_values(|i: Image| i@.name)),
{
    let ghost entries = images@.map_values(|i: Image| i@.name);
    let mut r: Vec<String> = Vec::new();
    let mut i: usize = 0;
    while i < images.len()
        invariant
            i <= images.len(),
            entries == images@.map_values(|i: Image| i@.name),
            r@.map_values(|s: String| s@) == names_of(entries.take(i as int)),
        decreases images@.len() - i,
    {
        proof {
            lemma_names_of_take_step(entries, i as int);
        }
        match &images[i].name {
            Some(name) => {
                let ghost before = r@;
                r.push(name.clone());
                proof {
                    assert(r@.map_values(|s: String| s@) =~= before.map_values(|s: String| s@)
                        + seq![name@]);
                }
            },
            None => {},
        }
        i += 1;
    }
    proof {
        assert(entries.take(images@.len() as int) =~= entries);
    }
    r
}

/// Collects the mesh names, skipping unnamed meshes.
fn mesh_name_list(meshes: &Vec<Mesh>) -> (r: Vec<String>)
    ensures
        r@.map_values(|s: String| s@) == names_of(meshes@.map_values(|m: Mesh| m@.name)),
{
    let ghost entries = meshes@.map_values(|m: Mesh| m@.name);
    let mut r: Vec<String> = Vec::new();
    let mut i: usize = 0;
    while i < meshes.len()
        invariant
            i <= meshes.len(),
            entries == meshes@.map_values(|m: Mesh| m@.name),
            r@.map_values(|s: String| s@) == names_of(entries.take(i as int)),
        decreases meshes@.len() - i,
    {
        proof {
            lemma_names_of_take_step(entries, i as int);
        }
        match &meshes[i].name {
            Some(name) => {
                let ghost before = r@;
                r.push(name.clone());
                proof {
                    assert(r@.map_values(|s: String| s@) =~= before.map_values(|s: String| s@)
                        + seq![name@]);
                }
            },
            None => {},
        }
        i += 1;
    }
    proof {
        assert(entries.take(meshes@.len() as int) =~= entries);
    }
    r
}

/// Collects the texture names, skipping unnamed textures.
fn texture_name_list(textures: &Vec<Texture>) -> (r: Vec<String>)
    ensures
        r@.map_values(|s: String| s@) == names_of(textures@.map_values(|t: Texture| t@.name)),
{
    let ghost entries = textures@.map_values(|t: Texture| t@.name);
    let mut r: Vec<String> = Vec::new();
    let mut i: usize = 0;
    while i < textures.len()
        invariant
            i <= textures.len(),
            entries == textures@.map_values(|t: Texture| t@.name),
            r@.map_values(|s: String| s@) == names_of(entries.take(i as int)),
        decreases textures@.len() - i,
    {
        proof {
            lemma_names_of_take_step(entries, i as int);
        }
        match &textures[i].name {
            Some(name) => {
                let ghost before = r@;
                r.push(name.clone());
                proof {
                    assert(r@.map_values(|s: String| s@) =~= before.map_values(|s: String| s@)
                        + seq![name@]);
                }
            },
            None => {},
        }
        i += 1;
    }
    proof {
        assert(entries.take(textures@.len() as int) =~= entries);
    }
    r
}

impl GltfInfo {
    /// Summarizes a loaded document: collects the display names of its
    /// materials, images, meshes and textures, in index order, skipping every
    /// entity that has no name. Never fails and reads the document only.
    pub fn from_document(doc: &Document) -> (info: GltfInfo)
        ensures
            info@.material_names == names_of(doc@.material_names()),
            info@.images_names == names_of(doc@.image_names()),
            info@.meshes_names == names_of(doc@.mesh_names()),
            info@.texture_names == names_of(doc@.texture_names()),
    {
        proof {
            assert(doc@.material_names() =~= doc.materials@.map_values(|m: Material| m@.name));
            assert(doc@.image_names() =~= doc.images@.map_values(|i: Image| i@.name));
            assert(doc@.mesh_names() =~= doc.meshes@.map_values(|m: Mesh| m@.name));
            assert(doc@.texture_names() =~= doc.textures@.map_values(|t: Texture| t@.name));
        }
        GltfInfo {
            material_names: material_name_list(&doc.materials),
            images_names: image_name_list(&doc.images),
            meshes_names: mesh_name_list(&doc.meshes),
            texture_names: texture_name_list(&doc.textures),
        }
    }
}

/// A summary never holds more names than the document holds entities of that
/// kind.
pub proof fn lemma_names_no_longer_than_entities(entries: Seq<Option<Seq<char>>>)
    ensures
        names_of(entries).len() <= entries.len(),
    decreases entries.len(),
{
    if entries.len() > 0 {
        lemma_names_no_longer_than_entities(entries.drop_last());
    }
}

/// An unnamed entity contributes nothing to the summary: one entry without a
/// name makes the name list strictly shorter than the entity count.
pub proof fn lemma_unnamed_entity_shortens_names(entries: Seq<Option<Seq<char>>>, i: int)
    requires
        0 <= i < entries.len(),
        entries[i] is None,
    ensures
        names_of(entries).len() < entries.len(),
    decreases entries.len(),
{
    if i == entries.len() - 1 {
        lemma_names_no_longer_than_entities(entries.drop_last());
    } else {
        assert(entries.drop_last()[i] == entries[i]);
        lemma_unnamed_entity_shortens_names(entries.drop_last(), i);
    }
}

} // verus!
