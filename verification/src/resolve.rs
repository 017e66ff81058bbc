use vstd::prelude::*;

use crate::doc::{DecodedImage, DecodedImageModel, Document, DocumentModel, ImageSource,
    ImageSourceModel, MaterialModel};
use crate::error::{RuntimeError, RuntimeErrorModel};
use vstd::slice::{slice_subrange, slice_to_vec};

verus! {

/// Mathematical model of a [`ResolvedImage`].
pub enum ResolvedImageModel {
    Embedded { bytes: Seq<u8>, mime_type: Seq<char>, length: nat },
    Uri { uri: Seq<char>, mime_type: Option<Seq<char>> },
}

/// The outcome of a successful resolution: either the raw bytes of the
/// base-color texture image copied out of the document blob, or — when the
/// image lives in an external data source — the location alone, reported
/// verbatim and never fetched.
#[derive(Debug, Clone, PartialEq, Eq)]
pub enum ResolvedImage {
    /// The image bytes embedded in the document blob, the MIME type the
    /// document states for them, and their count.
    Embedded { bytes: Vec<u8>, mime_type: String, length: usize },
    /// The external location of the image and its MIME type, if the document
    /// gives one. This is a report, never a failure.
    External { uri: String, mime_type: Option<String> },
}

impl View for ResolvedImage {
    type V = ResolvedImageModel;

    open spec fn view(&self) -> ResolvedImageModel {
        match self {
            ResolvedImage::Embedded { bytes, mime_type, length } => ResolvedImageModel::Embedded {
                bytes: bytes@,
                mime_type: mime_type@,
                length: *length as nat,
            },
            ResolvedImage::External { uri, mime_type } => ResolvedImageModel::Uri {
                uri: uri@,
                mime_type: match mime_type {
                    Some(m) => Some(m@),
                    None => None,
                },
            },
        }
    }
}

/// The model of what resolving an image returns: the model of the value on
/// success, the model of the typed error on failure.
pub open spec fn resolved_model(r: Result<ResolvedImage, RuntimeError>) -> Result<
    ResolvedImageModel,
    RuntimeErrorModel,
> {
    match r {
        Ok(img) => Ok(img@),
        Err(e) => Err(e@),
    }
}

/// What resolving the base-color texture of the material at `material_index`
/// yields: the exact success value or the exact typed error, hop by hop
/// (material lookup, texture reference, image source, byte range).
pub open spec fn spec_extract_basecolor_by_index(doc: DocumentModel, material_index: nat) -> Result<
    ResolvedImageModel,
    RuntimeErrorModel,
> {
    if material_index >= doc.materials.len() {
        Err(RuntimeErrorModel::MaterialIndexNotFound { material_index })
    } else {
        match doc.materials[material_index as int].base_color_texture {
            None => Err(
                RuntimeErrorModel::PbrMetallicRougnessBaseColorTextureNotFound { material_index },
            ),
            Some(ImageSourceModel::Uri { uri, mime_type }) => Ok(
                ResolvedImageModel::Uri { uri, mime_type },
            ),
            Some(ImageSourceModel::View { offset, length, mime_type }) => match doc.blob {
                None => Err(RuntimeErrorModel::NoGltfBlob),
                Some(blob) => if offset + length > blob.len() {
                    Err(
                        RuntimeErrorModel::ViewOutOfBounds {
                            offset,
                            length,
                            blob_length: blob.len(),
                        },
                    )
                } else {
                    Ok(
                        ResolvedImageModel::Embedded {
                            bytes: blob.subrange(offset as int, (offset + length) as int),
                            mime_type,
                            length,
                        },
                    )
                },
            },
        }
    }
}

/// Resolves the base-color texture image of the material at `material_index`.
///
/// Follows the material's metallic-roughness base-color texture reference to
/// its image source. A `View` source requires the document blob and a byte
/// range inside it, and yields a copy of exactly those bytes; a `Uri` source
/// always succeeds and only reports the external location. Each hop that
/// cannot be taken is a typed error, as [`spec_extract_basecolor_by_index`]
/// states.
pub fn extract_basecolor_by_index(doc: &Document, material_index: usize) -> (r: Result<
    ResolvedImage,
    RuntimeError,
>)
    ensures
        resolved_model(r) == spec_extract_basecolor_by_index(doc@, material_index as nat),
{
    if material_index >= doc.materials.len() {
        return Err(RuntimeError::MaterialIndexNotFound { material_index });
    }
    let material = &doc.materials[material_index];
    match &material.base_color_texture {
        None => Err(RuntimeError::PbrMetallicRougnessBaseColorTextureNotFound { material_index }),
        Some(ImageSource::Uri { uri, mime_type }) => Ok(
            ResolvedImage::External { uri: uri.clone(), mime_type: clone_opt_string(mime_type) },
        ),
        Some(ImageSource::View { offset, length, mime_type }) => match &doc.blob {
            None => Err(RuntimeError::NoGltfBlob),
            Some(blob) => {
                if *length > blob.len() || *offset > blob.len() - *length {
                    Err(
                        RuntimeError::ViewOutOfBounds {
                            offset: *offset,
                            length: *length,
                            blob_length: blob.len(),
                        },
                    )
                } else {
                    let range = slice_subrange(blob.as_slice(), *offset, *offset + *length);
                    let bytes = slice_to_vec(range);
                    Ok(
                        ResolvedImage::Embedded {
                            bytes,
                            mime_type: mime_type.clone(),
                            length: *length,
                        },
                    )
                }
            },
        },
    }
}

/// Whether `m` carries exactly the display name `name`, character for
/// character. There is no folding of any kind: matching is case-sensitive.
pub open spec fn name_matches(m: MaterialModel, name: Seq<char>) -> bool {
    m.name matches Some(n) && n == name
}

/// The index of the first material, in index order, whose name is exactly
/// `name`; `None` when no material carries that name.
pub open spec fn first_match(materials: Seq<MaterialModel>, name: Seq<char>) -> Option<int>
    decreases materials.len(),
{
    if materials.len() == 0 {
        None
    } else if name_matches(materials[0], name) {
        Some(0)
    } else {
        match first_match(materials.drop_first(), name) {
            Some(i) => Some(i + 1),
            None => None,
        }
    }
}

/// When `i` is the first index whose material carries exactly `name`,
/// `first_match` finds it.
proof fn lemma_first_match_found(materials: Seq<MaterialModel>, name: Seq<char>, i: int)
    requires
        0 <= i < materials.len(),
        name_matches(materials[i], name),
        forall|j: int| 0 <= j < i ==> !name_matches(materials[j], name),
    ensures
        first_match(materials, name) == Some(i),
    decreases i,
{
    if i > 0 {
        assert(materials.drop_first()[i - 1] == materials[i]);
        assert(forall|j: int|
            0 <= j < i - 1 ==> materials.drop_first()[j] == materials[j + 1]);
        lemma_first_match_found(materials.drop_first(), name, i - 1);
    }
}

/// When no material carries exactly `name`, `first_match` finds nothing.
proof fn lemma_first_match_none(materials: Seq<MaterialModel>, name: Seq<char>)
    requires
        forall|j: int| 0 <= j < materials.len() ==> !name_matches(materials[j], name),
    ensures
        first_match(materials, name) is None,
    decreases materials.len(),
{
    if materials.len() > 0 {
        assert(forall|j: int|
            0 <= j < materials.len() - 1 ==> materials.drop_first()[j] == materials[j + 1]);
        lemma_first_match_none(materials.drop_first(), name);
    }
}

/// What resolving with an optional material name yields.
///
/// With a name, the first material carrying exactly that name is resolved by
/// index; no match is `MaterialNotFound`. Without a name, a single material is
/// the positional default; two or more are `NoMaterialNameMoreThanOneMaterial`
/// and an empty document is `NoMaterials`.
pub open spec fn spec_extract_basecolor(
    doc: DocumentModel,
    material_name: Option<Seq<char>>,
) -> Result<ResolvedImageModel, RuntimeErrorModel> {
    match material_name {
        Some(name) => match first_match(doc.materials, name) {
            Some(i) => spec_extract_basecolor_by_index(doc, i as nat),
            None => Err(RuntimeErrorModel::MaterialNotFound { material_name: name }),
        },
        None => if doc.materials.len() == 1 {
            spec_extract_basecolor_by_index(doc, 0)
        } else if doc.materials.len() >= 2 {
            Err(RuntimeErrorModel::NoMaterialNameMoreThanOneMaterial)
        } else {
            Err(RuntimeErrorModel::NoMaterials)
        },
    }
}

/// The model of the optional selector string.
pub open spec fn selector_model(material_name: Option<String>) -> Option<Seq<char>> {
    match material_name {
        Some(n) => Some(n@),
        None => None,
    }
}

/// Resolves the base-color texture image of a material chosen by an optional
/// display name.
///
/// With `Some(name)`, the materials are scanned in index order for the first
/// whose name equals `name` exactly (case-sensitively); with `None`, the
/// document's single material is taken, and anything but exactly one material
/// is a typed error. The chosen material is then resolved exactly as
/// [`extract_basecolor_by_index`] does; [`spec_extract_basecolor`] states the
/// whole outcome.
pub fn extract_basecolor(doc: &Document, material_name: Option<String>) -> (r: Result<
    ResolvedImage,
    RuntimeError,
>)
    ensures
        resolved_model(r) == spec_extract_basecolor(doc@, selector_model(material_name)),
{
    match &material_name {
        Some(name) => {
            let n: usize = doc.materials.len();
            let mut i: usize = 0;
            while i < n
                invariant
                    n == doc.materials.len(),
                    i <= n,
                    doc@.materials.len() == n,
                    material_name == Some(*name),
                    forall|j: int| 0 <= j < i ==> !name_matches(doc@.materials[j], name@),
                decreases n - i,
            {
                let matched = match &doc.materials[i].name {
                    Some(m) => *m == *name,
                    None => false,
                };
                if matched {
                    proof {
                        assert(doc@.materials[i as int] == doc.materials@[i as int]@);
                        lemma_first_match_found(doc@.materials, name@, i as int);
                    }
                    return extract_basecolor_by_index(doc, i);
                }
                proof {
                    assert(doc@.materials[i as int] == doc.materials@[i as int]@);
                }
                i += 1;
            }
            proof {
                lemma_first_match_none(doc@.materials, name@);
            }
            Err(RuntimeError::MaterialNotFound { material_name: name.clone() })
        },
        None => {
            if doc.materials.len() == 1 {
                extract_basecolor_by_index(doc, 0)
            } else if doc.materials.len() >= 2 {
                Err(RuntimeError::NoMaterialNameMoreThanOneMaterial)
            } else {
                Err(RuntimeError::NoMaterials)
            }
        },
    }
}

/// The model of what looking up a decoded image returns.
pub open spec fn decoded_model(r: Result<DecodedImage, RuntimeError>) -> Result<
    DecodedImageModel,
    RuntimeErrorModel,
> {
    match r {
        Ok(img) => Ok(img@),
        Err(e) => Err(e@),
    }
}

/// What resolving by texture index yields: the decoded image that backs the
/// texture, or the exact typed error of the lookup that failed.
pub open spec fn spec_resolve_basecolor_by_texture_index(
    doc: DocumentModel,
    decoded_images: Seq<DecodedImageModel>,
    texture_index: nat,
) -> Result<DecodedImageModel, RuntimeErrorModel> {
    if texture_index >= doc.textures.len() {
        Err(RuntimeErrorModel::TextureIndexNotFound { texture_index })
    } else {
        let image_index = doc.textures[texture_index as int].image_index;
        if image_index >= decoded_images.len() {
            Err(RuntimeErrorModel::ImageIndexNotFound { image_index })
        } else {
            Ok(decoded_images[image_index as int])
        }
    }
}

/// Resolves a base-color texture by texture index, for the representation
/// whose document layer decodes image pixel buffers eagerly into a list
/// aligned by image index.
///
/// Looks up the texture at `texture_index`, follows its backing image's index
/// into `decoded_images`, and returns that entry's pixel dimensions; each
/// out-of-range lookup is a typed error, as
/// [`spec_resolve_basecolor_by_texture_index`] states.
pub fn resolve_basecolor_by_texture_index(
    doc: &Document,
    decoded_images: &Vec<DecodedImage>,
    texture_index: usize,
) -> (r: Result<DecodedImage, RuntimeError>)
    ensures
        decoded_model(r) == spec_resolve_basecolor_by_texture_index(
            doc@,
            decoded_images@.map_values(|d: DecodedImage| d@),
            texture_index as nat,
        ),
{
    if texture_index >= doc.textures.len() {
        return Err(RuntimeError::TextureIndexNotFound { texture_index });
    }
    let image_index: usize = doc.textures[texture_index].image_index;
    if image_index >= decoded_images.len() {
        return Err(RuntimeError::ImageIndexNotFound { image_index });
    }
    Ok(decoded_images[image_index])
}

/// A document with exactly one material needs no name: resolution without a
/// selector proceeds with that single material, never with an ambiguity
/// error.
pub proof fn lemma_single_material_is_default(doc: DocumentModel)
    requires
        doc.materials.len() == 1,
    ensures
        spec_extract_basecolor(doc, None) == spec_extract_basecolor_by_index(doc, 0),
{
}

/// A document with two or more materials has no positional default:
/// resolution without a selector always fails with
/// `NoMaterialNameMoreThanOneMaterial`, never silently picking one.
pub proof fn lemma_many_materials_are_ambiguous(doc: DocumentModel)
    requires
        doc.materials.len() >= 2,
    ensures
        spec_extract_basecolor(doc, None) == Err::<ResolvedImageModel, RuntimeErrorModel>(
            RuntimeErrorModel::NoMaterialNameMoreThanOneMaterial,
        ),
{
}

/// A document with no material never resolves, whatever the selector: without
/// one the failure is `NoMaterials`; with one, no name can match, so the
/// failure is `MaterialNotFound` with that name.
pub proof fn lemma_no_materials_never_resolves(doc: DocumentModel, selector: Option<Seq<char>>)
    requires
        doc.materials.len() == 0,
    ensures
        spec_extract_basecolor(doc, selector) is Err,
        selector is None ==> spec_extract_basecolor(doc, selector) == Err::<
            ResolvedImageModel,
            RuntimeErrorModel,
        >(RuntimeErrorModel::NoMaterials),
        selector matches Some(name) ==> spec_extract_basecolor(doc, selector) == Err::<
            ResolvedImageModel,
            RuntimeErrorModel,
        >(RuntimeErrorModel::MaterialNotFound { material_name: name }),
{
}

/// Selection by name is exact and case-sensitive: when `first_match` selects
/// an index, the material there carries exactly `name` and no earlier one
/// does, and resolution proceeds with that index; when nothing is exactly
/// equal, resolution fails with `MaterialNotFound` carrying the selector
/// unchanged.
pub proof fn lemma_selection_by_name_exact(doc: DocumentModel, name: Seq<char>)
    ensures
        match first_match(doc.materials, name) {
            Some(i) => 0 <= i < doc.materials.len() && name_matches(doc.materials[i], name) && (
            forall|j: int| 0 <= j < i ==> !name_matches(doc.materials[j], name))
                && spec_extract_basecolor(doc, Some(name)) == spec_extract_basecolor_by_index(
                doc,
                i as nat,
            ),
            None => (forall|j: int|
                0 <= j < doc.materials.len() ==> !name_matches(doc.materials[j], name))
                && spec_extract_basecolor(doc, Some(name)) == Err::<
                ResolvedImageModel,
                RuntimeErrorModel,
            >(RuntimeErrorModel::MaterialNotFound { material_name: name }),
        },
{
    lemma_first_match_is_first(doc.materials, name);
}

/// `first_match` is sound and complete: a found index is in range, carries
/// the name exactly, and is the first to do so; `None` means no material
/// carries the name.
proof fn lemma_first_match_is_first(materials: Seq<MaterialModel>, name: Seq<char>)
    ensures
        match first_match(materials, name) {
            Some(i) => 0 <= i < materials.len() && name_matches(materials[i], name) && (forall|
                j: int,
            |
                0 <= j < i ==> !name_matches(materials[j], name)),
            None => forall|j: int| 0 <= j < materials.len() ==> !name_matches(materials[j], name),
        },
    decreases materials.len(),
{
    if materials.len() > 0 && !name_matches(materials[0], name) {
        let rest = materials.drop_first();
        lemma_first_match_is_first(rest, name);
        match first_match(rest, name) {
            Some(k) => {
                assert(materials[k + 1] == rest[k]);
                assert forall|j: int| 0 <= j < k + 1 implies !name_matches(materials[j], name) by {
                    if j > 0 {
                        assert(materials[j] == rest[j - 1]);
                    }
                }
            },
            None => {
                assert forall|j: int|
                    0 <= j < materials.len() implies !name_matches(materials[j], name) by {
                    if j > 0 {
                        assert(materials[j] == rest[j - 1]);
                    }
                }
            },
        }
    }
}

/// A `View` image source whose byte range exceeds the blob never yields
/// bytes: resolution fails with the bounds error, never with a truncated or
/// out-of-range slice.
pub proof fn lemma_view_out_of_bounds(doc: DocumentModel, material_index: nat)
    requires
        material_index < doc.materials.len(),
        doc.blob is Some,
        doc.materials[material_index as int].base_color_texture matches Some(
            ImageSourceModel::View { offset, length, .. },
        ) && offset + length > doc.blob->Some_0.len(),
    ensures
        ({
            let source = doc.materials[material_index as int].base_color_texture->Some_0;
            spec_extract_basecolor_by_index(doc, material_index) == Err::<
                ResolvedImageModel,
                RuntimeErrorModel,
            >(
                RuntimeErrorModel::ViewOutOfBounds {
                    offset: source->View_offset,
                    length: source->View_length,
                    blob_length: doc.blob->Some_0.len(),
                },
            )
        }),
{
}

/// A `Uri` image source never touches the blob: whatever the blob holds, and
/// whether the document has one at all, resolution succeeds and echoes the
/// URI string and optional MIME type unchanged.
pub proof fn lemma_uri_source_ignores_blob(doc: DocumentModel, material_index: nat)
    requires
        material_index < doc.materials.len(),
        doc.materials[material_index as int].base_color_texture matches Some(
            ImageSourceModel::Uri { .. },
        ),
    ensures
        ({
            let source = doc.materials[material_index as int].base_color_texture->Some_0;
            spec_extract_basecolor_by_index(doc, material_index) == Ok::<
                ResolvedImageModel,
                RuntimeErrorModel,
            >(
                ResolvedImageModel::Uri {
                    uri: source->Uri_uri,
                    mime_type: source->Uri_mime_type,
                },
            )
        }),
{
}

/// Clones an optional string; the clone holds the same characters.
fn clone_opt_string(s: &Option<String>) -> (r: Option<String>)
    ensures
        match (s, r) {
            (Some(a), Some(b)) => a@ == b@,
            (None, None) => true,
            _ => false,
        },
{
    match s {
        Some(a) => Some(a.clone()),
        None => None,
    }
}

} // verus!
