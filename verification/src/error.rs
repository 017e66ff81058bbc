use vstd::prelude::*;

verus! {

/// Mathematical model of a [`RuntimeError`]: the same variants over `Seq<char>`
/// and `nat` instead of `String` and `usize`.
pub enum RuntimeErrorModel {
    NoMaterialNameMoreThanOneMaterial,
    NoMaterials,
    MaterialNotFound { material_name: Seq<char> },
    MaterialIndexNotFound { material_index: nat },
    PbrMetallicRougnessBaseColorTextureNotFound { material_index: nat },
    NoGltfBlob,
    ViewOutOfBounds { offset: nat, length: nat, blob_length: nat },
    TextureIndexNotFound { texture_index: nat },
    ImageIndexNotFound { image_index: nat },
}

/// A failure of resolution. Every error is terminal for the single call that
/// produced it and is returned to the caller as a value; nothing is logged or
/// swallowed inside this crate.
#[derive(Debug, Clone, PartialEq, Eq)]
pub enum RuntimeError {
    /// No material name was given and the document holds two or more
    /// materials, so no positional default exists.
    NoMaterialNameMoreThanOneMaterial,
    /// No material name was given and the document holds no material at all.
    NoMaterials,
    /// A material name was given and no material carries exactly that name.
    MaterialNotFound { material_name: String },
    /// An index-addressed lookup was asked for a material index the document
    /// does not have.
    MaterialIndexNotFound { material_index: usize },
    /// The selected material has no metallic-roughness base-color texture.
    PbrMetallicRougnessBaseColorTextureNotFound { material_index: usize },
    /// The image source is a byte range into the document blob, but the
    /// document carries no blob.
    NoGltfBlob,
    /// The image source's byte range does not lie within the blob.
    ViewOutOfBounds { offset: usize, length: usize, blob_length: usize },
    /// An index-addressed lookup was asked for a texture index the document
    /// does not have.
    TextureIndexNotFound { texture_index: usize },
    /// A texture's backing image index lies outside the decoded-images list.
    ImageIndexNotFound { image_index: usize },
}

impl View for RuntimeError {
    type V = RuntimeErrorModel;

    open spec fn view(&self) -> RuntimeErrorModel {
        match self {
            RuntimeError::NoMaterialNameMoreThanOneMaterial => RuntimeErrorModel::NoMaterialNameMoreThanOneMaterial,
            RuntimeError::NoMaterials => RuntimeErrorModel::NoMaterials,
            RuntimeError::MaterialNotFound { material_name } => RuntimeErrorModel::MaterialNotFound {
                material_name: material_name@,
            },
            RuntimeError::MaterialIndexNotFound { material_index } => RuntimeErrorModel::MaterialIndexNotFound {
                material_index: *material_index as nat,
            },
            RuntimeError::PbrMetallicRougnessBaseColorTextureNotFound { material_index } => RuntimeErrorModel::PbrMetallicRougnessBaseColorTextureNotFound {
                material_index: *material_index as nat,
            },
            RuntimeError::NoGltfBlob => RuntimeErrorModel::NoGltfBlob,
            RuntimeError::ViewOutOfBounds { offset, length, blob_length } => RuntimeErrorModel::ViewOutOfBounds {
                offset: *offset as nat,
                length: *length as nat,
                blob_length: *blob_length as nat,
            },
            RuntimeError::TextureIndexNotFound { texture_index } => RuntimeErrorModel::TextureIndexNotFound {
                texture_index: *texture_index as nat,
            },
            RuntimeError::ImageIndexNotFound { image_index } => RuntimeErrorModel::ImageIndexNotFound {
                image_index: *image_index as nat,
            },
        }
    }
}

} // verus!
