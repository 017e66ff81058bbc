use vstd::prelude::*;

verus! {

/// Mathematical model of an [`ImageSource`].
pub enum ImageSourceModel {
    View { offset: nat, length: nat, mime_type: Seq<char> },
    Uri { uri: Seq<char>, mime_type: Option<Seq<char>> },
}

/// Mathematical model of a [`Material`].
pub struct MaterialModel {
    pub name: Option<Seq<char>>,
    pub base_color_texture: Option<ImageSourceModel>,
}

/// Mathematical model of a [`Texture`].
pub struct TextureModel {
    pub name: Option<Seq<char>>,
    pub image_index: nat,
}

/// Mathematical model of an [`Image`].
pub struct ImageModel {
    pub name: Option<Seq<char>>,
}

/// Mathematical model of a [`Mesh`].
pub struct MeshModel {
    pub name: Option<Seq<char>>,
}

/// Mathematical model of a [`DecodedImage`].
pub struct DecodedImageModel {
    pub width: nat,
    pub height: nat,
}

/// Mathematical model of a [`Document`].
pub struct DocumentModel {
    pub materials: Seq<MaterialModel>,
    pub textures: Seq<TextureModel>,
    pub images: Seq<ImageModel>,
    pub meshes: Seq<MeshModel>,
    pub blob: Option<Seq<u8>>,
}

impl DocumentModel {
    /// The materials' optional names, in index order.
    pub open spec fn material_names(self) -> Seq<Option<Seq<char>>> {
        self.materials.map_values(|m: MaterialModel| m.name)
    }

    /// The textures' optional names, in index order.
    pub open spec fn texture_names(self) -> Seq<Option<Seq<char>>> {
        self.textures.map_values(|t: TextureModel| t.name)
    }

    /// The images' optional names, in index order.
    pub open spec fn image_names(self) -> Seq<Option<Seq<char>>> {
        self.images.map_values(|i: ImageModel| i.name)
    }

    /// The meshes' optional names, in index order.
    pub open spec fn mesh_names(self) -> Seq<Option<Seq<char>>> {
        self.meshes.map_values(|m: MeshModel| m.name)
    }
}

/// The storage representation of an image: either a byte range inside the
/// document's embedded binary blob, or an external path/URL that this crate
/// never fetches.
pub enum ImageSource {
    /// A range `[offset, offset + length)` into the document blob, with the
    /// image data's MIME type.
    View { offset: usize, length: usize, mime_type: String },
    /// An external data source, with its MIME type if the document gives one.
    Uri { uri: String, mime_type: Option<String> },
}

impl View for ImageSource {
    type V = ImageSourceModel;

    open spec fn view(&self) -> ImageSourceModel {
        match self {
            ImageSource::View { offset, length, mime_type } => ImageSourceModel::View {
                offset: *offset as nat,
                length: *length as nat,
                mime_type: mime_type@,
            },
            ImageSource::Uri { uri, mime_type } => ImageSourceModel::Uri {
                uri: uri@,
                mime_type: match mime_type {
                    Some(m) => Some(m@),
                    None => None,
                },
            },
        }
    }
}

/// A material: an optional display name and, when the material's
/// metallic-roughness shading model carries one, the source of its base-color
/// texture image.
pub struct Material {
    pub name: Option<String>,
    pub base_color_texture: Option<ImageSource>,
}

impl View for Material {
    type V = MaterialModel;

    open spec fn view(&self) -> MaterialModel {
        MaterialModel {
            name: match self.name {
                Some(n) => Some(n@),
                None => None,
            },
            base_color_texture: match self.base_color_texture {
                Some(s) => Some(s@),
                None => None,
            },
        }
    }
}

/// A texture: an optional display name and the index of its backing image.
pub struct Texture {
    pub name: Option<String>,
    pub image_index: usize,
}

impl View for Texture {
    type V = TextureModel;

    open spec fn view(&self) -> TextureModel {
        TextureModel {
            name: match self.name {
                Some(n) => Some(n@),
                None => None,
            },
            image_index: self.image_index as nat,
        }
    }
}

/// An image entity: only its optional display name matters here.
pub struct Image {
    pub name: Option<String>,
}

impl View for Image {
    type V = ImageModel;

    open spec fn view(&self) -> ImageModel {
        ImageModel {
            name: match self.name {
                Some(n) => Some(n@),
                None => None,
            },
        }
    }
}

/// A mesh entity: only its optional display name matters here.
pub struct Mesh {
    pub name: Option<String>,
}

impl View for Mesh {
    type V = MeshModel;

    open spec fn view(&self) -> MeshModel {
        MeshModel {
            name: match self.name {
                Some(n) => Some(n@),
                None => None,
            },
        }
    }
}

/// The pixel dimensions of an image that a collaborator has already decoded,
/// aligned by image index with the document's images.
#[derive(Debug, Clone, Copy, PartialEq, Eq)]
pub struct DecodedImage {
    pub width: u32,
    pub height: u32,
}

impl View for DecodedImage {
    type V = DecodedImageModel;

    open spec fn view(&self) -> DecodedImageModel {
        DecodedImageModel { width: self.width as nat, height: self.height as nat }
    }
}

/// An already-loaded 3D-asset document: its materials, textures, images and
/// meshes in stable index order, and the optional contiguous binary blob that
/// embedded image bytes live in. The crate only ever reads a `Document`.
pub struct Document {
    pub materials: Vec<Material>,
    pub textures: Vec<Texture>,
    pub images: Vec<Image>,
    pub meshes: Vec<Mesh>,
    pub blob: Option<Vec<u8>>,
}

impl View for Document {
    type V = DocumentModel;

    open spec fn view(&self) -> DocumentModel {
        DocumentModel {
            materials: self.materials@.map_values(|m: Material| m@),
            textures: self.textures@.map_values(|t: Texture| t@),
            images: self.images@.map_values(|i: Image| i@),
            meshes: self.meshes@.map_values(|m: Mesh| m@),
            blob: match self.blob {
                Some(b) => Some(b@),
                None => None,
            },
        }
    }
}

} // verus!
