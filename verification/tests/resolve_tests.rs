use gltf_tool::doc::{DecodedImage, Document, Image, ImageSource, Material, Mesh, Texture};
use gltf_tool::error::RuntimeError;
use gltf_tool::resolve::{
    extract_basecolor, extract_basecolor_by_index, resolve_basecolor_by_texture_index,
    ResolvedImage,
};

fn empty_document() -> Document {
    Document {
        materials: Vec::new(),
        textures: Vec::new(),
        images: Vec::new(),
        meshes: Vec::new(),
        blob: None,
    }
}

fn material(name: Option<&str>, base_color_texture: Option<ImageSource>) -> Material {
    Material {
        name: name.map(str::to_owned),
        base_color_texture,
    }
}

fn uri_source(uri: &str, mime_type: Option<&str>) -> ImageSource {
    ImageSource::Uri {
        uri: uri.to_owned(),
        mime_type: mime_type.map(str::to_owned),
    }
}

fn view_source(offset: usize, length: usize, mime_type: &str) -> ImageSource {
    ImageSource::View {
        offset,
        length,
        mime_type: mime_type.to_owned(),
    }
}

#[test]
fn single_material_is_default() {
    let mut doc = empty_document();
    doc.materials
        .push(material(None, Some(uri_source("tex.png", None))));
    let r = extract_basecolor(&doc, None);
    assert_eq!(
        r,
        Ok(ResolvedImage::External {
            uri: "tex.png".to_owned(),
            mime_type: None,
        })
    );
}

#[test]
fn ambiguous_materials() {
    let mut doc = empty_document();
    doc.materials.push(material(Some("a"), None));
    doc.materials.push(material(Some("b"), None));
    doc.materials.push(material(Some("c"), None));
    let r = extract_basecolor(&doc, None);
    assert_eq!(r, Err(RuntimeError::NoMaterialNameMoreThanOneMaterial));
}

#[test]
fn two_materials_are_already_ambiguous() {
    let mut doc = empty_document();
    doc.materials.push(material(Some("a"), None));
    doc.materials.push(material(Some("b"), None));
    let r = extract_basecolor(&doc, None);
    assert_eq!(r, Err(RuntimeError::NoMaterialNameMoreThanOneMaterial));
}

#[test]
fn no_materials_without_selector() {
    let doc = empty_document();
    let r = extract_basecolor(&doc, None);
    assert_eq!(r, Err(RuntimeError::NoMaterials));
}

#[test]
fn no_materials_with_selector() {
    let doc = empty_document();
    let r = extract_basecolor(&doc, Some("anything".to_owned()));
    assert_eq!(
        r,
        Err(RuntimeError::MaterialNotFound {
            material_name: "anything".to_owned(),
        })
    );
}

#[test]
fn name_matching_is_case_sensitive() {
    let mut doc = empty_document();
    doc.materials
        .push(material(Some("Red"), Some(uri_source("red.png", None))));
    let miss = extract_basecolor(&doc, Some("red".to_owned()));
    assert_eq!(
        miss,
        Err(RuntimeError::MaterialNotFound {
            material_name: "red".to_owned(),
        })
    );
    let hit = extract_basecolor(&doc, Some("Red".to_owned()));
    assert_eq!(
        hit,
        Ok(ResolvedImage::External {
            uri: "red.png".to_owned(),
            mime_type: None,
        })
    );
}

#[test]
fn first_exact_match_wins() {
    let mut doc = empty_document();
    doc.materials
        .push(material(Some("X"), Some(uri_source("first.png", None))));
    doc.materials
        .push(material(Some("X"), Some(uri_source("second.png", None))));
    let r = extract_basecolor(&doc, Some("X".to_owned()));
    assert_eq!(
        r,
        Ok(ResolvedImage::External {
            uri: "first.png".to_owned(),
            mime_type: None,
        })
    );
}

#[test]
fn view_slice_exact_range() {
    let blob: Vec<u8> = (0..40).collect();
    let mut doc = empty_document();
    doc.materials
        .push(material(None, Some(view_source(10, 20, "image/png"))));
    doc.blob = Some(blob.clone());
    let r = extract_basecolor(&doc, None);
    assert_eq!(
        r,
        Ok(ResolvedImage::Embedded {
            bytes: blob[10..30].to_vec(),
            mime_type: "image/png".to_owned(),
            length: 20,
        })
    );
}

#[test]
fn end_to_end_named_selector() {
    let mut doc = empty_document();
    doc.materials.push(material(Some("A"), None));
    doc.materials
        .push(material(Some("B"), Some(view_source(0, 5, "image/png"))));
    doc.blob = Some(vec![1, 2, 3, 4, 5, 6]);
    let r = extract_basecolor(&doc, Some("B".to_owned()));
    assert_eq!(
        r,
        Ok(ResolvedImage::Embedded {
            bytes: vec![1, 2, 3, 4, 5],
            mime_type: "image/png".to_owned(),
            length: 5,
        })
    );
}

#[test]
fn view_out_of_bounds() {
    let mut doc = empty_document();
    doc.materials
        .push(material(None, Some(view_source(4, 5, "image/png"))));
    doc.blob = Some(vec![0, 1, 2, 3, 4, 5]);
    let r = extract_basecolor(&doc, None);
    assert_eq!(
        r,
        Err(RuntimeError::ViewOutOfBounds {
            offset: 4,
            length: 5,
            blob_length: 6,
        })
    );
}

#[test]
fn view_without_blob() {
    let mut doc = empty_document();
    doc.materials
        .push(material(None, Some(view_source(0, 1, "image/png"))));
    let r = extract_basecolor(&doc, None);
    assert_eq!(r, Err(RuntimeError::NoGltfBlob));
}

#[test]
fn uri_source_echoed_with_mime_type() {
    let mut doc = empty_document();
    doc.materials.push(material(
        None,
        Some(uri_source("textures/wood.jpg", Some("image/jpeg"))),
    ));
    let r = extract_basecolor(&doc, None);
    assert_eq!(
        r,
        Ok(ResolvedImage::External {
            uri: "textures/wood.jpg".to_owned(),
            mime_type: Some("image/jpeg".to_owned()),
        })
    );
}

#[test]
fn uri_source_succeeds_without_blob_or_mime_type() {
    let mut doc = empty_document();
    doc.materials
        .push(material(None, Some(uri_source("remote.png", None))));
    assert!(doc.blob.is_none());
    let r = extract_basecolor(&doc, None);
    assert_eq!(
        r,
        Ok(ResolvedImage::External {
            uri: "remote.png".to_owned(),
            mime_type: None,
        })
    );
}

#[test]
fn material_index_not_found() {
    let mut doc = empty_document();
    doc.materials.push(material(Some("only"), None));
    let r = extract_basecolor_by_index(&doc, 7);
    assert_eq!(
        r,
        Err(RuntimeError::MaterialIndexNotFound { material_index: 7 })
    );
}

#[test]
fn material_without_base_color_texture() {
    let mut doc = empty_document();
    doc.materials.push(material(Some("flat"), None));
    let r = extract_basecolor(&doc, Some("flat".to_owned()));
    assert_eq!(
        r,
        Err(RuntimeError::PbrMetallicRougnessBaseColorTextureNotFound { material_index: 0 })
    );
}

#[test]
fn texture_index_resolves_decoded_image() {
    let mut doc = empty_document();
    doc.images.push(Image { name: None });
    doc.images.push(Image {
        name: Some("leaf".to_owned()),
    });
    doc.textures.push(Texture {
        name: None,
        image_index: 1,
    });
    let decoded = vec![
        DecodedImage {
            width: 16,
            height: 16,
        },
        DecodedImage {
            width: 640,
            height: 480,
        },
    ];
    let r = resolve_basecolor_by_texture_index(&doc, &decoded, 0);
    assert_eq!(
        r,
        Ok(DecodedImage {
            width: 640,
            height: 480,
        })
    );
}

#[test]
fn texture_index_not_found() {
    let doc = empty_document();
    let decoded: Vec<DecodedImage> = Vec::new();
    let r = resolve_basecolor_by_texture_index(&doc, &decoded, 3);
    assert_eq!(
        r,
        Err(RuntimeError::TextureIndexNotFound { texture_index: 3 })
    );
}

#[test]
fn image_index_not_found() {
    let mut doc = empty_document();
    doc.textures.push(Texture {
        name: None,
        image_index: 2,
    });
    let decoded = vec![DecodedImage {
        width: 8,
        height: 8,
    }];
    let r = resolve_basecolor_by_texture_index(&doc, &decoded, 0);
    assert_eq!(r, Err(RuntimeError::ImageIndexNotFound { image_index: 2 }));
}

#[test]
fn meshes_do_not_affect_resolution() {
    let mut doc = empty_document();
    doc.meshes.push(Mesh {
        name: Some("cube".to_owned()),
    });
    doc.materials
        .push(material(None, Some(uri_source("tex.png", None))));
    let r = extract_basecolor(&doc, None);
    assert_eq!(
        r,
        Ok(ResolvedImage::External {
            uri: "tex.png".to_owned(),
            mime_type: None,
        })
    );
}
