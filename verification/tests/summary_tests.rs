use gltf_tool::doc::{Document, Image, Material, Mesh, Texture};
use gltf_tool::summary::GltfInfo;

fn named_material(name: Option<&str>) -> Material {
    Material {
        name: name.map(str::to_owned),
        base_color_texture: None,
    }
}

#[test]
fn summary_collects_names_in_order() {
    let doc = Document {
        materials: vec![named_material(Some("gold")), named_material(Some("wood"))],
        textures: vec![Texture {
            name: Some("grain".to_owned()),
            image_index: 0,
        }],
        images: vec![Image {
            name: Some("grain.png".to_owned()),
        }],
        meshes: vec![
            Mesh {
                name: Some("table".to_owned()),
            },
            Mesh {
                name: Some("chair".to_owned()),
            },
        ],
        blob: None,
    };
    let info = GltfInfo::from_document(&doc);
    assert_eq!(info.material_names, vec!["gold", "wood"]);
    assert_eq!(info.texture_names, vec!["grain"]);
    assert_eq!(info.images_names, vec!["grain.png"]);
    assert_eq!(info.meshes_names, vec!["table", "chair"]);
}

#[test]
fn summary_skips_unnamed_entities() {
    let doc = Document {
        materials: vec![
            named_material(None),
            named_material(Some("bronze")),
            named_material(None),
        ],
        textures: vec![
            Texture {
                name: None,
                image_index: 0,
            },
            Texture {
                name: None,
                image_index: 1,
            },
        ],
        images: vec![
            Image { name: None },
            Image {
                name: Some("noise".to_owned()),
            },
        ],
        meshes: vec![Mesh { name: None }],
        blob: None,
    };
    let info = GltfInfo::from_document(&doc);
    // Unnamed entities contribute nothing — not empty strings — so each list
    // is shorter than its entity count.
    assert!(info.material_names.len() < doc.materials.len());
    assert!(info.texture_names.len() < doc.textures.len());
    assert!(info.images_names.len() < doc.images.len());
    assert!(info.meshes_names.len() < doc.meshes.len());
    assert_eq!(info.material_names, vec!["bronze"]);
    assert_eq!(info.texture_names, Vec::<String>::new());
    assert_eq!(info.images_names, vec!["noise"]);
    assert_eq!(info.meshes_names, Vec::<String>::new());
    assert!(info.material_names.iter().all(|n| !n.is_empty()));
}

#[test]
fn summary_of_empty_document() {
    let doc = Document {
        materials: Vec::new(),
        textures: Vec::new(),
        images: Vec::new(),
        meshes: Vec::new(),
        blob: None,
    };
    let info = GltfInfo::from_document(&doc);
    assert!(info.material_names.is_empty());
    assert!(info.texture_names.is_empty());
    assert!(info.images_names.is_empty());
    assert!(info.meshes_names.is_empty());
}
