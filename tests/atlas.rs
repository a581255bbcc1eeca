use voxel_world::atlas::{AtlasBuilder, AtlasError};

fn s(x: &str) -> String {
    x.to_string()
}

#[test]
fn empty_atlas_is_rejected() {
    let mut b = AtlasBuilder::new();
    assert_eq!(b.build().unwrap_err(), AtlasError::EmptyAtlas);
}

#[test]
fn second_build_is_rejected() {
    let mut b = AtlasBuilder::new();
    b.add(s("dirt")).unwrap();
    assert!(b.build().is_ok());
    assert_eq!(b.build().unwrap_err(), AtlasError::AlreadyBuilt);
}

#[test]
fn build_after_empty_build_is_rejected() {
    let mut b = AtlasBuilder::new();
    assert_eq!(b.build().unwrap_err(), AtlasError::EmptyAtlas);
    assert_eq!(b.build().unwrap_err(), AtlasError::AlreadyBuilt);
}

#[test]
fn duplicate_name_is_rejected() {
    let mut b = AtlasBuilder::new();
    b.add(s("dirt")).unwrap();
    assert_eq!(b.add(s("dirt")), Err(AtlasError::DuplicateName));
    assert_eq!(b.len(), 1);
}

#[test]
fn add_after_build_is_rejected() {
    let mut b = AtlasBuilder::new();
    b.add(s("dirt")).unwrap();
    b.build().unwrap();
    assert_eq!(b.add(s("stone")), Err(AtlasError::AlreadyBuilt));
    assert_eq!(b.len(), 1);
}

#[test]
fn indices_follow_registration_order() {
    let mut b = AtlasBuilder::new();
    for name in ["stone", "grass_top", "dirt"] {
        b.add(s(name)).unwrap();
    }
    let t = b.build().unwrap();
    assert_eq!(t.len(), 3);
    assert_eq!(t.index_of(&s("stone")), Some(0));
    assert_eq!(t.index_of(&s("grass_top")), Some(1));
    assert_eq!(t.index_of(&s("dirt")), Some(2));
    assert_eq!(t.index_of(&s("sand")), None);
}
