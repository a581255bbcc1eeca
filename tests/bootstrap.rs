use voxel_world::atlas::AtlasError;
use voxel_world::bootstrap::{
    finalize, Bootstrapper, LoadPoll, SessionState, StartupAction, StartupError, SHEET_HEIGHT, SHEET_WIDTH,
};
use voxel_world::mesh::{new_block, Uv};

fn names(list: &[&str]) -> Vec<String> {
    list.iter().map(|s| s.to_string()).collect()
}

#[test]
fn finalize_maps_faces_to_their_textures() {
    let w = finalize(&names(&["grass_side", "grass_top", "dirt"])).unwrap();
    let expected = new_block(0, 0, 0, 0, 1, 2).unwrap();
    let m = w.template();
    assert_eq!(m.uvs, expected.uvs);
    assert_eq!(m.positions, expected.positions);
    for j in 0..16 {
        assert!(m.uvs[j].u == 0 || m.uvs[j].u == 1);
    }
    for j in 16..20 {
        assert!(m.uvs[j].u == 1 || m.uvs[j].u == 2);
    }
    for j in 20..24 {
        assert!(m.uvs[j].u == 2 || m.uvs[j].u == 3);
    }
    assert_eq!(m.uvs[16], Uv { u: 2, v: 0 });
}

#[test]
fn finalize_builds_sheet_of_blocks() {
    let w = finalize(&names(&["dirt", "grass_top", "grass_side", "stone"])).unwrap();
    let n = (SHEET_WIDTH * SHEET_WIDTH) as usize;
    assert_eq!(w.slot_count(), n);
    assert_eq!(w.live_count(), n);
    assert_eq!(w.atlas().index_of(&"stone".to_string()), Some(3));
    for i in 0..n {
        let b = w.block(i).unwrap();
        assert_eq!(b.position.y, SHEET_HEIGHT);
        assert_eq!(b.position.x, (i / SHEET_WIDTH as usize) as i32);
        assert_eq!(b.position.z, (i % SHEET_WIDTH as usize) as i32);
        assert_eq!(b.mesh, w.mesh());
        assert_eq!(b.material, w.material());
        assert!(!b.highlighted);
    }
    assert_eq!(w.template().uvs, new_block(2, 2, 2, 2, 1, 0).unwrap().uvs);
}

#[test]
fn finalize_without_textures_fails() {
    assert_eq!(finalize(&Vec::new()).unwrap_err(), StartupError::Atlas(AtlasError::EmptyAtlas));
}

#[test]
fn finalize_with_duplicate_name_fails() {
    let e = finalize(&names(&["grass_side", "dirt", "grass_top", "dirt"])).unwrap_err();
    assert_eq!(e, StartupError::Atlas(AtlasError::DuplicateName));
}

#[test]
fn finalize_with_missing_texture_fails() {
    let e = finalize(&names(&["grass_side", "grass_top"])).unwrap_err();
    assert_eq!(e, StartupError::MissingTexture);
}

#[test]
fn finalize_with_tile_outside_row_fails() {
    let mut list = Vec::new();
    for i in 0..16 {
        list.push(format!("filler_{i}"));
    }
    list.push("grass_side".to_string());
    list.push("grass_top".to_string());
    list.push("dirt".to_string());
    assert_eq!(finalize(&list).unwrap_err(), StartupError::InvalidFaceIndex);
}

#[test]
fn startup_runs_through_its_states() {
    let mut b = Bootstrapper::new();
    assert_eq!(b.state(), SessionState::Setup);
    assert!(matches!(b.step(LoadPoll::Pending), Ok(StartupAction::RequestTextures)));
    assert_eq!(b.state(), SessionState::Loading);
    assert!(matches!(b.step(LoadPoll::Pending), Ok(StartupAction::Wait)));
    assert_eq!(b.state(), SessionState::Loading);
    let r = b.step(LoadPoll::Complete(names(&["grass_side", "grass_top", "dirt"])));
    let w = match r {
        Ok(StartupAction::Publish(w)) => w,
        _ => panic!("world not published"),
    };
    assert_eq!(b.state(), SessionState::Ready);
    assert_eq!(w.live_count(), (SHEET_WIDTH * SHEET_WIDTH) as usize);
    assert!(matches!(b.step(LoadPoll::Complete(names(&["dirt"]))), Ok(StartupAction::Wait)));
    assert_eq!(b.state(), SessionState::Ready);
}

#[test]
fn failed_startup_stays_loading() {
    let mut b = Bootstrapper::new();
    b.step(LoadPoll::Pending).unwrap();
    let r = b.step(LoadPoll::Complete(names(&["dirt"])));
    assert!(matches!(r, Err(StartupError::MissingTexture)));
    assert_eq!(b.state(), SessionState::Loading);
}
