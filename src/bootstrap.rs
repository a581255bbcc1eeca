//! World start-up: textures are requested, awaited, and then turned once into
//! the atlas, the shared block mesh and the initial sheet of blocks.
use vstd::prelude::*;
use crate::atlas::{distinct_names, names_of, AtlasBuilder, AtlasError};
use crate::mesh::{face_tiles, is_cube_mesh, new_block, MeshError, Vec3i, TILES_PER_ROW};
use crate::world::{sheet, World};

verus! {

/// Blocks along each side of the initial sheet.
pub const SHEET_WIDTH: u32 = 17;

/// Height of the plane of the initial sheet.
pub const SHEET_HEIGHT: i32 = -10;

/// Handle of the block mesh template.
pub const TEMPLATE_MESH: u32 = 0;

/// Handle of the atlas material.
pub const ATLAS_MATERIAL: u32 = 0;

/// A fatal start-up error: the world is not built.
#[derive(Clone, Copy, Debug, PartialEq, Eq, Structural)]
pub enum StartupError {
    /// The atlas could not be built.
    Atlas(AtlasError),
    /// A texture that a block face needs is not in the atlas.
    MissingTexture,
    /// A texture that a block face needs lies outside the atlas row.
    InvalidFaceIndex,
}

#[derive(Clone, Copy, Debug, PartialEq, Eq, Structural)]
pub enum SessionState {
    Setup,
    Loading,
    Ready,
}

/// What the texture loader reports on one tick.
pub enum LoadPoll {
    /// The textures are still loading.
    Pending,
    /// Every texture has loaded; their names, in the order they were found.
    Complete(Vec<String>),
}

/// What the caller is to do after a start-up step.
#[derive(Debug)]
pub enum StartupAction {
    /// Request the texture folder.
    RequestTextures,
    /// Nothing this tick.
    Wait,
    /// The world is built: publish it, with its light and camera.
    Publish(World),
}

/// Texture of the four side faces of a block.
pub open spec fn side_texture() -> Seq<char> {
    "grass_side"@
}

/// Texture of the top face of a block.
pub open spec fn top_texture() -> Seq<char> {
    "grass_top"@
}

/// Texture of the bottom face of a block.
pub open spec fn bottom_texture() -> Seq<char> {
    "dirt"@
}

/// The tile index of `name` among `names`.
pub open spec fn index_in(names: Seq<Seq<char>>, name: Seq<char>) -> int {
    choose|i: int| 0 <= i < names.len() && names[i] == name
}

/// Tiles of the block faces front, back, right, left, top, bottom.
pub open spec fn block_tiles(names: Seq<Seq<char>>) -> Seq<u32> {
    let side = index_in(names, side_texture()) as u32;
    face_tiles(side, side, side, side, index_in(names, top_texture()) as u32, index_in(names, bottom_texture()) as u32)
}

/// The error with which start-up from textures of these names fails, if any.
pub open spec fn startup_error(names: Seq<Seq<char>>) -> Option<StartupError> {
    if !distinct_names(names) {
        Some(StartupError::Atlas(AtlasError::DuplicateName))
    } else if names.len() == 0 {
        Some(StartupError::Atlas(AtlasError::EmptyAtlas))
    } else if !names.contains(side_texture()) || !names.contains(top_texture()) || !names.contains(bottom_texture()) {
        Some(StartupError::MissingTexture)
    } else if index_in(names, side_texture()) >= TILES_PER_ROW || index_in(names, top_texture()) >= TILES_PER_ROW
        || index_in(names, bottom_texture()) >= TILES_PER_ROW {
        Some(StartupError::InvalidFaceIndex)
    } else {
        None
    }
}

pub open spec fn sheet_origin() -> Vec3i {
    Vec3i { x: 0, y: SHEET_HEIGHT, z: 0 }
}

/// `w` is the world built from textures of these names: their atlas table,
/// the block mesh over their tiles, and the initial sheet of blocks.
pub open spec fn is_initial_world(w: &World, names: Seq<Seq<char>>) -> bool {
    &&& w.wf()
    &&& w.atlas_spec().wf()
    &&& w.atlas_spec().names() == names
    &&& is_cube_mesh(w.template_spec(), block_tiles(names))
    &&& w.mesh_handle() == TEMPLATE_MESH
    &&& w.material_handle() == ATLAS_MATERIAL
    &&& w.blocks() == sheet(sheet_origin(), SHEET_WIDTH, SHEET_WIDTH, TEMPLATE_MESH, ATLAS_MATERIAL)
}

proof fn lemma_index_in(names: Seq<Seq<char>>, name: Seq<char>, i: int)
    requires
        distinct_names(names),
        0 <= i < names.len(),
        names[i] == name,
    ensures
        index_in(names, name) == i,
{
}

/// Builds the world from the loaded textures, given by name in the order
/// they were found: the atlas, the block mesh, and the initial sheet.
pub fn finalize(textures: &Vec<String>) -> (r: Result<World, StartupError>)
    ensures
        match r {
            Ok(w) => startup_error(names_of(textures@)) is None && is_initial_world(&w, names_of(textures@)),
            Err(e) => startup_error(names_of(textures@)) == Some(e),
        },
{
    let ghost names = names_of(textures@);
    let mut builder = AtlasBuilder::new();
    let mut j: usize = 0;
    while j < textures.len()
        invariant
            j <= textures@.len(),
            names == names_of(textures@),
            builder.wf(),
            !builder.is_built(),
            builder.names() == names.take(j as int),
        decreases textures@.len() - j,
    {
        let name = textures[j].clone();
        match builder.add(name) {
            Ok(()) => {},
            Err(e) => {
                proof {
                    let k = choose|k: int| 0 <= k < j && names.take(j as int)[k] == names[j as int];
                    assert(names[k] == names[j as int]);
                }
                return Err(StartupError::Atlas(e));
            },
        }
        j = j + 1;
        proof {
            assert(builder.names() =~= names.take(j as int));
        }
    }
    proof {
        assert(names.take(j as int) =~= names);
    }
    let table = match builder.build() {
        Ok(t) => t,
        Err(e) => return Err(StartupError::Atlas(e)),
    };
    let side_name = "grass_side".to_owned();
    let top_name = "grass_top".to_owned();
    let bottom_name = "dirt".to_owned();
    let side = match table.index_of(&side_name) {
        Some(i) => i,
        None => return Err(StartupError::MissingTexture),
    };
    let top = match table.index_of(&top_name) {
        Some(i) => i,
        None => return Err(StartupError::MissingTexture),
    };
    let bottom = match table.index_of(&bottom_name) {
        Some(i) => i,
        None => return Err(StartupError::MissingTexture),
    };
    proof {
        lemma_index_in(names, side_texture(), side as int);
        lemma_index_in(names, top_texture(), top as int);
        lemma_index_in(names, bottom_texture(), bottom as int);
    }
    if side >= TILES_PER_ROW as usize || top >= TILES_PER_ROW as usize || bottom >= TILES_PER_ROW as usize {
        return Err(StartupError::InvalidFaceIndex);
    }
    let side = side as u32;
    let template = match new_block(side, side, side, side, top as u32, bottom as u32) {
        Ok(m) => m,
        Err(MeshError::InvalidFaceIndex) => return Err(StartupError::InvalidFaceIndex),
    };
    let mut world = World::new(table, template, TEMPLATE_MESH, ATLAS_MATERIAL);
    world.spawn_sheet(Vec3i { x: 0, y: SHEET_HEIGHT, z: 0 }, SHEET_WIDTH, SHEET_WIDTH);
    proof {
        assert(world.blocks() =~= sheet(sheet_origin(), SHEET_WIDTH, SHEET_WIDTH, TEMPLATE_MESH, ATLAS_MATERIAL));
    }
    Ok(world)
}


/// Drives start-up through `Setup`, `Loading` and `Ready`, one step per tick.
pub struct Bootstrapper {
    state: SessionState,
}

impl Bootstrapper {
    pub closed spec fn state_spec(&self) -> SessionState {
        self.state
    }

    pub fn new() -> (r: Bootstrapper)
        ensures
            r.state_spec() == SessionState::Setup,
    {
        Bootstrapper { state: SessionState::Setup }
    }

    pub fn state(&self) -> (r: SessionState)
        ensures
            r == self.state_spec(),
    {
        self.state
    }

    /// One start-up step, given what the texture loader reports this tick.
    ///
    /// In `Setup` the textures are requested and the session moves to
    /// `Loading`. In `Loading` nothing happens until the loader completes;
    /// then the world is built from the loaded textures and published, and the
    /// session is `Ready`, or start-up fails and the session stays in
    /// `Loading`. `Ready` is never left, and the world is built only on the
    /// step that enters it.
    pub fn step(&mut self, poll: LoadPoll) -> (r: Result<StartupAction, StartupError>)
        ensures
            old(self).state_spec() == SessionState::Setup ==> final(self).state_spec() == SessionState::Loading
                && r is Ok && r->Ok_0 is RequestTextures,
            old(self).state_spec() == SessionState::Ready ==> final(self).state_spec() == SessionState::Ready
                && r is Ok && r->Ok_0 is Wait,
            old(self).state_spec() == SessionState::Loading && poll is Pending ==> final(self).state_spec()
                == SessionState::Loading && r is Ok && r->Ok_0 is Wait,
            old(self).state_spec() == SessionState::Loading && poll is Complete ==> ({
                let names = names_of(poll->Complete_0@);
                match startup_error(names) {
                    Some(e) => final(self).state_spec() == SessionState::Loading && r == Err::<
                        StartupAction,
                        StartupError,
                    >(e),
                    None => final(self).state_spec() == SessionState::Ready && r is Ok && r->Ok_0 is Publish
                        && is_initial_world(&r->Ok_0->Publish_0, names),
                }
            }),
    {
        match self.state {
            SessionState::Setup => {
                self.state = SessionState::Loading;
                Ok(StartupAction::RequestTextures)
            },
            SessionState::Loading => match poll {
                LoadPoll::Pending => Ok(StartupAction::Wait),
                LoadPoll::Complete(textures) => {
                    let world = finalize(&textures)?;
                    self.state = SessionState::Ready;
                    Ok(StartupAction::Publish(world))
                },
            },
            SessionState::Ready => Ok(StartupAction::Wait),
        }
    }
}

} // verus!
