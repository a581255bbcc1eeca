//! The block world: a registry of block instances with stable handles, and the
//! pointer interaction protocol that highlights, places and removes blocks.
//!
//! Pointer events are first turned into a `Command` against the current
//! registry, then the command is applied, so that structural changes happen at
//! a point of the caller's choosing.
use vstd::prelude::*;
use crate::atlas::AtlasTable;
use crate::mesh::{CubeMesh, Vec3i};

verus! {

/// One placed cube. All instances of a world share one mesh template and one
/// material, which they name by handle.
#[derive(Clone, Copy, Debug, PartialEq, Eq, Structural)]
pub struct BlockInstance {
    /// Lattice position of the cube's centre.
    pub position: Vec3i,
    /// Handle of the shared mesh template.
    pub mesh: u32,
    /// Handle of the shared material.
    pub material: u32,
    /// Whether the block is shown highlighted.
    pub highlighted: bool,
}

#[derive(Clone, Copy, Debug, PartialEq, Eq, Structural)]
pub enum PointerButton {
    Primary,
    Secondary,
    Other,
}

/// A pointer event addressed to one block.
#[derive(Clone, Copy, Debug, PartialEq, Eq, Structural)]
pub enum PointerEvent {
    /// The pointer entered the block.
    Over,
    /// The pointer left the block.
    Out,
    /// The block was clicked.
    Click(PointerButton),
}

/// A change to the block registry.
#[derive(Clone, Copy, Debug, PartialEq, Eq, Structural)]
pub enum Command {
    /// Set the highlight of the block with this handle.
    SetHighlight { block: usize, on: bool },
    /// Place a new block at this position.
    Spawn(Vec3i),
    /// Remove the block with this handle.
    Despawn(usize),
    /// Leave the registry as it is.
    Nothing,
}

/// The world after start-up: the atlas table, the shared cube mesh template,
/// and the registry of blocks. A block's handle is its slot in the registry;
/// slots are never reused, so a handle of a removed block stays dead.
#[derive(Debug)]
pub struct World {
    atlas: AtlasTable,
    template: CubeMesh,
    mesh: u32,
    material: u32,
    blocks: Vec<Option<BlockInstance>>,
}

/// The slot `id` holds a block.
pub open spec fn is_live(blocks: Seq<Option<BlockInstance>>, id: int) -> bool {
    0 <= id < blocks.len() && blocks[id] is Some
}

/// The lattice position one unit above `p`.
pub open spec fn above(p: Vec3i) -> Vec3i {
    Vec3i { x: p.x, y: (p.y + 1) as i32, z: p.z }
}

/// The command that the pointer event `event` on handle `id` asks for. Events
/// on dead handles, clicks of other buttons, and placements above the top of
/// the lattice ask for nothing.
pub open spec fn decide(blocks: Seq<Option<BlockInstance>>, id: int, event: PointerEvent) -> Command {
    if !is_live(blocks, id) {
        Command::Nothing
    } else {
        let b = blocks[id]->Some_0;
        match event {
            PointerEvent::Over => Command::SetHighlight { block: id as usize, on: true },
            PointerEvent::Out => Command::SetHighlight { block: id as usize, on: false },
            PointerEvent::Click(PointerButton::Primary) => if b.position.y < i32::MAX {
                Command::Spawn(above(b.position))
            } else {
                Command::Nothing
            },
            PointerEvent::Click(PointerButton::Secondary) => Command::Despawn(id as usize),
            PointerEvent::Click(PointerButton::Other) => Command::Nothing,
        }
    }
}

/// A fresh block at `position` with the given shared handles.
pub open spec fn new_instance(position: Vec3i, mesh: u32, material: u32) -> BlockInstance {
    BlockInstance { position, mesh, material, highlighted: false }
}

/// The registry after applying `cmd`, new blocks taking the handles `mesh`
/// and `material`. Commands on dead handles change nothing.
pub open spec fn apply_command(blocks: Seq<Option<BlockInstance>>, mesh: u32, material: u32, cmd: Command) -> Seq<
    Option<BlockInstance>,
> {
    match cmd {
        Command::SetHighlight { block, on } => if is_live(blocks, block as int) {
            blocks.update(block as int, Some(BlockInstance { highlighted: on, ..blocks[block as int]->Some_0 }))
        } else {
            blocks
        },
        Command::Spawn(position) => blocks.push(Some(new_instance(position, mesh, material))),
        Command::Despawn(block) => if is_live(blocks, block as int) {
            blocks.update(block as int, None)
        } else {
            blocks
        },
        Command::Nothing => blocks,
    }
}

/// The blocks of a sheet of `width` by `depth` cubes on the horizontal plane
/// through `origin`, filled column by column: block `n` stands at
/// `origin + (n / depth, 0, n % depth)`.
pub open spec fn sheet(origin: Vec3i, width: u32, depth: u32, mesh: u32, material: u32) -> Seq<Option<BlockInstance>> {
    Seq::new(
        (width * depth) as nat,
        |n: int|
            Some(
                new_instance(
                    Vec3i {
                        x: (origin.x + n / (depth as int)) as i32,
                        y: origin.y,
                        z: (origin.z + n % (depth as int)) as i32,
                    },
                    mesh,
                    material,
                ),
            ),
    )
}

impl World {
    /// A world with an empty registry.
    pub fn new(atlas: AtlasTable, template: CubeMesh, mesh: u32, material: u32) -> (r: World)
        ensures
            r.wf(),
            r.blocks() == Seq::<Option<BlockInstance>>::empty(),
            r.mesh_handle() == mesh,
            r.material_handle() == material,
            r.template_spec() == template,
            r.atlas_spec() == atlas,
    {
        World { atlas, template, mesh, material, blocks: Vec::new() }
    }

    /// Places a sheet of `width` by `depth` blocks on the horizontal plane
    /// through `origin`, at `origin + (i, 0, k)` for `i < width`, `k < depth`.
    pub fn spawn_sheet(&mut self, origin: Vec3i, width: u32, depth: u32)
        requires
            old(self).wf(),
            origin.x + width <= i32::MAX + 1,
            origin.z + depth <= i32::MAX + 1,
        ensures
            final(self).wf(),
            final(self).blocks() == old(self).blocks() + sheet(origin, width, depth, old(self).mesh_handle(), old(self).material_handle()),
            final(self).mesh_handle() == old(self).mesh_handle(),
            final(self).material_handle() == old(self).material_handle(),
            final(self).template_spec() == old(self).template_spec(),
            final(self).atlas_spec() == old(self).atlas_spec(),
    {
        let ghost full = sheet(origin, width, depth, self.mesh, self.material);
        let mut i: u32 = 0;
        while i < width
            invariant
                i <= width,
                origin.x + width <= i32::MAX + 1,
                origin.z + depth <= i32::MAX + 1,
                full == sheet(origin, width, depth, self.mesh, self.material),
                self.mesh == old(self).mesh,
                self.material == old(self).material,
                self.template == old(self).template,
                self.atlas == old(self).atlas,
                self.wf(),
                i * depth <= width * depth,
                self.blocks@ == old(self).blocks@ + full.take(i * depth),
            decreases width - i,
        {
            let mut k: u32 = 0;
            while k < depth
                invariant
                    i < width,
                    k <= depth,
                    origin.x + width <= i32::MAX + 1,
                    origin.z + depth <= i32::MAX + 1,
                    full == sheet(origin, width, depth, self.mesh, self.material),
                    self.mesh == old(self).mesh,
                    self.material == old(self).material,
                    self.template == old(self).template,
                    self.atlas == old(self).atlas,
                    self.wf(),
                    self.blocks@ == old(self).blocks@ + full.take(i * depth + k),
                decreases depth - k,
            {
                let ghost n = i * depth + k;
                proof {
                    assert(n < width * depth) by (nonlinear_arith)
                        requires
                            n == i * depth + k,
                            i < width,
                            k < depth,
                    ;
                    vstd::arithmetic::div_mod::lemma_fundamental_div_mod_converse(n, depth as int, i as int, k as int);
                }
                let x = (origin.x as i64 + i as i64) as i32;
                let z = (origin.z as i64 + k as i64) as i32;
                let position = Vec3i { x, y: origin.y, z };
                self.blocks.push(Some(BlockInstance { position, mesh: self.mesh, material: self.material, highlighted: false }));
                proof {
                    assert(self.blocks@ =~= old(self).blocks@ + full.take(n + 1));
                }
                k = k + 1;
            }
            proof {
                assert(i * depth + depth == (i + 1) * depth) by (nonlinear_arith);
                assert((i + 1) * depth <= width * depth) by (nonlinear_arith)
                    requires
                        i < width,
                ;
            }
            i = i + 1;
        }
        proof {
            assert(full.take(width * depth) =~= full);
        }
    }

    /// The registry's slots; slot `i` holds the block of handle `i`, if alive.
    pub closed spec fn blocks(&self) -> Seq<Option<BlockInstance>> {
        self.blocks@
    }

    /// Handle of the shared mesh template.
    pub closed spec fn mesh_handle(&self) -> u32 {
        self.mesh
    }

    /// Handle of the shared material.
    pub closed spec fn material_handle(&self) -> u32 {
        self.material
    }

    /// The shared mesh template.
    pub closed spec fn template_spec(&self) -> &CubeMesh {
        &self.template
    }

    /// The atlas table.
    pub closed spec fn atlas_spec(&self) -> &AtlasTable {
        &self.atlas
    }

    /// Every block shares the world's mesh template and material.
    pub open spec fn wf(&self) -> bool {
        forall|i: int|
            is_live(self.blocks(), i) ==> (#[trigger] self.blocks()[i])->Some_0.mesh == self.mesh_handle()
                && self.blocks()[i]->Some_0.material == self.material_handle()
    }

    /// Number of slots, live or dead.
    pub fn slot_count(&self) -> (r: usize)
        ensures
            r == self.blocks().len(),
    {
        self.blocks.len()
    }

    /// The block of handle `id`, or `None` when it is dead or was never given.
    pub fn block(&self, id: usize) -> (r: Option<BlockInstance>)
        ensures
            is_live(self.blocks(), id as int) ==> r == self.blocks()[id as int],
            !is_live(self.blocks(), id as int) ==> r is None,
    {
        if id < self.blocks.len() {
            self.blocks[id]
        } else {
            None
        }
    }

    /// Number of live blocks.
    pub fn live_count(&self) -> (r: usize)
        ensures
            r == live_count_of(self.blocks()),
    {
        let mut n: usize = 0;
        let mut i: usize = 0;
        while i < self.blocks.len()
            invariant
                i <= self.blocks@.len(),
                n == live_count_of(self.blocks@.take(i as int)),
                n <= i,
            decreases self.blocks@.len() - i,
        {
            proof {
                assert(self.blocks@.take(i as int + 1).drop_last() =~= self.blocks@.take(i as int));
            }
            if self.blocks[i].is_some() {
                n = n + 1;
            }
            i = i + 1;
        }
        proof {
            assert(self.blocks@.take(i as int) =~= self.blocks@);
        }
        n
    }

    /// The shared mesh template.
    pub fn template(&self) -> (r: &CubeMesh)
        ensures
            r == self.template_spec(),
    {
        &self.template
    }

    /// The atlas table.
    pub fn atlas(&self) -> (r: &AtlasTable)
        ensures
            r == self.atlas_spec(),
    {
        &self.atlas
    }

    /// Handle of the shared mesh template.
    pub fn mesh(&self) -> (r: u32)
        ensures
            r == self.mesh_handle(),
    {
        self.mesh
    }

    /// Handle of the shared material.
    pub fn material(&self) -> (r: u32)
        ensures
            r == self.material_handle(),
    {
        self.material
    }

    /// The command that pointer event `event` on block `id` asks for.
    pub fn on_pointer(&self, id: usize, event: PointerEvent) -> (r: Command)
        ensures
            r == decide(self.blocks(), id as int, event),
    {
        let b = match self.block(id) {
            Some(b) => b,
            None => return Command::Nothing,
        };
        match event {
            PointerEvent::Over => Command::SetHighlight { block: id, on: true },
            PointerEvent::Out => Command::SetHighlight { block: id, on: false },
            PointerEvent::Click(PointerButton::Primary) => {
                if b.position.y < i32::MAX {
                    Command::Spawn(Vec3i { x: b.position.x, y: b.position.y + 1, z: b.position.z })
                } else {
                    Command::Nothing
                }
            },
            PointerEvent::Click(PointerButton::Secondary) => Command::Despawn(id),
            PointerEvent::Click(PointerButton::Other) => Command::Nothing,
        }
    }

    /// Applies `cmd` to the registry. Returns the handle of the block that a
    /// `Spawn` placed, which is the next unused slot, and `None` for the other
    /// commands.
    pub fn apply(&mut self, cmd: Command) -> (r: Option<usize>)
        requires
            old(self).wf(),
        ensures
            final(self).wf(),
            final(self).blocks() == apply_command(old(self).blocks(), old(self).mesh_handle(), old(self).material_handle(), cmd),
            final(self).mesh_handle() == old(self).mesh_handle(),
            final(self).material_handle() == old(self).material_handle(),
            final(self).template_spec() == old(self).template_spec(),
            final(self).atlas_spec() == old(self).atlas_spec(),
            r == (if cmd is Spawn { Some(old(self).blocks().len() as usize) } else { None::<usize> }),
    {
        match cmd {
            Command::SetHighlight { block, on } => {
                if block < self.blocks.len() {
                    if let Some(b) = self.blocks[block] {
                        self.blocks.set(block, Some(BlockInstance { highlighted: on, ..b }));
                    }
                }
                None
            },
            Command::Spawn(position) => {
                let id = self.blocks.len();
                self.blocks.push(Some(BlockInstance { position, mesh: self.mesh, material: self.material, highlighted: false }));
                Some(id)
            },
            Command::Despawn(block) => {
                if block < self.blocks.len() && self.blocks[block].is_some() {
                    self.blocks.set(block, None);
                }
                None
            },
            Command::Nothing => None,
        }
    }
}

/// Number of live slots.
pub open spec fn live_count_of(blocks: Seq<Option<BlockInstance>>) -> nat
    decreases blocks.len(),
{
    if blocks.len() == 0 {
        0
    } else {
        live_count_of(blocks.drop_last()) + if blocks.last() is Some { 1nat } else { 0nat }
    }
}


/// A primary click on a live block, below the top of the lattice, places
/// exactly one new block: in a fresh slot, one unit above the clicked block,
/// with the same mesh template and material handles; every other slot is
/// unchanged.
pub proof fn lemma_primary_click_places_block_above(w: &World, id: usize)
    requires
        w.wf(),
        is_live(w.blocks(), id as int),
        w.blocks()[id as int]->Some_0.position.y < i32::MAX,
    ensures
        ({
            let before = w.blocks();
            let clicked = before[id as int]->Some_0;
            let after = apply_command(
                before,
                w.mesh_handle(),
                w.material_handle(),
                decide(before, id as int, PointerEvent::Click(PointerButton::Primary)),
            );
            &&& after.len() == before.len() + 1
            &&& after.take(before.len() as int) == before
            &&& after.last() is Some
            &&& after.last()->Some_0.position == Vec3i {
                x: clicked.position.x,
                y: (clicked.position.y + 1) as i32,
                z: clicked.position.z,
            }
            &&& after.last()->Some_0.mesh == clicked.mesh
            &&& after.last()->Some_0.material == clicked.material
            &&& live_count_of(after) == live_count_of(before) + 1
        }),
{
    let before = w.blocks();
    let after = apply_command(
        before,
        w.mesh_handle(),
        w.material_handle(),
        decide(before, id as int, PointerEvent::Click(PointerButton::Primary)),
    );
    assert(after.take(before.len() as int) =~= before);
    assert(after.drop_last() =~= before);
}

/// A secondary click on a live block empties its slot and leaves every other
/// slot unchanged; afterwards no pointer event on that handle asks for
/// anything.
pub proof fn lemma_secondary_click_removes_block(w: &World, id: usize, later: PointerEvent)
    requires
        is_live(w.blocks(), id as int),
    ensures
        ({
            let before = w.blocks();
            let after = apply_command(
                before,
                w.mesh_handle(),
                w.material_handle(),
                decide(before, id as int, PointerEvent::Click(PointerButton::Secondary)),
            );
            &&& after.len() == before.len()
            &&& !is_live(after, id as int)
            &&& forall|i: int| 0 <= i < before.len() && i != id ==> after[i] == before[i]
            &&& decide(after, id as int, later) == Command::Nothing
        }),
{
}

} // verus!
