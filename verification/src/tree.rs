//! The tree document as the viewer holds it: groups, nodes, orbit geometry
//! and the catalog of sprite sheets. Positions are in coordinate units (see
//! the view transform). Nothing here changes once the document is loaded.

use crate::table::{lookup, Table};
use crate::text::{decimal, decimal_text};
use crate::view::PanBounds;
use vstd::prelude::*;

verus! {

/// The angle between two neighbouring slots of each orbit, in degrees.
pub const ORBIT_ANGLES: [i32; 16] = [
    0,
    30,
    45,
    60,
    90,
    120,
    135,
    150,
    180,
    210,
    225,
    240,
    270,
    300,
    315,
    330,
];

#[derive(Debug, Default)]
pub struct Class {}

/// The art behind a group. A half image is drawn a second time below
/// itself, mirrored top to bottom.
#[derive(Debug, Default)]
pub struct GroupBackground {
    pub image: String,
    pub is_half_image: Option<bool>,
}

/// An anchor in the world with the nodes that circle it.
#[derive(Debug, Default)]
pub struct Group {
    pub x: i64,
    pub y: i64,
    pub orbits: Vec<usize>,
    pub background: Option<GroupBackground>,
    pub nodes: Vec<String>,
}

/// The rectangle of one sprite on its sheet, in pixels.
#[derive(Clone, Copy, Debug)]
pub struct SpriteCoords {
    pub x: usize,
    pub y: usize,
    pub w: usize,
    pub h: usize,
}

/// One sheet of the catalog at one resolution: where its image lies and
/// which sprites it holds.
pub struct Sprite {
    pub filename: String,
    pub w: usize,
    pub h: usize,
    pub coords: Table<SpriteCoords>,
}

/// A node is drawn only where it has both an icon and an orbit.
#[derive(Debug)]
pub struct Node {
    pub skill: Option<usize>,
    pub name: Option<String>,
    pub icon: Option<String>,
    pub is_notable: Option<bool>,
    pub group: Option<usize>,
    pub orbit: Option<usize>,
    pub orbit_index: Option<usize>,
}

#[derive(Debug, Default)]
pub struct Constants {
    pub orbit_radii: Vec<usize>,
}

pub struct TreeExport {
    pub tree: String,
    pub classes: Vec<Class>,
    pub groups: Table<Group>,
    pub nodes: Table<Node>,
    pub min_x: i64,
    pub min_y: i64,
    pub max_x: i64,
    pub max_y: i64,
    pub sprites: Table<Table<Sprite>>,
    pub constants: Constants,
}

/// The resolution of the catalog that the viewer draws from.
pub const ATLAS_VARIANT: &'static str = "0.3835";

/// The resolutions of one catalog group form a sound table of sound sheets.
pub open spec fn variants_wf(variants: Table<Sprite>) -> bool {
    &&& variants.wf()
    &&& forall|j: int| 0 <= j < variants@.len() ==> (#[trigger] variants@[j]).1.coords.wf()
}

/// The sheet at position `j` of a catalog group holds a sprite of that name.
pub open spec fn variant_holds(variants: Seq<(Seq<char>, Sprite)>, j: int, sprite: Seq<char>)
    -> bool {
    lookup(variants[j].1.coords@, sprite) is Some
}

/// Some resolution of the catalog group holds a sprite of that name.
pub open spec fn group_holds(variants: Seq<(Seq<char>, Sprite)>, sprite: Seq<char>) -> bool {
    exists|j: int| 0 <= j < variants.len() && #[trigger] variant_holds(variants, j, sprite)
}

/// The catalog group at position `i` holds the sprite and none before it
/// does.
pub open spec fn first_holder(
    groups: Seq<(Seq<char>, Table<Sprite>)>,
    sprite: Seq<char>,
    i: int,
) -> bool {
    &&& 0 <= i < groups.len()
    &&& group_holds(groups[i].1@, sprite)
    &&& forall|k: int| 0 <= k < i ==> !group_holds((#[trigger] groups[k]).1@, sprite)
}

/// The sheet of a catalog group at the resolution that the viewer draws
/// from, where the group has that resolution.
pub fn atlas_variant(variants: &Table<Sprite>) -> (r: Option<&Sprite>)
    requires
        variants.wf(),
    ensures
        match r {
            Some(sheet) => lookup(variants@, ATLAS_VARIANT@) == Some(*sheet),
            None => lookup(variants@, ATLAS_VARIANT@) is None,
        },
{
    variants.get(ATLAS_VARIANT)
}

fn holds_sprite(variants: &Table<Sprite>, sprite: &str) -> (r: bool)
    requires
        variants_wf(*variants),
    ensures
        r == group_holds(variants@, sprite@),
{
    let n: usize = variants.len();
    let mut j: usize = 0;
    while j < n
        invariant
            variants_wf(*variants),
            n == variants@.len(),
            j <= n,
            forall|k: int| 0 <= k < j ==> !variant_holds(variants@, k, sprite@),
        decreases n - j,
    {
        if variants.value(j).coords.contains_key(sprite) {
            assert(variant_holds(variants@, j as int, sprite@));
            return true;
        }
        j += 1;
    }
    false
}

/// The key of the first catalog group that holds a sprite of the given name
/// at any resolution, or the empty string where none does.
pub fn group_of_sprite(tree: &TreeExport, sprite: String) -> (r: String)
    requires
        tree.wf(),
    ensures
        (exists|i: int| first_holder(tree.sprites@, sprite@, i) && r@ == tree.sprites@[i].0) || (r@
            == Seq::<char>::empty() && forall|i: int|
            0 <= i < tree.sprites@.len() ==> !group_holds(
                (#[trigger] tree.sprites@[i]).1@,
                sprite@,
            )),
{
    let n: usize = tree.sprites.len();
    let mut i: usize = 0;
    while i < n
        invariant
            tree.wf(),
            n == tree.sprites@.len(),
            i <= n,
            forall|k: int| 0 <= k < i ==> !group_holds((#[trigger] tree.sprites@[k]).1@, sprite@),
        decreases n - i,
    {
        if holds_sprite(tree.sprites.value(i), sprite.as_str()) {
            assert(first_holder(tree.sprites@, sprite@, i as int));
            return tree.sprites.key(i).clone();
        }
        i += 1;
    }
    String::new()
}

impl TreeExport {
    /// Every table of the document is sound, down to the sprite rectangles.
    pub open spec fn wf(&self) -> bool {
        &&& self.groups.wf()
        &&& self.nodes.wf()
        &&& self.sprites.wf()
        &&& forall|i: int|
            0 <= i < self.sprites@.len() ==> variants_wf((#[trigger] self.sprites@[i]).1)
    }

    /// The group that a node names by its number: group keys are decimal
    /// numerals.
    pub fn group_by_number(&self, number: usize) -> (r: Option<&Group>)
        requires
            self.groups.wf(),
        ensures
            match r {
                Some(g) => lookup(self.groups@, decimal(number as nat)) == Some(*g),
                None => lookup(self.groups@, decimal(number as nat)) is None,
            },
    {
        let key = decimal_text(number);
        self.groups.get(key.as_str())
    }

    /// The rectangle that the document allows the pan offset.
    pub fn pan_bounds(&self) -> (r: PanBounds)
        ensures
            r.min_x == self.min_x,
            r.min_y == self.min_y,
            r.max_x == self.max_x,
            r.max_y == self.max_y,
    {
        PanBounds { min_x: self.min_x, min_y: self.min_y, max_x: self.max_x, max_y: self.max_y }
    }
}

impl Default for TreeExport {
    /// A tree without groups, nodes or sprites, with all bounds at zero.
    fn default() -> (r: Self)
        ensures
            r.wf(),
            r.tree@ == Seq::<char>::empty(),
            r.classes@ == Seq::<Class>::empty(),
            r.groups@ == Seq::<(Seq<char>, Group)>::empty(),
            r.nodes@ == Seq::<(Seq<char>, Node)>::empty(),
            r.sprites@ == Seq::<(Seq<char>, Table<Sprite>)>::empty(),
            r.constants.orbit_radii@ == Seq::<usize>::empty(),
            r.min_x == 0 && r.min_y == 0 && r.max_x == 0 && r.max_y == 0,
    {
        TreeExport {
            tree: String::new(),
            classes: Vec::new(),
            groups: Table::new(),
            nodes: Table::new(),
            min_x: 0,
            min_y: 0,
            max_x: 0,
            max_y: 0,
            sprites: Table::new(),
            constants: Constants { orbit_radii: Vec::new() },
        }
    }
}

} // verus!
