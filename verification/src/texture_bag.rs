//! The sprite atlas: which sheet file has which texture, and which named
//! sprite is which rectangle of which sheet. A sheet is recorded once per
//! file name, however often it is asked for.

use crate::table::{lookup, Table};
use crate::tree::SpriteCoords;
use vstd::hash_map::StringHashMap;
use vstd::prelude::*;

verus! {

/// A fraction `num / den`, kept exact. It has no value where `den` is zero.
#[derive(Clone, Copy, Debug, PartialEq, Eq)]
pub struct Ratio {
    pub num: i128,
    pub den: i128,
}

impl Ratio {
    /// The fraction has a value and it lies between zero and one.
    pub open spec fn in_unit(&self) -> bool {
        0 <= self.num <= self.den && 0 < self.den
    }
}

/// A texture on the GPU, named by the handle that the renderer gave it, and
/// its size in pixels.
#[derive(Clone, Copy, Debug, PartialEq, Eq)]
pub struct SpriteSheet {
    pub size: [u32; 2],
    pub texture: usize,
}

/// A rectangle of a sheet, in pixels, with the sheet's size and texture.
#[derive(Clone, Copy, Debug, PartialEq, Eq)]
pub struct Sprite {
    pub pos: [usize; 2],
    pub size: [usize; 2],
    pub sheet_size: [u32; 2],
    pub texture: usize,
}

/// The sprite that a rectangle of the catalog is on a given sheet.
pub open spec fn sprite_on(coords: SpriteCoords, sheet: SpriteSheet) -> Sprite {
    Sprite {
        pos: [coords.x, coords.y],
        size: [coords.w, coords.h],
        sheet_size: sheet.size,
        texture: sheet.texture,
    }
}

impl Sprite {
    /// The rectangle lies on the sheet.
    pub open spec fn within_sheet(&self) -> bool {
        &&& self.pos[0] + self.size[0] <= self.sheet_size[0]
        &&& self.pos[1] + self.size[1] <= self.sheet_size[1]
    }

    /// The texture coordinate of the rectangle's near edge on an axis.
    pub open spec fn uv_low(&self, axis: int) -> Ratio {
        Ratio { num: self.pos[axis] as i128, den: self.sheet_size[axis] as i128 }
    }

    /// The texture coordinate of the rectangle's far edge on an axis.
    pub open spec fn uv_high(&self, axis: int) -> Ratio {
        Ratio {
            num: (self.pos[axis] + self.size[axis]) as i128,
            den: self.sheet_size[axis] as i128,
        }
    }

    /// A rectangle that lies on a sheet with some extent has all four
    /// texture coordinates between zero and one.
    pub proof fn lemma_uv_in_unit(&self)
        requires
            self.within_sheet(),
            self.sheet_size[0] > 0,
            self.sheet_size[1] > 0,
        ensures
            self.uv_low(0).in_unit(),
            self.uv_low(1).in_unit(),
            self.uv_high(0).in_unit(),
            self.uv_high(1).in_unit(),
            self.uv_low(0).num <= self.uv_high(0).num,
            self.uv_low(1).num <= self.uv_high(1).num,
    {
    }

    /// The texture coordinates of the corner nearest the sheet's origin.
    pub fn uv_min(&self) -> (r: [Ratio; 2])
        ensures
            r[0] == self.uv_low(0),
            r[1] == self.uv_low(1),
    {
        [
            Ratio { num: self.pos[0] as i128, den: self.sheet_size[0] as i128 },
            Ratio { num: self.pos[1] as i128, den: self.sheet_size[1] as i128 },
        ]
    }

    /// The texture coordinates of the opposite corner.
    pub fn uv_max(&self) -> (r: [Ratio; 2])
        ensures
            r[0] == self.uv_high(0),
            r[1] == self.uv_high(1),
    {
        [
            Ratio {
                num: self.pos[0] as i128 + self.size[0] as i128,
                den: self.sheet_size[0] as i128,
            },
            Ratio {
                num: self.pos[1] as i128 + self.size[1] as i128,
                den: self.sheet_size[1] as i128,
            },
        ]
    }
}

/// What an atlas holds: sheets by file name, sprites by sprite name.
pub struct BagModel {
    pub sheets: Map<Seq<char>, SpriteSheet>,
    pub sprites: Map<Seq<char>, Sprite>,
}

/// The atlas after a sheet was offered for a file: the first sheet of a file
/// stays, a later one is not recorded.
pub open spec fn loaded(bag: BagModel, path: Seq<char>, sheet: SpriteSheet) -> BagModel {
    if bag.sheets.contains_key(path) {
        bag
    } else {
        BagModel { sheets: bag.sheets.insert(path, sheet), sprites: bag.sprites }
    }
}

/// The sheet that stands for a file once a sheet was offered for it.
pub open spec fn sheet_after_load(bag: BagModel, path: Seq<char>, sheet: SpriteSheet)
    -> SpriteSheet {
    if bag.sheets.contains_key(path) {
        bag.sheets[path]
    } else {
        sheet
    }
}

/// The sprites after every rectangle of a sheet's catalog was registered
/// against that sheet: catalog names take the catalog's rectangle, all other
/// names stay.
pub open spec fn with_catalog(
    sprites: Map<Seq<char>, Sprite>,
    coords: Seq<(Seq<char>, SpriteCoords)>,
    sheet: SpriteSheet,
) -> Map<Seq<char>, Sprite> {
    Map::new(
        |name: Seq<char>| lookup(coords, name) is Some || sprites.contains_key(name),
        |name: Seq<char>|
            match lookup(coords, name) {
                Some(c) => sprite_on(c, sheet),
                None => sprites[name],
            },
    )
}

/// A file that is loaded twice keeps the sheet of the first load: the second
/// load returns that sheet and leaves the atlas as it was, whatever texture
/// it was offered.
pub proof fn lemma_second_load_returns_first(
    bag: BagModel,
    path: Seq<char>,
    first: SpriteSheet,
    second: SpriteSheet,
)
    ensures
        loaded(bag, path, first).sheets.contains_key(path),
        sheet_after_load(loaded(bag, path, first), path, second) == sheet_after_load(
            bag,
            path,
            first,
        ),
        loaded(loaded(bag, path, first), path, second) == loaded(bag, path, first),
{
}

pub struct TextureBag {
    path_id_map: StringHashMap<SpriteSheet>,
    arbitrary_map: StringHashMap<Sprite>,
}

impl View for TextureBag {
    type V = BagModel;

    closed spec fn view(&self) -> BagModel {
        BagModel { sheets: self.path_id_map@, sprites: self.arbitrary_map@ }
    }
}

impl TextureBag {
    pub fn new() -> (r: TextureBag)
        ensures
            r@.sheets == Map::<Seq<char>, SpriteSheet>::empty(),
            r@.sprites == Map::<Seq<char>, Sprite>::empty(),
    {
        TextureBag { path_id_map: StringHashMap::new(), arbitrary_map: StringHashMap::new() }
    }

    /// A sheet is recorded for this file.
    pub fn has_texture(&self, path: &String) -> (r: bool)
        ensures
            r == self@.sheets.contains_key(path@),
    {
        self.path_id_map.contains_key(path.as_str())
    }

    /// The sheet recorded for a file that has one.
    pub fn get_sheet_for_file(&self, path: &String) -> (r: SpriteSheet)
        requires
            self@.sheets.contains_key(path@),
        ensures
            r == self@.sheets[path@],
    {
        *self.path_id_map.get(path.as_str()).unwrap()
    }

    /// The sheet recorded for a file, or `None` where the file has yet to be
    /// decoded and uploaded.
    pub fn find_sheet(&self, path: &String) -> (r: Option<SpriteSheet>)
        ensures
            r == (if self@.sheets.contains_key(path@) {
                Some(self@.sheets[path@])
            } else {
                None
            }),
    {
        match self.path_id_map.get(path.as_str()) {
            Some(sheet) => Some(*sheet),
            None => None,
        }
    }

    /// Records the texture that a file was uploaded as, with the image's
    /// size, and returns the file's sheet. A file that has a sheet keeps it:
    /// the sheet returned is then the one recorded first.
    pub fn load_texture(&mut self, path: &String, width: u32, height: u32, texture: usize) -> (r:
        SpriteSheet)
        ensures
            final(self)@ == loaded(
                old(self)@,
                path@,
                SpriteSheet { size: [width, height], texture: texture },
            ),
            r == sheet_after_load(
                old(self)@,
                path@,
                SpriteSheet { size: [width, height], texture: texture },
            ),
            final(self)@.sheets.contains_key(path@) && final(self)@.sheets[path@] == r,
    {
        match self.find_sheet(path) {
            Some(sheet) => sheet,
            None => {
                let sheet = SpriteSheet { size: [width, height], texture: texture };
                self.path_id_map.insert(path.clone(), sheet);
                sheet
            },
        }
    }

    /// Registers a named rectangle of a sheet. A name that is registered
    /// already is overwritten: the last registration wins.
    pub fn create_sprite(
        &mut self,
        name: &String,
        pos: [usize; 2],
        size: [usize; 2],
        sheet: &SpriteSheet,
    )
        ensures
            final(self)@.sheets == old(self)@.sheets,
            final(self)@.sprites == old(self)@.sprites.insert(
                name@,
                Sprite { pos: pos, size: size, sheet_size: sheet.size, texture: sheet.texture },
            ),
    {
        self.arbitrary_map.insert(
            name.clone(),
            Sprite { pos: pos, size: size, sheet_size: sheet.size, texture: sheet.texture },
        );
    }

    /// The sprite registered under a name, or `None` where the name is
    /// unknown.
    pub fn fetch_sprite(&self, name: String) -> (r: Option<&Sprite>)
        ensures
            match r {
                Some(s) => self@.sprites.contains_key(name@) && *s == self@.sprites[name@],
                None => !self@.sprites.contains_key(name@),
            },
    {
        self.arbitrary_map.get(name.as_str())
    }

    /// Registers every rectangle of a sheet's catalog against that sheet.
    pub fn register_catalog(&mut self, coords: &Table<SpriteCoords>, sheet: &SpriteSheet)
        requires
            coords.wf(),
        ensures
            final(self)@.sheets == old(self)@.sheets,
            final(self)@.sprites == with_catalog(old(self)@.sprites, coords@, *sheet),
    {
        let n: usize = coords.len();
        let mut i: usize = 0;
        proof {
            coords.lemma_distinct();
        }
        while i < n
            invariant
                coords.wf(),
                crate::table::distinct_keys(coords@),
                n == coords@.len(),
                i <= n,
                self@.sheets == old(self)@.sheets,
                self@.sprites == with_catalog(old(self)@.sprites, coords@.take(i as int), *sheet),
            decreases n - i,
        {
            let c = coords.value(i);
            let name = coords.key(i);
            let ghost before = self@.sprites;
            self.create_sprite(name, [c.x, c.y], [c.w, c.h], sheet);
            proof {
                let head = coords@.take(i as int);
                let next = coords@.take(i + 1);
                assert(next =~= head.push(coords@[i as int]));
                assert forall|k: Seq<char>| lookup(next, k) == (if k == name@ {
                    Some(*c)
                } else {
                    lookup(head, k)
                }) by {
                    lemma_lookup_push(head, coords@[i as int], k);
                }
                assert(self@.sprites =~= with_catalog(old(self)@.sprites, next, *sheet));
            }
            i += 1;
        }
        assert(coords@.take(n as int) =~= coords@);
    }
}

/// Looking a key up after one more entry with a fresh key was appended.
proof fn lemma_lookup_push<V>(entries: Seq<(Seq<char>, V)>, entry: (Seq<char>, V), key: Seq<char>)
    requires
        crate::table::distinct_keys(entries.push(entry)),
    ensures
        lookup(entries.push(entry), key) == (if key == entry.0 {
            Some(entry.1)
        } else {
            lookup(entries, key)
        }),
{
    let after = entries.push(entry);
    let last = entries.len() as int;
    assert(after[last] == entry);
    if key == entry.0 {
        crate::table::lemma_position_of_entry(after, last);
    } else {
        match crate::table::position(entries, key) {
            Some(i) => {
                assert(after[i] == entries[i]);
                crate::table::lemma_position_of_entry(after, i);
            },
            None => {
                if crate::table::position(after, key) is Some {
                    let j = crate::table::position(after, key)->0;
                    assert(j != last);
                    assert(after[j] == entries[j]);
                }
            },
        }
    }
}

} // verus!
