//! The plan of a frame: which textured quads go to the surface, where, and
//! with which part of which texture. Planning changes nothing; the caller
//! draws the quads in the order given.
//!
//! Positions are in surface units and texture coordinates are exact
//! fractions (see the view transform and the atlas).

use crate::orbit::{orbit_angle, slot_degrees, ORBITS};
use crate::table::lookup;
use crate::text::decimal;
use crate::texture_bag::{BagModel, Ratio, Sprite, SpriteSheet, TextureBag};
use crate::tree::{Group, Node, TreeExport};
use crate::view::{screen_of, ViewModel, ViewTransform, COORD_DENOM, SCREEN_DENOM, ZOOM_DENOM};
use vstd::prelude::*;
use vstd::string::StringExecFns;

verus! {

/// The sheet that is stretched over the whole surface.
pub const BACKGROUND_FILE: &'static str = "background-3.png";

/// The pixels of surface that one repetition of the background covers.
pub const BACKGROUND_TILE: i64 = 98;

/// What the positions of a quad are measured from.
#[derive(Clone, Copy, Debug, PartialEq, Eq)]
pub enum DrawSpace {
    /// The corner of the screen.
    Screen,
    /// The corner of the window that holds the surface.
    Window,
}

/// One textured quad: `uv0` is sampled at `p_min` and `uv1` at `p_max`.
#[derive(Clone, Copy, Debug, PartialEq, Eq)]
pub struct DrawCommand {
    pub space: DrawSpace,
    pub texture: usize,
    pub p_min: [i128; 2],
    pub p_max: [i128; 2],
    pub uv0: [Ratio; 2],
    pub uv1: [Ratio; 2],
}

/// Where a node's icon goes, before any trigonometry: the icon, the anchor
/// of the node's group, and the radius and angle that lead from the anchor
/// to the node.
#[derive(Clone, Copy, Debug, PartialEq, Eq)]
pub struct IconPlacement {
    pub sprite: Sprite,
    pub anchor: [i64; 2],
    pub radius: usize,
    pub degrees: i128,
}

/// Why a node that asks to be drawn cannot be placed.
#[derive(Clone, Copy, Debug, PartialEq, Eq)]
pub enum PlacementError {
    /// The node names no group.
    MissingGroup,
    /// The node names a group that the tree does not hold.
    UnknownGroup,
    /// The node names an orbit without a radius or without an angle.
    UnknownOrbit,
}

/// The background: the sheet over the whole surface, repeated every
/// `BACKGROUND_TILE` pixels.
pub open spec fn background_quad(sheet: SpriteSheet, surface: [i64; 2]) -> DrawCommand {
    DrawCommand {
        space: DrawSpace::Screen,
        texture: sheet.texture,
        p_min: [0i128, 0i128],
        p_max: [(surface[0] * ZOOM_DENOM) as i128, (surface[1] * ZOOM_DENOM) as i128],
        uv0: [Ratio { num: 0, den: 1 }, Ratio { num: 0, den: 1 }],
        uv1: [
            Ratio { num: surface[0] as i128, den: (BACKGROUND_TILE * COORD_DENOM) as i128 },
            Ratio { num: surface[1] as i128, den: (BACKGROUND_TILE * COORD_DENOM) as i128 },
        ],
    }
}

/// The art of a group: its sprite at the group's anchor, at the size that
/// the zoom gives it.
pub open spec fn group_image(sprite: Sprite, view: ViewModel, surface: [i64; 2], x: i64, y: i64)
    -> DrawCommand {
    let left = screen_of(surface[0] as int, view.pan_x, view.zoom, x as int);
    let top = screen_of(surface[1] as int, view.pan_y, view.zoom, y as int);
    let width = sprite.size[0] * COORD_DENOM * view.zoom;
    let height = sprite.size[1] * COORD_DENOM * view.zoom;
    DrawCommand {
        space: DrawSpace::Window,
        texture: sprite.texture,
        p_min: [left as i128, top as i128],
        p_max: [(left + width) as i128, (top + height) as i128],
        uv0: [sprite.uv_low(0), sprite.uv_low(1)],
        uv1: [sprite.uv_high(0), sprite.uv_high(1)],
    }
}

/// The lower half of a half image: the same sprite once more, right below
/// the first copy, sampled from bottom to top.
pub open spec fn group_mirror(sprite: Sprite, view: ViewModel, surface: [i64; 2], x: i64, y: i64)
    -> DrawCommand {
    let left = screen_of(surface[0] as int, view.pan_x, view.zoom, x as int);
    let top = screen_of(surface[1] as int, view.pan_y, view.zoom, y as int);
    let width = sprite.size[0] * COORD_DENOM * view.zoom;
    let height = sprite.size[1] * COORD_DENOM * view.zoom;
    DrawCommand {
        space: DrawSpace::Window,
        texture: sprite.texture,
        p_min: [left as i128, (top + height) as i128],
        p_max: [(left + width) as i128, (top + height + height) as i128],
        uv0: [sprite.uv_low(0), sprite.uv_high(1)],
        uv1: [sprite.uv_high(0), sprite.uv_low(1)],
    }
}

/// What one group draws: nothing without a background or where the atlas
/// does not know the background's sprite, else its art, and below it the
/// mirrored copy where the art is a half image.
pub open spec fn group_commands(group: Group, bag: BagModel, view: ViewModel, surface: [i64; 2])
    -> Seq<DrawCommand> {
    match group.background {
        None => Seq::empty(),
        Some(bg) => if !bag.sprites.contains_key(bg.image@) {
            Seq::empty()
        } else if bg.is_half_image == Some(true) {
            seq![
                group_image(bag.sprites[bg.image@], view, surface, group.x, group.y),
                group_mirror(bag.sprites[bg.image@], view, surface, group.x, group.y),
            ]
        } else {
            seq![group_image(bag.sprites[bg.image@], view, surface, group.x, group.y)]
        },
    }
}

/// What the groups draw, one after the other in table order.
pub open spec fn groups_commands(
    groups: Seq<(Seq<char>, Group)>,
    bag: BagModel,
    view: ViewModel,
    surface: [i64; 2],
) -> Seq<DrawCommand>
    decreases groups.len(),
{
    if groups.len() == 0 {
        Seq::empty()
    } else {
        groups_commands(groups.drop_last(), bag, view, surface) + group_commands(
            groups.last().1,
            bag,
            view,
            surface,
        )
    }
}

/// The icon of a node at a world position: the sprite at its own size,
/// whatever the zoom.
pub open spec fn icon_quad_of(sprite: Sprite, view: ViewModel, surface: [i64; 2], world: [i64; 2])
    -> DrawCommand {
    let left = screen_of(surface[0] as int, view.pan_x, view.zoom, world[0] as int);
    let top = screen_of(surface[1] as int, view.pan_y, view.zoom, world[1] as int);
    DrawCommand {
        space: DrawSpace::Screen,
        texture: sprite.texture,
        p_min: [left as i128, top as i128],
        p_max: [
            (left + sprite.size[0] * SCREEN_DENOM) as i128,
            (top + sprite.size[1] * SCREEN_DENOM) as i128,
        ],
        uv0: [sprite.uv_low(0), sprite.uv_low(1)],
        uv1: [sprite.uv_high(0), sprite.uv_high(1)],
    }
}

/// Where one node's icon goes. A node without an icon or without an orbit
/// is not drawn, nor is one whose icon the atlas does not know. A node that
/// is to be drawn needs a group of the tree to circle, and an orbit that has
/// a radius and an angle.
pub open spec fn node_placement(
    node: Node,
    groups: Seq<(Seq<char>, Group)>,
    radii: Seq<usize>,
    bag: BagModel,
) -> Result<Option<IconPlacement>, PlacementError> {
    if node.icon is None || node.orbit is None {
        Ok(None)
    } else if node.group is None {
        Err(PlacementError::MissingGroup)
    } else if lookup(groups, decimal(node.group->0 as nat)) is None {
        Err(PlacementError::UnknownGroup)
    } else if !bag.sprites.contains_key(node.icon->0@) {
        Ok(None)
    } else if node.orbit->0 >= radii.len() || node.orbit->0 >= ORBITS {
        Err(PlacementError::UnknownOrbit)
    } else {
        let group = lookup(groups, decimal(node.group->0 as nat))->0;
        let slot = match node.orbit_index {
            Some(i) => i,
            None => 0,
        };
        Ok(
            Some(
                IconPlacement {
                    sprite: bag.sprites[node.icon->0@],
                    anchor: [group.x, group.y],
                    radius: radii[node.orbit->0 as int],
                    degrees: slot_degrees(node.orbit->0 as int, slot as int) as i128,
                },
            ),
        )
    }
}

/// Where the icons of the nodes go, in table order: the placements of the
/// nodes that are drawn, or the error of the first node that cannot be
/// placed.
pub open spec fn placements(
    nodes: Seq<(Seq<char>, Node)>,
    groups: Seq<(Seq<char>, Group)>,
    radii: Seq<usize>,
    bag: BagModel,
) -> Result<Seq<IconPlacement>, PlacementError>
    decreases nodes.len(),
{
    if nodes.len() == 0 {
        Ok(Seq::empty())
    } else {
        match placements(nodes.drop_last(), groups, radii, bag) {
            Err(e) => Err(e),
            Ok(head) => match node_placement(nodes.last().1, groups, radii, bag) {
                Err(e) => Err(e),
                Ok(None) => Ok(head),
                Ok(Some(p)) => Ok(head.push(p)),
            },
        }
    }
}

/// What two runs of groups draw is what the first draws, then what the
/// second draws.
pub proof fn lemma_groups_commands_concat(
    first: Seq<(Seq<char>, Group)>,
    second: Seq<(Seq<char>, Group)>,
    bag: BagModel,
    view: ViewModel,
    surface: [i64; 2],
)
    ensures
        groups_commands(first + second, bag, view, surface) == groups_commands(
            first,
            bag,
            view,
            surface,
        ) + groups_commands(second, bag, view, surface),
    decreases second.len(),
{
    if second.len() == 0 {
        assert(first + second =~= first);
    } else {
        assert((first + second).drop_last() =~= first + second.drop_last());
        assert((first + second).last() == second.last());
        lemma_groups_commands_concat(first, second.drop_last(), bag, view, surface);
    }
}

/// A group whose background sprite the atlas does not know is left out and
/// nothing else changes: the frame is the one that the other groups alone
/// would give.
pub proof fn lemma_unresolved_group_is_skipped(
    groups: Seq<(Seq<char>, Group)>,
    i: int,
    bag: BagModel,
    view: ViewModel,
    surface: [i64; 2],
)
    requires
        0 <= i < groups.len(),
        groups[i].1.background is Some,
        !bag.sprites.contains_key(groups[i].1.background->0.image@),
    ensures
        group_commands(groups[i].1, bag, view, surface) == Seq::<DrawCommand>::empty(),
        groups_commands(groups, bag, view, surface) == groups_commands(
            groups.remove(i),
            bag,
            view,
            surface,
        ),
{
    let head = groups.take(i);
    let tail = groups.skip(i + 1);
    let one = seq![groups[i]];
    assert(groups =~= head + one + tail);
    assert(groups.remove(i) =~= head + tail);
    lemma_groups_commands_concat(head, one, bag, view, surface);
    lemma_groups_commands_concat(head + one, tail, bag, view, surface);
    lemma_groups_commands_concat(head, tail, bag, view, surface);
    assert(one.drop_last() =~= Seq::<(Seq<char>, Group)>::empty());
    assert(one.last() == groups[i]);
    assert(groups_commands(one.drop_last(), bag, view, surface) =~= Seq::<DrawCommand>::empty());
    assert(groups_commands(one, bag, view, surface) =~= group_commands(
        groups[i].1,
        bag,
        view,
        surface,
    ));
}

/// A node that is not drawn is left out and nothing else changes: the
/// placements are those that the other nodes alone would give.
pub proof fn lemma_skipped_node_leaves_others(
    nodes: Seq<(Seq<char>, Node)>,
    i: int,
    groups: Seq<(Seq<char>, Group)>,
    radii: Seq<usize>,
    bag: BagModel,
)
    requires
        0 <= i < nodes.len(),
        node_placement(nodes[i].1, groups, radii, bag) == Ok::<
            Option<IconPlacement>,
            PlacementError,
        >(None),
    ensures
        placements(nodes, groups, radii, bag) == placements(nodes.remove(i), groups, radii, bag),
    decreases nodes.len(),
{
    let last = nodes.len() - 1;
    if i == last {
        assert(nodes.remove(i) =~= nodes.drop_last());
    } else {
        assert(nodes.remove(i).drop_last() =~= nodes.drop_last().remove(i));
        assert(nodes.remove(i).last() == nodes.last());
        lemma_skipped_node_leaves_others(nodes.drop_last(), i, groups, radii, bag);
    }
}

/// A node whose icon the atlas does not know is not drawn, whatever its
/// orbit, as long as it circles a group of the tree.
pub proof fn lemma_unresolved_icon_is_skipped(
    node: Node,
    groups: Seq<(Seq<char>, Group)>,
    radii: Seq<usize>,
    bag: BagModel,
)
    requires
        node.icon is Some,
        !bag.sprites.contains_key(node.icon->0@),
        node.orbit is Some ==> node.group is Some && lookup(
            groups,
            decimal(node.group->0 as nat),
        ) is Some,
    ensures
        node_placement(node, groups, radii, bag) == Ok::<Option<IconPlacement>, PlacementError>(
            None,
        ),
{
}

/// The zoom decides where a quad goes and how large it is, never which part
/// of the texture it shows.
pub proof fn lemma_zoom_leaves_uv(
    sprite: Sprite,
    a: ViewModel,
    b: ViewModel,
    surface: [i64; 2],
    x: i64,
    y: i64,
)
    ensures
        group_image(sprite, a, surface, x, y).uv0 == group_image(sprite, b, surface, x, y).uv0,
        group_image(sprite, a, surface, x, y).uv1 == group_image(sprite, b, surface, x, y).uv1,
        group_mirror(sprite, a, surface, x, y).uv0 == group_mirror(sprite, b, surface, x, y).uv0,
        group_mirror(sprite, a, surface, x, y).uv1 == group_mirror(sprite, b, surface, x, y).uv1,
        icon_quad_of(sprite, a, surface, [x, y]).uv0 == icon_quad_of(sprite, b, surface, [x, y]).uv0,
        icon_quad_of(sprite, a, surface, [x, y]).uv1 == icon_quad_of(sprite, b, surface, [x, y]).uv1,
{
}

/// The quad of the background sheet on a surface of the given size.
pub fn background_command(sheet: &SpriteSheet, surface: [i64; 2]) -> (r: DrawCommand)
    ensures
        r == background_quad(*sheet, surface),
{
    DrawCommand {
        space: DrawSpace::Screen,
        texture: sheet.texture,
        p_min: [0, 0],
        p_max: [surface[0] as i128 * 20000, surface[1] as i128 * 20000],
        uv0: [Ratio { num: 0, den: 1 }, Ratio { num: 0, den: 1 }],
        uv1: [
            Ratio { num: surface[0] as i128, den: 9800 },
            Ratio { num: surface[1] as i128, den: 9800 },
        ],
    }
}

/// Appends what one group draws.
pub fn plan_group(
    group: &Group,
    bag: &TextureBag,
    view: &ViewTransform,
    surface: [i64; 2],
    out: &mut Vec<DrawCommand>,
)
    ensures
        final(out)@ == old(out)@ + group_commands(*group, bag@, view@, surface),
{
    match &group.background {
        None => {
            assert(out@ =~= old(out)@ + Seq::<DrawCommand>::empty());
        },
        Some(bg) => {
            match bag.fetch_sprite(bg.image.clone()) {
                None => {
                    assert(out@ =~= old(out)@ + Seq::<DrawCommand>::empty());
                },
                Some(sprite) => {
                    let p = view.to_screen(surface, [group.x, group.y]);
                    let w: i128 = view.scale(sprite.size[0]);
                    let h: i128 = view.scale(sprite.size[1]);
                    let low = sprite.uv_min();
                    let high = sprite.uv_max();
                    let image = DrawCommand {
                        space: DrawSpace::Window,
                        texture: sprite.texture,
                        p_min: [p[0], p[1]],
                        p_max: [p[0] + w, p[1] + h],
                        uv0: [low[0], low[1]],
                        uv1: [high[0], high[1]],
                    };
                    assert(image == group_image(*sprite, view@, surface, group.x, group.y));
                    out.push(image);
                    let half: bool = match bg.is_half_image {
                        Some(b) => b,
                        None => false,
                    };
                    if half {
                        let mirror = DrawCommand {
                            space: DrawSpace::Window,
                            texture: sprite.texture,
                            p_min: [p[0], p[1] + h],
                            p_max: [p[0] + w, p[1] + h + h],
                            uv0: [low[0], high[1]],
                            uv1: [high[0], low[1]],
                        };
                        assert(mirror == group_mirror(*sprite, view@, surface, group.x, group.y));
                        out.push(mirror);
                        assert(out@ =~= old(out)@ + seq![image, mirror]);
                    } else {
                        assert(out@ =~= old(out)@ + seq![image]);
                    }
                },
            }
        },
    }
}

/// What the groups of the tree draw, in table order.
pub fn plan_groups(tree: &TreeExport, bag: &TextureBag, view: &ViewTransform, surface: [i64; 2])
    -> (r: Vec<DrawCommand>)
    requires
        tree.groups.wf(),
    ensures
        r@ == groups_commands(tree.groups@, bag@, view@, surface),
{
    let mut out: Vec<DrawCommand> = Vec::new();
    append_groups(tree, bag, view, surface, &mut out);
    assert(out@ =~= groups_commands(tree.groups@, bag@, view@, surface));
    out
}

fn append_groups(
    tree: &TreeExport,
    bag: &TextureBag,
    view: &ViewTransform,
    surface: [i64; 2],
    out: &mut Vec<DrawCommand>,
)
    requires
        tree.groups.wf(),
    ensures
        final(out)@ == old(out)@ + groups_commands(tree.groups@, bag@, view@, surface),
{
    let n: usize = tree.groups.len();
    let mut i: usize = 0;
    assert(out@ =~= old(out)@ + groups_commands(tree.groups@.take(0), bag@, view@, surface));
    while i < n
        invariant
            tree.groups.wf(),
            n == tree.groups@.len(),
            i <= n,
            out@ == old(out)@ + groups_commands(tree.groups@.take(i as int), bag@, view@, surface),
        decreases n - i,
    {
        let ghost before = out@;
        plan_group(tree.groups.value(i), bag, view, surface, out);
        proof {
            let next = tree.groups@.take(i + 1);
            assert(next.drop_last() =~= tree.groups@.take(i as int));
            assert(next.last() == tree.groups@[i as int]);
            assert(out@ =~= old(out)@ + groups_commands(next, bag@, view@, surface));
        }
        i += 1;
    }
    assert(tree.groups@.take(n as int) =~= tree.groups@);
}

/// The first two layers of a frame: the background over the whole surface,
/// then the art of the groups.
pub fn plan_scene(tree: &TreeExport, bag: &TextureBag, view: &ViewTransform, surface: [i64; 2])
    -> (r: Vec<DrawCommand>)
    requires
        tree.groups.wf(),
        bag@.sheets.contains_key(BACKGROUND_FILE@),
    ensures
        r@ == seq![background_quad(bag@.sheets[BACKGROUND_FILE@], surface)] + groups_commands(
            tree.groups@,
            bag@,
            view@,
            surface,
        ),
{
    let file = String::from_str(BACKGROUND_FILE);
    let sheet = bag.get_sheet_for_file(&file);
    let mut out: Vec<DrawCommand> = Vec::new();
    out.push(background_command(&sheet, surface));
    assert(out@ =~= seq![background_quad(bag@.sheets[BACKGROUND_FILE@], surface)]);
    append_groups(tree, bag, view, surface, &mut out);
    out
}

/// Where one node's icon goes, if it is drawn at all.
pub fn place_node(tree: &TreeExport, bag: &TextureBag, node: &Node) -> (r: Result<
    Option<IconPlacement>,
    PlacementError,
>)
    requires
        tree.groups.wf(),
    ensures
        r == node_placement(*node, tree.groups@, tree.constants.orbit_radii@, bag@),
{
    let icon = match &node.icon {
        Some(icon) => icon,
        None => {
            return Ok(None);
        },
    };
    let orbit: usize = match node.orbit {
        Some(orbit) => orbit,
        None => {
            return Ok(None);
        },
    };
    let number: usize = match node.group {
        Some(number) => number,
        None => {
            return Err(PlacementError::MissingGroup);
        },
    };
    let group = match tree.group_by_number(number) {
        Some(group) => group,
        None => {
            return Err(PlacementError::UnknownGroup);
        },
    };
    let sprite = match bag.fetch_sprite(icon.clone()) {
        Some(sprite) => *sprite,
        None => {
            return Ok(None);
        },
    };
    if orbit >= tree.constants.orbit_radii.len() || orbit >= ORBITS {
        return Err(PlacementError::UnknownOrbit);
    }
    let slot: usize = match node.orbit_index {
        Some(slot) => slot,
        None => 0,
    };
    Ok(
        Some(
            IconPlacement {
                sprite: sprite,
                anchor: [group.x, group.y],
                radius: tree.constants.orbit_radii[orbit],
                degrees: orbit_angle(orbit, slot),
            },
        ),
    )
}

/// Where the icons of the tree's nodes go, in table order, or why the first
/// node that cannot be placed cannot.
pub fn plan_icons(tree: &TreeExport, bag: &TextureBag) -> (r: Result<
    Vec<IconPlacement>,
    PlacementError,
>)
    requires
        tree.groups.wf(),
        tree.nodes.wf(),
    ensures
        match r {
            Ok(v) => placements(tree.nodes@, tree.groups@, tree.constants.orbit_radii@, bag@)
                == Ok::<Seq<IconPlacement>, PlacementError>(v@),
            Err(e) => placements(tree.nodes@, tree.groups@, tree.constants.orbit_radii@, bag@)
                == Err::<Seq<IconPlacement>, PlacementError>(e),
        },
{
    let n: usize = tree.nodes.len();
    let mut out: Vec<IconPlacement> = Vec::new();
    let mut i: usize = 0;
    let ghost groups = tree.groups@;
    let ghost radii = tree.constants.orbit_radii@;
    while i < n
        invariant
            tree.groups.wf(),
            tree.nodes.wf(),
            groups == tree.groups@,
            radii == tree.constants.orbit_radii@,
            n == tree.nodes@.len(),
            i <= n,
            placements(tree.nodes@.take(i as int), groups, radii, bag@) == Ok::<
                Seq<IconPlacement>,
                PlacementError,
            >(out@),
        decreases n - i,
    {
        let placed = place_node(tree, bag, tree.nodes.value(i));
        proof {
            let next = tree.nodes@.take(i + 1);
            assert(next.drop_last() =~= tree.nodes@.take(i as int));
            assert(next.last() == tree.nodes@[i as int]);
        }
        match placed {
            Err(e) => {
                proof {
                    lemma_placements_fail_on(tree.nodes@, i + 1, groups, radii, bag@);
                }
                return Err(e);
            },
            Ok(None) => {},
            Ok(Some(p)) => {
                out.push(p);
            },
        }
        i += 1;
    }
    assert(tree.nodes@.take(n as int) =~= tree.nodes@);
    Ok(out)
}

/// Once the first nodes cannot be placed, no longer run of nodes can.
proof fn lemma_placements_fail_on(
    nodes: Seq<(Seq<char>, Node)>,
    k: int,
    groups: Seq<(Seq<char>, Group)>,
    radii: Seq<usize>,
    bag: BagModel,
)
    requires
        0 <= k <= nodes.len(),
        placements(nodes.take(k), groups, radii, bag) is Err,
    ensures
        placements(nodes, groups, radii, bag) == placements(nodes.take(k), groups, radii, bag),
    decreases nodes.len() - k,
{
    if k == nodes.len() {
        assert(nodes.take(k) =~= nodes);
    } else {
        let next = nodes.take(k + 1);
        assert(next.drop_last() =~= nodes.take(k));
        lemma_placements_fail_on(nodes, k + 1, groups, radii, bag);
    }
}

/// The quad of an icon whose world position is known.
pub fn icon_command(sprite: &Sprite, view: &ViewTransform, surface: [i64; 2], world: [i64; 2])
    -> (r: DrawCommand)
    ensures
        r == icon_quad_of(*sprite, view@, surface, world),
{
    let p = view.to_screen(surface, world);
    let low = sprite.uv_min();
    let high = sprite.uv_max();
    DrawCommand {
        space: DrawSpace::Screen,
        texture: sprite.texture,
        p_min: [p[0], p[1]],
        p_max: [p[0] + sprite.size[0] as i128 * 2000000, p[1] + sprite.size[1] as i128 * 2000000],
        uv0: [low[0], low[1]],
        uv1: [high[0], high[1]],
    }
}

} // verus!
