//! Sprites: the actors of the world, drawn as billboards that always face
//! the viewer.
//!
//! Every frame each sprite first reacts to the player standing next to it,
//! then, if it is a pursuer, walks one step towards the player, and is then
//! projected onto the screen and drawn wherever no nearer wall hides it.

use crate::fixed::clamp;
use crate::fixed::clamped;
use crate::fixed::floor_div;
use crate::fixed::lemma_floor_div_bound;
use crate::fixed::TRIG_ONE;
use crate::fixed::WORLD_LIMIT;
use crate::frame::byte_column;
use crate::frame::byte_row;
use crate::frame::channel;
use crate::frame::draw_pixel;
use crate::frame::lemma_with_pixel;
use crate::frame::Rgb;
use crate::frame::FRAME_BYTES;
use crate::frame::HORIZON;
use crate::frame::SCREEN_HEIGHT;
use crate::frame::SCREEN_WIDTH;
use crate::map::tile_index;
use crate::map::tile_of;
use crate::map::TileMap;
use crate::player::Player;
use crate::texture::chroma_key;
use crate::texture::Atlas;
use crate::trig::TrigTable;
use vstd::prelude::*;

verus! {

/// How near, in sub-units, the player must come to a sprite to touch it: 30
/// world units on either axis.
pub const TOUCH_RANGE: i64 = 7680;

/// The margin, in sub-units, that a pursuer keeps from walls: 15 world
/// units.
pub const PURSUER_MARGIN: i64 = 3840;

/// Focal length of the projection in pixels.
pub const FOCAL: i64 = 108;

/// Size in 1/256 pixel of a sprite one sub-unit away.
pub const SPRITE_SCALE: i64 = 167772160;

/// Largest size of a sprite on the screen, in 1/256 pixel: the width of the
/// screen.
pub const MAX_SCALE: i64 = 30720;

/// The role of a sprite.
#[derive(Debug, Clone, Copy, PartialEq, Eq, Structural)]
pub enum SpriteKind {
    /// Disappears when the player touches it.
    Trigger,
    /// Stands where it is and reacts to nothing.
    Scenery,
    /// Walks towards the player; the game is lost when they meet.
    Pursuer,
    /// The game is won when the player touches it.
    Goal,
}

/// Whether a sprite is still in the world.
#[derive(Debug, Clone, Copy, PartialEq, Eq, Structural)]
pub enum SpriteState {
    /// Touched and gone: neither drawn nor triggered again.
    Hidden,
    /// Present and drawn.
    Visible,
}

/// What a sprite tells the game after the player came near.
#[derive(Debug, Clone, Copy, PartialEq, Eq, Structural)]
pub enum GameEvent {
    /// Nothing happened.
    Nothing,
    /// The player reached a goal.
    Win,
    /// A pursuer reached the player.
    Lose,
}

/// An actor of the world. `x` and `y` place it on the map; `z` lifts it on
/// the screen and takes no part in movement.
#[derive(Debug, Clone, Copy, PartialEq, Eq, Structural)]
pub struct Sprite {
    pub kind: SpriteKind,
    pub state: SpriteState,
    pub texture_id: u32,
    pub x: i64,
    pub y: i64,
    pub z: i64,
}

/// Whether the coordinate `p` lies less than the touch range from `s`.
pub open spec fn within_touch(p: int, s: int) -> bool {
    s - TOUCH_RANGE < p < s + TOUCH_RANGE
}

/// The distance in sub-units that a pursuer walks in `dt` milliseconds:
/// 0.03 world units per millisecond.
pub open spec fn chase_step(dt: int) -> int {
    (dt * 768) / 100
}

/// One coordinate of a pursuer after a step towards the player's coordinate
/// `p`. The step is taken only where the cell it leads into is open, and a
/// pursuer level with the player stays.
pub open spec fn chased(s: int, p: int, open_below: bool, open_above: bool, step: int) -> int {
    if s > p && open_below {
        clamped(s - step, -WORLD_LIMIT as int, WORLD_LIMIT as int)
    } else if s < p && open_above {
        clamped(s + step, -WORLD_LIMIT as int, WORLD_LIMIT as int)
    } else {
        s
    }
}

/// Where a sprite appears on the screen.
#[derive(Debug, Clone, Copy, PartialEq, Eq, Structural)]
pub struct Billboard {
    /// Distance of the sprite in front of the viewer, in sub-units; zero or
    /// less for a sprite beside or behind the viewer.
    pub forward: i64,
    /// Edge length of the billboard in 1/256 pixel, from 0 to `MAX_SCALE`.
    pub scale: i64,
    /// The first screen column of the billboard.
    pub left: i64,
    /// The screen column after the last one of the billboard.
    pub right: i64,
    /// The screen row of the billboard's lowest line of pixels.
    pub base_row: i64,
}

/// The mathematical content of a `Billboard`.
pub struct Projection {
    pub forward: int,
    pub scale: int,
    pub left: int,
    pub right: int,
    pub base_row: int,
}

impl View for Billboard {
    type V = Projection;

    open spec fn view(&self) -> Projection {
        Projection {
            forward: self.forward as int,
            scale: self.scale as int,
            left: self.left as int,
            right: self.right as int,
            base_row: self.base_row as int,
        }
    }
}

/// How far the point `(sx, sy)` lies in front of a viewer at `(px, py)` who
/// faces `pa`.
pub open spec fn forward_of(trig: &TrigTable, px: int, py: int, pa: int, sx: int, sy: int) -> int {
    ((sx - px) * trig.spec_cos(pa) + (sy - py) * trig.spec_sin(pa)) / (TRIG_ONE as int)
}

/// How far the point `(sx, sy)` lies to the side of the viewing direction
/// of a viewer at `(px, py)` who faces `pa`.
pub open spec fn sideways_of(trig: &TrigTable, px: int, py: int, pa: int, sx: int, sy: int) -> int {
    ((sy - py) * trig.spec_cos(pa) - (sx - px) * trig.spec_sin(pa)) / (TRIG_ONE as int)
}

/// Edge length, in 1/256 pixel, of a billboard `forward` sub-units ahead:
/// nothing for a sprite that is not ahead, and never more than the width of
/// the screen.
pub open spec fn scale_at(forward: int) -> int {
    if forward <= 0 {
        0
    } else if (SPRITE_SCALE as int) / forward > MAX_SCALE {
        MAX_SCALE as int
    } else {
        (SPRITE_SCALE as int) / forward
    }
}

/// The projection of a sprite that lies `sideways` to the side and
/// `forward` ahead, lifted by `z`.
pub open spec fn projection_at(sideways: int, forward: int, z: int) -> Projection {
    if forward <= 0 {
        Projection { forward, scale: 0, left: 0, right: 0, base_row: 0 }
    } else {
        let scale = scale_at(forward);
        let centre = (sideways * 27648) / forward + 15360;
        Projection {
            forward,
            scale,
            left: (centre - scale / 2) / 256,
            right: (centre + scale / 2) / 256,
            base_row: (z * FOCAL) / forward + HORIZON,
        }
    }
}

/// The projection of `sprite` for the viewer `player`.
pub open spec fn projection(trig: &TrigTable, player: Player, sprite: Sprite) -> Projection {
    projection_at(
        sideways_of(
            trig,
            player.x as int,
            player.y as int,
            player.angle as int,
            sprite.x as int,
            sprite.y as int,
        ),
        forward_of(
            trig,
            player.x as int,
            player.y as int,
            player.angle as int,
            sprite.x as int,
            sprite.y as int,
        ),
        sprite.z as int,
    )
}

/// The texel column shown in column `i` of a billboard of edge `scale`.
pub open spec fn sprite_u(i: int, scale: int) -> int {
    (i * 8064) / scale
}

/// The texel row shown `j` rows above the base of a billboard of edge
/// `scale`: the texture runs from its last row at the base upwards and
/// never past its first row.
pub open spec fn sprite_v(j: int, scale: int) -> int {
    if (j * 8192 + scale - 1) / scale > 31 {
        0
    } else {
        31 - (j * 8192 + scale - 1) / scale
    }
}

/// The colour that the sprite gives the pixel in `column`, `row`; none
/// where it leaves the pixel as it was. A pixel is painted only where the
/// sprite is visible and ahead of the viewer, the pixel lies on the
/// billboard and on the screen below its first row, the wall behind that
/// column is farther than the sprite, and the texel is not the chroma key.
pub open spec fn sprite_pixel(
    trig: &TrigTable,
    atlas: &Atlas,
    player: Player,
    sprite: Sprite,
    depth: Seq<i64>,
    column: int,
    row: int,
) -> Option<Rgb> {
    let p = projection(trig, player, sprite);
    let c = atlas.texel(
        sprite.texture_id as int,
        sprite_u(column - p.left, p.scale),
        sprite_v(p.base_row - row, p.scale),
    );
    if sprite.state == SpriteState::Visible && p.forward > 0 && 0 <= column < SCREEN_WIDTH
        && p.left <= column < p.right && 0 < row < SCREEN_HEIGHT && 0 <= p.base_row - row < p.scale
        / 256
        && depth[column] > p.forward && c != chroma_key() {
        Some(c)
    } else {
        None
    }
}

/// Byte `i` of the frame once the sprite is painted over `base`.
pub open spec fn sprite_byte(
    base: Seq<u8>,
    trig: &TrigTable,
    atlas: &Atlas,
    player: Player,
    sprite: Sprite,
    depth: Seq<i64>,
    i: int,
) -> u8 {
    match sprite_pixel(trig, atlas, player, sprite, depth, byte_column(i), byte_row(i)) {
        Some(c) => channel(c, i % 4),
        None => base[i],
    }
}

/// The frame `base` with the sprite painted over it.
pub open spec fn with_sprite(
    base: Seq<u8>,
    trig: &TrigTable,
    atlas: &Atlas,
    player: Player,
    sprite: Sprite,
    depth: Seq<i64>,
) -> Seq<u8> {
    Seq::new(
        FRAME_BYTES as nat,
        |i: int| sprite_byte(base, trig, atlas, player, sprite, depth, i),
    )
}

/// However near a sprite comes, its billboard is never wider than the
/// screen, and a sprite that is not ahead of the viewer has no size.
pub proof fn lemma_scale_clamped(sideways: int, forward: int, z: int)
    ensures
        0 <= scale_at(forward) <= MAX_SCALE,
        0 <= projection_at(sideways, forward, z).scale <= MAX_SCALE,
        forward <= 0 ==> projection_at(sideways, forward, z).scale == 0,
        0 <= projection_at(sideways, forward, z).scale / 256 <= SCREEN_WIDTH,
{
    if forward > 0 {
        assert((SPRITE_SCALE as int) / forward >= 0) by (nonlinear_arith)
            requires
                forward > 0,
        ;
    }
}

/// A sprite leaves every column alone in which the wall is at least as
/// near as the sprite.
pub proof fn lemma_occluded_column_untouched(
    trig: &TrigTable,
    atlas: &Atlas,
    player: Player,
    sprite: Sprite,
    depth: Seq<i64>,
    column: int,
    row: int,
)
    requires
        depth[column] <= projection(trig, player, sprite).forward,
    ensures
        sprite_pixel(trig, atlas, player, sprite, depth, column, row) is None,
{
}

/// A pursuer that stands beyond the player on an axis, with the cell on
/// its way open, ends a frame nearer to the player on that axis, unless
/// the step is so long that it carries the pursuer as far past the player
/// as it stood before.
pub proof fn lemma_pursuer_closes_in(s: int, p: int, open_below: bool, open_above: bool, step: int)
    requires
        -WORLD_LIMIT <= s <= WORLD_LIMIT,
        -WORLD_LIMIT <= p <= WORLD_LIMIT,
        s > p ==> open_below,
        s < p ==> open_above,
        s != p,
        0 < step < 2 * (if s > p {
            s - p
        } else {
            p - s
        }),
    ensures
        s > p ==> p - (s - p) < chased(s, p, open_below, open_above, step) < s,
        s < p ==> s < chased(s, p, open_below, open_above, step) < p + (p - s),
{
}

/// Projects a sprite onto the screen of the player.
pub fn project(trig: &TrigTable, player: &Player, sprite: &Sprite) -> (b: Billboard)
    requires
        trig.wf(),
        player.wf(),
        sprite.wf(),
    ensures
        b@ == projection(trig, *player, *sprite),
        0 <= b.scale <= MAX_SCALE,
        b.forward <= 0 ==> b.scale == 0,
        -0x1_0000_0000_0000 <= b.base_row <= 0x1_0000_0000_0000,
{
    let cs: i64 = trig.cos(player.angle);
    let sn: i64 = trig.sin(player.angle);
    let sx: i64 = sprite.x - player.x;
    let sy: i64 = sprite.y - player.y;
    assert(-0x200_0000_0000 * 65536 <= sx * cs <= 0x200_0000_0000 * 65536
        && -0x200_0000_0000 * 65536 <= sx * sn <= 0x200_0000_0000 * 65536) by (nonlinear_arith)
        requires
            -0x200_0000_0000 <= sx <= 0x200_0000_0000,
            -65536 <= cs <= 65536,
            -65536 <= sn <= 65536,
    ;
    assert(-0x200_0000_0000 * 65536 <= sy * cs <= 0x200_0000_0000 * 65536
        && -0x200_0000_0000 * 65536 <= sy * sn <= 0x200_0000_0000 * 65536) by (nonlinear_arith)
        requires
            -0x200_0000_0000 <= sy <= 0x200_0000_0000,
            -65536 <= cs <= 65536,
            -65536 <= sn <= 65536,
    ;
    let sideways: i64 = floor_div(sy * cs - sx * sn, TRIG_ONE);
    let forward: i64 = floor_div(sx * cs + sy * sn, TRIG_ONE);
    if forward <= 0 {
        return Billboard { forward, scale: 0, left: 0, right: 0, base_row: 0 };
    }
    proof {
        lemma_floor_div_bound(SPRITE_SCALE as int, forward as int, SPRITE_SCALE as int);
        lemma_floor_div_bound(sideways * 27648, forward as int, 0x400_0000_0000int * 27648);
        lemma_floor_div_bound(sprite.z * FOCAL, forward as int, 0x100_0000_0000int * 108);
    }
    assert(SPRITE_SCALE / forward >= 0) by (nonlinear_arith)
        requires
            forward > 0,
    ;
    let natural: i64 = SPRITE_SCALE / forward;
    let scale: i64 = if natural > MAX_SCALE {
        MAX_SCALE
    } else {
        natural
    };
    let centre: i64 = floor_div(sideways * 27648, forward) + 15360;
    Billboard {
        forward,
        scale,
        left: floor_div(centre - scale / 2, 256),
        right: floor_div(centre + scale / 2, 256),
        base_row: floor_div(sprite.z * FOCAL, forward) + 40,
    }
}

/// The texel column shown in column `i` of a billboard.
fn texel_u(i: i64, scale: i64) -> (u: usize)
    requires
        0 <= i,
        i * 256 < scale,
        scale <= MAX_SCALE,
    ensures
        u == sprite_u(i as int, scale as int),
        u < 32,
{
    assert(0 <= (i * 8064) / (scale as int) < 32) by (nonlinear_arith)
        requires
            0 <= i * 8064 < 32 * scale,
            scale > 0,
    ;
    ((i * 8064) / scale) as usize
}

/// The texel row shown `j` rows above the base of a billboard.
fn texel_v(j: i64, scale: i64) -> (v: usize)
    requires
        0 <= j < 120,
        0 < scale <= MAX_SCALE,
    ensures
        v == sprite_v(j as int, scale as int),
        v < 32,
{
    assert((j * 8192 + scale - 1) / (scale as int) >= 0) by (nonlinear_arith)
        requires
            0 <= j * 8192 + scale - 1,
            scale > 0,
    ;
    let drop: i64 = (j * 8192 + scale - 1) / scale;
    if drop > 31 {
        0
    } else {
        (31 - drop) as usize
    }
}

/// Paints the part of a billboard that falls into one screen column.
fn paint_sprite_column(
    sprite: &Sprite,
    player: &Player,
    depth: &[i64; 120],
    trig: &TrigTable,
    atlas: &Atlas,
    b: &Billboard,
    column: i64,
    frame: &mut [u8],
)
    requires
        trig.wf(),
        atlas.wf(),
        sprite.texture_id < atlas.tiles(),
        b@ == projection(trig, *player, *sprite),
        0 <= b.scale <= MAX_SCALE,
        0 <= column < SCREEN_WIDTH,
        b.left <= column < b.right,
        -0x1_0000_0000_0000 <= b.base_row <= 0x1_0000_0000_0000,
        old(frame)@.len() == FRAME_BYTES,
    ensures
        final(frame)@.len() == FRAME_BYTES,
        forall|i: int|
            0 <= i < FRAME_BYTES ==> #[trigger] final(frame)@[i] == if byte_column(i) == column {
                sprite_byte(old(frame)@, trig, atlas, *player, *sprite, depth@, i)
            } else {
                old(frame)@[i]
            },
{
    let visible: bool = match sprite.state {
        SpriteState::Visible => true,
        SpriteState::Hidden => false,
    };
    if !visible || b.forward <= 0 || depth[column as usize] <= b.forward {
        return ;
    }
    let rows: i64 = b.scale / 256;
    let u: usize = texel_u(column - b.left, b.scale);
    let first: i64 = if b.base_row - rows + 1 > 1 {
        b.base_row - rows + 1
    } else {
        1
    };
    let last: i64 = if b.base_row < 79 {
        b.base_row
    } else {
        79
    };
    let mut row: i64 = first;
    while row <= last
        invariant
            atlas.wf(),
            sprite.texture_id < atlas.tiles(),
            b@ == projection(trig, *player, *sprite),
            0 < b.scale <= MAX_SCALE,
            rows == b.scale / 256,
            sprite.state == SpriteState::Visible,
            b.forward > 0,
            0 <= column < SCREEN_WIDTH,
            b.left <= column < b.right,
            depth@[column as int] > b.forward,
            u == sprite_u(column - b.left, b.scale as int),
            u < 32,
            1 <= first <= row,
            first >= b.base_row - rows + 1,
            last <= 79,
            last <= b.base_row,
            frame@.len() == FRAME_BYTES,
            forall|i: int|
                0 <= i < FRAME_BYTES ==> #[trigger] frame@[i] == if byte_column(i) == column
                    && first <= byte_row(i) < row {
                    sprite_byte(old(frame)@, trig, atlas, *player, *sprite, depth@, i)
                } else {
                    old(frame)@[i]
                },
        decreases last + 1 - row,
    {
        let v: usize = texel_v(b.base_row - row, b.scale);
        let c: Rgb = atlas.sample(sprite.texture_id as usize, u, v);
        let ghost before = frame@;
        if !(c.red == 255 && c.green == 0 && c.blue == 255) {
            draw_pixel(c.red, c.green, c.blue, column as i32, row as i32, frame);
            proof {
                assert forall|i: int| 0 <= i < FRAME_BYTES implies #[trigger] frame@[i]
                    == if byte_column(i) == column && first <= byte_row(i) < row + 1 {
                    sprite_byte(old(frame)@, trig, atlas, *player, *sprite, depth@, i)
                } else {
                    old(frame)@[i]
                } by {
                    lemma_with_pixel(before, column as int, row as int, c, i);
                }
            }
        }
        row = row + 1;
    }
}

/// Paints a sprite over the frame wherever it is nearer than the wall that
/// the depth buffer records for the column.
pub fn paint_sprite(
    sprite: &Sprite,
    player: &Player,
    depth: &[i64; 120],
    trig: &TrigTable,
    atlas: &Atlas,
    frame: &mut [u8],
)
    requires
        trig.wf(),
        atlas.wf(),
        player.wf(),
        sprite.wf(),
        sprite.texture_id < atlas.tiles(),
        old(frame)@.len() == FRAME_BYTES,
    ensures
        final(frame)@ == with_sprite(old(frame)@, trig, atlas, *player, *sprite, depth@),
        forall|i: int|
            0 <= i < FRAME_BYTES && depth@[byte_column(i)] <= projection(
                trig,
                *player,
                *sprite,
            ).forward ==> #[trigger] final(frame)@[i] == old(frame)@[i],
{
    let b: Billboard = project(trig, player, sprite);
    let start: i64 = if b.left > 0 {
        b.left
    } else {
        0
    };
    let end: i64 = if b.right < 120 {
        b.right
    } else {
        120
    };
    let mut column: i64 = start;
    while column < end
        invariant
            trig.wf(),
            atlas.wf(),
            sprite.texture_id < atlas.tiles(),
            b@ == projection(trig, *player, *sprite),
            0 <= b.scale <= MAX_SCALE,
            -0x1_0000_0000_0000 <= b.base_row <= 0x1_0000_0000_0000,
            0 <= start <= column,
            b.left <= start,
            end <= 120,
            end <= b.right,
            frame@.len() == FRAME_BYTES,
            forall|i: int|
                0 <= i < FRAME_BYTES ==> #[trigger] frame@[i] == if start <= byte_column(i)
                    < column {
                    sprite_byte(old(frame)@, trig, atlas, *player, *sprite, depth@, i)
                } else {
                    old(frame)@[i]
                },
        decreases end - column,
    {
        paint_sprite_column(sprite, player, depth, trig, atlas, &b, column, frame);
        column = column + 1;
    }
    assert(frame@ =~= with_sprite(old(frame)@, trig, atlas, *player, *sprite, depth@));
}

/// Handles one sprite for one frame: lets it react to the player, lets a
/// pursuer walk for `dt` milliseconds, and paints it where it then stands.
/// Reports what the player's touch means for the game.
pub fn draw_sprite(
    sprite: &mut Sprite,
    player: &Player,
    depth: &[i64; 120],
    dt: u32,
    map: &TileMap,
    trig: &TrigTable,
    atlas: &Atlas,
    frame: &mut [u8],
) -> (event: GameEvent)
    requires
        old(sprite).wf(),
        player.wf(),
        map.wf(),
        trig.wf(),
        atlas.wf(),
        old(sprite).texture_id < atlas.tiles(),
        old(frame)@.len() == FRAME_BYTES,
    ensures
        final(sprite).wf(),
        event == old(sprite).event(*player),
        final(sprite).state == old(sprite).state_after_touch(*player),
        final(sprite).x == old(sprite).x_after_chase(*player, map, dt as int),
        final(sprite).y == old(sprite).y_after_chase(*player, map, dt as int),
        final(sprite).z == old(sprite).z,
        final(sprite).kind == old(sprite).kind,
        final(sprite).texture_id == old(sprite).texture_id,
        final(frame)@ == with_sprite(old(frame)@, trig, atlas, *player, *final(sprite), depth@),
        forall|i: int|
            0 <= i < FRAME_BYTES && depth@[byte_column(i)] <= projection(
                trig,
                *player,
                *final(sprite),
            ).forward ==> #[trigger] final(frame)@[i] == old(frame)@[i],
{
    let event: GameEvent = sprite.update(player, map, dt);
    paint_sprite(sprite, player, depth, trig, atlas, frame);
    event
}

impl Sprite {
    /// The sprite lies within the world.
    pub open spec fn wf(&self) -> bool {
        &&& -WORLD_LIMIT <= self.x <= WORLD_LIMIT
        &&& -WORLD_LIMIT <= self.y <= WORLD_LIMIT
        &&& -WORLD_LIMIT <= self.z <= WORLD_LIMIT
    }

    /// Whether the player stands within the touch range on both axes.
    pub open spec fn touched_by(&self, player: Player) -> bool {
        within_touch(player.x as int, self.x as int) && within_touch(
            player.y as int,
            self.y as int,
        )
    }

    /// The state of the sprite after the player had the chance to touch it:
    /// a touched trigger hides, everything else stays as it is.
    pub open spec fn state_after_touch(&self, player: Player) -> SpriteState {
        if self.touched_by(player) && self.kind == SpriteKind::Trigger {
            SpriteState::Hidden
        } else {
            self.state
        }
    }

    /// What the sprite tells the game: a touched goal wins it, a pursuer
    /// that touches the player loses it.
    pub open spec fn event(&self, player: Player) -> GameEvent {
        if self.touched_by(player) && self.kind == SpriteKind::Goal {
            GameEvent::Win
        } else if self.touched_by(player) && self.kind == SpriteKind::Pursuer {
            GameEvent::Lose
        } else {
            GameEvent::Nothing
        }
    }

    /// The X coordinate after the step of this frame. Only pursuers walk.
    /// The cell probed lies the pursuer's margin ahead, in the sprite's row.
    pub open spec fn x_after_chase(&self, player: Player, map: &TileMap, dt: int) -> int {
        if self.kind == SpriteKind::Pursuer {
            chased(
                self.x as int,
                player.x as int,
                !map.solid(tile_of(self.x - PURSUER_MARGIN), tile_of(self.y as int)),
                !map.solid(tile_of(self.x + PURSUER_MARGIN), tile_of(self.y as int)),
                chase_step(dt),
            )
        } else {
            self.x as int
        }
    }

    /// The Y coordinate after the step of this frame. The cell probed lies
    /// the pursuer's margin ahead, in the column that the sprite stood in
    /// before it moved.
    pub open spec fn y_after_chase(&self, player: Player, map: &TileMap, dt: int) -> int {
        if self.kind == SpriteKind::Pursuer {
            chased(
                self.y as int,
                player.y as int,
                !map.solid(tile_of(self.x as int), tile_of(self.y - PURSUER_MARGIN)),
                !map.solid(tile_of(self.x as int), tile_of(self.y + PURSUER_MARGIN)),
                chase_step(dt),
            )
        } else {
            self.y as int
        }
    }

    /// Whether the sprite lies within the world.
    pub fn in_world(&self) -> (ok: bool)
        ensures
            ok == self.wf(),
    {
        -WORLD_LIMIT <= self.x && self.x <= WORLD_LIMIT && -WORLD_LIMIT <= self.y && self.y
            <= WORLD_LIMIT && -WORLD_LIMIT <= self.z && self.z <= WORLD_LIMIT
    }

    /// Whether the player stands within the touch range on both axes.
    pub fn is_touched_by(&self, player: &Player) -> (b: bool)
        requires
            self.wf(),
            player.wf(),
        ensures
            b == self.touched_by(*player),
    {
        player.x < self.x + TOUCH_RANGE && player.x > self.x - TOUCH_RANGE && player.y < self.y
            + TOUCH_RANGE && player.y > self.y - TOUCH_RANGE
    }

    /// Lets the sprite react to the player and, if it is a pursuer, walk
    /// towards the player for `dt` milliseconds. Reports what the touch
    /// means for the game.
    pub fn update(&mut self, player: &Player, map: &TileMap, dt: u32) -> (event: GameEvent)
        requires
            old(self).wf(),
            player.wf(),
            map.wf(),
        ensures
            final(self).wf(),
            event == old(self).event(*player),
            final(self).state == old(self).state_after_touch(*player),
            final(self).x == old(self).x_after_chase(*player, map, dt as int),
            final(self).y == old(self).y_after_chase(*player, map, dt as int),
            final(self).z == old(self).z,
            final(self).kind == old(self).kind,
            final(self).texture_id == old(self).texture_id,
    {
        let touched: bool = self.is_touched_by(player);
        let mut event: GameEvent = GameEvent::Nothing;
        if touched {
            match self.kind {
                SpriteKind::Trigger => {
                    self.state = SpriteState::Hidden;
                },
                SpriteKind::Goal => {
                    event = GameEvent::Win;
                },
                SpriteKind::Pursuer => {
                    event = GameEvent::Lose;
                },
                SpriteKind::Scenery => {},
            }
        }
        match self.kind {
            SpriteKind::Pursuer => {
                let step: i64 = (dt as i64 * 768) / 100;
                let column: i64 = tile_index(self.x);
                let row: i64 = tile_index(self.y);
                let x: i64 = self.x;
                let y: i64 = self.y;
                if x > player.x && !map.is_solid(tile_index(x - PURSUER_MARGIN), row) {
                    self.x = clamp(x - step, -WORLD_LIMIT, WORLD_LIMIT);
                } else if x < player.x && !map.is_solid(tile_index(x + PURSUER_MARGIN), row) {
                    self.x = clamp(x + step, -WORLD_LIMIT, WORLD_LIMIT);
                }
                if y > player.y && !map.is_solid(column, tile_index(y - PURSUER_MARGIN)) {
                    self.y = clamp(y - step, -WORLD_LIMIT, WORLD_LIMIT);
                } else if y < player.y && !map.is_solid(column, tile_index(y + PURSUER_MARGIN)) {
                    self.y = clamp(y + step, -WORLD_LIMIT, WORLD_LIMIT);
                }
            },
            _ => {},
        }
        event
    }
}

} // verus!
