//! The player: a position in the world and a facing angle.

use crate::fixed::clamp;
use crate::fixed::clamped;
use crate::fixed::floor_div;
use crate::fixed::lemma_floor_div_bound;
use crate::fixed::WORLD_LIMIT;
use crate::map::door_opened;
use crate::map::tile_index;
use crate::map::tile_of;
use crate::map::TileMap;
use crate::sprite::Sprite;
use crate::sprite::SpriteState;
use crate::trig::turned;
use crate::trig::wrapped;
use crate::trig::TrigTable;
use crate::trig::FULL_TURN;
use vstd::prelude::*;

verus! {

/// The pose of the player. Coordinates count sub-units, the angle counts
/// tenths of a degree.
#[derive(Debug, Clone, Copy, PartialEq, Eq, Structural)]
pub struct Player {
    pub x: i64,
    pub y: i64,
    pub angle: i64,
}

impl Player {
    /// The position lies within the world and the angle within a full turn.
    pub open spec fn wf(&self) -> bool {
        &&& -WORLD_LIMIT <= self.x <= WORLD_LIMIT
        &&& -WORLD_LIMIT <= self.y <= WORLD_LIMIT
        &&& 0 <= self.angle < FULL_TURN
    }
}

/// What the player asks for in one frame: four keys that hold while they
/// are down, and the wish to interact, which holds for the one frame in
/// which its key went down.
#[derive(Debug, Clone, Copy, PartialEq, Eq, Structural)]
pub struct Keyboard {
    pub up: bool,
    pub down: bool,
    pub left: bool,
    pub right: bool,
    pub interact: bool,
}

/// The margin, in sub-units, that the player keeps from walls: 20 world
/// units.
pub const PLAYER_MARGIN: i64 = 5120;

/// How far ahead, in sub-units, the player reaches for a door: 25 world
/// units.
pub const DOOR_REACH: i64 = 6400;

/// Angle steps that the player turns in one millisecond: 0.2 degrees.
pub const TURN_SPEED: i64 = 2;

/// The number that a product of a sine and a time in milliseconds is
/// divided by to give sub-units: the player walks 0.2 world units per
/// millisecond.
pub const WALK_DIVISOR: i64 = 1280;

/// `margin` in the direction of `direction`: towards minus where the
/// direction is negative, towards plus otherwise.
pub open spec fn toward(direction: int, margin: int) -> int {
    if direction < 0 {
        -margin
    } else {
        margin
    }
}

/// The distance in sub-units that the player walks along one axis in `dt`
/// milliseconds, where `direction` is the cosine or the sine of the facing
/// angle.
pub open spec fn walk_step(direction: int, dt: int) -> int {
    (direction * dt) / (WALK_DIVISOR as int)
}

/// One coordinate of the player after walking: forwards by `step` where
/// `up` is held and the cell ahead is open, then backwards by `step` where
/// `down` is held and the cell behind is open.
pub open spec fn walked(
    p: int,
    up: bool,
    ahead_open: bool,
    down: bool,
    behind_open: bool,
    step: int,
) -> int {
    let forth = if up && ahead_open {
        clamped(p + step, -WORLD_LIMIT as int, WORLD_LIMIT as int)
    } else {
        p
    };
    if down && behind_open {
        clamped(forth - step, -WORLD_LIMIT as int, WORLD_LIMIT as int)
    } else {
        forth
    }
}

/// The facing angle after turning for `dt` milliseconds: to the left where
/// `left` is held, then to the right where `right` is held.
pub open spec fn turned_by_keys(angle: int, left: bool, right: bool, dt: int) -> int {
    let after_left = if left {
        wrapped(angle - TURN_SPEED * dt)
    } else {
        angle
    };
    if right {
        wrapped(after_left + TURN_SPEED * dt)
    } else {
        after_left
    }
}

impl Player {
    /// Whether the position lies within the world and the angle within a
    /// full turn.
    pub fn in_world(&self) -> (ok: bool)
        ensures
            ok == self.wf(),
    {
        -WORLD_LIMIT <= self.x && self.x <= WORLD_LIMIT && -WORLD_LIMIT <= self.y && self.y
            <= WORLD_LIMIT && 0 <= self.angle && self.angle < FULL_TURN
    }

    /// The X coordinate after the keys were applied for `dt` milliseconds.
    /// The cells probed lie the player's margin ahead and behind, in the
    /// player's row.
    pub open spec fn x_after_keys(
        &self,
        keys: Keyboard,
        map: &TileMap,
        trig: &TrigTable,
        dt: int,
    ) -> int {
        let reach = toward(trig.spec_cos(self.angle as int), PLAYER_MARGIN as int);
        walked(
            self.x as int,
            keys.up,
            !map.solid(tile_of(self.x + reach), tile_of(self.y as int)),
            keys.down,
            !map.solid(tile_of(self.x - reach), tile_of(self.y as int)),
            walk_step(trig.spec_cos(self.angle as int), dt),
        )
    }

    /// The Y coordinate after the keys were applied for `dt` milliseconds.
    /// The cells probed lie the player's margin ahead and behind, in the
    /// column that the player stood in before moving.
    pub open spec fn y_after_keys(
        &self,
        keys: Keyboard,
        map: &TileMap,
        trig: &TrigTable,
        dt: int,
    ) -> int {
        let reach = toward(trig.spec_sin(self.angle as int), PLAYER_MARGIN as int);
        walked(
            self.y as int,
            keys.up,
            !map.solid(tile_of(self.x as int), tile_of(self.y + reach)),
            keys.down,
            !map.solid(tile_of(self.x as int), tile_of(self.y - reach)),
            walk_step(trig.spec_sin(self.angle as int), dt),
        )
    }

    /// The index of the wall cell that the player reaches for when opening a
    /// door: the cell that lies `DOOR_REACH` ahead on both axes.
    pub open spec fn door_cell(&self, map: &TileMap, trig: &TrigTable) -> int {
        map.cell_index(
            tile_of(self.x + toward(trig.spec_cos(self.angle as int), DOOR_REACH as int)),
            tile_of(self.y + toward(trig.spec_sin(self.angle as int), DOOR_REACH as int)),
        )
    }
}

/// However long the player turns, and whichever way, the facing angle
/// stays within a full turn.
pub proof fn lemma_turning_keeps_angle(angle: int, left: bool, right: bool, dt: int)
    requires
        0 <= angle < FULL_TURN,
    ensures
        0 <= turned_by_keys(angle, left, right, dt) < FULL_TURN,
{
}

/// The distance that the player walks along one axis in `dt` milliseconds.
fn step_along(direction: i64, dt: u32) -> (step: i64)
    requires
        -65536 <= direction <= 65536,
    ensures
        step == walk_step(direction as int, dt as int),
        -0x1_0000_0000_0000 <= step <= 0x1_0000_0000_0000,
{
    assert(-0x1_0000_0000_0000 <= direction * dt <= 0x1_0000_0000_0000) by (nonlinear_arith)
        requires
            -65536 <= direction <= 65536,
            0 <= dt <= 0xffff_ffff,
    ;
    proof {
        lemma_floor_div_bound(direction * dt, WALK_DIVISOR as int, 0x1_0000_0000_0000);
    }
    floor_div(direction * dt as i64, WALK_DIVISOR)
}

/// Moves and turns the player as the keys ask, for `dt` milliseconds. The
/// player walks along the facing direction, each axis on its own: a step
/// along an axis is dropped where the cell that the player's margin would
/// enter is solid, so that the player slides along walls.
pub fn keyboard_input(
    keys: &Keyboard,
    player: &mut Player,
    dt: u32,
    map: &TileMap,
    trig: &TrigTable,
)
    requires
        old(player).wf(),
        map.wf(),
        trig.wf(),
    ensures
        final(player).wf(),
        final(player).x == old(player).x_after_keys(*keys, map, trig, dt as int),
        final(player).y == old(player).y_after_keys(*keys, map, trig, dt as int),
        final(player).angle == turned_by_keys(
            old(player).angle as int,
            keys.left,
            keys.right,
            dt as int,
        ),
        0 <= final(player).angle < FULL_TURN,
{
    let c: i64 = trig.cos(player.angle);
    let s: i64 = trig.sin(player.angle);
    let reach_x: i64 = if c < 0 {
        -PLAYER_MARGIN
    } else {
        PLAYER_MARGIN
    };
    let reach_y: i64 = if s < 0 {
        -PLAYER_MARGIN
    } else {
        PLAYER_MARGIN
    };
    let x: i64 = player.x;
    let y: i64 = player.y;
    let column: i64 = tile_index(x);
    let row: i64 = tile_index(y);
    let step_x: i64 = step_along(c, dt);
    let step_y: i64 = step_along(s, dt);
    if keys.up {
        if !map.is_solid(tile_index(x + reach_x), row) {
            player.x = clamp(player.x + step_x, -WORLD_LIMIT, WORLD_LIMIT);
        }
        if !map.is_solid(column, tile_index(y + reach_y)) {
            player.y = clamp(player.y + step_y, -WORLD_LIMIT, WORLD_LIMIT);
        }
    }
    if keys.down {
        if !map.is_solid(tile_index(x - reach_x), row) {
            player.x = clamp(player.x - step_x, -WORLD_LIMIT, WORLD_LIMIT);
        }
        if !map.is_solid(column, tile_index(y - reach_y)) {
            player.y = clamp(player.y - step_y, -WORLD_LIMIT, WORLD_LIMIT);
        }
    }
    if keys.left {
        player.angle = turned(player.angle, -(TURN_SPEED * dt as i64));
    }
    if keys.right {
        player.angle = turned(player.angle, TURN_SPEED * dt as i64);
    }
}

/// Opens the door in front of the player, if the key was picked up: only
/// where the sprite `key` is hidden, the wall cell that lies `DOOR_REACH`
/// ahead of the player is opened if it holds a door. Nothing else changes.
pub fn door_open(player: &Player, map: &mut TileMap, key: &Sprite, trig: &TrigTable)
    requires
        player.wf(),
        old(map).wf(),
        trig.wf(),
    ensures
        final(map).wf(),
        old(map).same_but_walls(final(map)),
        final(map).wall_tiles@ == if key.state == SpriteState::Hidden {
            door_opened(old(map).wall_tiles@, player.door_cell(old(map), trig))
        } else {
            old(map).wall_tiles@
        },
{
    let hidden: bool = match key.state {
        SpriteState::Hidden => true,
        SpriteState::Visible => false,
    };
    if hidden {
        let c: i64 = trig.cos(player.angle);
        let s: i64 = trig.sin(player.angle);
        let reach_x: i64 = if c < 0 {
            -DOOR_REACH
        } else {
            DOOR_REACH
        };
        let reach_y: i64 = if s < 0 {
            -DOOR_REACH
        } else {
            DOOR_REACH
        };
        map.open_door(tile_index(player.x + reach_x), tile_index(player.y + reach_y));
    }
}

} // verus!
