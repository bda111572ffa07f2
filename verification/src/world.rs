//! The world and its frame step.
//!
//! A `World` holds everything that changes from frame to frame, together
//! with the level as it was authored, so that the level can be put back
//! whenever play begins. `World::tick` advances the world by one frame and
//! paints it: while playing it applies the keys, casts the rays and draws
//! the sprites; otherwise it shows the picture of the phase.

use crate::column::draw_rays;
use crate::column::scene_wf;
use crate::column::with_rays;
use crate::frame::FRAME_BYTES;
use crate::frame::SCREEN_WIDTH;
use crate::map::door_opened;
use crate::map::tile_index;
use crate::map::tile_of;
use crate::map::TileMap;
use crate::player::door_open;
use crate::player::keyboard_input;
use crate::player::turned_by_keys;
use crate::player::Keyboard;
use crate::player::Player;
use crate::raycast::column_hit;
use crate::screen::draw_sky;
use crate::screen::image_of;
use crate::screen::screen;
use crate::screen::screen_frame;
use crate::screen::with_sky;
use crate::screen::Screen;
use crate::sprite::draw_sprite;
use crate::sprite::with_sprite;
use crate::sprite::GameEvent;
use crate::sprite::Sprite;
use crate::sprite::SpriteState;
use crate::state::combine;
use crate::state::entering;
use crate::state::next_state;
use crate::state::ramped;
use crate::state::weightier;
use crate::state::GameState;
use crate::state::Phase;
use crate::texture::Assets;
use crate::texture::Atlas;
use crate::trig::TrigTable;
use vstd::prelude::*;

verus! {

/// Why a world was turned down.
#[derive(Debug, Clone, Copy, PartialEq, Eq, Structural)]
pub enum WorldError {
    /// The map names a texture that the texture atlas does not hold.
    MissingTexture,
    /// The player or a sprite lies outside the world.
    OutOfWorld,
    /// A sprite names a texture that the sprite atlas does not hold.
    MissingSpriteTexture,
    /// There is no sprite with the number given for the key.
    MissingKey,
}

/// The state of the game and the level that it is played on.
#[derive(Debug)]
pub struct World {
    /// The sine table.
    pub trig: TrigTable,
    /// The textures and pictures.
    pub assets: Assets,
    /// The walls as the level was authored.
    pub authored_walls: Vec<u32>,
    /// The player as the level was authored.
    pub start: Player,
    /// The sprites as the level was authored.
    pub authored_sprites: Vec<Sprite>,
    /// The number of the sprite that unlocks the doors once it is hidden.
    pub key: usize,
    /// The tile column of the cell that wins the game.
    pub goal_column: i64,
    /// The tile row of the cell that wins the game.
    pub goal_row: i64,
    /// The map as it is now.
    pub map: TileMap,
    /// The player as it is now.
    pub player: Player,
    /// The sprites as they are now.
    pub sprites: Vec<Sprite>,
    /// The distance of the wall in each screen column of the last view.
    pub depth: [i64; 120],
    /// The phase of the game.
    pub state: GameState,
}

/// Every sprite lies within the world.
pub open spec fn sprites_in_world(sprites: Seq<Sprite>) -> bool {
    forall|i: int| 0 <= i < sprites.len() ==> (#[trigger] sprites[i]).wf()
}

/// Every sprite names one of the first `tiles` textures.
pub open spec fn sprites_textured(sprites: Seq<Sprite>, tiles: int) -> bool {
    forall|i: int| 0 <= i < sprites.len() ==> (#[trigger] sprites[i]).texture_id < tiles
}

/// The verdict on what is handed to `World::new`.
pub open spec fn world_verdict(
    map: &TileMap,
    player: Player,
    sprites: Seq<Sprite>,
    key: int,
    assets: &Assets,
) -> Option<WorldError> {
    if !map.textures_within(assets.textures.tiles()) {
        Some(WorldError::MissingTexture)
    } else if !player.wf() || !sprites_in_world(sprites) {
        Some(WorldError::OutOfWorld)
    } else if !sprites_textured(sprites, assets.sprites.tiles()) {
        Some(WorldError::MissingSpriteTexture)
    } else if key >= sprites.len() {
        Some(WorldError::MissingKey)
    } else {
        None
    }
}

/// The event of standing on the goal cell.
pub open spec fn goal_event(player: Player, goal_column: int, goal_row: int) -> GameEvent {
    if tile_of(player.x as int) == goal_column && tile_of(player.y as int) == goal_row {
        GameEvent::Win
    } else {
        GameEvent::Nothing
    }
}

/// The most decisive event among those of the first `n` sprites.
pub open spec fn sprites_event(sprites: Seq<Sprite>, player: Player, n: int) -> GameEvent
    decreases n,
{
    if n <= 0 {
        GameEvent::Nothing
    } else {
        weightier(sprites_event(sprites, player, n - 1), sprites[n - 1].event(player))
    }
}

/// The frame `base` with the first `n` sprites painted over it, one after
/// the other.
pub open spec fn with_sprites(
    base: Seq<u8>,
    trig: &TrigTable,
    atlas: &Atlas,
    player: Player,
    sprites: Seq<Sprite>,
    depth: Seq<i64>,
    n: int,
) -> Seq<u8>
    decreases n,
{
    if n <= 0 {
        base
    } else {
        with_sprite(
            with_sprites(base, trig, atlas, player, sprites, depth, n - 1),
            trig,
            atlas,
            player,
            sprites[n - 1],
            depth,
        )
    }
}

/// Whether `after` is what `before` becomes in a frame of `dt`
/// milliseconds: touched, and one step nearer to the player if it is a
/// pursuer.
pub open spec fn sprite_stepped(
    before: Sprite,
    after: Sprite,
    player: Player,
    map: &TileMap,
    dt: int,
) -> bool {
    &&& after.kind == before.kind
    &&& after.texture_id == before.texture_id
    &&& after.z == before.z
    &&& after.state == before.state_after_touch(player)
    &&& after.x == before.x_after_chase(player, map, dt)
    &&& after.y == before.y_after_chase(player, map, dt)
}

/// What painting the first `n` sprites yields depends on those sprites
/// only.
proof fn lemma_with_sprites_prefix(
    base: Seq<u8>,
    trig: &TrigTable,
    atlas: &Atlas,
    player: Player,
    a: Seq<Sprite>,
    b: Seq<Sprite>,
    depth: Seq<i64>,
    n: int,
)
    requires
        forall|k: int| 0 <= k < n ==> a[k] == b[k],
    ensures
        with_sprites(base, trig, atlas, player, a, depth, n) == with_sprites(
            base,
            trig,
            atlas,
            player,
            b,
            depth,
            n,
        ),
    decreases n,
{
    if n > 0 {
        lemma_with_sprites_prefix(base, trig, atlas, player, a, b, depth, n - 1);
    }
}

/// A copy of a list of plain values.
fn copied<T: Copy>(v: &Vec<T>) -> (r: Vec<T>)
    ensures
        r@ == v@,
{
    let mut r: Vec<T> = Vec::new();
    let mut i: usize = 0;
    while i < v.len()
        invariant
            0 <= i <= v@.len(),
            r@ == v@.subrange(0, i as int),
        decreases v@.len() - i,
    {
        r.push(v[i]);
        assert(r@ =~= v@.subrange(0, i + 1));
        i = i + 1;
    }
    assert(r@ =~= v@);
    r
}

/// Whether every sprite lies within the world.
fn all_in_world(sprites: &Vec<Sprite>) -> (ok: bool)
    ensures
        ok == sprites_in_world(sprites@),
{
    let mut i: usize = 0;
    while i < sprites.len()
        invariant
            0 <= i <= sprites@.len(),
            forall|j: int| 0 <= j < i ==> (#[trigger] sprites@[j]).wf(),
        decreases sprites@.len() - i,
    {
        if !sprites[i].in_world() {
            return false;
        }
        i = i + 1;
    }
    true
}

/// Whether every sprite names one of the first `tiles` textures.
fn all_textured(sprites: &Vec<Sprite>, tiles: usize) -> (ok: bool)
    ensures
        ok == sprites_textured(sprites@, tiles as int),
{
    let mut i: usize = 0;
    while i < sprites.len()
        invariant
            0 <= i <= sprites@.len(),
            forall|j: int| 0 <= j < i ==> (#[trigger] sprites@[j]).texture_id < tiles,
        decreases sprites@.len() - i,
    {
        if sprites[i].texture_id as usize >= tiles {
            return false;
        }
        i = i + 1;
    }
    true
}

impl World {
    /// The parts fit together: the scene can be drawn, the player and all
    /// sprites lie within the world and have their textures, the key
    /// exists, and the authored level could take the place of the current
    /// one.
    pub open spec fn wf(&self) -> bool {
        &&& scene_wf(&self.map, &self.trig, &self.assets.textures)
        &&& self.assets.wf()
        &&& self.player.wf()
        &&& self.start.wf()
        &&& self.state.wf()
        &&& self.sprites@.len() == self.authored_sprites@.len()
        &&& self.key < self.sprites@.len()
        &&& sprites_in_world(self.sprites@)
        &&& sprites_in_world(self.authored_sprites@)
        &&& sprites_textured(self.sprites@, self.assets.sprites.tiles())
        &&& sprites_textured(self.authored_sprites@, self.assets.sprites.tiles())
        &&& self.authored_walls@.len() == self.map.cells()
        &&& forall|i: int|
            0 <= i < self.authored_walls@.len() ==> (#[trigger] self.authored_walls@[i])
                <= self.assets.textures.tiles()
    }

    /// Whether `other` is played on the same level with the same assets.
    pub open spec fn same_setup(&self, other: &World) -> bool {
        &&& other.trig == self.trig
        &&& other.assets == self.assets
        &&& other.authored_walls == self.authored_walls
        &&& other.start == self.start
        &&& other.authored_sprites == self.authored_sprites
        &&& other.key == self.key
        &&& other.goal_column == self.goal_column
        &&& other.goal_row == self.goal_row
        &&& self.map.same_but_walls(&other.map)
        &&& other.sprites@.len() == self.sprites@.len()
    }

    /// Whether `other` shows the same level in the same condition.
    pub open spec fn same_level(&self, other: &World) -> bool {
        &&& other.map.wall_tiles@ == self.map.wall_tiles@
        &&& other.player == self.player
        &&& other.sprites@ == self.sprites@
    }

    /// Whether the level is as it was authored.
    pub open spec fn level_restored(&self) -> bool {
        &&& self.map.wall_tiles@ == self.authored_walls@
        &&& self.player == self.start
        &&& self.sprites@ == self.authored_sprites@
    }

    /// The walls after the wish to interact was served: the door ahead of
    /// the player opens if interaction is asked for and the key is hidden.
    pub open spec fn walls_after_interact(&self, keys: Keyboard) -> Seq<u32> {
        if keys.interact && self.sprites@[self.key as int].state == SpriteState::Hidden {
            door_opened(self.map.wall_tiles@, self.player.door_cell(&self.map, &self.trig))
        } else {
            self.map.wall_tiles@
        }
    }

    /// What happened in a frame of play that led from this world to
    /// `after`: the player stands on the goal cell or touched a sprite.
    pub open spec fn play_event(&self, after: &World) -> GameEvent {
        weightier(
            goal_event(after.player, self.goal_column as int, self.goal_row as int),
            sprites_event(self.sprites@, after.player, self.sprites@.len() as int),
        )
    }

    /// What a frame does in the phase `Init`: nothing but to leave it.
    pub open spec fn idle_step(&self, after: &World, before: Seq<u8>, painted: Seq<u8>) -> bool {
        &&& self.same_level(after)
        &&& after.depth == self.depth
        &&& painted == before
    }

    /// What a frame does while a picture is shown: the picture is painted
    /// at the fade of this frame, and the level is put back as it was
    /// authored if play begins next.
    pub open spec fn screen_step(&self, after: &World, which: Screen, dt: int, painted: Seq<u8>)
        -> bool {
        &&& painted == screen_frame(
            image_of(&self.assets, which),
            ramped(self.state.fade as int, dt),
        )
        &&& after.depth == self.depth
        &&& if after.state.phase == Phase::Playing {
            after.level_restored()
        } else {
            self.same_level(after)
        }
    }

    /// What a frame does while playing: a door may open, the player moves
    /// on the map with that door, the view is painted from where the player
    /// then stands, and every sprite is touched, stepped and painted in
    /// turn.
    pub open spec fn play_step(
        &self,
        after: &World,
        keys: Keyboard,
        dt: int,
        before: Seq<u8>,
        painted: Seq<u8>,
    ) -> bool {
        &&& after.map.wall_tiles@ == self.walls_after_interact(keys)
        &&& after.player.x == self.player.x_after_keys(keys, &after.map, &self.trig, dt)
        &&& after.player.y == self.player.y_after_keys(keys, &after.map, &self.trig, dt)
        &&& after.player.angle == turned_by_keys(
            self.player.angle as int,
            keys.left,
            keys.right,
            dt,
        )
        &&& forall|c: int|
            0 <= c < SCREEN_WIDTH ==> #[trigger] after.depth@[c] == column_hit(
                &after.map,
                &self.trig,
                after.player,
                c,
            ).distance
        &&& forall|i: int|
            0 <= i < self.sprites@.len() ==> sprite_stepped(
                self.sprites@[i],
                #[trigger] after.sprites@[i],
                after.player,
                &after.map,
                dt,
            )
        &&& painted == with_sprites(
            with_rays(
                with_sky(before, self.assets.sky@, after.player.angle as int),
                &after.map,
                &self.trig,
                &self.assets.textures,
                after.player,
            ),
            &self.trig,
            &self.assets.sprites,
            after.player,
            after.sprites@,
            after.depth@,
            after.sprites@.len() as int,
        )
    }

    /// Builds the world of a level: the map, the player, the sprites, the
    /// number of the sprite that serves as the key, and the goal cell. The
    /// game starts in the phase `Init`.
    pub fn new(
        map: TileMap,
        player: Player,
        sprites: Vec<Sprite>,
        key: usize,
        goal_column: i64,
        goal_row: i64,
        trig: TrigTable,
        assets: Assets,
    ) -> (r: Result<World, WorldError>)
        requires
            map.wf(),
            trig.wf(),
            assets.wf(),
        ensures
            match world_verdict(&map, player, sprites@, key as int, &assets) {
                Some(e) => r == Err::<World, WorldError>(e),
                None => r matches Ok(w) && w.wf() && w.level_restored() && w.map == map
                    && w.player == player && w.sprites@ == sprites@ && w.key == key
                    && w.goal_column == goal_column && w.goal_row == goal_row && w.trig == trig
                    && w.assets == assets && w.state == entering(Phase::Init),
            },
    {
        if !map.check_textures(assets.textures.tile_count()) {
            return Err(WorldError::MissingTexture);
        }
        if !player.in_world() || !all_in_world(&sprites) {
            return Err(WorldError::OutOfWorld);
        }
        if !all_textured(&sprites, assets.sprites.tile_count()) {
            return Err(WorldError::MissingSpriteTexture);
        }
        if key >= sprites.len() {
            return Err(WorldError::MissingKey);
        }
        let authored_walls: Vec<u32> = copied(&map.wall_tiles);
        let authored_sprites: Vec<Sprite> = copied(&sprites);
        Ok(
            World {
                trig,
                assets,
                authored_walls,
                start: player,
                authored_sprites,
                key,
                goal_column,
                goal_row,
                map,
                player,
                sprites,
                depth: [0;120],
                state: GameState::new(),
            },
        )
    }

    /// Puts the level back as it was authored.
    fn restore_level(&mut self)
        requires
            old(self).wf(),
        ensures
            final(self).wf(),
            old(self).same_setup(final(self)),
            final(self).level_restored(),
            final(self).depth == old(self).depth,
            final(self).state == old(self).state,
    {
        self.map.wall_tiles = copied(&self.authored_walls);
        self.player = self.start;
        self.sprites = copied(&self.authored_sprites);
    }

    /// Touches, steps and paints every sprite, and reports the most
    /// decisive of their events.
    fn draw_sprites(&mut self, dt: u32, frame: &mut [u8]) -> (event: GameEvent)
        requires
            old(self).wf(),
            old(frame)@.len() == FRAME_BYTES,
        ensures
            final(self).wf(),
            old(self).same_setup(final(self)),
            final(self).map == old(self).map,
            final(self).player == old(self).player,
            final(self).depth == old(self).depth,
            final(self).state == old(self).state,
            event == sprites_event(
                old(self).sprites@,
                old(self).player,
                old(self).sprites@.len() as int,
            ),
            forall|i: int|
                0 <= i < old(self).sprites@.len() ==> sprite_stepped(
                    old(self).sprites@[i],
                    #[trigger] final(self).sprites@[i],
                    old(self).player,
                    &old(self).map,
                    dt as int,
                ),
            final(frame)@ == with_sprites(
                old(frame)@,
                &old(self).trig,
                &old(self).assets.sprites,
                old(self).player,
                final(self).sprites@,
                old(self).depth@,
                final(self).sprites@.len() as int,
            ),
    {
        let mut event: GameEvent = GameEvent::Nothing;
        let count: usize = self.sprites.len();
        let mut i: usize = 0;
        while i < count
            invariant
                self.wf(),
                old(self).same_setup(self),
                self.map == old(self).map,
                self.player == old(self).player,
                self.depth == old(self).depth,
                self.state == old(self).state,
                count == old(self).sprites@.len(),
                0 <= i <= count,
                frame@.len() == FRAME_BYTES,
                event == sprites_event(old(self).sprites@, old(self).player, i as int),
                forall|k: int| i <= k < count ==> self.sprites@[k] == old(self).sprites@[k],
                forall|k: int|
                    0 <= k < i ==> sprite_stepped(
                        old(self).sprites@[k],
                        #[trigger] self.sprites@[k],
                        old(self).player,
                        &old(self).map,
                        dt as int,
                    ),
                frame@ == with_sprites(
                    old(frame)@,
                    &old(self).trig,
                    &old(self).assets.sprites,
                    old(self).player,
                    self.sprites@,
                    old(self).depth@,
                    i as int,
                ),
            decreases count - i,
        {
            let ghost sprites_before = self.sprites@;
            let mut sprite: Sprite = self.sprites[i];
            let e: GameEvent = draw_sprite(
                &mut sprite,
                &self.player,
                &self.depth,
                dt,
                &self.map,
                &self.trig,
                &self.assets.sprites,
                frame,
            );
            self.sprites[i] = sprite;
            event = combine(event, e);
            proof {
                lemma_with_sprites_prefix(
                    old(frame)@,
                    &old(self).trig,
                    &old(self).assets.sprites,
                    old(self).player,
                    sprites_before,
                    self.sprites@,
                    old(self).depth@,
                    i as int,
                );
            }
            i = i + 1;
        }
        event
    }

    /// Plays one frame: serves the wish to interact, moves the player,
    /// paints the view and the sprites, and reports what happened.
    fn play(&mut self, keys: &Keyboard, dt: u32, frame: &mut [u8]) -> (event: GameEvent)
        requires
            old(self).wf(),
            old(frame)@.len() == FRAME_BYTES,
        ensures
            final(self).wf(),
            old(self).same_setup(final(self)),
            final(self).state == old(self).state,
            final(frame)@.len() == FRAME_BYTES,
            event == old(self).play_event(final(self)),
            old(self).play_step(final(self), *keys, dt as int, old(frame)@, final(frame)@),
    {
        if keys.interact {
            let key: Sprite = self.sprites[self.key];
            door_open(&self.player, &mut self.map, &key, &self.trig);
        }
        keyboard_input(keys, &mut self.player, dt, &self.map, &self.trig);
        draw_sky(&self.player, &self.assets.sky, frame);
        draw_rays(
            &self.player,
            &self.map,
            &self.trig,
            &self.assets.textures,
            frame,
            &mut self.depth,
        );
        let on_goal: bool = tile_index(self.player.x) == self.goal_column && tile_index(
            self.player.y,
        ) == self.goal_row;
        let reached: GameEvent = if on_goal {
            GameEvent::Win
        } else {
            GameEvent::Nothing
        };
        let touched: GameEvent = self.draw_sprites(dt, frame);
        combine(reached, touched)
    }

    /// Advances the world by one frame of `dt` milliseconds and paints it.
    pub fn tick(&mut self, keys: &Keyboard, dt: u32, frame: &mut [u8])
        requires
            old(self).wf(),
            old(frame)@.len() == FRAME_BYTES,
        ensures
            final(self).wf(),
            old(self).same_setup(final(self)),
            final(frame)@.len() == FRAME_BYTES,
            final(self).state == next_state(
                old(self).state,
                dt as int,
                old(self).play_event(final(self)),
            ),
            match old(self).state.phase {
                Phase::Init => old(self).idle_step(final(self), old(frame)@, final(frame)@),
                Phase::Title => old(self).screen_step(
                    final(self),
                    Screen::Title,
                    dt as int,
                    final(frame)@,
                ),
                Phase::Won => old(self).screen_step(
                    final(self),
                    Screen::Won,
                    dt as int,
                    final(frame)@,
                ),
                Phase::Lost => old(self).screen_step(
                    final(self),
                    Screen::Lost,
                    dt as int,
                    final(frame)@,
                ),
                Phase::Playing => old(self).play_step(
                    final(self),
                    *keys,
                    dt as int,
                    old(frame)@,
                    final(frame)@,
                ),
            },
    {
        match self.state.phase {
            Phase::Init => {
                self.state = self.state.advance(dt, GameEvent::Nothing);
            },
            Phase::Title => {
                screen(Screen::Title, self.state.fade_after(dt), &self.assets, frame);
                let next: GameState = self.state.advance(dt, GameEvent::Nothing);
                match next.phase {
                    Phase::Playing => {
                        self.restore_level();
                    },
                    _ => {},
                }
                self.state = next;
            },
            Phase::Won => {
                screen(Screen::Won, self.state.fade_after(dt), &self.assets, frame);
                self.state = self.state.advance(dt, GameEvent::Nothing);
            },
            Phase::Lost => {
                screen(Screen::Lost, self.state.fade_after(dt), &self.assets, frame);
                self.state = self.state.advance(dt, GameEvent::Nothing);
            },
            Phase::Playing => {
                let event: GameEvent = self.play(keys, dt, frame);
                self.state = self.state.advance(dt, event);
            },
        }
    }
}

} // verus!
