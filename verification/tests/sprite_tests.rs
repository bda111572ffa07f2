use raycaster::fixed::WORLD_LIMIT;
use raycaster::frame::FRAME_BYTES;
use raycaster::map::TileMap;
use raycaster::player::Player;
use raycaster::sprite::draw_sprite;
use raycaster::sprite::paint_sprite;
use raycaster::sprite::project;
use raycaster::sprite::Billboard;
use raycaster::sprite::GameEvent;
use raycaster::sprite::Sprite;
use raycaster::sprite::SpriteKind;
use raycaster::sprite::SpriteState;
use raycaster::sprite::MAX_SCALE;
use raycaster::texture::Atlas;
use raycaster::trig::TrigTable;

const EMPTY: u8 = 9;
const HOME: i64 = 76800;

fn sine_table() -> TrigTable {
    let mut quarter = Vec::new();
    for i in 0..=900 {
        let degrees = i as f64 / 10.0;
        quarter.push((degrees.to_radians().sin() * 65536.0).round() as i32);
    }
    TrigTable::new(quarter).unwrap()
}

fn room() -> TileMap {
    let mut walls = vec![0; 64];
    for y in 0..8 {
        for x in 0..8 {
            if x == 0 || x == 7 || y == 0 || y == 7 {
                walls[y * 8 + x] = 1;
            }
        }
    }
    TileMap::new(8, 8, walls, vec![0; 64], vec![0; 64]).unwrap()
}

fn sprite_sheet(tiles: usize) -> Atlas {
    let mut texels = Vec::new();
    for t in 0..tiles {
        for v in 0..32 {
            for u in 0..32 {
                texels.push((t * 40 + 10) as u8);
                texels.push((u * 8) as u8);
                texels.push((v * 8) as u8);
            }
        }
    }
    Atlas::new(texels).unwrap()
}

fn actor(kind: SpriteKind, x: i64, y: i64) -> Sprite {
    Sprite { kind, state: SpriteState::Visible, texture_id: 1, x, y, z: 0 }
}

fn viewer(angle: i64) -> Player {
    Player { x: HOME, y: HOME, angle }
}

fn empty_frame() -> Vec<u8> {
    vec![EMPTY; FRAME_BYTES]
}

fn colour_at(frame: &[u8], x: usize, y: usize) -> (u8, u8, u8, u8) {
    let o = (y * 120 + x) * 4;
    (frame[o], frame[o + 1], frame[o + 2], frame[o + 3])
}

fn is_empty(frame: &[u8], x: usize, y: usize) -> bool {
    colour_at(frame, x, y) == (EMPTY, EMPTY, EMPTY, EMPTY)
}

fn painted_pixels(frame: &[u8]) -> usize {
    let mut count = 0;
    for y in 0..80 {
        for x in 0..120 {
            if !is_empty(frame, x, y) {
                count += 1;
            }
        }
    }
    count
}

#[test]
fn sprite_straight_ahead_is_centred() {
    let trig = sine_table();
    let b = project(&trig, &viewer(900), &actor(SpriteKind::Scenery, HOME, HOME + 32768));
    assert_eq!(b, Billboard { forward: 32768, scale: 5120, left: 50, right: 70, base_row: 40 });
    let mut ahead = actor(SpriteKind::Scenery, HOME + 32768, HOME);
    ahead.z = 256;
    let b = project(&trig, &viewer(0), &ahead);
    assert_eq!(b, Billboard { forward: 32768, scale: 5120, left: 50, right: 70, base_row: 40 });
}

#[test]
fn sprite_to_the_side_and_lifted() {
    let trig = sine_table();
    let b = project(&trig, &viewer(900), &actor(SpriteKind::Scenery, HOME + 8192, HOME + 32768));
    assert_eq!(b, Billboard { forward: 32768, scale: 5120, left: 23, right: 43, base_row: 40 });
    let mut lifted = actor(SpriteKind::Scenery, HOME, HOME + 32768);
    lifted.z = 5120;
    let b = project(&trig, &viewer(900), &lifted);
    assert_eq!(b, Billboard { forward: 32768, scale: 5120, left: 50, right: 70, base_row: 56 });
    let mut low = actor(SpriteKind::Scenery, HOME - 50000, HOME + 20000);
    low.z = -3000;
    let b = project(&trig, &viewer(1800), &low);
    assert_eq!(b, Billboard { forward: 50000, scale: 3355, left: 10, right: 23, base_row: 33 });
    let b = project(&trig, &viewer(450), &actor(SpriteKind::Scenery, HOME + 20000, HOME + 20000));
    assert_eq!(b, Billboard { forward: 28284, scale: 5931, left: 48, right: 71, base_row: 40 });
}

#[test]
fn sprite_behind_the_viewer_has_no_size() {
    let trig = sine_table();
    let b = project(&trig, &viewer(0), &actor(SpriteKind::Scenery, HOME - 100, HOME));
    assert_eq!(b, Billboard { forward: -100, scale: 0, left: 0, right: 0, base_row: 0 });
    let b = project(&trig, &viewer(0), &actor(SpriteKind::Scenery, HOME, HOME));
    assert_eq!(b, Billboard { forward: 0, scale: 0, left: 0, right: 0, base_row: 0 });
    let b = project(&trig, &viewer(900), &actor(SpriteKind::Scenery, HOME + 5000, HOME));
    assert_eq!(b.scale, 0);
}

#[test]
fn scale_never_exceeds_the_screen() {
    let trig = sine_table();
    let b = project(&trig, &viewer(0), &actor(SpriteKind::Scenery, HOME + 1, HOME));
    assert_eq!(b, Billboard { forward: 1, scale: 30720, left: 0, right: 120, base_row: 40 });
    let b = project(&trig, &viewer(0), &actor(SpriteKind::Scenery, HOME + 1000, HOME));
    assert_eq!(b.scale, MAX_SCALE);
    let b = project(&trig, &viewer(900), &actor(SpriteKind::Scenery, HOME - 40000, HOME + 5461));
    assert_eq!(b, Billboard { forward: 5461, scale: 30720, left: 791, right: 911, base_row: 40 });
    for angle in [0i64, 300, 900, 1234, 1800, 2700, 3599] {
        for (dx, dy) in [(1i64, 0i64), (0, 1), (-1, -1), (5, 3), (100_000, -7), (-3, 100_000)] {
            let b = project(&trig, &viewer(angle), &actor(SpriteKind::Scenery, HOME + dx, HOME + dy));
            assert!(0 <= b.scale && b.scale <= MAX_SCALE);
            assert!(b.scale / 256 <= 120);
        }
    }
    let far = Sprite {
        kind: SpriteKind::Scenery,
        state: SpriteState::Visible,
        texture_id: 0,
        x: WORLD_LIMIT,
        y: -WORLD_LIMIT,
        z: WORLD_LIMIT,
    };
    let corner = Player { x: -WORLD_LIMIT, y: WORLD_LIMIT, angle: 3150 };
    let b = project(&trig, &corner, &far);
    assert!(b.forward > 0);
    assert_eq!(b.scale, 0);
}

#[test]
fn sprite_is_painted_upwards_from_its_base() {
    let trig = sine_table();
    let sheet = sprite_sheet(3);
    let sprite = actor(SpriteKind::Scenery, HOME, HOME + 32768);
    let depth = [40000i64; 120];
    let mut frame = empty_frame();
    paint_sprite(&sprite, &viewer(900), &depth, &trig, &sheet, &mut frame);
    assert_eq!(painted_pixels(&frame), 400);
    assert!(is_empty(&frame, 49, 30));
    assert!(is_empty(&frame, 70, 30));
    assert!(is_empty(&frame, 60, 20));
    assert!(is_empty(&frame, 60, 41));
    assert_eq!(colour_at(&frame, 50, 21), (50, 0, 0, 255));
    assert_eq!(colour_at(&frame, 50, 30), (50, 0, 120, 255));
    assert_eq!(colour_at(&frame, 50, 40), (50, 0, 248, 255));
    assert_eq!(colour_at(&frame, 59, 21), (50, 112, 0, 255));
    assert_eq!(colour_at(&frame, 60, 30), (50, 120, 120, 255));
    assert_eq!(colour_at(&frame, 69, 40), (50, 232, 248, 255));
}

#[test]
fn sprite_behind_a_wall_is_not_painted() {
    let trig = sine_table();
    let sheet = sprite_sheet(3);
    let sprite = actor(SpriteKind::Scenery, HOME, HOME + 32768);
    let mut frame = empty_frame();
    paint_sprite(&sprite, &viewer(900), &[32768i64; 120], &trig, &sheet, &mut frame);
    assert_eq!(painted_pixels(&frame), 0);
    let mut frame = empty_frame();
    paint_sprite(&sprite, &viewer(900), &[32767i64; 120], &trig, &sheet, &mut frame);
    assert_eq!(painted_pixels(&frame), 0);
    let mut frame = empty_frame();
    paint_sprite(&sprite, &viewer(900), &[32769i64; 120], &trig, &sheet, &mut frame);
    assert_eq!(painted_pixels(&frame), 400);
}

#[test]
fn sprite_is_hidden_column_by_column() {
    let trig = sine_table();
    let sheet = sprite_sheet(3);
    let sprite = actor(SpriteKind::Scenery, HOME, HOME + 32768);
    let mut depth = [40000i64; 120];
    for column in 55..65 {
        depth[column] = 20000;
    }
    depth[50] = 32768;
    let mut frame = empty_frame();
    paint_sprite(&sprite, &viewer(900), &depth, &trig, &sheet, &mut frame);
    assert_eq!(painted_pixels(&frame), 400 - 11 * 20);
    for row in 0..80 {
        assert!(is_empty(&frame, 50, row));
        for column in 55..65 {
            assert!(is_empty(&frame, column, row));
        }
    }
    assert_eq!(colour_at(&frame, 54, 30), (50, 48, 120, 255));
    assert_eq!(colour_at(&frame, 65, 30), (50, 184, 120, 255));
}

#[test]
fn hidden_sprite_is_not_painted() {
    let trig = sine_table();
    let sheet = sprite_sheet(3);
    let mut sprite = actor(SpriteKind::Scenery, HOME, HOME + 32768);
    sprite.state = SpriteState::Hidden;
    let mut frame = empty_frame();
    paint_sprite(&sprite, &viewer(900), &[40000i64; 120], &trig, &sheet, &mut frame);
    assert_eq!(painted_pixels(&frame), 0);
}

#[test]
fn sprite_behind_the_viewer_is_not_painted() {
    let trig = sine_table();
    let sheet = sprite_sheet(3);
    let sprite = actor(SpriteKind::Scenery, HOME, HOME - 32768);
    let mut frame = empty_frame();
    paint_sprite(&sprite, &viewer(900), &[i64::MAX; 120], &trig, &sheet, &mut frame);
    assert_eq!(painted_pixels(&frame), 0);
    let here = actor(SpriteKind::Scenery, HOME, HOME);
    paint_sprite(&here, &viewer(900), &[i64::MAX; 120], &trig, &sheet, &mut frame);
    assert_eq!(painted_pixels(&frame), 0);
}

#[test]
fn texels_of_the_chroma_key_are_left_out() {
    let trig = sine_table();
    let mut texels = vec![0u8; 3072 * 2];
    for n in 0..1024 {
        let o = (1024 + n) * 3;
        let u = n % 32;
        if u < 16 {
            texels[o] = 255;
            texels[o + 1] = 0;
            texels[o + 2] = 255;
        } else {
            texels[o] = 255;
            texels[o + 1] = 1;
            texels[o + 2] = 255;
        }
    }
    let sheet = Atlas::new(texels).unwrap();
    let sprite = actor(SpriteKind::Scenery, HOME, HOME + 32768);
    let mut frame = empty_frame();
    paint_sprite(&sprite, &viewer(900), &[40000i64; 120], &trig, &sheet, &mut frame);
    assert_eq!(painted_pixels(&frame), 180);
    assert!(is_empty(&frame, 50, 30));
    assert!(is_empty(&frame, 60, 30));
    assert_eq!(colour_at(&frame, 61, 30), (255, 1, 255, 255));
    assert_eq!(colour_at(&frame, 69, 30), (255, 1, 255, 255));
}

#[test]
fn sprite_is_clipped_at_the_screen() {
    let trig = sine_table();
    let sheet = sprite_sheet(3);
    let close = actor(SpriteKind::Scenery, HOME, HOME + 1000);
    let mut frame = empty_frame();
    paint_sprite(&close, &viewer(900), &[i64::MAX; 120], &trig, &sheet, &mut frame);
    for x in 0..120 {
        assert!(is_empty(&frame, x, 0));
        assert!(!is_empty(&frame, x, 1));
        assert!(!is_empty(&frame, x, 40));
        assert!(is_empty(&frame, x, 41));
    }
    assert_eq!(painted_pixels(&frame), 120 * 40);
    let mut high = actor(SpriteKind::Scenery, HOME, HOME + 32768);
    high.z = -20000;
    let mut frame = empty_frame();
    paint_sprite(&high, &viewer(900), &[i64::MAX; 120], &trig, &sheet, &mut frame);
    assert_eq!(painted_pixels(&frame), 0);
    let mut low = actor(SpriteKind::Scenery, HOME, HOME + 32768);
    low.z = 20000;
    let mut frame = empty_frame();
    paint_sprite(&low, &viewer(900), &[i64::MAX; 120], &trig, &sheet, &mut frame);
    assert_eq!(painted_pixels(&frame), 0);
    let aside = actor(SpriteKind::Scenery, HOME - 40000, HOME + 5461);
    let mut frame = empty_frame();
    paint_sprite(&aside, &viewer(900), &[i64::MAX; 120], &trig, &sheet, &mut frame);
    assert_eq!(painted_pixels(&frame), 0);
}

#[test]
fn touching_is_strictly_within_thirty_units() {
    let player = viewer(0);
    assert!(actor(SpriteKind::Trigger, HOME, HOME).is_touched_by(&player));
    assert!(actor(SpriteKind::Trigger, HOME + 7679, HOME - 7679).is_touched_by(&player));
    assert!(!actor(SpriteKind::Trigger, HOME + 7680, HOME).is_touched_by(&player));
    assert!(!actor(SpriteKind::Trigger, HOME - 7680, HOME).is_touched_by(&player));
    assert!(!actor(SpriteKind::Trigger, HOME, HOME + 7680).is_touched_by(&player));
    assert!(!actor(SpriteKind::Trigger, HOME, HOME - 7680).is_touched_by(&player));
    assert!(!actor(SpriteKind::Trigger, HOME + 7679, HOME + 7680).is_touched_by(&player));
}

#[test]
fn touched_trigger_hides() {
    let map = room();
    let mut key = actor(SpriteKind::Trigger, HOME + 100, HOME - 100);
    let before = key;
    assert_eq!(key.update(&viewer(0), &map, 16), GameEvent::Nothing);
    assert_eq!(key, Sprite { state: SpriteState::Hidden, ..before });
    assert_eq!(key.update(&viewer(0), &map, 16), GameEvent::Nothing);
    assert_eq!(key.state, SpriteState::Hidden);
    let mut away = actor(SpriteKind::Trigger, HOME + 7680, HOME);
    let before = away;
    assert_eq!(away.update(&viewer(0), &map, 16), GameEvent::Nothing);
    assert_eq!(away, before);
}

#[test]
fn touched_goal_wins_and_touching_pursuer_loses() {
    let map = room();
    let mut goal = actor(SpriteKind::Goal, HOME + 100, HOME);
    let before = goal;
    assert_eq!(goal.update(&viewer(0), &map, 16), GameEvent::Win);
    assert_eq!(goal, before);
    let mut far_goal = actor(SpriteKind::Goal, HOME + 8000, HOME);
    assert_eq!(far_goal.update(&viewer(0), &map, 16), GameEvent::Nothing);
    let mut enemy = actor(SpriteKind::Pursuer, HOME + 100, HOME);
    assert_eq!(enemy.update(&viewer(0), &map, 0), GameEvent::Lose);
    assert_eq!(enemy.state, SpriteState::Visible);
    let mut far_enemy = actor(SpriteKind::Pursuer, HOME + 8000, HOME);
    assert_eq!(far_enemy.update(&viewer(0), &map, 0), GameEvent::Nothing);
    let mut tree = actor(SpriteKind::Scenery, HOME, HOME);
    let before = tree;
    assert_eq!(tree.update(&viewer(0), &map, 16), GameEvent::Nothing);
    assert_eq!(tree, before);
}

#[test]
fn pursuer_two_tiles_east_comes_closer() {
    let map = room();
    let player = viewer(0);
    let mut enemy = actor(SpriteKind::Pursuer, HOME + 2 * 16384, HOME);
    let before = enemy;
    let event = enemy.update(&player, &map, 16);
    assert_eq!(event, GameEvent::Nothing);
    assert!(enemy.x < before.x);
    assert!(enemy.x > player.x);
    assert_eq!(enemy.x, before.x - 122);
    assert_eq!(enemy.y, before.y);
    assert_eq!(enemy.z, before.z);
    assert_eq!(enemy.kind, SpriteKind::Pursuer);
    assert_eq!(enemy.state, SpriteState::Visible);
    let mut slow = before;
    slow.update(&player, &map, 1);
    assert_eq!(slow.x, before.x - 7);
}

#[test]
fn pursuer_walks_on_both_axes() {
    let map = room();
    let player = viewer(0);
    let mut enemy = actor(SpriteKind::Pursuer, HOME - 20000, HOME + 20000);
    enemy.update(&player, &map, 100);
    assert_eq!((enemy.x, enemy.y), (HOME - 20000 + 768, HOME + 20000 - 768));
    let mut level = actor(SpriteKind::Pursuer, HOME, HOME + 20000);
    level.update(&player, &map, 100);
    assert_eq!((level.x, level.y), (HOME, HOME + 20000 - 768));
    let mut still = actor(SpriteKind::Pursuer, HOME + 20000, HOME);
    still.update(&player, &map, 0);
    assert_eq!((still.x, still.y), (HOME + 20000, HOME));
}

#[test]
fn only_pursuers_walk() {
    let map = room();
    let player = viewer(0);
    for kind in [SpriteKind::Trigger, SpriteKind::Scenery, SpriteKind::Goal] {
        let mut sprite = actor(kind, HOME + 20000, HOME + 20000);
        sprite.update(&player, &map, 100);
        assert_eq!((sprite.x, sprite.y), (HOME + 20000, HOME + 20000));
    }
}

#[test]
fn pursuer_stops_at_walls() {
    let mut walls = vec![0; 64];
    walls[4 * 8 + 5] = 1;
    walls[5 * 8 + 6] = 2;
    let map = TileMap::new(8, 8, walls, vec![0; 64], vec![0; 64]).unwrap();
    let player = viewer(0);
    let x = 6 * 16384 + 3839;
    let y = 4 * 16384 + 8192;
    let mut blocked = actor(SpriteKind::Pursuer, x, y);
    blocked.update(&player, &map, 100);
    assert_eq!((blocked.x, blocked.y), (x, y + 768));
    let mut free = actor(SpriteKind::Pursuer, x + 1, y);
    free.update(&player, &map, 100);
    assert_eq!((free.x, free.y), (x + 1 - 768, y + 768));
    let above = Player { x: 6 * 16384 + 8192, y: 7 * 16384, angle: 0 };
    let mut walled = actor(SpriteKind::Pursuer, 6 * 16384 + 8192, 4 * 16384 + 12544);
    walled.update(&above, &map, 100);
    assert_eq!(walled.y, 4 * 16384 + 12544);
    let mut nearly = actor(SpriteKind::Pursuer, 6 * 16384 + 8192, 4 * 16384 + 12543);
    nearly.update(&above, &map, 100);
    assert_eq!(nearly.y, 4 * 16384 + 12543 + 768);
}

#[test]
fn pursuer_stays_in_the_world() {
    let map = room();
    let player = Player { x: WORLD_LIMIT, y: -WORLD_LIMIT, angle: 0 };
    let mut enemy = actor(SpriteKind::Pursuer, WORLD_LIMIT - 5, -WORLD_LIMIT + 5);
    enemy.update(&player, &map, u32::MAX);
    assert_eq!((enemy.x, enemy.y), (WORLD_LIMIT, -WORLD_LIMIT));
    assert!(enemy.in_world());
    let outside = Sprite { x: WORLD_LIMIT + 1, ..enemy };
    assert!(!outside.in_world());
    let deep = Sprite { z: -WORLD_LIMIT - 1, ..enemy };
    assert!(!deep.in_world());
}

#[test]
fn draw_sprite_steps_and_then_paints() {
    let map = room();
    let trig = sine_table();
    let sheet = sprite_sheet(3);
    let player = viewer(900);
    let mut enemy = actor(SpriteKind::Pursuer, HOME, HOME + 32768 + 768);
    let mut frame = empty_frame();
    let event = draw_sprite(
        &mut enemy,
        &player,
        &[40000i64; 120],
        100,
        &map,
        &trig,
        &sheet,
        &mut frame,
    );
    assert_eq!(event, GameEvent::Nothing);
    assert_eq!((enemy.x, enemy.y), (HOME, HOME + 32768));
    let mut expected = empty_frame();
    paint_sprite(&enemy, &player, &[40000i64; 120], &trig, &sheet, &mut expected);
    assert_eq!(frame, expected);
    assert_eq!(painted_pixels(&frame), 400);
}

#[test]
fn draw_sprite_reports_the_touch() {
    let map = room();
    let trig = sine_table();
    let sheet = sprite_sheet(3);
    let player = viewer(900);
    let mut frame = empty_frame();
    let mut enemy = actor(SpriteKind::Pursuer, HOME, HOME + 5000);
    let event =
        draw_sprite(&mut enemy, &player, &[0i64; 120], 10, &map, &trig, &sheet, &mut frame);
    assert_eq!(event, GameEvent::Lose);
    assert_eq!(painted_pixels(&frame), 0);
    let mut key = actor(SpriteKind::Trigger, HOME, HOME + 5000);
    let event = draw_sprite(
        &mut key,
        &player,
        &[i64::MAX; 120],
        10,
        &map,
        &trig,
        &sheet,
        &mut frame,
    );
    assert_eq!(event, GameEvent::Nothing);
    assert_eq!(key.state, SpriteState::Hidden);
    assert_eq!(painted_pixels(&frame), 0);
}
