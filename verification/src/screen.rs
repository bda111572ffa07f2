//! Full-screen pictures: the sky behind the walls, and the title and end
//! images that fade in.

use crate::frame::byte_column;
use crate::frame::byte_row;
use crate::frame::channel;
use crate::frame::draw_pixel;
use crate::frame::lemma_with_pixel;
use crate::frame::Rgb;
use crate::frame::FRAME_BYTES;
use crate::frame::HORIZON;
use crate::frame::SCREEN_HEIGHT;
use crate::frame::SCREEN_WIDTH;
use crate::player::Player;
use crate::texture::fade_rgb;
use crate::texture::faded;
use crate::texture::read_rgb;
use crate::texture::rgb_at;
use crate::texture::Assets;
use crate::texture::FADE_ONE;
use crate::texture::IMAGE_BYTES;
use crate::texture::SKY_BYTES;
use vstd::prelude::*;

verus! {

/// The full-screen images of the game.
#[derive(Debug, Clone, Copy, PartialEq, Eq, Structural)]
pub enum Screen {
    /// The title image.
    Title,
    /// The image shown after the game was won.
    Won,
    /// The image shown after the game was lost.
    Lost,
}

/// The bytes of the image that `which` names.
pub open spec fn image_of(assets: &Assets, which: Screen) -> Seq<u8> {
    match which {
        Screen::Title => assets.title@,
        Screen::Won => assets.won@,
        Screen::Lost => assets.lost@,
    }
}

/// Byte `i` of a frame that shows `image` at the given fade.
pub open spec fn screen_byte(image: Seq<u8>, fade: int, i: int) -> u8 {
    channel(faded(rgb_at(image, i / 4), fade), i % 4)
}

/// The frame that shows `image` at the given fade.
pub open spec fn screen_frame(image: Seq<u8>, fade: int) -> Seq<u8> {
    Seq::new(FRAME_BYTES as nat, |i: int| screen_byte(image, fade, i))
}

/// The column of the panorama that shows in screen column `x` for a viewer
/// who faces `angle`: the panorama turns by two columns per degree and
/// wraps around every 120 columns.
pub open spec fn sky_column(angle: int, x: int) -> int {
    (angle / 5 + x) % (SCREEN_WIDTH as int)
}

/// Byte `i` of the frame once the sky is painted over `base`: the rows
/// above the horizon show the panorama, the others stay.
pub open spec fn sky_byte(base: Seq<u8>, sky: Seq<u8>, angle: int, i: int) -> u8 {
    if byte_row(i) < HORIZON {
        channel(
            rgb_at(sky, byte_row(i) * SCREEN_WIDTH + sky_column(angle, byte_column(i))),
            i % 4,
        )
    } else {
        base[i]
    }
}

/// The frame `base` with the sky painted over its upper half.
pub open spec fn with_sky(base: Seq<u8>, sky: Seq<u8>, angle: int) -> Seq<u8> {
    Seq::new(FRAME_BYTES as nat, |i: int| sky_byte(base, sky, angle, i))
}

/// Paints a full-screen image at the given fade over the whole frame.
fn show_image(image: &Vec<u8>, fade: u32, frame: &mut [u8])
    requires
        image@.len() == IMAGE_BYTES,
        fade <= FADE_ONE,
        old(frame)@.len() == FRAME_BYTES,
    ensures
        final(frame)@ == screen_frame(image@, fade as int),
{
    let mut y: usize = 0;
    while y < SCREEN_HEIGHT
        invariant
            image@.len() == IMAGE_BYTES,
            fade <= FADE_ONE,
            0 <= y <= SCREEN_HEIGHT,
            frame@.len() == FRAME_BYTES,
            forall|i: int|
                0 <= i < FRAME_BYTES && byte_row(i) < y ==> #[trigger] frame@[i] == screen_byte(
                    image@,
                    fade as int,
                    i,
                ),
        decreases SCREEN_HEIGHT - y,
    {
        let mut x: usize = 0;
        while x < SCREEN_WIDTH
            invariant
                image@.len() == IMAGE_BYTES,
                fade <= FADE_ONE,
                0 <= y < SCREEN_HEIGHT,
                0 <= x <= SCREEN_WIDTH,
                frame@.len() == FRAME_BYTES,
                forall|i: int|
                    0 <= i < FRAME_BYTES && (byte_row(i) < y || (byte_row(i) == y && byte_column(
                        i,
                    ) < x)) ==> #[trigger] frame@[i] == screen_byte(image@, fade as int, i),
            decreases SCREEN_WIDTH - x,
        {
            let c: Rgb = fade_rgb(read_rgb(image, y * SCREEN_WIDTH + x), fade);
            let ghost before = frame@;
            draw_pixel(c.red, c.green, c.blue, x as i32, y as i32, frame);
            proof {
                assert forall|i: int|
                    0 <= i < FRAME_BYTES && (byte_row(i) < y || (byte_row(i) == y && byte_column(
                        i,
                    ) < x + 1)) implies #[trigger] frame@[i] == screen_byte(
                    image@,
                    fade as int,
                    i,
                ) by {
                    lemma_with_pixel(before, x as int, y as int, c, i);
                }
            }
            x = x + 1;
        }
        y = y + 1;
    }
    assert(frame@ =~= screen_frame(image@, fade as int));
}

/// Paints the full-screen image `which` at the brightness `fade / FADE_ONE`
/// over the whole frame.
pub fn screen(which: Screen, fade: u32, assets: &Assets, frame: &mut [u8])
    requires
        assets.wf(),
        fade <= FADE_ONE,
        old(frame)@.len() == FRAME_BYTES,
    ensures
        final(frame)@ == screen_frame(image_of(assets, which), fade as int),
{
    match which {
        Screen::Title => show_image(&assets.title, fade, frame),
        Screen::Won => show_image(&assets.won, fade, frame),
        Screen::Lost => show_image(&assets.lost, fade, frame),
    }
}

/// Paints the sky over the upper half of the frame, turned to the player's
/// facing angle.
pub fn draw_sky(player: &Player, sky: &Vec<u8>, frame: &mut [u8])
    requires
        player.wf(),
        sky@.len() == SKY_BYTES,
        old(frame)@.len() == FRAME_BYTES,
    ensures
        final(frame)@ == with_sky(old(frame)@, sky@, player.angle as int),
{
    let turn: usize = (player.angle / 5) as usize;
    let mut y: usize = 0;
    while y < HORIZON
        invariant
            player.wf(),
            turn == player.angle / 5,
            sky@.len() == SKY_BYTES,
            0 <= y <= HORIZON,
            frame@.len() == FRAME_BYTES,
            forall|i: int|
                0 <= i < FRAME_BYTES ==> #[trigger] frame@[i] == if byte_row(i) < y {
                    sky_byte(old(frame)@, sky@, player.angle as int, i)
                } else {
                    old(frame)@[i]
                },
        decreases HORIZON - y,
    {
        let mut x: usize = 0;
        while x < SCREEN_WIDTH
            invariant
                player.wf(),
                turn == player.angle / 5,
                sky@.len() == SKY_BYTES,
                0 <= y < HORIZON,
                0 <= x <= SCREEN_WIDTH,
                frame@.len() == FRAME_BYTES,
                forall|i: int|
                    0 <= i < FRAME_BYTES ==> #[trigger] frame@[i] == if byte_row(i) < y || (
                    byte_row(i) == y && byte_column(i) < x) {
                        sky_byte(old(frame)@, sky@, player.angle as int, i)
                    } else {
                        old(frame)@[i]
                    },
            decreases SCREEN_WIDTH - x,
        {
            let source: usize = (turn + x) % SCREEN_WIDTH;
            let c: Rgb = read_rgb(sky, y * SCREEN_WIDTH + source);
            let ghost before = frame@;
            draw_pixel(c.red, c.green, c.blue, x as i32, y as i32, frame);
            proof {
                assert forall|i: int| 0 <= i < FRAME_BYTES implies #[trigger] frame@[i]
                    == if byte_row(i) < y || (byte_row(i) == y && byte_column(i) < x + 1) {
                    sky_byte(old(frame)@, sky@, player.angle as int, i)
                } else {
                    old(frame)@[i]
                } by {
                    lemma_with_pixel(before, x as int, y as int, c, i);
                }
            }
            x = x + 1;
        }
        y = y + 1;
    }
    assert(frame@ =~= with_sky(old(frame)@, sky@, player.angle as int));
}

} // verus!
