//! Texture atlases and the images that the engine reads its colours from.
//!
//! An atlas is a flat array of RGB bytes cut into square tiles of 32 by 32
//! texels. Texel `(u, v)` of tile `t` starts at byte
//! `(t * 1024 + v * 32 + u) * 3`.

use crate::frame::Rgb;
use vstd::prelude::*;

verus! {

/// Texels along one edge of a texture tile.
pub const TEXTURE_EDGE: usize = 32;

/// Texels in one texture tile.
pub const TEXTURE_TEXELS: usize = 1024;

/// Bytes in one texture tile.
pub const TEXTURE_BYTES: usize = 3072;

/// Bytes in the sky panorama: 120 by 40 texels.
pub const SKY_BYTES: usize = 14400;

/// Bytes in a full-screen image: 120 by 80 texels.
pub const IMAGE_BYTES: usize = 28800;

/// The number that stands for a fade of one: a fade counts in 1/2000.
pub const FADE_ONE: u32 = 2000;

/// The colour that marks a transparent texel of a sprite.
pub open spec fn chroma_key() -> Rgb {
    Rgb { red: 255, green: 0, blue: 255 }
}

/// The colour at texel `n` of a flat array of RGB bytes.
pub open spec fn rgb_at(bytes: Seq<u8>, n: int) -> Rgb {
    Rgb { red: bytes[n * 3], green: bytes[n * 3 + 1], blue: bytes[n * 3 + 2] }
}

/// The colour `c` at half its brightness.
pub open spec fn halved(c: Rgb) -> Rgb {
    Rgb { red: c.red / 2, green: c.green / 2, blue: c.blue / 2 }
}

/// The colour `c` at seven tenths of its brightness.
pub open spec fn dimmed(c: Rgb) -> Rgb {
    Rgb {
        red: ((c.red * 7) / 10) as u8,
        green: ((c.green * 7) / 10) as u8,
        blue: ((c.blue * 7) / 10) as u8,
    }
}

/// The colour `c` at `fade / FADE_ONE` of its brightness.
pub open spec fn faded(c: Rgb, fade: int) -> Rgb {
    Rgb {
        red: ((c.red * fade) / 2000) as u8,
        green: ((c.green * fade) / 2000) as u8,
        blue: ((c.blue * fade) / 2000) as u8,
    }
}

/// Reads the colour at texel `n` of a flat array of RGB bytes.
pub fn read_rgb(bytes: &Vec<u8>, n: usize) -> (c: Rgb)
    requires
        n * 3 + 2 < bytes@.len(),
    ensures
        c == rgb_at(bytes@, n as int),
{
    let len: usize = bytes.len();
    let base: usize = n * 3;
    Rgb { red: bytes[base], green: bytes[base + 1], blue: bytes[base + 2] }
}

/// Halves the brightness of a colour.
pub fn halve(c: Rgb) -> (r: Rgb)
    ensures
        r == halved(c),
{
    Rgb { red: c.red / 2, green: c.green / 2, blue: c.blue / 2 }
}

/// Scales one colour channel by `num / den`, rounding down.
fn scale_channel(v: u8, num: u32, den: u32) -> (r: u8)
    requires
        num <= den,
        0 < den <= 2000,
    ensures
        r == (v * num) / (den as int),
{
    assert(v * num <= 255 * 2000) by (nonlinear_arith)
        requires
            0 <= v <= 255,
            0 <= num <= 2000,
    ;
    let wide: u32 = (v as u32 * num) / den;
    assert((v * num) / (den as int) <= v) by (nonlinear_arith)
        requires
            0 <= v,
            0 <= num <= den,
            0 < den,
    ;
    wide as u8
}

/// Dims a colour to seven tenths of its brightness.
pub fn dim(c: Rgb) -> (r: Rgb)
    ensures
        r == dimmed(c),
{
    Rgb {
        red: scale_channel(c.red, 7, 10),
        green: scale_channel(c.green, 7, 10),
        blue: scale_channel(c.blue, 7, 10),
    }
}

/// Scales a colour by the fade `fade / FADE_ONE`.
pub fn fade_rgb(c: Rgb, fade: u32) -> (r: Rgb)
    requires
        fade <= FADE_ONE,
    ensures
        r == faded(c, fade as int),
{
    Rgb {
        red: scale_channel(c.red, fade, FADE_ONE),
        green: scale_channel(c.green, fade, FADE_ONE),
        blue: scale_channel(c.blue, fade, FADE_ONE),
    }
}

/// A flat array of RGB bytes cut into tiles of 32 by 32 texels.
#[derive(Debug)]
pub struct Atlas {
    pub texels: Vec<u8>,
}

impl Atlas {
    /// The array holds a whole number of tiles.
    pub open spec fn wf(&self) -> bool {
        self.texels@.len() % 3072 == 0
    }

    /// Number of tiles in the atlas.
    pub open spec fn tiles(&self) -> int {
        (self.texels@.len() / 3072) as int
    }

    /// The colour of texel `(u, v)` of tile `tile`.
    pub open spec fn texel(&self, tile: int, u: int, v: int) -> Rgb {
        rgb_at(self.texels@, tile * 1024 + v * 32 + u)
    }

    /// Takes the bytes of an atlas; they are accepted exactly when they
    /// make up a whole number of tiles.
    pub fn new(texels: Vec<u8>) -> (r: Option<Atlas>)
        ensures
            r is Some <==> texels@.len() % 3072 == 0,
            r matches Some(a) ==> a.texels@ == texels@ && a.wf(),
    {
        if texels.len() % TEXTURE_BYTES == 0 {
            Some(Atlas { texels })
        } else {
            None
        }
    }

    /// Number of tiles in the atlas.
    pub fn tile_count(&self) -> (n: usize)
        ensures
            n == self.tiles(),
    {
        self.texels.len() / TEXTURE_BYTES
    }

    /// Reads the colour of texel `(u, v)` of tile `tile`.
    pub fn sample(&self, tile: usize, u: usize, v: usize) -> (c: Rgb)
        requires
            self.wf(),
            tile < self.tiles(),
            u < TEXTURE_EDGE,
            v < TEXTURE_EDGE,
        ensures
            c == self.texel(tile as int, u as int, v as int),
    {
        let len: usize = self.texels.len();
        read_rgb(&self.texels, tile * TEXTURE_TEXELS + v * TEXTURE_EDGE + u)
    }
}

/// Everything the engine reads colours from.
#[derive(Debug)]
pub struct Assets {
    /// Textures of walls, floors and ceilings.
    pub textures: Atlas,
    /// Textures of sprites; texels of the chroma key are transparent.
    pub sprites: Atlas,
    /// The sky panorama, 120 by 40 texels.
    pub sky: Vec<u8>,
    /// The title image, 120 by 80 texels.
    pub title: Vec<u8>,
    /// The image shown after the game was won, 120 by 80 texels.
    pub won: Vec<u8>,
    /// The image shown after the game was lost, 120 by 80 texels.
    pub lost: Vec<u8>,
}

/// Why a set of assets was turned down.
#[derive(Debug, Clone, Copy, PartialEq, Eq, Structural)]
pub enum AssetError {
    /// The texture atlas does not hold a whole number of tiles.
    RaggedTextures,
    /// The sprite atlas does not hold a whole number of tiles.
    RaggedSprites,
    /// The sky panorama does not hold `SKY_BYTES` bytes.
    SkySize,
    /// A full-screen image does not hold `IMAGE_BYTES` bytes.
    ImageSize,
}

/// The verdict on the sizes handed to `Assets::new`.
pub open spec fn asset_verdict(
    textures: int,
    sprites: int,
    sky: int,
    title: int,
    won: int,
    lost: int,
) -> Option<AssetError> {
    if textures % 3072 != 0 {
        Some(AssetError::RaggedTextures)
    } else if sprites % 3072 != 0 {
        Some(AssetError::RaggedSprites)
    } else if sky != SKY_BYTES {
        Some(AssetError::SkySize)
    } else if title != IMAGE_BYTES || won != IMAGE_BYTES || lost != IMAGE_BYTES {
        Some(AssetError::ImageSize)
    } else {
        None
    }
}

impl Assets {
    /// Both atlases hold whole tiles and every image has its size.
    pub open spec fn wf(&self) -> bool {
        &&& self.textures.wf()
        &&& self.sprites.wf()
        &&& self.sky@.len() == SKY_BYTES
        &&& self.title@.len() == IMAGE_BYTES
        &&& self.won@.len() == IMAGE_BYTES
        &&& self.lost@.len() == IMAGE_BYTES
    }

    /// Takes the decoded texel arrays of a game.
    pub fn new(
        textures: Vec<u8>,
        sprites: Vec<u8>,
        sky: Vec<u8>,
        title: Vec<u8>,
        won: Vec<u8>,
        lost: Vec<u8>,
    ) -> (r: Result<Assets, AssetError>)
        ensures
            match asset_verdict(
                textures@.len() as int,
                sprites@.len() as int,
                sky@.len() as int,
                title@.len() as int,
                won@.len() as int,
                lost@.len() as int,
            ) {
                Some(e) => r == Err::<Assets, AssetError>(e),
                None => r matches Ok(a) && a.wf() && a.textures.texels@ == textures@
                    && a.sprites.texels@ == sprites@ && a.sky@ == sky@ && a.title@ == title@
                    && a.won@ == won@ && a.lost@ == lost@,
            },
    {
        if textures.len() % TEXTURE_BYTES != 0 {
            return Err(AssetError::RaggedTextures);
        }
        if sprites.len() % TEXTURE_BYTES != 0 {
            return Err(AssetError::RaggedSprites);
        }
        if sky.len() != SKY_BYTES {
            return Err(AssetError::SkySize);
        }
        if title.len() != IMAGE_BYTES || won.len() != IMAGE_BYTES || lost.len() != IMAGE_BYTES {
            return Err(AssetError::ImageSize);
        }
        Ok(
            Assets {
                textures: Atlas { texels: textures },
                sprites: Atlas { texels: sprites },
                sky,
                title,
                won,
                lost,
            },
        )
    }
}

} // verus!
