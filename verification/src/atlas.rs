//! Texture atlases: pure mappings from grid coordinates to normalized
//! texture regions, stated exactly over rationals.
use vstd::prelude::*;

use crate::geom::Vec2;
use crate::geom::Vec2V;
use crate::rational::rv_div_int;
use crate::rational::Rat;
use crate::rational::RatV;
use crate::rational::RAT_MAX_DEN;

verus! {

/// The mathematical value of a [`Texture`].
pub struct TextureV {
    pub start: Vec2V,
    pub size: Vec2V,
    pub name: Seq<char>,
}

/// A normalized region of a named atlas image: `start` is the top-left
/// corner and `size` the extent, both as fractions of the whole image.
#[derive(Clone, Debug)]
pub struct Texture {
    pub start: Vec2,
    pub size: Vec2,
    pub texture_name: String,
}

impl View for Texture {
    type V = TextureV;

    open spec fn view(&self) -> TextureV {
        TextureV { start: self.start@, size: self.size@, name: self.texture_name@ }
    }
}

impl Texture {
    pub open spec fn wf(&self) -> bool {
        self.start.small() && self.size.small()
    }
}

/// The mathematical value of a [`TextureMap`].
pub struct TextureMapV {
    pub tiles_x: int,
    pub tiles_y: int,
    pub name: Seq<char>,
}

/// A named atlas image divided into a `tiles_x` by `tiles_y` grid of equal
/// tiles.
#[derive(Clone, Debug)]
pub struct TextureMap {
    tiles_x: i32,
    tiles_y: i32,
    texture_name: String,
}

impl View for TextureMap {
    type V = TextureMapV;

    closed spec fn view(&self) -> TextureMapV {
        TextureMapV {
            tiles_x: self.tiles_x as int,
            tiles_y: self.tiles_y as int,
            name: self.texture_name@,
        }
    }
}

impl TextureMap {
    /// The grid has at least one tile on each axis, and few enough that
    /// tile fractions stay exact operands.
    pub open spec fn wf(&self) -> bool {
        &&& 1 <= self@.tiles_x <= RAT_MAX_DEN
        &&& 1 <= self@.tiles_y <= RAT_MAX_DEN
    }

    pub fn new(tiles_x: i32, tiles_y: i32, texture_name: String) -> (r: TextureMap)
        requires
            1 <= tiles_x <= RAT_MAX_DEN,
            1 <= tiles_y <= RAT_MAX_DEN,
        ensures
            r.wf(),
            r@ == (TextureMapV {
                tiles_x: tiles_x as int,
                tiles_y: tiles_y as int,
                name: texture_name@,
            }),
    {
        TextureMap { tiles_x, tiles_y, texture_name }
    }

    /// The region of the tile in column `column` and row `row`: it starts at
    /// `(column / tiles_x, row / tiles_y)` and is one tile large,
    /// `(1 / tiles_x, 1 / tiles_y)`.
    pub fn get_texture(&self, column: i32, row: i32) -> (r: Texture)
        requires
            self.wf(),
        ensures
            r@.start.x == (RatV { n: column as int, d: self@.tiles_x }),
            r@.start.y == (RatV { n: row as int, d: self@.tiles_y }),
            r@.size.x == (RatV { n: 1, d: self@.tiles_x }),
            r@.size.y == (RatV { n: 1, d: self@.tiles_y }),
            r@.name == self@.name,
            r.wf(),
    {
        Texture {
            start: Vec2 {
                x: Rat::new(column as i64, self.tiles_x as i64),
                y: Rat::new(row as i64, self.tiles_y as i64),
            },
            size: Vec2 {
                x: Rat::new(1, self.tiles_x as i64),
                y: Rat::new(1, self.tiles_y as i64),
            },
            texture_name: self.texture_name.clone(),
        }
    }

    /// Like [`TextureMap::get_texture`], but the column and row may be
    /// fractional and the region spans `w` by `h` tiles.
    pub fn get_texture_custom(&self, column: Rat, row: Rat, w: Rat, h: Rat) -> (r: Texture)
        requires
            self.wf(),
            column.small(),
            row.small(),
            w.small(),
            h.small(),
            column@.d * self@.tiles_x <= RAT_MAX_DEN,
            row@.d * self@.tiles_y <= RAT_MAX_DEN,
            w@.d * self@.tiles_x <= RAT_MAX_DEN,
            h@.d * self@.tiles_y <= RAT_MAX_DEN,
        ensures
            r@.start.x == rv_div_int(column@, self@.tiles_x),
            r@.start.y == rv_div_int(row@, self@.tiles_y),
            r@.size.x == rv_div_int(w@, self@.tiles_x),
            r@.size.y == rv_div_int(h@, self@.tiles_y),
            r@.name == self@.name,
            r.wf(),
    {
        Texture {
            start: Vec2 {
                x: column.div_int(self.tiles_x as i64),
                y: row.div_int(self.tiles_y as i64),
            },
            size: Vec2 { x: w.div_int(self.tiles_x as i64), y: h.div_int(self.tiles_y as i64) },
            texture_name: self.texture_name.clone(),
        }
    }

    /// An arbitrary normalized region of the atlas image.
    pub fn get_very_custom(&self, start: Vec2, size: Vec2) -> (r: Texture)
        requires
            start.small(),
            size.small(),
        ensures
            r@.start == start@,
            r@.size == size@,
            r@.name == self@.name,
            r.wf(),
    {
        Texture { start, size, texture_name: self.texture_name.clone() }
    }
}

} // verus!
