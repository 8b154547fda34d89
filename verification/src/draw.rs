use vstd::prelude::*;
use crate::tile;

verus! {

/// A length on the drawable surface, in surface units.
pub type DrawLength = u32;

pub type DrawX = DrawLength;

pub type DrawY = DrawLength;

pub type DrawW = DrawLength;

pub type DrawH = DrawLength;

/// A point on the drawable surface.
#[derive(Clone, Copy, Debug, PartialEq, Eq, Structural)]
pub struct DrawXY {
    pub x: DrawX,
    pub y: DrawY,
}

/// The dimensions of the drawable surface.
#[derive(Clone, Copy, Debug, PartialEq, Eq, Structural)]
pub struct DrawWH {
    pub w: DrawW,
    pub h: DrawH,
}

/// A rectangle on the drawable surface.
#[derive(Clone, Copy, Debug, PartialEq, Eq, Structural)]
pub struct DrawXYWH {
    pub x: DrawX,
    pub y: DrawY,
    pub w: DrawW,
    pub h: DrawH,
}

pub use crate::tile::State as TileState;

/// The derived geometry that places the grid on the surface: the surface
/// dimensions it was computed from, the play-area rectangle, and the side
/// length of one square tile.
#[derive(Clone, Copy, Debug, PartialEq, Eq, Structural)]
pub struct Sizes {
    pub draw_wh: DrawWH,
    pub play_xywh: DrawXYWH,
    pub tile_side_length: DrawLength,
}

impl Sizes {
    /// Every cell of the play area stays on the surface's coordinate scale.
    pub open spec fn wf(self) -> bool {
        &&& self.play_xywh.x + 8 * self.tile_side_length <= u32::MAX
        &&& self.play_xywh.y + 8 * self.tile_side_length <= u32::MAX
    }
}

/// The geometry before any surface has been seen: everything zero.
pub open spec fn spec_default_sizes() -> Sizes {
    Sizes {
        draw_wh: DrawWH { w: 0, h: 0 },
        play_xywh: DrawXYWH { x: 0, y: 0, w: 0, h: 0 },
        tile_side_length: 0,
    }
}

impl Default for Sizes {
    /// The geometry before any surface has been seen.
    fn default() -> (r: Sizes)
        ensures
            r == spec_default_sizes(),
            r.wf(),
    {
        Sizes {
            draw_wh: DrawWH { w: 0, h: 0 },
            play_xywh: DrawXYWH { x: 0, y: 0, w: 0, h: 0 },
            tile_side_length: 0,
        }
    }
}

/// The geometry a surface yields: a tenth of the shorter surface side per
/// tile, so the eight tiles leave a border of one tile on each side, and the
/// play area centered on the surface.
pub open spec fn spec_fresh_sizes(wh: DrawWH) -> Sizes {
    let shorter = if wh.w <= wh.h {
        wh.w
    } else {
        wh.h
    };
    let side = shorter as int / 10;
    let play = side * 8;
    Sizes {
        draw_wh: wh,
        play_xywh: DrawXYWH {
            x: ((wh.w - play) / 2) as u32,
            y: ((wh.h - play) / 2) as u32,
            w: play as u32,
            h: play as u32,
        },
        tile_side_length: side as u32,
    }
}

/// Computes the geometry for a surface. Deterministic: it depends on the
/// dimensions alone.
pub fn fresh_sizes(wh: DrawWH) -> (r: Sizes)
    ensures
        r == spec_fresh_sizes(wh),
        r.wf(),
{
    let shorter = if wh.w <= wh.h {
        wh.w
    } else {
        wh.h
    };
    let side = shorter / 10;
    proof {
        assert(side * 10 <= shorter);
        assert(side * 8 <= side * 10);
    }
    let play = side * 8;
    Sizes {
        draw_wh: wh,
        play_xywh: DrawXYWH {
            x: (wh.w - play) / 2,
            y: (wh.h - play) / 2,
            w: play,
            h: play,
        },
        tile_side_length: side,
    }
}

/// The surface point of a cell: the play area's corner, moved one tile side
/// per coordinate step along each axis.
pub open spec fn spec_tile_xy_to_draw(sizes: Sizes, txy: tile::XY) -> DrawXY {
    DrawXY {
        x: (sizes.play_xywh.x + sizes.tile_side_length * txy.x.0.value()) as u32,
        y: (sizes.play_xywh.y + sizes.tile_side_length * txy.y.0.value()) as u32,
    }
}

/// Maps a cell to its surface point.
pub fn tile_xy_to_draw(sizes: &Sizes, txy: tile::XY) -> (r: DrawXY)
    requires
        sizes.wf(),
    ensures
        r == spec_tile_xy_to_draw(*sizes, txy),
{
    let xc = txy.x.0.to_count() as u32;
    let yc = txy.y.0.to_count() as u32;
    proof {
        tile::lemma_coord_value_bounds();
        assert(sizes.tile_side_length * xc <= sizes.tile_side_length * 8
            && sizes.tile_side_length * yc <= sizes.tile_side_length * 8) by (nonlinear_arith)
            requires
                0 <= xc <= 8 && 0 <= yc <= 8 && 0 <= sizes.tile_side_length,
        ;
    }
    DrawXY {
        x: sizes.play_xywh.x + sizes.tile_side_length * xc,
        y: sizes.play_xywh.y + sizes.tile_side_length * yc,
    }
}

/// What one cell's drawing needs: its surface point and its tile state.
#[derive(Clone, Copy, Debug, PartialEq, Eq, Structural)]
pub struct TileSpec {
    pub xy: DrawXY,
    pub state: TileState,
}

/// One abstract draw instruction, in the surface's coordinate space.
#[derive(Clone, Copy, Debug, PartialEq, Eq, Structural)]
pub enum Command {
    /// Draw one tile.
    Tile(TileSpec),
    /// Draw the cursor highlight.
    Selectrum(DrawXY),
}

} // verus!
