//! Splitting a compute domain into tiles.
//!
//! One compute command over a large domain with many samples per texel can
//! run long enough for the driver to declare the GPU hung. The tiler cuts the
//! x-y extent of a domain into tiles of a fixed size and plans one command
//! with its own memory barrier per tile, so that each command stays short.

use vstd::prelude::*;
use vstd::arithmetic::div_mod::{lemma_fundamental_div_mod, lemma_fundamental_div_mod_converse};
use crate::shader_constants::{LOCAL_SIZE_XY, LOCAL_SIZE_Z};

verus! {

/// One compute command of a tiled dispatch, followed by a memory barrier.
#[derive(Clone, Copy, Debug, PartialEq, Eq, Structural)]
pub struct TileDispatch {
    /// First texel column of the tile, bound as a uniform before the command.
    pub offset_x: u32,
    /// First texel row of the tile, bound as a uniform before the command.
    pub offset_y: u32,
    /// Workgroup count along x.
    pub groups_x: u32,
    /// Workgroup count along y.
    pub groups_y: u32,
    /// Workgroup count along z.
    pub groups_z: u32,
    /// Whether the CPU waits for the GPU to finish before the next tile.
    pub blocking: bool,
}

/// `a / b` rounded up, for `b > 0`.
pub open spec fn ceil_div(a: int, b: int) -> int {
    (a + b - 1) / b
}

/// Number of tiles that cover a `domain_x` by `domain_y` extent.
pub open spec fn tile_count(domain_x: int, domain_y: int, tile_x: int, tile_y: int) -> int {
    ceil_div(domain_x, tile_x) * ceil_div(domain_y, tile_y)
}

/// Corner of tile `k`. Tiles are numbered column by column: all tiles of one
/// x offset come before those of the next.
pub open spec fn tile_origin(k: int, domain_y: int, tile_x: int, tile_y: int) -> (int, int) {
    let rows = ceil_div(domain_y, tile_y);
    ((k / rows) * tile_x, (k % rows) * tile_y)
}

/// Whether texel `(x, y)` lies in tile `k`.
pub open spec fn tile_covers(
    k: int,
    domain_y: int,
    tile_x: int,
    tile_y: int,
    x: int,
    y: int,
) -> bool {
    let (ox, oy) = tile_origin(k, domain_y, tile_x, tile_y);
    ox <= x < ox + tile_x && oy <= y < oy + tile_y
}

/// The command planned for tile `k`.
pub open spec fn tile_dispatch(
    k: int,
    domain_y: u32,
    domain_z: u32,
    tile_x: u32,
    tile_y: u32,
    blocking: bool,
) -> TileDispatch {
    let (ox, oy) = tile_origin(k, domain_y as int, tile_x as int, tile_y as int);
    TileDispatch {
        offset_x: ox as u32,
        offset_y: oy as u32,
        groups_x: (tile_x / LOCAL_SIZE_XY) as u32,
        groups_y: (tile_y / LOCAL_SIZE_XY) as u32,
        groups_z: (domain_z / LOCAL_SIZE_Z) as u32,
        blocking,
    }
}

/// The whole plan of a tiled dispatch, in issue order.
pub open spec fn tile_plan(
    domain_x: u32,
    domain_y: u32,
    domain_z: u32,
    tile_x: u32,
    tile_y: u32,
    blocking: bool,
) -> Seq<TileDispatch> {
    Seq::new(
        tile_count(domain_x as int, domain_y as int, tile_x as int, tile_y as int) as nat,
        |k: int| tile_dispatch(k, domain_y, domain_z, tile_x, tile_y, blocking),
    )
}

proof fn lemma_ceil_div_bounds(a: int, b: int)
    requires
        a >= 0,
        b > 0,
    ensures
        ceil_div(a, b) >= 0,
        (ceil_div(a, b) - 1) * b < a || a == 0,
        a <= ceil_div(a, b) * b,
        a == 0 ==> ceil_div(a, b) == 0,
{
    let q = ceil_div(a, b);
    lemma_fundamental_div_mod(a + b - 1, b);
    assert(a + b - 1 == b * q + (a + b - 1) % b);
    assert(b * q == q * b) by (nonlinear_arith);
    assert((q - 1) * b == q * b - b) by (nonlinear_arith);
    if a == 0 {
        assert(0 * b == 0) by (nonlinear_arith);
        lemma_fundamental_div_mod_converse(b - 1, b, 0, b - 1);
    }
    if q < 0 {
        assert(q * b <= -b) by (nonlinear_arith)
            requires
                q <= -1,
                b > 0,
        ;
    }
}

proof fn lemma_below_ceil(a: int, b: int, i: int)
    requires
        a >= 0,
        b > 0,
        0 <= i < ceil_div(a, b),
    ensures
        0 <= i * b < a,
{
    lemma_ceil_div_bounds(a, b);
    let q = ceil_div(a, b);
    assert(i * b <= (q - 1) * b) by (nonlinear_arith)
        requires
            i <= q - 1,
            b > 0,
    ;
    assert(0 <= i * b) by (nonlinear_arith)
        requires
            0 <= i,
            b > 0,
    ;
}

proof fn lemma_quotient_of_window(x: int, d: int, q: int)
    requires
        d > 0,
        q * d <= x < q * d + d,
    ensures
        q == x / d,
{
    lemma_fundamental_div_mod_converse(x, d, q, x - q * d);
}

proof fn lemma_index_split(k: int, rows: int, cols: int)
    requires
        rows > 0,
        cols >= 0,
        0 <= k < cols * rows,
    ensures
        0 <= k / rows < cols,
        0 <= k % rows < rows,
        k == (k / rows) * rows + k % rows,
{
    lemma_fundamental_div_mod(k, rows);
    let q = k / rows;
    assert(rows * q == q * rows) by (nonlinear_arith);
    if q >= cols {
        assert(q * rows >= cols * rows) by (nonlinear_arith)
            requires
                q >= cols,
                rows > 0,
        ;
    }
    if q < 0 {
        assert(q * rows <= -rows) by (nonlinear_arith)
            requires
                q <= -1,
                rows > 0,
        ;
    }
}

/// The tiles cut the domain into disjoint pieces that leave no gap: every
/// texel of the `domain_x` by `domain_y` extent lies in the tile numbered
/// `(x / tile_x) * rows + y / tile_y`, and in no other tile of the plan.
pub proof fn lemma_tiles_partition_domain(
    domain_x: int,
    domain_y: int,
    tile_x: int,
    tile_y: int,
    x: int,
    y: int,
)
    requires
        tile_x > 0,
        tile_y > 0,
        0 <= x < domain_x,
        0 <= y < domain_y,
    ensures
        ({
            let k = (x / tile_x) * ceil_div(domain_y, tile_y) + y / tile_y;
            &&& 0 <= k < tile_count(domain_x, domain_y, tile_x, tile_y)
            &&& tile_covers(k, domain_y, tile_x, tile_y, x, y)
            &&& forall|j: int|
                0 <= j < tile_count(domain_x, domain_y, tile_x, tile_y) && #[trigger] tile_covers(
                    j,
                    domain_y,
                    tile_x,
                    tile_y,
                    x,
                    y,
                ) ==> j == k
        }),
{
    let cols = ceil_div(domain_x, tile_x);
    let rows = ceil_div(domain_y, tile_y);
    let cx = x / tile_x;
    let cy = y / tile_y;
    let k = cx * rows + cy;
    lemma_ceil_div_bounds(domain_x, tile_x);
    lemma_ceil_div_bounds(domain_y, tile_y);
    lemma_fundamental_div_mod(x, tile_x);
    lemma_fundamental_div_mod(y, tile_y);
    assert(tile_x * cx == cx * tile_x) by (nonlinear_arith);
    assert(tile_y * cy == cy * tile_y) by (nonlinear_arith);
    assert(0 <= cx) by (nonlinear_arith)
        requires
            x == cx * tile_x + x % tile_x,
            0 <= x % tile_x < tile_x,
            x >= 0,
            tile_x > 0,
    ;
    assert(0 <= cy) by (nonlinear_arith)
        requires
            y == cy * tile_y + y % tile_y,
            0 <= y % tile_y < tile_y,
            y >= 0,
            tile_y > 0,
    ;
    assert(cx < cols) by (nonlinear_arith)
        requires
            cx * tile_x <= x,
            x < domain_x,
            domain_x <= cols * tile_x,
            tile_x > 0,
    ;
    assert(cy < rows) by (nonlinear_arith)
        requires
            cy * tile_y <= y,
            y < domain_y,
            domain_y <= rows * tile_y,
            tile_y > 0,
    ;
    assert(0 <= k < cols * rows) by (nonlinear_arith)
        requires
            k == cx * rows + cy,
            0 <= cx < cols,
            0 <= cy < rows,
    ;
    lemma_fundamental_div_mod_converse(k, rows, cx, cy);
    assert(tile_covers(k, domain_y, tile_x, tile_y, x, y));
    assert forall|j: int|
        0 <= j < tile_count(domain_x, domain_y, tile_x, tile_y) && #[trigger] tile_covers(
            j,
            domain_y,
            tile_x,
            tile_y,
            x,
            y,
        ) implies j == k by {
        lemma_index_split(j, rows, cols);
        lemma_quotient_of_window(x, tile_x, j / rows);
        lemma_quotient_of_window(y, tile_y, j % rows);
    }
}

/// No tile of the plan lies outside the domain: its corner is a texel of it.
pub proof fn lemma_tile_origin_in_domain(
    domain_x: int,
    domain_y: int,
    tile_x: int,
    tile_y: int,
    k: int,
)
    requires
        tile_x > 0,
        tile_y > 0,
        domain_x >= 0,
        domain_y >= 0,
        0 <= k < tile_count(domain_x, domain_y, tile_x, tile_y),
    ensures
        0 <= tile_origin(k, domain_y, tile_x, tile_y).0 < domain_x,
        0 <= tile_origin(k, domain_y, tile_x, tile_y).1 < domain_y,
        tile_origin(k, domain_y, tile_x, tile_y).0 % tile_x == 0,
        tile_origin(k, domain_y, tile_x, tile_y).1 % tile_y == 0,
{
    let cols = ceil_div(domain_x, tile_x);
    let rows = ceil_div(domain_y, tile_y);
    lemma_ceil_div_bounds(domain_x, tile_x);
    lemma_ceil_div_bounds(domain_y, tile_y);
    if rows == 0 {
        assert(cols * rows == 0) by (nonlinear_arith)
            requires
                rows == 0,
        ;
    }
    lemma_index_split(k, rows, cols);
    lemma_below_ceil(domain_x, tile_x, k / rows);
    lemma_below_ceil(domain_y, tile_y, k % rows);
    lemma_fundamental_div_mod_converse((k / rows) * tile_x, tile_x, k / rows, 0);
    lemma_fundamental_div_mod_converse((k % rows) * tile_y, tile_y, k % rows, 0);
}

/// Whether texel `(x, y)` lies in the tile of a command.
pub open spec fn dispatch_covers(t: TileDispatch, tile_x: u32, tile_y: u32, x: int, y: int) -> bool {
    t.offset_x <= x < t.offset_x + tile_x && t.offset_y <= y < t.offset_y + tile_y
}

/// The offsets of a plan cover the domain exactly: every texel of the
/// `domain_x` by `domain_y` extent lies in the tile of one command of the
/// plan and of no other, so the tiles neither overlap nor leave a gap.
pub proof fn lemma_plan_partitions_domain(
    domain_x: u32,
    domain_y: u32,
    domain_z: u32,
    tile_x: u32,
    tile_y: u32,
    blocking: bool,
    x: int,
    y: int,
)
    requires
        tile_x > 0,
        tile_y > 0,
        0 <= x < domain_x,
        0 <= y < domain_y,
    ensures
        ({
            let plan = tile_plan(domain_x, domain_y, domain_z, tile_x, tile_y, blocking);
            exists|k: int|
                {
                    &&& 0 <= k < plan.len()
                    &&& dispatch_covers(#[trigger] plan[k], tile_x, tile_y, x, y)
                    &&& forall|j: int|
                        0 <= j < plan.len() && dispatch_covers(
                            #[trigger] plan[j],
                            tile_x,
                            tile_y,
                            x,
                            y,
                        ) ==> j == k
                }
        }),
{
    let plan = tile_plan(domain_x, domain_y, domain_z, tile_x, tile_y, blocking);
    let count = tile_count(domain_x as int, domain_y as int, tile_x as int, tile_y as int);
    let k = (x / (tile_x as int)) * ceil_div(domain_y as int, tile_y as int) + y / (tile_y as int);
    lemma_tiles_partition_domain(domain_x as int, domain_y as int, tile_x as int, tile_y as int, x, y);
    assert forall|j: int| 0 <= j < count implies (#[trigger] plan[j]).offset_x == tile_origin(
        j,
        domain_y as int,
        tile_x as int,
        tile_y as int,
    ).0 && plan[j].offset_y == tile_origin(j, domain_y as int, tile_x as int, tile_y as int).1 by {
        lemma_tile_origin_in_domain(
            domain_x as int,
            domain_y as int,
            tile_x as int,
            tile_y as int,
            j,
        );
    }
    assert(dispatch_covers(plan[k], tile_x, tile_y, x, y));
    assert forall|j: int|
        0 <= j < plan.len() && dispatch_covers(
            #[trigger] plan[j],
            tile_x,
            tile_y,
            x,
            y,
        ) implies j == k by {
        assert(tile_covers(j, domain_y as int, tile_x as int, tile_y as int, x, y));
    }
}

/// Plans the tiled dispatch of a `domain_x` by `domain_y` by `domain_z`
/// compute domain: one command per tile of `tile_x` by `tile_y` texels, each
/// covering the whole of `domain_z`, with workgroup counts that are the tile
/// size divided by the shaders' local workgroup size. With `blocking` set,
/// the CPU waits after each tile; only the slowest bake stages ask for that.
pub fn dispatch_tiled(
    domain_x: u32,
    domain_y: u32,
    domain_z: u32,
    tile_x: u32,
    tile_y: u32,
    blocking: bool,
) -> (plan: Vec<TileDispatch>)
    requires
        tile_x > 0,
        tile_y > 0,
        tile_count(domain_x as int, domain_y as int, tile_x as int, tile_y as int) <= usize::MAX,
    ensures
        plan@ == tile_plan(domain_x, domain_y, domain_z, tile_x, tile_y, blocking),
        plan@.len() == tile_count(domain_x as int, domain_y as int, tile_x as int, tile_y as int),
{
    let cols: u64 = (domain_x as u64 + tile_x as u64 - 1) / (tile_x as u64);
    let rows: u64 = (domain_y as u64 + tile_y as u64 - 1) / (tile_y as u64);
    let groups_x: u32 = tile_x / LOCAL_SIZE_XY;
    let groups_y: u32 = tile_y / LOCAL_SIZE_XY;
    let groups_z: u32 = domain_z / LOCAL_SIZE_Z;
    proof {
        lemma_ceil_div_bounds(domain_x as int, tile_x as int);
        lemma_ceil_div_bounds(domain_y as int, tile_y as int);
    }
    let mut plan: Vec<TileDispatch> = Vec::new();
    let mut i: u64 = 0;
    while i < cols
        invariant
            tile_x > 0,
            tile_y > 0,
            cols == ceil_div(domain_x as int, tile_x as int),
            rows == ceil_div(domain_y as int, tile_y as int),
            cols * rows <= usize::MAX,
            groups_x == tile_x / LOCAL_SIZE_XY,
            groups_y == tile_y / LOCAL_SIZE_XY,
            groups_z == domain_z / LOCAL_SIZE_Z,
            i <= cols,
            plan@.len() == i * rows,
            forall|k: int|
                0 <= k < plan@.len() ==> plan@[k] == tile_dispatch(
                    k,
                    domain_y,
                    domain_z,
                    tile_x,
                    tile_y,
                    blocking,
                ),
        decreases cols - i,
    {
        let mut j: u64 = 0;
        while j < rows
            invariant
                tile_x > 0,
                tile_y > 0,
                cols == ceil_div(domain_x as int, tile_x as int),
                rows == ceil_div(domain_y as int, tile_y as int),
                cols * rows <= usize::MAX,
                groups_x == tile_x / LOCAL_SIZE_XY,
                groups_y == tile_y / LOCAL_SIZE_XY,
                groups_z == domain_z / LOCAL_SIZE_Z,
                i < cols,
                j <= rows,
                plan@.len() == i * rows + j,
                forall|k: int|
                    0 <= k < plan@.len() ==> plan@[k] == tile_dispatch(
                        k,
                        domain_y,
                        domain_z,
                        tile_x,
                        tile_y,
                        blocking,
                    ),
            decreases rows - j,
        {
            proof {
                lemma_below_ceil(domain_x as int, tile_x as int, i as int);
                lemma_below_ceil(domain_y as int, tile_y as int, j as int);
                lemma_fundamental_div_mod_converse(
                    i * rows + j,
                    rows as int,
                    i as int,
                    j as int,
                );
            }
            let offset_x: u32 = (i * (tile_x as u64)) as u32;
            let offset_y: u32 = (j * (tile_y as u64)) as u32;
            plan.push(TileDispatch { offset_x, offset_y, groups_x, groups_y, groups_z, blocking });
            j = j + 1;
        }
        proof {
            assert((i + 1) * rows == i * rows + rows) by (nonlinear_arith);
        }
        i = i + 1;
    }
    proof {
        assert(i == cols);
        assert(plan@ =~= tile_plan(domain_x, domain_y, domain_z, tile_x, tile_y, blocking));
    }
    plan
}

} // verus!
