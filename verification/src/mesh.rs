//! Topology of the scene meshes: how a quad splits into triangles, the
//! winding of a paddle, and the triangle grid of the ball's UV sphere. The
//! vertices themselves are opaque here; callers supply and place them.
use vstd::prelude::*;

verus! {

/// Vertices that a quad with corners `a`, `b`, `c`, `d` (in order around its
/// perimeter) emits: the triangles (a, b, c) and (a, c, d), which share the
/// diagonal from `a` to `c`.
pub open spec fn quad_triangles<T>(a: T, b: T, c: T, d: T) -> Seq<T> {
    seq![a, b, c, a, c, d]
}

/// A quad's six vertices, position by position: `a`, `b`, `c`, then `a`,
/// `c`, `d`; a paddle walks `a`, `b`, `c`, `d` when it faces positive z and
/// `a`, `d`, `c`, `b` when it faces negative z.
pub proof fn lemma_quad_layout<T>(a: T, b: T, c: T, d: T)
    ensures
        quad_triangles(a, b, c, d).len() == 6,
        quad_triangles(a, b, c, d)[0] == a,
        quad_triangles(a, b, c, d)[1] == b,
        quad_triangles(a, b, c, d)[2] == c,
        quad_triangles(a, b, c, d)[3] == a,
        quad_triangles(a, b, c, d)[4] == c,
        quad_triangles(a, b, c, d)[5] == d,
        paddle_corners(false, a, b, c, d) == seq![a, b, c, a, c, d],
        paddle_corners(true, a, b, c, d) == seq![a, d, c, a, c, b],
{
    assert(paddle_corners(false, a, b, c, d) =~= seq![a, b, c, a, c, d]);
    assert(paddle_corners(true, a, b, c, d) =~= seq![a, d, c, a, c, b]);
}

/// Appends the two triangles of the quad with corners `a`, `b`, `c`, `d`,
/// given in order around its perimeter.
pub fn append_quad<T: Copy>(out: &mut Vec<T>, a: T, b: T, c: T, d: T)
    ensures
        final(out)@ == old(out)@ + quad_triangles(a, b, c, d),
{
    out.push(a);
    out.push(b);
    out.push(c);
    out.push(a);
    out.push(c);
    out.push(d);
    assert(final(out)@ =~= old(out)@ + quad_triangles(a, b, c, d));
}

/// Corner order of a paddle quad whose corners are bottom-left `a`,
/// bottom-right `b`, top-right `c` and top-left `d`: a paddle that faces
/// toward negative z walks them the other way round.
pub open spec fn paddle_corners<T>(facing_neg_z: bool, a: T, b: T, c: T, d: T) -> Seq<T> {
    if facing_neg_z {
        quad_triangles(a, d, c, b)
    } else {
        quad_triangles(a, b, c, d)
    }
}

/// Appends a paddle quad with corners bottom-left `a`, bottom-right `b`,
/// top-right `c` and top-left `d`, wound so that its front faces negative z
/// when `facing_neg_z` holds and positive z otherwise.
pub fn append_paddle<T: Copy>(out: &mut Vec<T>, facing_neg_z: bool, a: T, b: T, c: T, d: T)
    ensures
        final(out)@ == old(out)@ + paddle_corners(facing_neg_z, a, b, c, d),
{
    if facing_neg_z {
        append_quad(out, a, d, c, b);
    } else {
        append_quad(out, a, b, c, d);
    }
}

/// Grid corner (latitude index, longitude index) of the vertex at position
/// `k` of a UV sphere with `lon` longitude segments. Cell `k / 6` is the
/// cell (i, j) with i = cell / lon and j = cell % lon; it emits the
/// triangles ((i, j), (i+1, j), (i+1, j+1)) and ((i, j), (i+1, j+1),
/// (i, j+1)).
pub open spec fn sphere_corner(lon: nat, k: nat) -> (nat, nat) {
    let cell = k / 6;
    let i = cell / lon;
    let j = cell % lon;
    let c = k % 6;
    if c == 0 || c == 3 {
        (i, j)
    } else if c == 1 {
        (i + 1, j)
    } else if c == 2 || c == 4 {
        (i + 1, j + 1)
    } else {
        (i, j + 1)
    }
}

/// The grid corners of all vertices of a UV sphere with `lat` latitude and
/// `lon` longitude segments: six per cell, cells row by row.
pub open spec fn sphere_grid_spec(lat: nat, lon: nat) -> Seq<(u32, u32)> {
    Seq::new(
        lat * lon * 6,
        |k: int| (sphere_corner(lon, k as nat).0 as u32, sphere_corner(lon, k as nat).1 as u32),
    )
}

proof fn lemma_corner_index(lat: nat, lon: nat, i: nat, j: nat, c: nat)
    requires
        i < lat,
        j < lon,
        c < 6,
    ensures
        6 * (i * lon + j) + c < lat * lon * 6,
        sphere_corner(lon, 6 * (i * lon + j) + c) == (if c == 0 || c == 3 {
            (i, j)
        } else if c == 1 {
            (i + 1, j)
        } else if c == 2 || c == 4 {
            (i + 1, j + 1)
        } else {
            (i, j + 1)
        }),
{
    let k = 6 * (i * lon + j) + c;
    vstd::arithmetic::div_mod::lemma_fundamental_div_mod_converse(
        k as int,
        6,
        (i * lon + j) as int,
        c as int,
    );
    vstd::arithmetic::div_mod::lemma_fundamental_div_mod_converse(
        (i * lon + j) as int,
        lon as int,
        i as int,
        j as int,
    );
    assert(i * lon + j < lat * lon) by (nonlinear_arith)
        requires
            i < lat,
            j < lon,
    ;
}

/// Grid corners, as (latitude index, longitude index), of every vertex of a
/// UV sphere with `lat_segments` latitude and `lon_segments` longitude
/// segments, in the order the sphere mesh emits them.
pub fn sphere_grid(lat_segments: u32, lon_segments: u32) -> (v: Vec<(u32, u32)>)
    requires
        lat_segments * lon_segments * 6 <= u32::MAX,
    ensures
        v@ == sphere_grid_spec(lat_segments as nat, lon_segments as nat),
{
    let ghost lat = lat_segments as nat;
    let ghost lon = lon_segments as nat;
    let total: u32 = lat_segments * lon_segments * 6;
    let mut v: Vec<(u32, u32)> = Vec::with_capacity(total as usize);
    let mut i: u32 = 0;
    while i < lat_segments
        invariant
            i <= lat_segments,
            lat == lat_segments,
            lon == lon_segments,
            lat_segments * lon_segments * 6 <= u32::MAX,
            v@.len() == 6 * (i * lon),
            forall|k: int|
                0 <= k < v@.len() ==> #[trigger] v@[k] == sphere_grid_spec(lat, lon)[k],
        decreases lat_segments - i,
    {
        let mut j: u32 = 0;
        while j < lon_segments
            invariant
                i < lat_segments,
                j <= lon_segments,
                lat == lat_segments,
                lon == lon_segments,
                lat_segments * lon_segments * 6 <= u32::MAX,
                v@.len() == 6 * (i * lon + j),
                forall|k: int|
                    0 <= k < v@.len() ==> #[trigger] v@[k] == sphere_grid_spec(lat, lon)[k],
            decreases lon_segments - j,
        {
            let ghost base = v@.len();
            proof {
                lemma_corner_index(lat, lon, i as nat, j as nat, 0);
                lemma_corner_index(lat, lon, i as nat, j as nat, 1);
                lemma_corner_index(lat, lon, i as nat, j as nat, 2);
                lemma_corner_index(lat, lon, i as nat, j as nat, 3);
                lemma_corner_index(lat, lon, i as nat, j as nat, 4);
                lemma_corner_index(lat, lon, i as nat, j as nat, 5);
                assert((i + 1) * lon <= lat * lon) by (nonlinear_arith)
                    requires
                        i < lat,
                ;
                assert(lat * lon * 6 <= u32::MAX);
            }
            let i1 = i + 1;
            let j1 = j + 1;
            v.push((i, j));
            v.push((i1, j));
            v.push((i1, j1));
            v.push((i, j));
            v.push((i1, j1));
            v.push((i, j1));
            proof {
                assert(v@.len() == 6 * (i * lon + (j + 1)));
                assert forall|k: int|
                    0 <= k < v@.len() implies #[trigger] v@[k] == sphere_grid_spec(lat, lon)[k] by {
                    if k >= base {
                        let c = (k - base) as nat;
                        assert(k == 6 * (i * lon + j) + c);
                    }
                }
            }
            j = j1;
        }
        proof {
            assert(6 * (i * lon + lon) == 6 * ((i + 1) * lon)) by (nonlinear_arith);
        }
        i = i + 1;
    }
    proof {
        assert(v@.len() == lat * lon * 6) by (nonlinear_arith)
            requires
                v@.len() == 6 * (lat * lon),
        ;
        assert(v@ =~= sphere_grid_spec(lat, lon));
    }
    v
}

/// The six vertices of grid cell (i, j), for `i < lat` and `j < lon`, stand
/// at positions `6 * (i * lon + j)` onward: the triangle ((i, j), (i+1, j),
/// (i+1, j+1)) and then ((i, j), (i+1, j+1), (i, j+1)). So every cell is
/// emitted once, row by row, and its two triangles share the diagonal from
/// (i, j) to (i+1, j+1).
pub proof fn lemma_sphere_grid_cells(lat: nat, lon: nat, i: nat, j: nat)
    requires
        i < lat,
        j < lon,
        lat * lon * 6 <= u32::MAX,
    ensures
        6 * (i * lon + j) + 6 <= sphere_grid_spec(lat, lon).len(),
        sphere_grid_spec(lat, lon)[6 * (i * lon + j) + 0int] == (i as u32, j as u32),
        sphere_grid_spec(lat, lon)[6 * (i * lon + j) + 1int] == ((i + 1) as u32, j as u32),
        sphere_grid_spec(lat, lon)[6 * (i * lon + j) + 2int] == ((i + 1) as u32, (j + 1) as u32),
        sphere_grid_spec(lat, lon)[6 * (i * lon + j) + 3int] == (i as u32, j as u32),
        sphere_grid_spec(lat, lon)[6 * (i * lon + j) + 4int] == ((i + 1) as u32, (j + 1) as u32),
        sphere_grid_spec(lat, lon)[6 * (i * lon + j) + 5int] == (i as u32, (j + 1) as u32),
{
    lemma_corner_index(lat, lon, i, j, 0);
    lemma_corner_index(lat, lon, i, j, 1);
    lemma_corner_index(lat, lon, i, j, 2);
    lemma_corner_index(lat, lon, i, j, 3);
    lemma_corner_index(lat, lon, i, j, 4);
    lemma_corner_index(lat, lon, i, j, 5);
    assert(6 * (i * lon + j) + 6 <= lat * lon * 6) by (nonlinear_arith)
        requires
            i < lat,
            j < lon,
    ;
}

/// Every corner of the sphere grid lies on the grid: its latitude index is
/// at most `lat` and its longitude index at most `lon`.
pub proof fn lemma_sphere_grid_in_range(lat: nat, lon: nat, k: int)
    requires
        0 <= k < sphere_grid_spec(lat, lon).len(),
        lat * lon * 6 <= u32::MAX,
    ensures
        sphere_grid_spec(lat, lon)[k].0 <= lat,
        sphere_grid_spec(lat, lon)[k].1 <= lon,
{
    let cell = k / 6;
    assert(lon > 0 && lat > 0) by (nonlinear_arith)
        requires
            0 <= k < lat * lon * 6,
    ;
    assert(cell < lat * lon);
    assert(cell / (lon as int) < lat) by (nonlinear_arith)
        requires
            0 <= cell < lat * lon,
            lon > 0,
    ;
    assert(lat <= u32::MAX && lon <= u32::MAX) by (nonlinear_arith)
        requires
            lat > 0,
            lon > 0,
            lat * lon * 6 <= u32::MAX,
    ;
}

} // verus!
