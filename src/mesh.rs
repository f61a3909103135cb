use vstd::prelude::*;
use vstd::arithmetic::div_mod::lemma_fundamental_div_mod_converse;

verus! {

// A section of the 3D preview is its half-profile (`points` vertices, inner to
// outer) revolved `gores` times. Each gore position carries two copies of the
// profile, so that neighbouring facets can have their own colours: copy `c`
// occupies vertices `c * points .. (c + 1) * points`, and copies `2g` and
// `2g + 1` sit at the angle of gore `g`.

/// Vertex `r` (0..6) of the two triangles that fill quad `k` of facet `g`:
/// the facet spans the second copy at gore `g` and the first copy at the next
/// gore, and both triangles are wound counter-clockwise.
pub open spec fn quad_corner(gores: int, points: int, g: int, k: int, r: int) -> int {
    let left0 = (2 * g + 1) * points + k;
    let right0 = ((2 * g + 2) % (2 * gores)) * points + k;
    if r == 0 {
        left0
    } else if r == 1 {
        right0
    } else if r == 2 {
        left0 + 1
    } else if r == 3 {
        right0
    } else if r == 4 {
        right0 + 1
    } else {
        left0 + 1
    }
}

/// Number of quads along one facet.
pub open spec fn quads_per_facet(points: int) -> int {
    points - 1
}

/// The triangle index list of one section whose first vertex is `offset`:
/// six entries per quad, quads ordered by facet and then along the profile.
pub open spec fn strip_indices(gores: int, points: int, offset: int) -> Seq<u32> {
    Seq::new(
        (gores * quads_per_facet(points) * 6) as nat,
        |j: int|
            (offset + quad_corner(
                gores,
                points,
                (j / 6) / quads_per_facet(points),
                (j / 6) % quads_per_facet(points),
                j % 6,
            )) as u32,
    )
}

/// Number of vertices of one section's mesh.
pub open spec fn section_vertices(gores: int, points: int) -> int {
    2 * gores * points
}

proof fn lemma_strip_position(gores: int, points: int, g: int, k: int, r: int)
    requires
        0 <= g < gores,
        0 <= k < points - 1,
        0 <= r < 6,
    ensures
        ({
            let j = (g * (points - 1) + k) * 6 + r;
            &&& j / 6 == g * (points - 1) + k
            &&& j % 6 == r
            &&& (j / 6) / (points - 1) == g
            &&& (j / 6) % (points - 1) == k
            &&& 0 <= j < gores * (points - 1) * 6
        }),
{
    let q = g * (points - 1) + k;
    let j = q * 6 + r;
    lemma_fundamental_div_mod_converse(j, 6, q, r);
    lemma_fundamental_div_mod_converse(q, points - 1, g, k);
    assert(q < gores * (points - 1)) by (nonlinear_arith)
        requires
            q == g * (points - 1) + k,
            0 <= g < gores,
            0 <= k < points - 1,
    ;
    assert(0 <= q) by (nonlinear_arith)
        requires
            q == g * (points - 1) + k,
            0 <= g,
            0 <= k,
            points - 1 > 0,
    ;
}

/// Triangle indices of one revolved section whose vertices start at `offset`.
pub fn gore_strip_indices(gores: usize, points: usize, offset: u32) -> (r: Vec<u32>)
    requires
        gores >= 1,
        points >= 2,
        offset + section_vertices(gores as int, points as int) <= u32::MAX,
    ensures
        r@ == strip_indices(gores as int, points as int, offset as int),
{
    let ghost n = gores as int;
    let ghost p = points as int;
    let ghost expect = strip_indices(n, p, offset as int);
    let mut v: Vec<u32> = Vec::new();
    let mut g: usize = 0;
    while g < gores
        invariant
            g <= gores,
            n == gores,
            p == points,
            gores >= 1,
            points >= 2,
            offset + section_vertices(n, p) <= u32::MAX,
            expect == strip_indices(n, p, offset as int),
            v@.len() == g * (p - 1) * 6,
            forall|j: int| 0 <= j < v@.len() ==> v@[j] == expect[j],
        decreases gores - g,
    {
        let mut k: usize = 0;
        while k < points - 1
            invariant
                g < gores,
                k <= points - 1,
                n == gores,
                p == points,
                gores >= 1,
                points >= 2,
                offset + section_vertices(n, p) <= u32::MAX,
                expect == strip_indices(n, p, offset as int),
                v@.len() == (g * (p - 1) + k) * 6,
                forall|j: int| 0 <= j < v@.len() ==> v@[j] == expect[j],
            decreases points - 1 - k,
        {
            let ghost gi = g as int;
            let ghost ki = k as int;
            assert((2 * gi + 1) * p + ki + 1 < 2 * n * p) by (nonlinear_arith)
                requires
                    0 <= gi < n,
                    0 <= ki < p - 1,
            ;
            assert(2 * n <= 2 * n * p) by (nonlinear_arith)
                requires
                    n >= 1,
                    p >= 2,
            ;
            let next: usize = (2 * g + 2) % (2 * gores);
            assert(next * p + ki + 1 < 2 * n * p) by (nonlinear_arith)
                requires
                    0 <= next < 2 * n,
                    0 <= ki < p - 1,
            ;
            let left0: u32 = ((2 * g + 1) * points + k) as u32 + offset;
            let right0: u32 = (next * points + k) as u32 + offset;
            let ghost base = v@.len() as int;
            let corners: [u32; 6] = [left0, right0, left0 + 1, right0, right0 + 1, left0 + 1];
            let mut r: usize = 0;
            while r < 6
                invariant
                    r <= 6,
                    g < gores,
                    k < points - 1,
                    n == gores,
                    p == points,
                    points >= 2,
                    base == (g * (p - 1) + k) * 6,
                    v@.len() == base + r,
                    expect == strip_indices(n, p, offset as int),
                    forall|j: int| 0 <= j < v@.len() ==> v@[j] == expect[j],
                    forall|t: int|
                        0 <= t < 6 ==> corners@[t] as int == offset + quad_corner(
                            n,
                            p,
                            g as int,
                            k as int,
                            t,
                        ),
                decreases 6 - r,
            {
                proof {
                    lemma_strip_position(n, p, g as int, k as int, r as int);
                }
                v.push(corners[r]);
                r = r + 1;
            }
            k = k + 1;
        }
        assert(v@.len() == (g + 1) * (p - 1) * 6) by (nonlinear_arith)
            requires
                v@.len() == (g * (p - 1) + (p - 1)) * 6,
        ;
        g = g + 1;
    }
    proof {
        assert(v@.len() == expect.len()) by (nonlinear_arith)
            requires
                v@.len() == g * (p - 1) * 6,
                g == n,
                expect.len() == n * (p - 1) * 6,
        ;
        assert(v@ =~= expect);
    }
    v
}

/// Colour slot of profile copy `c`: the two copies that bound facet `g` both
/// take slot `(g + 1) % colors`, except the very last copy, which takes slot 0
/// like the first one.
pub open spec fn copy_color(gores: int, colors: int, c: int) -> int {
    if c == 2 * gores - 1 {
        0
    } else {
        ((c + 1) / 2) % colors
    }
}

/// The colour slot of every vertex of one section, colours cycling over the gores.
pub fn gore_vertex_colors(gores: usize, points: usize, colors: usize) -> (r: Vec<usize>)
    requires
        gores >= 1,
        points >= 1,
        colors >= 1,
        section_vertices(gores as int, points as int) <= usize::MAX,
    ensures
        r@.len() == section_vertices(gores as int, points as int),
        forall|j: int|
            0 <= j < r@.len() ==> r@[j] == copy_color(gores as int, colors as int, j / points as int),
{
    let ghost n = gores as int;
    let ghost p = points as int;
    assert(2 * n <= section_vertices(n, p)) by (nonlinear_arith)
        requires
            n >= 1,
            p >= 1,
    ;
    let mut v: Vec<usize> = Vec::new();
    let mut c: usize = 0;
    while c < 2 * gores
        invariant
            2 * n <= usize::MAX,
            c <= 2 * gores,
            n == gores,
            p == points,
            gores >= 1,
            points >= 1,
            colors >= 1,
            section_vertices(n, p) <= usize::MAX,
            v@.len() == c * p,
            forall|j: int| 0 <= j < v@.len() ==> v@[j] == copy_color(n, colors as int, j / p),
        decreases 2 * gores - c,
    {
        let slot: usize = if c == 2 * gores - 1 {
            0
        } else {
            ((c + 1) / 2) % colors
        };
        let mut k: usize = 0;
        while k < points
            invariant
                c < 2 * gores,
                k <= points,
                n == gores,
                p == points,
                points >= 1,
                colors >= 1,
                section_vertices(n, p) <= usize::MAX,
                slot == copy_color(n, colors as int, c as int),
                v@.len() == c * p + k,
                forall|j: int| 0 <= j < v@.len() ==> v@[j] == copy_color(n, colors as int, j / p),
            decreases points - k,
        {
            proof {
                lemma_fundamental_div_mod_converse(c * p + k, p, c as int, k as int);
                assert(c * p + k < section_vertices(n, p)) by (nonlinear_arith)
                    requires
                        c < 2 * n,
                        k < p,
                ;
            }
            v.push(slot);
            k = k + 1;
        }
        assert(v@.len() == (c + 1) * p) by (nonlinear_arith)
            requires
                v@.len() == c * p + p,
        ;
        c = c + 1;
    }
    v
}

/// A section appears in the preview when it has at least one gore and a
/// profile of at least two points.
pub open spec fn shown(sec: (usize, usize)) -> bool {
    sec.0 >= 1 && sec.1 >= 2
}

/// Vertices that the sections `(gores, points)` add to the preview mesh.
pub open spec fn mesh_vertices(secs: Seq<(usize, usize)>) -> int
    decreases secs.len(),
{
    if secs.len() == 0 {
        0
    } else {
        mesh_vertices(secs.drop_last()) + if shown(secs.last()) {
            section_vertices(secs.last().0 as int, secs.last().1 as int)
        } else {
            0
        }
    }
}

/// The shown sections' strips, each offset past the vertices of those before it.
pub open spec fn mesh_strips(secs: Seq<(usize, usize)>) -> Seq<u32>
    decreases secs.len(),
{
    if secs.len() == 0 {
        seq![]
    } else {
        let before = mesh_strips(secs.drop_last());
        if shown(secs.last()) {
            before + strip_indices(
                secs.last().0 as int,
                secs.last().1 as int,
                mesh_vertices(secs.drop_last()),
            )
        } else {
            before
        }
    }
}

/// The whole index list; a mesh without vertices gets one degenerate triangle
/// so that a renderer always has something to draw.
pub open spec fn mesh_indices(secs: Seq<(usize, usize)>) -> Seq<u32> {
    if mesh_vertices(secs) == 0 {
        seq![0u32, 1u32, 2u32]
    } else {
        mesh_strips(secs)
    }
}

proof fn lemma_mesh_vertices_grow(secs: Seq<(usize, usize)>, i: int, j: int)
    requires
        0 <= i <= j <= secs.len(),
    ensures
        0 <= mesh_vertices(secs.take(i)) <= mesh_vertices(secs.take(j)),
    decreases j,
{
    if j > 0 {
        assert(secs.take(j).drop_last() == secs.take(j - 1));
        if i < j {
            lemma_mesh_vertices_grow(secs, i, j - 1);
        } else {
            lemma_mesh_vertices_grow(secs, j - 1, j - 1);
        }
        let last = secs.take(j).last();
        assert(section_vertices(last.0 as int, last.1 as int) >= 0) by (nonlinear_arith)
            requires
                last.0 >= 0,
                last.1 >= 0,
        ;
    } else {
        assert(secs.take(0).len() == 0);
    }
}

/// Triangle indices of the preview mesh of all sections, given as
/// `(gores, profile points)` in drawing order.
pub fn mesh_triangle_indices(sections: &Vec<(usize, usize)>) -> (r: Vec<u32>)
    requires
        mesh_vertices(sections@) <= u32::MAX,
    ensures
        r@ == mesh_indices(sections@),
{
    let ghost secs = sections@;
    let mut out: Vec<u32> = Vec::new();
    let mut offset: u32 = 0;
    let mut i: usize = 0;
    while i < sections.len()
        invariant
            secs == sections@,
            i <= secs.len(),
            mesh_vertices(secs) <= u32::MAX,
            offset == mesh_vertices(secs.take(i as int)),
            out@ == mesh_strips(secs.take(i as int)),
        decreases secs.len() - i,
    {
        let ghost prefix = secs.take(i + 1);
        assert(prefix.drop_last() == secs.take(i as int));
        assert(prefix.last() == secs[i as int]);
        proof {
            lemma_mesh_vertices_grow(secs, i + 1, secs.len() as int);
            assert(secs.take(secs.len() as int) == secs);
        }
        let (gores, points) = sections[i];
        if gores >= 1 && points >= 2 {
            assert(mesh_vertices(prefix) == offset + section_vertices(gores as int, points as int));
            assert(2 * gores <= section_vertices(gores as int, points as int)) by (nonlinear_arith)
                requires
                    points >= 2,
            ;
            let strip = gore_strip_indices(gores, points, offset);
            let mut k: usize = 0;
            let ghost start = out@;
            while k < strip.len()
                invariant
                    k <= strip@.len(),
                    out@ == start + strip@.take(k as int),
                decreases strip@.len() - k,
            {
                out.push(strip[k]);
                assert(strip@.take(k + 1) == strip@.take(k as int).push(strip@[k as int]));
                k = k + 1;
            }
            assert(strip@.take(strip@.len() as int) == strip@);
            offset = offset + (2 * gores * points) as u32;
        }
        i = i + 1;
    }
    assert(secs.take(secs.len() as int) == secs);
    if offset == 0 {
        vec![0u32, 1u32, 2u32]
    } else {
        out
    }
}

} // verus!
