use openchute::mesh::{gore_strip_indices, gore_vertex_colors, mesh_triangle_indices};
use openchute::pattern::{seam_walk_plan, PointRef, VertexPlan};

#[test]
fn strip_of_two_gores() {
    // 2 gores, 2 profile points: copies 0..4 of 2 vertices each.
    let idx = gore_strip_indices(2, 2, 0);
    assert_eq!(idx, vec![2, 4, 3, 4, 5, 3, 6, 0, 7, 0, 1, 7]);
}

#[test]
fn strip_with_offset_and_longer_profile() {
    let idx = gore_strip_indices(1, 3, 10);
    // One gore: facet between copy 1 and copy 0 (wrapping around).
    assert_eq!(idx, vec![13, 10, 14, 10, 11, 14, 14, 11, 15, 11, 12, 15]);
}

#[test]
fn colours_cycle_over_gores() {
    let c = gore_vertex_colors(3, 2, 2);
    assert_eq!(c, vec![0, 0, 1, 1, 1, 1, 0, 0, 0, 0, 0, 0]);
    let c = gore_vertex_colors(4, 1, 3);
    assert_eq!(c, vec![0, 1, 1, 2, 2, 0, 0, 0]);
}

#[test]
fn mesh_skips_empty_sections_and_offsets_the_rest() {
    let secs = vec![(2usize, 2usize), (0, 5), (3, 1), (1, 3)];
    let idx = mesh_triangle_indices(&secs);
    let mut expect = gore_strip_indices(2, 2, 0);
    expect.extend(gore_strip_indices(1, 3, 8));
    assert_eq!(idx, expect);
}

#[test]
fn empty_mesh_gets_a_placeholder_triangle() {
    assert_eq!(mesh_triangle_indices(&vec![]), vec![0, 1, 2]);
    assert_eq!(mesh_triangle_indices(&vec![(0, 4)]), vec![0, 1, 2]);
}

#[test]
fn walk_of_a_four_sided_gore() {
    let plan = seam_walk_plan(&vec![3, 1, 2, 1]);
    assert_eq!(plan.len(), 4);
    assert_eq!(plan[0].len(), 3);
    assert_eq!(
        plan[0][0],
        VertexPlan {
            prev: PointRef { segment: 3, index: 0 },
            next: PointRef { segment: 0, index: 1 },
            arriving_allowance: 3,
            leaving_allowance: 0,
            corner: true,
        }
    );
    assert_eq!(
        plan[0][2],
        VertexPlan {
            prev: PointRef { segment: 0, index: 1 },
            next: PointRef { segment: 1, index: 0 },
            arriving_allowance: 0,
            leaving_allowance: 0,
            corner: false,
        }
    );
    assert_eq!(
        plan[1][0],
        VertexPlan {
            prev: PointRef { segment: 0, index: 2 },
            next: PointRef { segment: 2, index: 0 },
            arriving_allowance: 0,
            leaving_allowance: 1,
            corner: true,
        }
    );
    assert_eq!(plan[3][0].next, PointRef { segment: 0, index: 0 });
}

#[test]
fn walk_of_a_single_segment_loop() {
    let plan = seam_walk_plan(&vec![3]);
    assert_eq!(plan[0][0].prev, PointRef { segment: 0, index: 2 });
    assert_eq!(plan[0][2].next, PointRef { segment: 0, index: 0 });
    assert!(plan[0].iter().all(|p| p.leaving_allowance == 0 && p.arriving_allowance == 0));
}
