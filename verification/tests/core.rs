use path_tracer::bvh::{build_shape, BvhShape};
use path_tracer::integrator::{trace_step, TraceAction, TraceEvent};
use path_tracer::output::{format_for_extension, OutputFormat};
use path_tracer::perlin::Perlin;
use path_tracer::texture::ImageTexture;

fn assert_is_permutation(table: &Vec<usize>) {
    assert_eq!(table.len(), 256);
    let mut seen = vec![false; 256];
    for &entry in table {
        assert!(entry < 256);
        assert!(!seen[entry], "table entry {} repeats", entry);
        seen[entry] = true;
    }
    assert!(seen.iter().all(|&s| s));
}

#[test]
fn perlin_tables_are_permutations() {
    let perlin = Perlin::new();
    assert_is_permutation(&perlin.perm_x);
    assert_is_permutation(&perlin.perm_y);
    assert_is_permutation(&perlin.perm_z);
}

#[test]
fn perlin_fresh_tables_are_shuffled_independently() {
    // Three independent draws of a 256-entry shuffle virtually never agree
    // pairwise; identical tables would mean the random source is ignored.
    let a = Perlin::perlin_generate_perm(256);
    let b = Perlin::perlin_generate_perm(256);
    let c = Perlin::perlin_generate_perm(256);
    assert_is_permutation(&a);
    assert_is_permutation(&b);
    assert_is_permutation(&c);
    assert!(a != b || b != c, "two independent shuffles agreed entirely");
}

#[test]
fn lattice_index_wraps_into_table_range() {
    assert_eq!(Perlin::lattice_index(0), 0);
    assert_eq!(Perlin::lattice_index(5), 5);
    assert_eq!(Perlin::lattice_index(255), 255);
    assert_eq!(Perlin::lattice_index(256), 0);
    assert_eq!(Perlin::lattice_index(257), 1);
    assert_eq!(Perlin::lattice_index(-1), 255);
    assert_eq!(Perlin::lattice_index(-256), 0);
    assert_eq!(Perlin::lattice_index(i32::MAX), 255);
    assert_eq!(Perlin::lattice_index(i32::MIN), 0);
}

#[test]
fn corner_index_matches_table_hash() {
    let perlin = Perlin::new();
    for &(i, j, k) in &[(0usize, 0usize, 0usize), (17, 200, 255), (255, 255, 255)] {
        for di in 0..=1usize {
            for dj in 0..=1usize {
                for dk in 0..=1usize {
                    let expected = perlin.perm_x[(i + di) & 255]
                        ^ perlin.perm_y[(j + dj) & 255]
                        ^ perlin.perm_z[(k + dk) & 255];
                    let got = perlin.corner_index(i, j, k, di, dj, dk);
                    assert_eq!(got, expected);
                    assert!(got < 256);
                }
            }
        }
    }
}

#[test]
fn corner_index_is_deterministic_per_instance() {
    let perlin = Perlin::new();
    for _ in 0..3 {
        assert_eq!(
            perlin.corner_index(12, 34, 56, 1, 0, 1),
            perlin.corner_index(12, 34, 56, 1, 0, 1)
        );
    }
}

#[test]
fn image_texture_reads_exact_pixel_bytes() {
    let bytes: Vec<u8> = (0..12).collect();
    let tex = ImageTexture::new(2, 2, bytes);
    assert_eq!(tex.lookup(0, 0), Some((0, 1, 2)));
    assert_eq!(tex.lookup(1, 0), Some((3, 4, 5)));
    assert_eq!(tex.lookup(0, 1), Some((6, 7, 8)));
    assert_eq!(tex.lookup(1, 1), Some((9, 10, 11)));
}

#[test]
fn image_texture_clamps_out_of_range_coordinates() {
    let bytes: Vec<u8> = (0..12).collect();
    let tex = ImageTexture::new(2, 2, bytes);
    assert_eq!(tex.lookup(2, 0), Some((3, 4, 5)));
    assert_eq!(tex.lookup(0, 2), Some((6, 7, 8)));
    assert_eq!(tex.lookup(u32::MAX, u32::MAX), Some((9, 10, 11)));
}

#[test]
fn image_texture_single_pixel() {
    let tex = ImageTexture::new(1, 1, vec![7, 8, 9]);
    assert_eq!(tex.lookup(0, 0), Some((7, 8, 9)));
    assert_eq!(tex.lookup(5, 5), Some((7, 8, 9)));
}

#[test]
fn image_texture_empty_raster_yields_no_pixel() {
    let tex = ImageTexture::new(0, 0, Vec::new());
    assert_eq!(tex.lookup(0, 0), None);
    assert_eq!(tex.lookup(3, 4), None);
    let wide = ImageTexture::new(4, 0, Vec::new());
    assert_eq!(wide.lookup(1, 1), None);
}

#[test]
fn integrator_depth_cutoff_is_black() {
    for event in [
        TraceEvent::Miss,
        TraceEvent::HitNoScatter,
        TraceEvent::HitScatter,
    ] {
        assert_eq!(trace_step(0, event), TraceAction::ReturnBlack);
        assert_eq!(trace_step(-3, event), TraceAction::ReturnBlack);
        assert_eq!(trace_step(i32::MIN, event), TraceAction::ReturnBlack);
    }
}

#[test]
fn integrator_actions_follow_the_event() {
    assert_eq!(
        trace_step(1, TraceEvent::Miss),
        TraceAction::ReturnBackground
    );
    assert_eq!(
        trace_step(5, TraceEvent::HitNoScatter),
        TraceAction::ReturnEmitted
    );
    assert_eq!(
        trace_step(50, TraceEvent::HitScatter),
        TraceAction::RecurseThenCombine { next_depth: 49 }
    );
    assert_eq!(
        trace_step(1, TraceEvent::HitScatter),
        TraceAction::RecurseThenCombine { next_depth: 0 }
    );
}

fn collect_leaves(shape: &BvhShape, out: &mut Vec<usize>) {
    match shape {
        BvhShape::Leaf(i) => out.push(*i),
        BvhShape::Node(l, r) => {
            collect_leaves(l, out);
            collect_leaves(r, out);
        }
    }
}

#[test]
fn bvh_shape_single_surface_is_duplicated() {
    assert_eq!(
        build_shape(0, 1),
        BvhShape::Node(Box::new(BvhShape::Leaf(0)), Box::new(BvhShape::Leaf(0)))
    );
}

#[test]
fn bvh_shape_pair_becomes_two_branches() {
    assert_eq!(
        build_shape(3, 5),
        BvhShape::Node(Box::new(BvhShape::Leaf(3)), Box::new(BvhShape::Leaf(4)))
    );
}

#[test]
fn bvh_shape_splits_at_the_midpoint() {
    let expected = BvhShape::Node(
        Box::new(BvhShape::Node(
            Box::new(BvhShape::Leaf(0)),
            Box::new(BvhShape::Leaf(0)),
        )),
        Box::new(BvhShape::Node(
            Box::new(BvhShape::Leaf(1)),
            Box::new(BvhShape::Leaf(2)),
        )),
    );
    assert_eq!(build_shape(0, 3), expected);
}

#[test]
fn bvh_shape_drops_no_surface() {
    for n in 1..40usize {
        let shape = build_shape(0, n);
        let mut leaves = Vec::new();
        collect_leaves(&shape, &mut leaves);
        leaves.sort();
        leaves.dedup();
        let expected: Vec<usize> = (0..n).collect();
        assert_eq!(leaves, expected);
    }
}

#[test]
fn format_for_extension_selects_known_formats() {
    assert_eq!(format_for_extension("jpeg"), Some(OutputFormat::Jpeg));
    assert_eq!(format_for_extension("jpg"), Some(OutputFormat::Jpeg));
    assert_eq!(format_for_extension("png"), Some(OutputFormat::Png));
    assert_eq!(format_for_extension("bmp"), Some(OutputFormat::Bmp));
    assert_eq!(format_for_extension("ico"), Some(OutputFormat::Ico));
    assert_eq!(format_for_extension("tiff"), Some(OutputFormat::Tiff));
}

#[test]
fn format_for_extension_rejects_unknown_extensions() {
    assert_eq!(format_for_extension("gif"), None);
    assert_eq!(format_for_extension("tif"), None);
    assert_eq!(format_for_extension("jpegg"), None);
    assert_eq!(format_for_extension(""), None);
    assert_eq!(format_for_extension("PNG"), None);
}
