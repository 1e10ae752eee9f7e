use gaussian_splatting::gaussian::cloud::GaussianCloud;
use gaussian_splatting::gaussian::packed::Gaussian;
use gaussian_splatting::query::sparse::{
    neighbor_count,
    select_sparse,
    SparseSelect,
    DEFAULT_RADIUS_BITS,
};
use kd_tree::KdIndexTree;

fn at(position: [f32; 3]) -> Gaussian {
    let mut g = Gaussian::default();
    g.position_visibility.position = [
        position[0].to_bits(),
        position[1].to_bits(),
        position[2].to_bits(),
    ];
    g
}

fn neighbor_counts(cloud: &GaussianCloud, radius: f32) -> Vec<usize> {
    let mut positions: Vec<[f32; 3]> = Vec::new();
    let mut iter = cloud.position_iter();
    while let Some(p) = iter.next() {
        positions.push([f32::from_bits(p[0]), f32::from_bits(p[1]), f32::from_bits(p[2])]);
    }
    let tree = KdIndexTree::build_by_ordered_float(&positions);
    (0..positions.len())
        .map(|i| {
            let hits: Vec<usize> =
                tree.within_radius(&positions[i], radius).into_iter().copied().collect();
            neighbor_count(&hits, i)
        })
        .collect()
}

#[test]
fn sparse_selection() {
    let mut gaussians = vec![at([10.0, 10.0, 10.0])];
    for i in 0..7 {
        gaussians.push(at([0.001 * i as f32, 0.0, 0.001 * (i % 2) as f32]));
    }
    let cloud = GaussianCloud::from_gaussians(gaussians);
    let mut select = SparseSelect::default();
    assert_eq!(select.neighbor_threshold, 4);
    let counts = neighbor_counts(&cloud, f32::from_bits(select.radius));
    assert_eq!(counts, vec![0, 6, 6, 6, 6, 6, 6, 6]);
    assert_eq!(select.evaluate(&counts), Some(vec![0]));
    assert!(select.completed);
}

#[test]
fn default_selection_state() {
    let select = SparseSelect::default();
    assert_eq!(select.radius, 0.05f32.to_bits());
    assert_eq!(DEFAULT_RADIUS_BITS, 0.05f32.to_bits());
    assert_eq!(select.neighbor_threshold, 4);
    assert!(!select.completed);
}

#[test]
fn evaluate_does_nothing_while_completed() {
    let mut select = SparseSelect { radius: 7, neighbor_threshold: 2, completed: false };
    assert_eq!(select.evaluate(&[0, 5, 1, 2, 0]), Some(vec![0, 2, 4]));
    assert_eq!(select, SparseSelect { radius: 7, neighbor_threshold: 2, completed: true });
    assert_eq!(select.evaluate(&[0, 5, 1, 2, 0]), None);
    assert_eq!(select.evaluate(&[]), None);
    assert_eq!(select, SparseSelect { radius: 7, neighbor_threshold: 2, completed: true });
    select.completed = false;
    assert_eq!(select.evaluate(&[9, 0]), Some(vec![1]));
}

#[test]
fn select_sparse_is_strict_and_ascending() {
    assert_eq!(select_sparse(&[3, 4, 5, 0, 3], 4), vec![0, 3, 4]);
    assert_eq!(select_sparse(&[3, 4, 5], 0), Vec::<usize>::new());
    assert_eq!(select_sparse(&[], 4), Vec::<usize>::new());
    assert_eq!(select_sparse(&[0, 0], 1), vec![0, 1]);
    assert_eq!(select_sparse(&[usize::MAX - 1, usize::MAX], usize::MAX), vec![0]);
}

#[test]
fn a_splat_is_no_neighbor_of_its_own() {
    assert_eq!(neighbor_count(&[0, 1, 2], 1), 2);
    assert_eq!(neighbor_count(&[1], 1), 0);
    assert_eq!(neighbor_count(&[], 1), 0);
    assert_eq!(neighbor_count(&[4, 5, 6], 1), 3);
    assert_eq!(neighbor_count(&[1, 1, 3], 1), 1);
}
