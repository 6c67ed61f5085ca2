use emstudio::sweep::{cartesian_product, variation_dir_name, SweepError, SweepKind};

#[test]
fn variation_dir_names() {
    assert_eq!(variation_dir_name(1), "variation_001");
    assert_eq!(variation_dir_name(42), "variation_042");
    assert_eq!(variation_dir_name(100), "variation_100");
}

#[test]
fn variation_dir_names_wide_and_zero() {
    assert_eq!(variation_dir_name(0), "variation_000");
    assert_eq!(variation_dir_name(1234), "variation_1234");
    assert_ne!(variation_dir_name(7), variation_dir_name(70));
}

#[test]
fn cartesian_product_odometer_order() {
    let names = vec!["x".to_string(), "y".to_string()];
    let lists = vec![vec![1.0f64, 2.0, 3.0], vec![10.0, 20.0]];
    let combos = cartesian_product(&names, &lists);
    assert_eq!(combos.len(), 6);
    assert_eq!(combos[0], vec![1.0, 10.0]);
    assert_eq!(combos[1], vec![1.0, 20.0]);
    assert_eq!(combos[2], vec![2.0, 10.0]);
    assert_eq!(combos[5], vec![3.0, 20.0]);
}

#[test]
fn cartesian_product_edge_cases() {
    let none: Vec<String> = Vec::new();
    let no_lists: Vec<Vec<u32>> = Vec::new();
    assert!(cartesian_product(&none, &no_lists).is_empty());

    let names = vec!["a".to_string(), "b".to_string()];
    let with_empty = vec![vec![1u32, 2], vec![]];
    assert!(cartesian_product(&names, &with_empty).is_empty());

    let one = vec!["a".to_string()];
    let single = vec![vec![5u32]];
    assert_eq!(cartesian_product(&one, &single), vec![vec![5u32]]);

    let three = vec!["a".to_string(), "b".to_string(), "c".to_string()];
    let lists = vec![vec![0u8, 1], vec![0u8, 1], vec![0u8, 1]];
    let combos = cartesian_product(&three, &lists);
    assert_eq!(combos.len(), 8);
    for (k, c) in combos.iter().enumerate() {
        let bits = vec![((k >> 2) & 1) as u8, ((k >> 1) & 1) as u8, (k & 1) as u8];
        assert_eq!(c, &bits);
    }
}

#[test]
fn sweep_kinds_by_name() {
    assert_eq!(SweepKind::from_name("LinearStep").unwrap(), SweepKind::LinearStep);
    assert_eq!(SweepKind::from_name("LinearCount").unwrap(), SweepKind::LinearCount);
    assert_eq!(SweepKind::from_name("LogScale").unwrap(), SweepKind::LogScale);
    assert_eq!(SweepKind::from_name("DiscreteList").unwrap(), SweepKind::DiscreteList);
    match SweepKind::from_name("RandomWalk") {
        Err(SweepError::UnknownType(n)) => assert_eq!(n, "RandomWalk"),
        other => panic!("{:?}", other),
    }
}
