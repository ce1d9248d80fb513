use apache_datasketches::tuple::{
    array_of_doubles_jaccard_similarity, check_same_num_values, group_entries,
    ArrayOfDoublesAnotB, ArrayOfDoublesIntersection, ArrayOfDoublesSketchBuilder,
    ArrayOfDoublesUnionBuilder, ResizeFactor,
};
use apache_datasketches::SketchError;

type Config = (u8, ResizeFactor, f32, u8);

fn engine(lg_k: u8, rf: ResizeFactor, p: u32, num_values: u8) -> Result<Config, String> {
    Ok((lg_k, rf, f32::from_bits(p), num_values))
}

fn invalid_config_message(e: SketchError) -> String {
    match e {
        SketchError::InvalidConfig(m) => m,
        other => panic!("unexpected error {other:?}"),
    }
}

#[test]
fn sketch_builder_defaults() {
    let s = ArrayOfDoublesSketchBuilder::new().build(engine).unwrap();
    assert_eq!(*s.inner(), (12, ResizeFactor::X8, 1.0, 1));
    assert_eq!(s.get_num_values(), 1);
}

#[test]
fn sketch_builder_setters() {
    let s = ArrayOfDoublesSketchBuilder::new()
        .lg_k(10)
        .resize_factor(ResizeFactor::X2)
        .p(0.5f32.to_bits())
        .num_values(3)
        .build(engine)
        .unwrap();
    assert_eq!(*s.inner(), (10, ResizeFactor::X2, 0.5, 3));
    assert_eq!(s.get_num_values(), 3);
}

#[test]
fn sketch_builder_refuses_zero_width_without_calling_engine() {
    let mut called = false;
    let err = ArrayOfDoublesSketchBuilder::new()
        .num_values(0)
        .build(|a, b, c, d| {
            called = true;
            engine(a, b, c, d)
        })
        .err()
        .unwrap();
    assert_eq!(invalid_config_message(err), "num_values must be at least 1");
    assert!(!called);
}

#[test]
fn sketch_builder_maps_engine_rejection() {
    let err = ArrayOfDoublesSketchBuilder::new()
        .lg_k(40)
        .build(|_, _, _, _| Err::<(), String>("lg_k out of range".to_string()))
        .err()
        .unwrap();
    assert_eq!(invalid_config_message(err), "lg_k out of range");
}

#[test]
fn check_values_accepts_exact_width_only() {
    let s = ArrayOfDoublesSketchBuilder::new().num_values(2).build(engine).unwrap();
    assert!(s.check_values(&[1.0, 2.5]).is_ok());
    assert_eq!(
        invalid_config_message(s.check_values(&[1.0]).unwrap_err()),
        "expected 2 values, got 1"
    );
    assert_eq!(
        invalid_config_message(s.check_values(&[1.0, 2.0, 3.0]).unwrap_err()),
        "expected 2 values, got 3"
    );
    let empty: [f64; 0] = [];
    assert_eq!(
        invalid_config_message(s.check_values(&empty).unwrap_err()),
        "expected 2 values, got 0"
    );
}

#[test]
fn width_survives_engine_mutation() {
    let mut s = ArrayOfDoublesSketchBuilder::new().num_values(4).build(engine).unwrap();
    s.inner_mut().0 = 20;
    assert_eq!(s.inner().0, 20);
    assert_eq!(s.get_num_values(), 4);
    assert!(s.check_values(&[0.0; 4]).is_ok());
}

#[test]
fn entries_group_values_by_width() {
    let s = ArrayOfDoublesSketchBuilder::new().num_values(2).build(engine).unwrap();
    let hashes = [10u64, 20, 30];
    let values = [1.0, 2.0, 3.0, 4.0, 5.0, 6.0];
    let entries = s.entries(&hashes, &values);
    assert_eq!(
        entries,
        vec![(10, vec![1.0, 2.0]), (20, vec![3.0, 4.0]), (30, vec![5.0, 6.0])]
    );
}

#[test]
fn group_entries_edge_cases() {
    let none: Vec<(u64, Vec<u32>)> = Vec::new();
    assert_eq!(group_entries(0, &[1, 2], &[1u32, 2]), none);
    assert_eq!(group_entries(3, &[], &[1u32, 2, 3]), none);
    assert_eq!(group_entries(3, &[7], &[] as &[u32]), none);
    // A short trailing group is kept as it is.
    assert_eq!(
        group_entries(2, &[1, 2, 3], &[1u32, 2, 3]),
        vec![(1, vec![1, 2]), (2, vec![3])]
    );
    // Pairing stops at the shorter side.
    assert_eq!(
        group_entries(1, &[1, 2], &[9u32, 8, 7]),
        vec![(1, vec![9]), (2, vec![8])]
    );
}

#[test]
fn sketch_update_applies_only_well_sized_values() {
    let mut s = ArrayOfDoublesSketchBuilder::new().num_values(2).build(engine).unwrap();
    assert!(s.update(&[1.0, 2.0], |h| h.0 += 1).is_ok());
    assert_eq!(s.inner().0, 13);
    let err = s.update(&[1.0], |h| h.0 += 1).unwrap_err();
    assert_eq!(invalid_config_message(err), "expected 2 values, got 1");
    assert_eq!(s.inner().0, 13);
    assert_eq!(s.get_num_values(), 2);
}

#[test]
fn union_builder_and_update_check() {
    let mut u = ArrayOfDoublesUnionBuilder::new().num_values(2).build(engine).unwrap();
    assert_eq!(*u.inner(), (12, ResizeFactor::X8, 1.0, 2));
    assert_eq!(u.get_num_values(), 2);
    assert!(u.update(2, |h| h.0 = 7).is_ok());
    assert_eq!(u.inner().0, 7);
    assert_eq!(
        invalid_config_message(u.update(3, |h| h.0 = 9).unwrap_err()),
        "num_values mismatch: union has 2, input has 3"
    );
    assert_eq!(u.inner().0, 7);
    u.inner_mut().0 = 1;
    assert_eq!(u.get_num_values(), 2);
    let err = ArrayOfDoublesUnionBuilder::new().num_values(0).build(engine).err().unwrap();
    assert_eq!(invalid_config_message(err), "num_values must be at least 1");
}

#[test]
fn union_builder_setters() {
    let u = ArrayOfDoublesUnionBuilder::new()
        .lg_k(8)
        .resize_factor(ResizeFactor::X1)
        .p(0.125f32.to_bits())
        .num_values(5)
        .build(engine)
        .unwrap();
    assert_eq!(*u.inner(), (8, ResizeFactor::X1, 0.125, 5));
}

#[test]
fn intersection_new_and_update_check() {
    let mut calls = 0;
    let mut x = ArrayOfDoublesIntersection::new(3, |n| {
        calls += 1;
        (n, 0u32)
    })
    .unwrap();
    assert_eq!(calls, 1);
    assert_eq!(*x.inner(), (3, 0));
    assert_eq!(x.get_num_values(), 3);
    assert!(matches!(
        x.get_result(false, |h| Ok::<u32, String>(h.1)),
        Err(SketchError::EmptyIntersection)
    ));
    assert!(x.update(3, |h| h.1 += 1).is_ok());
    assert_eq!(
        invalid_config_message(x.update(1, |h| h.1 += 1).unwrap_err()),
        "num_values mismatch: intersection has 3, input has 1"
    );
    assert_eq!(*x.inner(), (3, 1));
    assert!(matches!(x.get_result(true, |h| Ok::<u32, String>(h.1)), Ok(1)));
    assert!(matches!(
        x.get_result(true, |_| Err::<u32, String>("boom".to_string())),
        Err(SketchError::Cpp(ref m)) if m == "boom"
    ));
    let err = ArrayOfDoublesIntersection::new(0, |n| n).err().unwrap();
    assert_eq!(invalid_config_message(err), "num_values must be at least 1");
}

#[test]
fn set_operation_operands_must_agree() {
    assert!(check_same_num_values(2, 2).is_ok());
    assert_eq!(
        invalid_config_message(check_same_num_values(2, 13).unwrap_err()),
        "num_values mismatch: a has 2, b has 13"
    );
    assert_eq!(
        invalid_config_message(check_same_num_values(255, 0).unwrap_err()),
        "num_values mismatch: a has 255, b has 0"
    );
}

#[test]
fn a_not_b_requires_agreeing_widths() {
    let calc = ArrayOfDoublesAnotB::new(10u32);
    assert_eq!(calc.compute(2, 2, |h| *h + 1).unwrap(), 11);
    let err = calc.compute(2, 3, |h| *h + 1).unwrap_err();
    assert_eq!(invalid_config_message(err), "num_values mismatch: a has 2, b has 3");
}

#[test]
fn jaccard_requires_agreeing_widths() {
    assert_eq!(array_of_doubles_jaccard_similarity(1, 1, || 0.5).unwrap(), 0.5);
    let mut called = false;
    let err = array_of_doubles_jaccard_similarity(4, 1, || {
        called = true;
        0.5
    })
    .unwrap_err();
    assert_eq!(invalid_config_message(err), "num_values mismatch: a has 4, b has 1");
    assert!(!called);
}
