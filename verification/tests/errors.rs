use apache_datasketches::error::{
    config_result, deserialization_result, engine_result, intersection_result,
};
use apache_datasketches::hll::TargetHllType;
use apache_datasketches::text::decimal_string;
use apache_datasketches::SketchError;

#[test]
fn error_messages() {
    assert_eq!(
        SketchError::InvalidConfig("lg_k too small".to_string()).to_string(),
        "invalid sketch configuration: lg_k too small"
    );
    assert_eq!(
        SketchError::Deserialization("truncated".to_string()).to_string(),
        "failed to deserialize sketch: truncated"
    );
    assert_eq!(
        SketchError::Cpp("boom".to_string()).to_string(),
        "datasketches C++ error: boom"
    );
    assert_eq!(
        SketchError::EmptyIntersection.to_string(),
        "intersection has no result: no update() call has been made yet"
    );
}

#[test]
fn engine_failures_map_to_their_variant() {
    assert!(matches!(config_result(Ok::<u8, String>(3)), Ok(3)));
    assert!(matches!(config_result::<u8>(Err("x".to_string())), Err(SketchError::InvalidConfig(ref m)) if m == "x"));
    assert!(matches!(deserialization_result(Ok::<u8, String>(4)), Ok(4)));
    assert!(matches!(deserialization_result::<u8>(Err("y".to_string())), Err(SketchError::Deserialization(ref m)) if m == "y"));
    assert!(matches!(engine_result(Ok::<u8, String>(5)), Ok(5)));
    assert!(matches!(engine_result::<u8>(Err("z".to_string())), Err(SketchError::Cpp(ref m)) if m == "z"));
}

#[test]
fn intersection_without_update_has_no_result() {
    let mut called = false;
    let r = intersection_result(false, || {
        called = true;
        Ok::<u8, String>(1)
    });
    assert!(matches!(r, Err(SketchError::EmptyIntersection)));
    assert!(!called);
}

#[test]
fn intersection_with_update_returns_engine_result() {
    assert!(matches!(intersection_result(true, || Ok::<u8, String>(7)), Ok(7)));
    let r = intersection_result(true, || Err::<u8, String>("seed mismatch".to_string()));
    assert!(matches!(r, Err(SketchError::Cpp(ref m)) if m == "seed mismatch"));
}

#[test]
fn decimal_rendering() {
    assert_eq!(decimal_string(0), "0");
    assert_eq!(decimal_string(7), "7");
    assert_eq!(decimal_string(10), "10");
    assert_eq!(decimal_string(255), "255");
    assert_eq!(decimal_string(1_000_000), "1000000");
    assert_eq!(decimal_string(u64::MAX), u64::MAX.to_string());
}

#[test]
fn hll_target_types_are_distinct() {
    assert_ne!(TargetHllType::Hll4, TargetHllType::Hll6);
    assert_ne!(TargetHllType::Hll6, TargetHllType::Hll8);
    assert_eq!(TargetHllType::Hll8, TargetHllType::Hll8.clone());
}
