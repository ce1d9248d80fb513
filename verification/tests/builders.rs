use apache_datasketches::cpc::{CpcSketchBuilder, CpcUnionBuilder};
use apache_datasketches::theta::{ResizeFactor, ThetaSketchBuilder, ThetaUnionBuilder};
use apache_datasketches::tuple::generic::{
    resize_factor_multiplier, Adapter, TupleSketch, TupleSketchBuilder, TupleSummary,
    TupleUnionBuilder,
};
use apache_datasketches::tuple::ResizeFactor as TupleResizeFactor;
use apache_datasketches::SketchError;

fn accept_lg_k(lg_k: u8) -> Result<u8, String> {
    Ok(lg_k)
}

fn reject_above_26(lg_k: u8) -> Result<u8, String> {
    if (4..=26).contains(&lg_k) {
        Ok(lg_k)
    } else {
        Err(format!("lg_k must be in [4, 26], got {lg_k}"))
    }
}

#[test]
fn cpc_sketch_builder_defaults_to_lg_k_11() {
    assert_eq!(CpcSketchBuilder::new().build(accept_lg_k).unwrap(), 11);
    assert_eq!(CpcSketchBuilder::default().build(accept_lg_k).unwrap(), 11);
}

#[test]
fn cpc_sketch_builder_hands_configured_lg_k_to_engine() {
    assert_eq!(CpcSketchBuilder::new().lg_k(4).build(accept_lg_k).unwrap(), 4);
    assert_eq!(CpcSketchBuilder::new().lg_k(26).lg_k(20).build(accept_lg_k).unwrap(), 20);
}

#[test]
fn cpc_sketch_builder_maps_engine_rejection_to_invalid_config() {
    let err = CpcSketchBuilder::new().lg_k(30).build(reject_above_26).unwrap_err();
    match err {
        SketchError::InvalidConfig(m) => assert_eq!(m, "lg_k must be in [4, 26], got 30"),
        other => panic!("unexpected error {other:?}"),
    }
}

#[test]
fn cpc_union_builder_defaults_and_setter() {
    assert_eq!(CpcUnionBuilder::new().build(accept_lg_k).unwrap(), 11);
    assert_eq!(CpcUnionBuilder::new().lg_k(5).build(accept_lg_k).unwrap(), 5);
    let err = CpcUnionBuilder::new().lg_k(3).build(reject_above_26).unwrap_err();
    assert!(matches!(err, SketchError::InvalidConfig(_)));
}

#[test]
fn cpc_builder_calls_engine_exactly_once() {
    let mut calls = 0;
    let r = CpcSketchBuilder::new().build(|lg_k| {
        calls += 1;
        Ok::<u8, String>(lg_k)
    });
    assert_eq!(r.unwrap(), 11);
    assert_eq!(calls, 1);
}

fn theta_config(lg_k: u8, rf: ResizeFactor, p: u32) -> Result<(u8, ResizeFactor, f32), String> {
    Ok((lg_k, rf, f32::from_bits(p)))
}

#[test]
fn theta_sketch_builder_defaults() {
    let (lg_k, rf, p) = ThetaSketchBuilder::new().build(theta_config).unwrap();
    assert_eq!(lg_k, 12);
    assert_eq!(rf, ResizeFactor::X8);
    assert_eq!(p, 1.0);
    assert_eq!(ResizeFactor::default(), ResizeFactor::X8);
}

#[test]
fn theta_sketch_builder_setters_touch_only_their_field() {
    let (lg_k, rf, p) = ThetaSketchBuilder::new()
        .lg_k(9)
        .resize_factor(ResizeFactor::X2)
        .p(0.25f32.to_bits())
        .build(theta_config)
        .unwrap();
    assert_eq!((lg_k, rf, p), (9, ResizeFactor::X2, 0.25));
    let (lg_k, rf, p) = ThetaSketchBuilder::new().resize_factor(ResizeFactor::X1).build(theta_config).unwrap();
    assert_eq!((lg_k, rf, p), (12, ResizeFactor::X1, 1.0));
}

#[test]
fn theta_union_builder_defaults_and_rejection() {
    let (lg_k, rf, p) = ThetaUnionBuilder::new().build(theta_config).unwrap();
    assert_eq!((lg_k, rf, p), (12, ResizeFactor::X8, 1.0));
    let (lg_k, rf, p) = ThetaUnionBuilder::new()
        .lg_k(15)
        .resize_factor(ResizeFactor::X4)
        .p(0.5f32.to_bits())
        .build(theta_config)
        .unwrap();
    assert_eq!((lg_k, rf, p), (15, ResizeFactor::X4, 0.5));
    let err = ThetaUnionBuilder::new()
        .build(|_, _, _| Err::<(), String>("p must be in (0, 1]".to_string()))
        .unwrap_err();
    match err {
        SketchError::InvalidConfig(m) => assert_eq!(m, "p must be in (0, 1]"),
        other => panic!("unexpected error {other:?}"),
    }
}

#[test]
fn resize_factor_multipliers() {
    assert_eq!(resize_factor_multiplier(TupleResizeFactor::X1), 1);
    assert_eq!(resize_factor_multiplier(TupleResizeFactor::X2), 2);
    assert_eq!(resize_factor_multiplier(TupleResizeFactor::X4), 4);
    assert_eq!(resize_factor_multiplier(TupleResizeFactor::X8), 8);
    assert_eq!(resize_factor_multiplier(TupleResizeFactor::default()), 8);
}

#[derive(Clone, Debug, PartialEq)]
struct Count(u64);

impl TupleSummary for Count {
    type Update = ();
    fn create(_: &()) -> Self {
        Count(1)
    }
    fn union_combine(&mut self, other: &Self) {
        self.0 += other.0;
    }
    fn intersection_combine(&mut self, other: &Self) {
        self.0 = self.0.min(other.0);
    }
}

#[test]
fn tuple_sketch_builder_passes_multiplier() {
    let r: TupleSketch<Count, _, Box<Count>> = TupleSketchBuilder::<Count>::new()
        .build(|lg_k, m, p| Ok::<_, String>((lg_k, m, f32::from_bits(p))))
        .unwrap();
    assert_eq!(*r.inner(), (12, 8, 1.0));
    let r: TupleSketch<Count, _, Box<Count>> = TupleSketchBuilder::<Count>::new()
        .lg_k(10)
        .resize_factor(TupleResizeFactor::X2)
        .p(0.75f32.to_bits())
        .build(|lg_k, m, p| Ok::<_, String>((lg_k, m, f32::from_bits(p))))
        .unwrap();
    assert_eq!(*r.inner(), (10, 2, 0.75));
    let err = TupleSketchBuilder::<Count>::new()
        .lg_k(1)
        .build::<(), Box<Count>, _>(|_, _, _| Err("lg_k too small".to_string()))
        .err()
        .unwrap();
    assert!(matches!(err, SketchError::InvalidConfig(ref m) if m == "lg_k too small"));
}

#[test]
fn tuple_union_builder_passes_multiplier_and_maps_errors() {
    let r = TupleUnionBuilder::<Count>::new()
        .resize_factor(TupleResizeFactor::X4)
        .build(|lg_k, m, _| Ok::<_, String>((lg_k, m)))
        .unwrap();
    assert_eq!(r, (12, 4));
    let err = TupleUnionBuilder::<Count>::new()
        .lg_k(2)
        .build(|_, _, _| Err::<(), String>("bad lg_k".to_string()))
        .unwrap_err();
    assert!(matches!(err, SketchError::InvalidConfig(ref m) if m == "bad lg_k"));
}

#[test]
fn adapter_wraps_and_combines_summaries() {
    let mut a = Adapter::new(Count::create(&()));
    assert_eq!(a.value(), &Count(1));
    a.value_mut().union_combine(&Count(4));
    assert_eq!(a.value(), &Count(5));
    a.value_mut().intersection_combine(&Count(2));
    assert_eq!(a.value(), &Count(2));
}

#[test]
fn tuple_sketch_update_allocates_scratch_once() {
    let mut sketch: TupleSketch<Count, Vec<(u64, u64)>, Box<Count>> =
        TupleSketchBuilder::<Count>::new().build(|_, _, _| Ok::<_, String>(Vec::new())).unwrap();
    let mut allocations = 0;
    for key in [5u64, 6, 5] {
        sketch.update(
            &(),
            |slot: &mut Box<Count>, v| **slot = v,
            |v| {
                allocations += 1;
                Box::new(v)
            },
            |table: &mut Vec<(u64, u64)>, summary: &Box<Count>| table.push((key, summary.0)),
        );
    }
    assert_eq!(allocations, 1);
    assert_eq!(*sketch.inner(), vec![(5, 1), (6, 1), (5, 1)]);
    sketch.inner_mut().clear();
    assert!(sketch.inner().is_empty());
}

#[test]
fn generic_builders_are_copy_and_clone() {
    let b = TupleSketchBuilder::<Count>::new().lg_k(9);
    let copied = b;
    let cloned = b.clone();
    for builder in [b, copied, cloned] {
        let s: TupleSketch<Count, _, Box<Count>> =
            builder.build(|lg_k, _, _| Ok::<u8, String>(lg_k)).unwrap();
        assert_eq!(*s.inner(), 9);
    }
    assert!(format!("{b:?}").contains("lg_k: 9"));
    let u = TupleUnionBuilder::<Count>::new().lg_k(7);
    let u2 = u;
    assert_eq!(u.clone().build(|lg_k, _, _| Ok::<u8, String>(lg_k)).unwrap(), 7);
    assert_eq!(u2.build(|lg_k, _, _| Ok::<u8, String>(lg_k)).unwrap(), 7);
}
