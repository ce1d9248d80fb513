//! Generic Tuple sketches: each retained key carries a summary of a type the
//! user defines by implementing [`TupleSummary`].
//!
//! The engine passes the hash table's growth policy as its literal
//! multiplier, see [`resize_factor_multiplier`].

use crate::error::{config_outcome, config_result, SketchError};
use crate::tuple::{ResizeFactor, DEFAULT_LG_K, DEFAULT_P_BITS};
use core::marker::PhantomData;
use vstd::prelude::*;

verus! {

/// A user-defined per-entry summary for a generic Tuple sketch.
///
/// `union_combine`, `intersection_combine` and `Clone::clone` are invoked by
/// the engine, which cannot recover from a panic inside them (it has no way
/// to roll back an insert): make them total. `create` runs before any engine
/// call.
pub trait TupleSummary: Clone + Send + 'static {
    /// The value passed to the sketch's `update_*` methods. May be unsized.
    type Update: ?Sized;

    /// Builds a summary from a single update value.
    fn create(update: &Self::Update) -> Self;

    /// Merges `other` into `self` with union semantics. Used both when a key
    /// is updated more than once and when two sketches are unioned.
    fn union_combine(&mut self, other: &Self);

    /// Merges `other` into `self` with intersection semantics. There is
    /// deliberately no default: no intersection policy is sensible in
    /// general.
    fn intersection_combine(&mut self, other: &Self);
}

/// The multiplier a [`ResizeFactor`] stands for.
pub open spec fn multiplier(rf: ResizeFactor) -> u8 {
    match rf {
        ResizeFactor::X1 => 1,
        ResizeFactor::X2 => 2,
        ResizeFactor::X4 => 4,
        ResizeFactor::X8 => 8,
    }
}

/// The literal growth multiplier handed to the engine for a
/// [`ResizeFactor`]: `1`, `2`, `4` or `8`.
pub fn resize_factor_multiplier(rf: ResizeFactor) -> (m: u8)
    ensures
        m == multiplier(rf),
{
    match rf {
        ResizeFactor::X1 => 1,
        ResizeFactor::X2 => 2,
        ResizeFactor::X4 => 4,
        ResizeFactor::X8 => 8,
    }
}

/// The growth multipliers are the powers of two from `1` to `8`, doubling
/// from one factor to the next, and the default factor grows by `8`.
pub proof fn lemma_multiplier_doubles()
    ensures
        multiplier(ResizeFactor::X1) == 1,
        multiplier(ResizeFactor::X2) == 2 * multiplier(ResizeFactor::X1),
        multiplier(ResizeFactor::X4) == 2 * multiplier(ResizeFactor::X2),
        multiplier(ResizeFactor::X8) == 2 * multiplier(ResizeFactor::X4),
        forall|rf: ResizeFactor|
            #![auto]
            multiplier(rf) == 1 || multiplier(rf) == 2 || multiplier(rf) == 4 || multiplier(rf)
                == 8,
{
}

/// A summary as handed to the engine: the engine only ever sees summaries
/// wrapped this way, and reads the user's value back out of them.
pub struct Adapter<S: TupleSummary> {
    value: S,
}

impl<S: TupleSummary> Adapter<S> {
    /// The wrapped summary.
    pub closed spec fn summary(self) -> S {
        self.value
    }

    /// Wraps a user summary.
    pub fn new(value: S) -> (a: Self)
        ensures
            a.summary() == value,
    {
        Self { value }
    }

    /// The wrapped summary, for reading.
    pub fn value(&self) -> (v: &S)
        ensures
            *v == self.summary(),
    {
        &self.value
    }

    /// The wrapped summary, for combining into.
    pub fn value_mut(&mut self) -> (v: &mut S)
        ensures
            *v == old(self).summary(),
            final(self).summary() == *final(v),
    {
        &mut self.value
    }
}

/// Builder for a generic Tuple sketch over summaries `S`. `lg_k` defaults to
/// `12`, `resize_factor` to [`ResizeFactor::X8`], `p` to `1.0`.
#[derive(Debug)]
pub struct TupleSketchBuilder<S: TupleSummary> {
    lg_k: u8,
    resize_factor: ResizeFactor,
    p_bits: u32,
    _marker: PhantomData<S>,
}

impl<S: TupleSummary> TupleSketchBuilder<S> {
    /// The `lg_k` this builder will hand to the engine.
    pub closed spec fn configured_lg_k(self) -> u8 {
        self.lg_k
    }

    /// The growth policy this builder will hand to the engine.
    pub closed spec fn configured_resize_factor(self) -> ResizeFactor {
        self.resize_factor
    }

    /// The bit pattern of the sampling probability this builder will hand to
    /// the engine.
    pub closed spec fn configured_p_bits(self) -> u32 {
        self.p_bits
    }
}

impl<S: TupleSummary> Clone for TupleSketchBuilder<S> {
    fn clone(&self) -> (b: Self)
        ensures
            b == *self,
    {
        *self
    }
}

impl<S: TupleSummary> Copy for TupleSketchBuilder<S> {

}

impl<S: TupleSummary> Default for TupleSketchBuilder<S> {
    fn default() -> (b: Self)
        ensures
            b.configured_lg_k() == DEFAULT_LG_K,
            b.configured_resize_factor() == ResizeFactor::X8,
            b.configured_p_bits() == DEFAULT_P_BITS,
    {
        Self {
            lg_k: DEFAULT_LG_K,
            resize_factor: ResizeFactor::X8,
            p_bits: DEFAULT_P_BITS,
            _marker: PhantomData,
        }
    }
}

impl<S: TupleSummary> TupleSketchBuilder<S> {
    /// Creates a builder with default settings (`lg_k = 12`,
    /// `resize_factor = X8`, `p = 1.0`).
    pub fn new() -> (b: Self)
        ensures
            b.configured_lg_k() == DEFAULT_LG_K,
            b.configured_resize_factor() == ResizeFactor::X8,
            b.configured_p_bits() == DEFAULT_P_BITS,
    {
        Self::default()
    }

    /// Sets the base-2 log of the target number of retained entries.
    pub fn lg_k(self, lg_k: u8) -> (b: Self)
        ensures
            b.configured_lg_k() == lg_k,
            b.configured_resize_factor() == self.configured_resize_factor(),
            b.configured_p_bits() == self.configured_p_bits(),
    {
        let mut b = self;
        b.lg_k = lg_k;
        b
    }

    /// Sets the hash table's growth [`ResizeFactor`].
    pub fn resize_factor(self, resize_factor: ResizeFactor) -> (b: Self)
        ensures
            b.configured_lg_k() == self.configured_lg_k(),
            b.configured_resize_factor() == resize_factor,
            b.configured_p_bits() == self.configured_p_bits(),
    {
        let mut b = self;
        b.resize_factor = resize_factor;
        b
    }

    /// Sets the sampling probability, given as the bit pattern of its
    /// single-precision value. `1.0` disables sampling.
    pub fn p(self, p_bits: u32) -> (b: Self)
        ensures
            b.configured_lg_k() == self.configured_lg_k(),
            b.configured_resize_factor() == self.configured_resize_factor(),
            b.configured_p_bits() == p_bits,
    {
        let mut b = self;
        b.p_bits = p_bits;
        b
    }

    /// Builds the sketch: calls `construct` once with the configured
    /// `lg_k`, the growth policy's multiplier and `p`, and returns a sketch
    /// around what it built (with no scratch slot allocated yet), or
    /// [`SketchError::InvalidConfig`] with the engine's message if the
    /// engine rejected the configuration (`lg_k` out of range, or `p`
    /// outside `(0, 1]`).
    pub fn build<H, B, F>(self, construct: F) -> (r: Result<TupleSketch<S, H, B>, SketchError>) where
        F: FnOnce(u8, u8, u32) -> Result<H, String>,

        requires
            call_requires(
                construct,
                (
                    self.configured_lg_k(),
                    multiplier(self.configured_resize_factor()),
                    self.configured_p_bits(),
                ),
            ),
        ensures
            exists|out: Result<H, String>|
                {
                    &&& call_ensures(
                        construct,
                        (
                            self.configured_lg_k(),
                            multiplier(self.configured_resize_factor()),
                            self.configured_p_bits(),
                        ),
                        out,
                    )
                    &&& (out matches Ok(h) ==> (r matches Ok(s) && s.engine() == h
                        && !s.scratch_loaded()))
                    &&& (out matches Err(m) ==> r == Err::<TupleSketch<S, H, B>, SketchError>(
                        SketchError::InvalidConfig(m),
                    ))
                },
    {
        let out = construct(self.lg_k, resize_factor_multiplier(self.resize_factor), self.p_bits);
        match out {
            Ok(inner) => Ok(TupleSketch { inner, scratch: None, _marker: PhantomData }),
            Err(m) => Err(SketchError::InvalidConfig(m)),
        }
    }
}

/// A generic Tuple update sketch: the engine's sketch `H`, and the reusable
/// scratch slot `B` in which each update's summary is handed to the engine.
///
/// Building a fresh engine-side summary per update would allocate on every
/// update, even for keys the engine then discards; the slot is allocated on
/// the first update and refilled in place afterwards. It is not part of the
/// sketch's logical state: it holds whatever the last update left there.
pub struct TupleSketch<S: TupleSummary, H, B> {
    inner: H,
    scratch: Option<B>,
    _marker: PhantomData<S>,
}

impl<S: TupleSummary, H, B> TupleSketch<S, H, B> {
    /// The engine's sketch.
    pub closed spec fn engine(self) -> H {
        self.inner
    }

    /// Whether the scratch slot has been allocated, which happens on the
    /// first update.
    pub closed spec fn scratch_loaded(self) -> bool {
        self.scratch is Some
    }

    /// The summary held in the scratch slot, once it is loaded.
    pub closed spec fn scratch_value(self) -> B {
        self.scratch->0
    }

    /// Adds a key: `S::create` runs once on `value` (entirely on the Rust
    /// side, before the engine is involved); the summary it creates is loaded
    /// into the scratch slot, by `erase` on the sketch's first update (the
    /// one allocation) and by `refill` in place on every later one; then
    /// `apply` (the engine's update with the key) is called once with the
    /// engine's sketch and the loaded slot.
    pub fn update<R, E, A>(&mut self, value: &S::Update, refill: R, erase: E, apply: A) where
        R: FnOnce(&mut B, S),
        E: FnOnce(S) -> B,
        A: FnOnce(&mut H, &B),

        requires
            forall|b: &mut B, v: S| call_requires(refill, (b, v)),
            forall|v: S| call_requires(erase, (v,)),
            forall|h: &mut H, b: &B| call_requires(apply, (h, b)),
        ensures
            final(self).scratch_loaded(),
            exists|c: S|
                #![trigger call_ensures(S::create, (value,), c)]
                {
                    &&& call_ensures(S::create, (value,), c)
                    &&& !old(self).scratch_loaded() ==> call_ensures(
                        erase,
                        (c,),
                        final(self).scratch_value(),
                    )
                    &&& old(self).scratch_loaded() ==> exists|slot: &mut B|
                        *slot == old(self).scratch_value() && *final(slot)
                            == final(self).scratch_value() && call_ensures(refill, (slot, c), ())
                },
            exists|h: &mut H|
                {
                    &&& *h == old(self).engine()
                    &&& *final(h) == final(self).engine()
                    &&& call_ensures(apply, (h, &final(self).scratch_value()), ())
                },
    {
        let create = S::create;
        let summary = create(value);
        load_scratch(&mut self.scratch, summary, refill, erase);
        let loaded = filled(&self.scratch);
        apply(&mut self.inner, loaded);
    }

    /// The engine's sketch, for reading.
    pub fn inner(&self) -> (h: &H)
        ensures
            *h == self.engine(),
    {
        &self.inner
    }

    /// The engine's sketch, for trimming and resetting. The scratch slot is
    /// kept: a reset sketch is likely to be updated again.
    pub fn inner_mut(&mut self) -> (h: &mut H)
        ensures
            *h == old(self).engine(),
            final(self).engine() == *final(h),
            final(self).scratch_loaded() == old(self).scratch_loaded(),
    {
        &mut self.inner
    }
}

/// Builder for a generic Tuple union over summaries `S`. `lg_k` defaults to
/// `12`, `resize_factor` to [`ResizeFactor::X8`], `p` to `1.0`. Summaries
/// of a key present in more than one input are merged with
/// [`TupleSummary::union_combine`].
#[derive(Debug)]
pub struct TupleUnionBuilder<S: TupleSummary> {
    lg_k: u8,
    resize_factor: ResizeFactor,
    p_bits: u32,
    _marker: PhantomData<S>,
}

impl<S: TupleSummary> TupleUnionBuilder<S> {
    /// The `lg_k` this builder will hand to the engine.
    pub closed spec fn configured_lg_k(self) -> u8 {
        self.lg_k
    }

    /// The growth policy this builder will hand to the engine.
    pub closed spec fn configured_resize_factor(self) -> ResizeFactor {
        self.resize_factor
    }

    /// The bit pattern of the sampling probability this builder will hand to
    /// the engine.
    pub closed spec fn configured_p_bits(self) -> u32 {
        self.p_bits
    }
}

impl<S: TupleSummary> Clone for TupleUnionBuilder<S> {
    fn clone(&self) -> (b: Self)
        ensures
            b == *self,
    {
        *self
    }
}

impl<S: TupleSummary> Copy for TupleUnionBuilder<S> {

}

impl<S: TupleSummary> Default for TupleUnionBuilder<S> {
    fn default() -> (b: Self)
        ensures
            b.configured_lg_k() == DEFAULT_LG_K,
            b.configured_resize_factor() == ResizeFactor::X8,
            b.configured_p_bits() == DEFAULT_P_BITS,
    {
        Self {
            lg_k: DEFAULT_LG_K,
            resize_factor: ResizeFactor::X8,
            p_bits: DEFAULT_P_BITS,
            _marker: PhantomData,
        }
    }
}

impl<S: TupleSummary> TupleUnionBuilder<S> {
    /// Creates a builder with default settings.
    pub fn new() -> (b: Self)
        ensures
            b.configured_lg_k() == DEFAULT_LG_K,
            b.configured_resize_factor() == ResizeFactor::X8,
            b.configured_p_bits() == DEFAULT_P_BITS,
    {
        Self::default()
    }

    /// Sets the base-2 log of the target number of retained entries.
    pub fn lg_k(self, lg_k: u8) -> (b: Self)
        ensures
            b.configured_lg_k() == lg_k,
            b.configured_resize_factor() == self.configured_resize_factor(),
            b.configured_p_bits() == self.configured_p_bits(),
    {
        let mut b = self;
        b.lg_k = lg_k;
        b
    }

    /// Sets the hash table's growth [`ResizeFactor`].
    pub fn resize_factor(self, resize_factor: ResizeFactor) -> (b: Self)
        ensures
            b.configured_lg_k() == self.configured_lg_k(),
            b.configured_resize_factor() == resize_factor,
            b.configured_p_bits() == self.configured_p_bits(),
    {
        let mut b = self;
        b.resize_factor = resize_factor;
        b
    }

    /// Sets the sampling probability, given as the bit pattern of its
    /// single-precision value.
    pub fn p(self, p_bits: u32) -> (b: Self)
        ensures
            b.configured_lg_k() == self.configured_lg_k(),
            b.configured_resize_factor() == self.configured_resize_factor(),
            b.configured_p_bits() == p_bits,
    {
        let mut b = self;
        b.p_bits = p_bits;
        b
    }

    /// Builds the union: calls `construct` once with the configured `lg_k`,
    /// the growth policy's multiplier and `p`, and returns what it built, or
    /// [`SketchError::InvalidConfig`] with the engine's message.
    pub fn build<H, F>(self, construct: F) -> (r: Result<H, SketchError>) where
        F: FnOnce(u8, u8, u32) -> Result<H, String>,

        requires
            call_requires(
                construct,
                (
                    self.configured_lg_k(),
                    multiplier(self.configured_resize_factor()),
                    self.configured_p_bits(),
                ),
            ),
        ensures
            exists|out: Result<H, String>|
                call_ensures(
                    construct,
                    (
                        self.configured_lg_k(),
                        multiplier(self.configured_resize_factor()),
                        self.configured_p_bits(),
                    ),
                    out,
                ) && r == config_outcome(out),
            r is Err ==> (r matches Err(SketchError::InvalidConfig(_))),
    {
        let out = construct(self.lg_k, resize_factor_multiplier(self.resize_factor), self.p_bits);
        config_result(out)
    }
}

/// Loads an update's summary into a sketch's reusable scratch slot, which
/// is handed to the engine as the update's value. The slot is empty only
/// before a sketch's first update: then `erase` wraps the summary into a new
/// slot value (the one allocation); afterwards `refill` overwrites the
/// existing one in place. Either way the slot is filled afterwards.
fn load_scratch<S, B, R, E>(scratch: &mut Option<B>, value: S, refill: R, erase: E) where
    R: FnOnce(&mut B, S),
    E: FnOnce(S) -> B,

    requires
        (*old(scratch)) is Some ==> forall|b: &mut B| call_requires(refill, (b, value)),
        (*old(scratch)) is None ==> call_requires(erase, (value,)),
    ensures
        (*final(scratch)) is Some,
        (*old(scratch)) is None ==> call_ensures(erase, (value,), (*final(scratch))->0),
        (*old(scratch)) is Some ==> exists|slot: &mut B|
            *slot == (*old(scratch))->0 && *final(slot) == (*final(scratch))->0 && call_ensures(
                refill,
                (slot, value),
                (),
            ),
{
    match scratch {
        Some(existing) => refill(existing, value),
        None => {
            *scratch = Some(erase(value));
        },
    }
}

/// The summary [`load_scratch`] just loaded.
fn filled<B>(scratch: &Option<B>) -> (b: &B)
    requires
        scratch is Some,
    ensures
        *b == scratch->0,
{
    scratch.as_ref().unwrap()
}

} // verus!
