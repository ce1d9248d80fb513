//! ArrayOfDoubles Tuple sketch family: each retained key carries a
//! fixed-width array of values (`num_values` of them), summed on collision.
//!
//! The engine trusts the width it is given: a short array would be read out
//! of bounds, and merging sketches of different widths would read and write
//! past the shorter array. So the width is fixed when a sketch, union or
//! intersection is built (never `0`), every update's array is checked against
//! it, and every set operation checks that its operands agree, all before the
//! engine is involved.

pub mod generic;

use crate::error::{config_outcome, config_result, engine_outcome, engine_result, SketchError};
use crate::text::{decimal, decimal_string};
use vstd::prelude::*;

verus! {

/// The default base-2 log of the target number of retained entries.
pub const DEFAULT_LG_K: u8 = 12;

/// The bit pattern of the single-precision value `1.0`: no sampling.
pub const DEFAULT_P_BITS: u32 = 0x3f80_0000;

/// The default number of values each retained entry carries.
pub const DEFAULT_NUM_VALUES: u8 = 1;

/// Controls how aggressively a Tuple sketch's internal hash table grows.
/// The default is `X8`.
#[derive(Debug, Clone, Copy, PartialEq, Eq, Structural)]
pub enum ResizeFactor {
    /// Grow by 1x (never resize past the initial allocation).
    X1,
    /// Grow by 2x each time the hash table fills.
    X2,
    /// Grow by 4x each time the hash table fills.
    X4,
    /// Grow by 8x each time the hash table fills. The default.
    X8,
}

impl Default for ResizeFactor {
    fn default() -> (rf: Self)
        ensures
            rf == ResizeFactor::X8,
    {
        ResizeFactor::X8
    }
}

// ---------------------------------------------------------------------------
// Messages

/// The message for a width of zero.
pub open spec fn zero_width_text() -> Seq<char> {
    "num_values must be at least 1"@
}

/// The message for an update whose array has the wrong length.
pub open spec fn values_count_text(expected: nat, got: nat) -> Seq<char> {
    "expected "@ + decimal(expected) + " values, got "@ + decimal(got)
}

/// The message for an input whose width differs from that of the union or
/// intersection (`owner`) it is fed to.
pub open spec fn input_mismatch_text(owner: Seq<char>, ours: nat, theirs: nat) -> Seq<char> {
    "num_values mismatch: "@ + owner + " has "@ + decimal(ours) + ", input has "@ + decimal(
        theirs,
    )
}

/// The message for two operands of different widths.
pub open spec fn operands_mismatch_text(a: nat, b: nat) -> Seq<char> {
    "num_values mismatch: a has "@ + decimal(a) + ", b has "@ + decimal(b)
}

fn zero_width_error() -> (e: SketchError)
    ensures
        e matches SketchError::InvalidConfig(m) && m@ == zero_width_text(),
{
    SketchError::InvalidConfig(String::from_str("num_values must be at least 1"))
}

fn input_mismatch_error(owner: &str, ours: u8, theirs: u8) -> (e: SketchError)
    ensures
        e matches SketchError::InvalidConfig(m) && m@ == input_mismatch_text(
            owner@,
            ours as nat,
            theirs as nat,
        ),
{
    let m = String::from_str("num_values mismatch: ").concat(owner).concat(" has ").concat(
        decimal_string(ours as u64).as_str(),
    ).concat(", input has ").concat(decimal_string(theirs as u64).as_str());
    SketchError::InvalidConfig(m)
}

/// Checks that two operands of a set operation carry arrays of the same
/// width: `Ok(())` exactly when `a == b`, and otherwise
/// [`SketchError::InvalidConfig`] naming both widths.
pub fn check_same_num_values(a: u8, b: u8) -> (r: Result<(), SketchError>)
    ensures
        a == b ==> r is Ok,
        a != b ==> (r matches Err(SketchError::InvalidConfig(m)) && m@ == operands_mismatch_text(
            a as nat,
            b as nat,
        )),
{
    if a != b {
        let m = String::from_str("num_values mismatch: a has ").concat(
            decimal_string(a as u64).as_str(),
        ).concat(", b has ").concat(decimal_string(b as u64).as_str());
        return Err(SketchError::InvalidConfig(m));
    }
    Ok(())
}

// ---------------------------------------------------------------------------
// Grouping retained entries

/// Whether the flat value array holds a group for entry `i`: the group
/// starts at `i * num_values`.
pub open spec fn has_group(values_len: nat, num_values: nat, i: int) -> bool {
    i * num_values < values_len
}

/// The values of entry `i`: the `num_values` consecutive values starting at
/// `i * num_values`, cut short at the end of the array.
pub open spec fn group_of<T>(values: Seq<T>, num_values: nat, i: int) -> Seq<T> {
    let start = i * num_values;
    let end = if start + num_values <= values.len() {
        start + num_values
    } else {
        values.len() as int
    };
    values.subrange(start, end)
}

/// Whether `entries` pairs each hash with its group of values: entry `i` is
/// `(hashes[i], group i)`, and there are as many entries as there are both
/// hashes and groups (none for a width of `0`).
pub open spec fn groups_entries<T>(
    hashes: Seq<u64>,
    values: Seq<T>,
    num_values: nat,
    entries: Seq<(u64, Seq<T>)>,
) -> bool {
    if num_values == 0 {
        entries.len() == 0
    } else {
        &&& entries.len() <= hashes.len()
        &&& forall|i: int| 0 <= i < entries.len() ==> has_group(values.len(), num_values, i)
        &&& entries.len() == hashes.len() || !has_group(
            values.len(),
            num_values,
            entries.len() as int,
        )
        &&& forall|i: int|
            0 <= i < entries.len() ==> #[trigger] entries[i] == (
                hashes[i],
                group_of(values, num_values, i),
            )
    }
}

/// The view of grouped entries: each entry's value vector by its sequence.
pub open spec fn entries_view<T>(entries: Seq<(u64, Vec<T>)>) -> Seq<(u64, Seq<T>)> {
    entries.map_values(|e: (u64, Vec<T>)| (e.0, e.1@))
}

/// Pairs the hashes of retained entries with their values, given as one flat
/// array in which each entry's `num_values` values are consecutive. Entry
/// `i` gets `hashes[i]` and the values starting at `i * num_values`; pairing
/// stops when either side runs out.
pub fn group_entries<T: Copy>(num_values: usize, hashes: &[u64], values: &[T]) -> (r: Vec<
    (u64, Vec<T>),
>)
    ensures
        groups_entries(hashes@, values@, num_values as nat, entries_view(r@)),
{
    let mut r: Vec<(u64, Vec<T>)> = Vec::new();
    if num_values == 0 {
        assert(entries_view(r@) =~= Seq::<(u64, Seq<T>)>::empty());
        return r;
    }
    let n = num_values;
    let mut i: usize = 0;
    let mut start: usize = 0;
    while i < hashes.len() && start < values.len()
        invariant
            n == num_values,
            n > 0,
            i <= hashes.len(),
            r@.len() == i,
            start as int == (if i * n < values.len() {
                i * n
            } else {
                values.len() as int
            }),
            start < values.len() ==> start as int == i * n,
            forall|j: int| 0 <= j < i ==> has_group(values@.len(), n as nat, j),
            forall|j: int|
                0 <= j < i ==> #[trigger] entries_view(r@)[j] == (
                    hashes@[j],
                    group_of(values@, n as nat, j),
                ),
        decreases hashes.len() - i,
    {
        let end: usize = if values.len() - start < n {
            values.len()
        } else {
            start + n
        };
        let mut group: Vec<T> = Vec::new();
        let mut k: usize = start;
        while k < end
            invariant
                start <= k <= end,
                end <= values.len(),
                group@ == values@.subrange(start as int, k as int),
            decreases end - k,
        {
            group.push(values[k]);
            assert(group@ =~= values@.subrange(start as int, k + 1));
            k = k + 1;
        }
        assert(group@ == group_of(values@, n as nat, i as int));
        let ghost old_r = r@;
        r.push((hashes[i], group));
        proof {
            assert forall|j: int| 0 <= j < i + 1 implies #[trigger] entries_view(r@)[j] == (
                hashes@[j],
                group_of(values@, n as nat, j),
            ) by {
                if j < i {
                    assert(r@[j] == old_r[j]);
                    assert(entries_view(old_r)[j] == (hashes@[j], group_of(values@, n as nat, j)));
                } else {
                    assert(r@[j] == (hashes@[j], group));
                }
            }
            assert((i + 1) * n == i * n + n) by (nonlinear_arith);
        }
        i = i + 1;
        start = end;
    }
    proof {
        assert(i == hashes.len() || !has_group(values@.len(), n as nat, i as int));
    }
    r
}

/// When the engine supplies exactly `num_values` values for every hash, every
/// entry gets a full group of `num_values` values, every hash gets an entry,
/// and value `k` of entry `i` is value `i * num_values + k` of the array.
pub proof fn lemma_full_groups<T>(
    hashes: Seq<u64>,
    values: Seq<T>,
    num_values: nat,
    entries: Seq<(u64, Seq<T>)>,
)
    requires
        num_values > 0,
        values.len() == hashes.len() * num_values,
        groups_entries(hashes, values, num_values, entries),
    ensures
        entries.len() == hashes.len(),
        forall|i: int| 0 <= i < entries.len() ==> (#[trigger] entries[i]).1.len() == num_values,
        forall|i: int, k: int|
            0 <= i < entries.len() && 0 <= k < num_values ==> #[trigger] entries[i].1[k]
                == values[i * num_values + k],
{
    if entries.len() < hashes.len() {
        let e = entries.len() as int;
        assert(e * num_values < hashes.len() * num_values) by (nonlinear_arith)
            requires
                e < hashes.len(),
                num_values > 0,
        ;
    }
    assert forall|i: int| 0 <= i < entries.len() implies (#[trigger] entries[i]).1.len()
        == num_values by {
        assert(i * num_values + num_values <= hashes.len() * num_values) by (nonlinear_arith)
            requires
                i < hashes.len(),
                num_values > 0,
        ;
        assert(i * num_values >= 0) by (nonlinear_arith)
            requires
                i >= 0,
        ;
    }
    assert forall|i: int, k: int|
        0 <= i < entries.len() && 0 <= k < num_values implies #[trigger] entries[i].1[k]
        == values[i * num_values + k] by {
        assert(i * num_values + num_values <= hashes.len() * num_values) by (nonlinear_arith)
            requires
                i < hashes.len(),
                num_values > 0,
        ;
        assert(i * num_values >= 0) by (nonlinear_arith)
            requires
                i >= 0,
        ;
    }
}

// ---------------------------------------------------------------------------
// The width of an entry

/// A number of values per entry that has been checked to be at least `1`.
#[derive(Debug, Clone, Copy)]
struct Width {
    value: u8,
}

impl Width {
    #[verifier::type_invariant]
    spec fn is_positive(self) -> bool {
        self.value >= 1
    }

    /// Accepts any width but `0`, which is refused with
    /// [`SketchError::InvalidConfig`].
    fn new(value: u8) -> (r: Result<Width, SketchError>)
        ensures
            value != 0 ==> (r matches Ok(w) && w.value == value),
            value == 0 ==> (r matches Err(SketchError::InvalidConfig(m)) && m@
                == zero_width_text()),
    {
        if value == 0 {
            return Err(zero_width_error());
        }
        Ok(Width { value })
    }

    fn get(&self) -> (v: u8)
        ensures
            v == self.value,
            v >= 1,
    {
        proof {
            use_type_invariant(self);
        }
        self.value
    }
}

// ---------------------------------------------------------------------------
// The update sketch

/// Builder for an ArrayOfDoubles update sketch. `lg_k` defaults to `12`,
/// `resize_factor` to [`ResizeFactor::X8`], `p` to `1.0` and `num_values` to
/// `1`.
#[derive(Debug, Clone, Copy)]
pub struct ArrayOfDoublesSketchBuilder {
    lg_k: u8,
    resize_factor: ResizeFactor,
    p_bits: u32,
    num_values: u8,
}

impl ArrayOfDoublesSketchBuilder {
    /// The `lg_k` this builder will hand to the engine.
    pub closed spec fn configured_lg_k(self) -> u8 {
        self.lg_k
    }

    /// The growth policy this builder will hand to the engine.
    pub closed spec fn configured_resize_factor(self) -> ResizeFactor {
        self.resize_factor
    }

    /// The bit pattern of the sampling probability this builder will hand to
    /// the engine.
    pub closed spec fn configured_p_bits(self) -> u32 {
        self.p_bits
    }

    /// The number of values per entry this builder will configure.
    pub closed spec fn configured_num_values(self) -> u8 {
        self.num_values
    }
}

impl Default for ArrayOfDoublesSketchBuilder {
    fn default() -> (b: Self)
        ensures
            b.configured_lg_k() == DEFAULT_LG_K,
            b.configured_resize_factor() == ResizeFactor::X8,
            b.configured_p_bits() == DEFAULT_P_BITS,
            b.configured_num_values() == DEFAULT_NUM_VALUES,
    {
        Self {
            lg_k: DEFAULT_LG_K,
            resize_factor: ResizeFactor::default(),
            p_bits: DEFAULT_P_BITS,
            num_values: DEFAULT_NUM_VALUES,
        }
    }
}

impl ArrayOfDoublesSketchBuilder {
    /// Creates a new builder with default settings (`lg_k = 12`,
    /// `resize_factor = X8`, `p = 1.0`, `num_values = 1`).
    pub fn new() -> (b: Self)
        ensures
            b.configured_lg_k() == DEFAULT_LG_K,
            b.configured_resize_factor() == ResizeFactor::X8,
            b.configured_p_bits() == DEFAULT_P_BITS,
            b.configured_num_values() == DEFAULT_NUM_VALUES,
    {
        Self::default()
    }

    /// Sets the base-2 log of the target number of retained entries.
    pub fn lg_k(self, lg_k: u8) -> (b: Self)
        ensures
            b.configured_lg_k() == lg_k,
            b.configured_resize_factor() == self.configured_resize_factor(),
            b.configured_p_bits() == self.configured_p_bits(),
            b.configured_num_values() == self.configured_num_values(),
    {
        let mut b = self;
        b.lg_k = lg_k;
        b
    }

    /// Sets the hash table's growth [`ResizeFactor`].
    pub fn resize_factor(self, resize_factor: ResizeFactor) -> (b: Self)
        ensures
            b.configured_lg_k() == self.configured_lg_k(),
            b.configured_resize_factor() == resize_factor,
            b.configured_p_bits() == self.configured_p_bits(),
            b.configured_num_values() == self.configured_num_values(),
    {
        let mut b = self;
        b.resize_factor = resize_factor;
        b
    }

    /// Sets the sampling probability, given as the bit pattern of its
    /// single-precision value.
    pub fn p(self, p_bits: u32) -> (b: Self)
        ensures
            b.configured_lg_k() == self.configured_lg_k(),
            b.configured_resize_factor() == self.configured_resize_factor(),
            b.configured_p_bits() == p_bits,
            b.configured_num_values() == self.configured_num_values(),
    {
        let mut b = self;
        b.p_bits = p_bits;
        b
    }

    /// Sets the fixed number of values each retained entry carries. Must be
    /// at least `1`; every sketch later combined with this one must use the
    /// same value.
    pub fn num_values(self, num_values: u8) -> (b: Self)
        ensures
            b.configured_lg_k() == self.configured_lg_k(),
            b.configured_resize_factor() == self.configured_resize_factor(),
            b.configured_p_bits() == self.configured_p_bits(),
            b.configured_num_values() == num_values,
    {
        let mut b = self;
        b.num_values = num_values;
        b
    }

    /// Builds the sketch. A `num_values` of `0` is refused with
    /// [`SketchError::InvalidConfig`] before the engine is involved;
    /// otherwise `construct` is called once with the configured
    /// `(lg_k, resize_factor, p, num_values)`, and a rejection by the engine
    /// becomes [`SketchError::InvalidConfig`] with its message.
    pub fn build<H, F>(self, construct: F) -> (r: Result<ArrayOfDoublesSketch<H>, SketchError>) where
        F: FnOnce(u8, ResizeFactor, u32, u8) -> Result<H, String>,

        requires
            self.configured_num_values() != 0 ==> call_requires(
                construct,
                (
                    self.configured_lg_k(),
                    self.configured_resize_factor(),
                    self.configured_p_bits(),
                    self.configured_num_values(),
                ),
            ),
        ensures
            self.configured_num_values() == 0 ==> (r matches Err(SketchError::InvalidConfig(m))
                && m@ == zero_width_text()),
            self.configured_num_values() != 0 ==> exists|out: Result<H, String>|
                {
                    &&& call_ensures(
                        construct,
                        (
                            self.configured_lg_k(),
                            self.configured_resize_factor(),
                            self.configured_p_bits(),
                            self.configured_num_values(),
                        ),
                        out,
                    )
                    &&& (out matches Ok(h) ==> (r matches Ok(s) && s.engine() == h
                        && s.width() == self.configured_num_values()))
                    &&& (out matches Err(m) ==> r == Err::<ArrayOfDoublesSketch<H>, SketchError>(
                        SketchError::InvalidConfig(m),
                    ))
                },
    {
        let width = match Width::new(self.num_values) {
            Ok(w) => w,
            Err(e) => return Err(e),
        };
        let out = construct(self.lg_k, self.resize_factor, self.p_bits, self.num_values);
        match out {
            Ok(inner) => Ok(ArrayOfDoublesSketch { inner, num_values: width }),
            Err(m) => Err(SketchError::InvalidConfig(m)),
        }
    }
}

/// An ArrayOfDoubles update sketch: the engine's sketch `H` together with the
/// width its entries were built with.
///
/// The width is fixed for the sketch's lifetime (resetting the engine's
/// table does not change it), is never `0`, and is what every update's
/// array is checked against, so it is read here rather than asked of the
/// engine on each update.
pub struct ArrayOfDoublesSketch<H> {
    inner: H,
    num_values: Width,
}

impl<H> ArrayOfDoublesSketch<H> {
    /// The engine's sketch.
    pub closed spec fn engine(self) -> H {
        self.inner
    }

    /// The number of values each retained entry carries.
    pub closed spec fn width(self) -> u8 {
        self.num_values.value
    }

    /// Returns the fixed number of values each retained entry carries, as
    /// configured at build time.
    pub fn get_num_values(&self) -> (n: u8)
        ensures
            n == self.width(),
            n >= 1,
    {
        self.num_values.get()
    }

    /// Checks an update's array of values: `Ok(())` exactly when it holds
    /// [`Self::get_num_values`] elements, and otherwise
    /// [`SketchError::InvalidConfig`] saying how many were expected and how
    /// many were given. The engine reads `num_values` values blindly, so a
    /// failed check must stop the update.
    pub fn check_values<T>(&self, values: &[T]) -> (r: Result<(), SketchError>)
        ensures
            values@.len() == self.width() ==> r is Ok,
            values@.len() != self.width() ==> (r matches Err(SketchError::InvalidConfig(m))
                && m@ == values_count_text(self.width() as nat, values@.len())),
    {
        let expected = self.num_values.get();
        if values.len() != expected as usize {
            let m = String::from_str("expected ").concat(
                decimal_string(expected as u64).as_str(),
            ).concat(" values, got ").concat(decimal_string(values.len() as u64).as_str());
            return Err(SketchError::InvalidConfig(m));
        }
        Ok(())
    }

    /// Adds a key with its values. `values` is checked first (see
    /// [`Self::check_values`]): when it has the right length, `apply` is
    /// called once on the engine's sketch (it is the engine's update with the
    /// key and `values`) and `Ok(())` is returned; otherwise the sketch is
    /// left untouched and `apply` is not called. The width never changes.
    pub fn update<V, F>(&mut self, values: &[V], apply: F) -> (r: Result<(), SketchError>) where
        F: FnOnce(&mut H),

        requires
            forall|h: &mut H| call_requires(apply, (h,)),
        ensures
            final(self).width() == old(self).width(),
            values@.len() == old(self).width() ==> r is Ok,
            values@.len() == old(self).width() ==> exists|h: &mut H|
                *h == old(self).engine() && *final(h) == final(self).engine() && call_ensures(
                    apply,
                    (h,),
                    (),
                ),
            values@.len() != old(self).width() ==> {
                &&& r matches Err(SketchError::InvalidConfig(m)) && m@ == values_count_text(
                    old(self).width() as nat,
                    values@.len(),
                )
                &&& final(self).engine() == old(self).engine()
            },
    {
        match self.check_values(values) {
            Ok(()) => {
                apply(&mut self.inner);
                Ok(())
            },
            Err(e) => Err(e),
        }
    }

    /// The engine's sketch, for reading.
    pub fn inner(&self) -> (h: &H)
        ensures
            *h == self.engine(),
    {
        &self.inner
    }

    /// The engine's sketch, for updating. Whatever is done to it, the width
    /// stays what it was.
    pub fn inner_mut(&mut self) -> (h: &mut H)
        ensures
            *h == old(self).engine(),
            final(self).engine() == *final(h),
            final(self).width() == old(self).width(),
    {
        &mut self.inner
    }

    /// Pairs the retained entries' hashes with their values, read from the
    /// engine as one flat array; each entry gets exactly
    /// [`Self::get_num_values`] values when the engine supplies that many per
    /// hash. See [`group_entries`].
    pub fn entries<T: Copy>(&self, hashes: &[u64], values: &[T]) -> (r: Vec<(u64, Vec<T>)>)
        ensures
            groups_entries(hashes@, values@, self.width() as nat, entries_view(r@)),
    {
        group_entries(self.num_values.get() as usize, hashes, values)
    }
}

// ---------------------------------------------------------------------------
// The union

/// Builder for an ArrayOfDoubles union. `lg_k` defaults to `12`,
/// `resize_factor` to [`ResizeFactor::X8`], `p` to `1.0` and `num_values` to
/// `1`.
#[derive(Debug, Clone, Copy)]
pub struct ArrayOfDoublesUnionBuilder {
    lg_k: u8,
    resize_factor: ResizeFactor,
    p_bits: u32,
    num_values: u8,
}

impl ArrayOfDoublesUnionBuilder {
    /// The `lg_k` this builder will hand to the engine.
    pub closed spec fn configured_lg_k(self) -> u8 {
        self.lg_k
    }

    /// The growth policy this builder will hand to the engine.
    pub closed spec fn configured_resize_factor(self) -> ResizeFactor {
        self.resize_factor
    }

    /// The bit pattern of the sampling probability this builder will hand to
    /// the engine.
    pub closed spec fn configured_p_bits(self) -> u32 {
        self.p_bits
    }

    /// The number of values per entry this builder will configure.
    pub closed spec fn configured_num_values(self) -> u8 {
        self.num_values
    }
}

impl Default for ArrayOfDoublesUnionBuilder {
    fn default() -> (b: Self)
        ensures
            b.configured_lg_k() == DEFAULT_LG_K,
            b.configured_resize_factor() == ResizeFactor::X8,
            b.configured_p_bits() == DEFAULT_P_BITS,
            b.configured_num_values() == DEFAULT_NUM_VALUES,
    {
        Self {
            lg_k: DEFAULT_LG_K,
            resize_factor: ResizeFactor::default(),
            p_bits: DEFAULT_P_BITS,
            num_values: DEFAULT_NUM_VALUES,
        }
    }
}

impl ArrayOfDoublesUnionBuilder {
    /// Creates a new builder with default settings (`lg_k = 12`,
    /// `resize_factor = X8`, `p = 1.0`, `num_values = 1`).
    pub fn new() -> (b: Self)
        ensures
            b.configured_lg_k() == DEFAULT_LG_K,
            b.configured_resize_factor() == ResizeFactor::X8,
            b.configured_p_bits() == DEFAULT_P_BITS,
            b.configured_num_values() == DEFAULT_NUM_VALUES,
    {
        Self::default()
    }

    /// Sets the base-2 log of the target number of retained entries in the
    /// union's result.
    pub fn lg_k(self, lg_k: u8) -> (b: Self)
        ensures
            b.configured_lg_k() == lg_k,
            b.configured_resize_factor() == self.configured_resize_factor(),
            b.configured_p_bits() == self.configured_p_bits(),
            b.configured_num_values() == self.configured_num_values(),
    {
        let mut b = self;
        b.lg_k = lg_k;
        b
    }

    /// Sets the hash table's growth [`ResizeFactor`].
    pub fn resize_factor(self, resize_factor: ResizeFactor) -> (b: Self)
        ensures
            b.configured_lg_k() == self.configured_lg_k(),
            b.configured_resize_factor() == resize_factor,
            b.configured_p_bits() == self.configured_p_bits(),
            b.configured_num_values() == self.configured_num_values(),
    {
        let mut b = self;
        b.resize_factor = resize_factor;
        b
    }

    /// Sets the sampling probability, given as the bit pattern of its
    /// single-precision value.
    pub fn p(self, p_bits: u32) -> (b: Self)
        ensures
            b.configured_lg_k() == self.configured_lg_k(),
            b.configured_resize_factor() == self.configured_resize_factor(),
            b.configured_p_bits() == p_bits,
            b.configured_num_values() == self.configured_num_values(),
    {
        let mut b = self;
        b.p_bits = p_bits;
        b
    }

    /// Sets the fixed number of values per entry. Must be at least `1`, and
    /// must match every sketch later fed to the union.
    pub fn num_values(self, num_values: u8) -> (b: Self)
        ensures
            b.configured_lg_k() == self.configured_lg_k(),
            b.configured_resize_factor() == self.configured_resize_factor(),
            b.configured_p_bits() == self.configured_p_bits(),
            b.configured_num_values() == num_values,
    {
        let mut b = self;
        b.num_values = num_values;
        b
    }

    /// Builds the union. A `num_values` of `0` is refused with
    /// [`SketchError::InvalidConfig`] before the engine is involved;
    /// otherwise `construct` is called once with the configured
    /// `(lg_k, resize_factor, p, num_values)`, and a rejection by the engine
    /// becomes [`SketchError::InvalidConfig`] with its message.
    pub fn build<H, F>(self, construct: F) -> (r: Result<ArrayOfDoublesUnion<H>, SketchError>) where
        F: FnOnce(u8, ResizeFactor, u32, u8) -> Result<H, String>,

        requires
            self.configured_num_values() != 0 ==> call_requires(
                construct,
                (
                    self.configured_lg_k(),
                    self.configured_resize_factor(),
                    self.configured_p_bits(),
                    self.configured_num_values(),
                ),
            ),
        ensures
            self.configured_num_values() == 0 ==> (r matches Err(SketchError::InvalidConfig(m))
                && m@ == zero_width_text()),
            self.configured_num_values() != 0 ==> exists|out: Result<H, String>|
                {
                    &&& call_ensures(
                        construct,
                        (
                            self.configured_lg_k(),
                            self.configured_resize_factor(),
                            self.configured_p_bits(),
                            self.configured_num_values(),
                        ),
                        out,
                    )
                    &&& (out matches Ok(h) ==> (r matches Ok(u) && u.engine() == h
                        && u.width() == self.configured_num_values()))
                    &&& (out matches Err(m) ==> r == Err::<ArrayOfDoublesUnion<H>, SketchError>(
                        SketchError::InvalidConfig(m),
                    ))
                },
    {
        let width = match Width::new(self.num_values) {
            Ok(w) => w,
            Err(e) => return Err(e),
        };
        let out = construct(self.lg_k, self.resize_factor, self.p_bits, self.num_values);
        match out {
            Ok(inner) => Ok(ArrayOfDoublesUnion { inner, num_values: width }),
            Err(m) => Err(SketchError::InvalidConfig(m)),
        }
    }
}

/// A streaming union over ArrayOfDoubles sketches: the engine's union `H`
/// together with the width every input must have. Values are summed per
/// index when a key appears in more than one input.
pub struct ArrayOfDoublesUnion<H> {
    inner: H,
    num_values: Width,
}

impl<H> ArrayOfDoublesUnion<H> {
    /// The engine's union.
    pub closed spec fn engine(self) -> H {
        self.inner
    }

    /// The number of values per entry every input must carry.
    pub closed spec fn width(self) -> u8 {
        self.num_values.value
    }

    /// Returns the fixed number of values per entry this union was built
    /// with.
    pub fn get_num_values(&self) -> (n: u8)
        ensures
            n == self.width(),
            n >= 1,
    {
        self.num_values.get()
    }

    /// Merges an input into the running result. `input_num_values` is the
    /// input's width: when it equals this union's, `merge` is called once on
    /// the engine's union and `Ok(())` is returned; otherwise the union is
    /// left untouched (`merge` is not called) and the result is
    /// [`SketchError::InvalidConfig`] naming both widths. The engine does not
    /// check this itself: merging inputs of different widths would read and
    /// write past the shorter array. The width never changes.
    pub fn update<F>(&mut self, input_num_values: u8, merge: F) -> (r: Result<(), SketchError>) where
        F: FnOnce(&mut H),

        requires
            forall|h: &mut H| call_requires(merge, (h,)),
        ensures
            final(self).width() == old(self).width(),
            input_num_values == old(self).width() ==> r is Ok,
            input_num_values == old(self).width() ==> exists|h: &mut H|
                *h == old(self).engine() && *final(h) == final(self).engine() && call_ensures(
                    merge,
                    (h,),
                    (),
                ),
            input_num_values != old(self).width() ==> {
                &&& r matches Err(SketchError::InvalidConfig(m)) && m@ == input_mismatch_text(
                    "union"@,
                    old(self).width() as nat,
                    input_num_values as nat,
                )
                &&& final(self).engine() == old(self).engine()
            },
    {
        let ours = self.num_values.get();
        if input_num_values != ours {
            proof {
                reveal_strlit("union");
            }
            return Err(input_mismatch_error("union", ours, input_num_values));
        }
        merge(&mut self.inner);
        Ok(())
    }

    /// The engine's union, for reading.
    pub fn inner(&self) -> (h: &H)
        ensures
            *h == self.engine(),
    {
        &self.inner
    }

    /// The engine's union, for merging and resetting. Whatever is done to
    /// it, the width stays what it was.
    pub fn inner_mut(&mut self) -> (h: &mut H)
        ensures
            *h == old(self).engine(),
            final(self).engine() == *final(h),
            final(self).width() == old(self).width(),
    {
        &mut self.inner
    }
}

// ---------------------------------------------------------------------------
// The intersection

/// Computes the intersection of ArrayOfDoubles sketches fed to it: the
/// engine's intersection `H` together with the width every input must have.
/// Values are summed per index for keys present in every input.
pub struct ArrayOfDoublesIntersection<H> {
    inner: H,
    num_values: Width,
}

impl<H> ArrayOfDoublesIntersection<H> {
    /// The engine's intersection.
    pub closed spec fn engine(self) -> H {
        self.inner
    }

    /// The number of values per entry every input must carry.
    pub closed spec fn width(self) -> u8 {
        self.num_values.value
    }

    /// Creates an intersection for sketches carrying `num_values` values per
    /// entry. A `num_values` of `0` is refused with
    /// [`SketchError::InvalidConfig`] and `construct` is not called;
    /// otherwise `construct` is called once with `num_values` and its
    /// intersection is kept.
    pub fn new<F>(num_values: u8, construct: F) -> (r: Result<Self, SketchError>) where
        F: FnOnce(u8) -> H,

        requires
            num_values != 0 ==> call_requires(construct, (num_values,)),
        ensures
            num_values == 0 ==> (r matches Err(SketchError::InvalidConfig(m)) && m@
                == zero_width_text()),
            num_values != 0 ==> (r matches Ok(x) && x.width() == num_values && call_ensures(
                construct,
                (num_values,),
                x.engine(),
            )),
    {
        let width = match Width::new(num_values) {
            Ok(w) => w,
            Err(e) => return Err(e),
        };
        let inner = construct(num_values);
        Ok(ArrayOfDoublesIntersection { inner, num_values: width })
    }

    /// Returns the fixed number of values per entry this intersection was
    /// created with.
    pub fn get_num_values(&self) -> (n: u8)
        ensures
            n == self.width(),
            n >= 1,
    {
        self.num_values.get()
    }

    /// Narrows the running result to keys also present in an input.
    /// `input_num_values` is the input's width: when it equals this
    /// intersection's, `narrow` is called once on the engine's intersection
    /// and `Ok(())` is returned; otherwise the intersection is left untouched
    /// (`narrow` is not called) and the result is
    /// [`SketchError::InvalidConfig`] naming both widths. The width never
    /// changes.
    pub fn update<F>(&mut self, input_num_values: u8, narrow: F) -> (r: Result<(), SketchError>) where
        F: FnOnce(&mut H),

        requires
            forall|h: &mut H| call_requires(narrow, (h,)),
        ensures
            final(self).width() == old(self).width(),
            input_num_values == old(self).width() ==> r is Ok,
            input_num_values == old(self).width() ==> exists|h: &mut H|
                *h == old(self).engine() && *final(h) == final(self).engine() && call_ensures(
                    narrow,
                    (h,),
                    (),
                ),
            input_num_values != old(self).width() ==> {
                &&& r matches Err(SketchError::InvalidConfig(m)) && m@ == input_mismatch_text(
                    "intersection"@,
                    old(self).width() as nat,
                    input_num_values as nat,
                )
                &&& final(self).engine() == old(self).engine()
            },
    {
        let ours = self.num_values.get();
        if input_num_values != ours {
            proof {
                reveal_strlit("intersection");
            }
            return Err(input_mismatch_error("intersection", ours, input_num_values));
        }
        narrow(&mut self.inner);
        Ok(())
    }

    /// Returns the current intersection result. `has_result` says whether
    /// the engine's intersection has been updated at least once: if not,
    /// the result is [`SketchError::EmptyIntersection`] and `get_result` is
    /// not called; otherwise `get_result` is called once on the engine's
    /// intersection and a failure it reports becomes [`SketchError::Cpp`].
    pub fn get_result<T, F>(&self, has_result: bool, get_result: F) -> (r: Result<T, SketchError>) where
        F: FnOnce(&H) -> Result<T, String>,

        requires
            has_result ==> call_requires(get_result, (&self.engine(),)),
        ensures
            !has_result ==> r matches Err(SketchError::EmptyIntersection),
            has_result && r is Err ==> (r matches Err(SketchError::Cpp(_))),
            has_result ==> exists|out: Result<T, String>|
                call_ensures(get_result, (&self.engine(),), out) && r == engine_outcome(out),
    {
        if !has_result {
            return Err(SketchError::EmptyIntersection);
        }
        let out = get_result(&self.inner);
        engine_result(out)
    }

    /// The engine's intersection, for reading.
    pub fn inner(&self) -> (h: &H)
        ensures
            *h == self.engine(),
    {
        &self.inner
    }

    /// The engine's intersection, for narrowing. Whatever is done to it, the
    /// width stays what it was.
    pub fn inner_mut(&mut self) -> (h: &mut H)
        ensures
            *h == old(self).engine(),
            final(self).engine() == *final(h),
            final(self).width() == old(self).width(),
    {
        &mut self.inner
    }
}

// ---------------------------------------------------------------------------
// Set difference and similarity

/// Computes set differences (keys in `a` but not in `b`, keeping `a`'s
/// values) with the engine's calculator `H`. Stateless between calls.
pub struct ArrayOfDoublesAnotB<H> {
    inner: H,
}

impl<H> ArrayOfDoublesAnotB<H> {
    /// The engine's calculator.
    pub closed spec fn engine(self) -> H {
        self.inner
    }

    /// Creates a reusable calculator around the engine's.
    pub fn new(inner: H) -> (c: Self)
        ensures
            c.engine() == inner,
    {
        ArrayOfDoublesAnotB { inner }
    }

    /// Computes `a - b`, given the widths of the two operands. When they
    /// agree, `compute` is called once with the engine's calculator and its
    /// result is returned; otherwise `compute` is not called and the result
    /// is [`SketchError::InvalidConfig`] naming both widths (the engine does
    /// not check this, and mismatched widths would be read out of bounds).
    pub fn compute<T, F>(&self, a_num_values: u8, b_num_values: u8, compute: F) -> (r: Result<
        T,
        SketchError,
    >) where F: FnOnce(&H) -> T,

        requires
            a_num_values == b_num_values ==> call_requires(compute, (&self.engine(),)),
        ensures
            a_num_values == b_num_values ==> (r matches Ok(t) && call_ensures(
                compute,
                (&self.engine(),),
                t,
            )),
            a_num_values != b_num_values ==> (r matches Err(SketchError::InvalidConfig(m)) && m@
                == operands_mismatch_text(a_num_values as nat, b_num_values as nat)),
    {
        match check_same_num_values(a_num_values, b_num_values) {
            Ok(()) => Ok(compute(&self.inner)),
            Err(e) => Err(e),
        }
    }
}

/// Estimates the Jaccard index of two sketches, given their widths. Only the
/// keys matter, so the engine would tolerate different widths, but a
/// mismatch is refused for consistency with the other set operations: when
/// the widths agree `estimate` is called once and its result returned,
/// otherwise `estimate` is not called and the result is
/// [`SketchError::InvalidConfig`] naming both widths.
pub fn array_of_doubles_jaccard_similarity<T, F>(
    a_num_values: u8,
    b_num_values: u8,
    estimate: F,
) -> (r: Result<T, SketchError>) where F: FnOnce() -> T,

    requires
        a_num_values == b_num_values ==> call_requires(estimate, ()),
    ensures
        a_num_values == b_num_values ==> (r matches Ok(t) && call_ensures(estimate, (), t)),
        a_num_values != b_num_values ==> (r matches Err(SketchError::InvalidConfig(m)) && m@
            == operands_mismatch_text(a_num_values as nat, b_num_values as nat)),
{
    match check_same_num_values(a_num_values, b_num_values) {
        Ok(()) => Ok(estimate()),
        Err(e) => Err(e),
    }
}

} // verus!
