//! Theta sketch family: the hash-table growth policy and the builders for the
//! sketch and for the union.
//!
//! The sampling probability `p` is held as the bit pattern of its IEEE-754
//! single-precision value (`f32::to_bits`), so that the builders carry it
//! unchanged to the engine; the default is `1.0` (no sampling).

use crate::error::{config_outcome, config_result, SketchError};
use vstd::prelude::*;

verus! {

/// The default base-2 log of the target number of retained entries.
pub const DEFAULT_LG_K: u8 = 12;

/// The bit pattern of the single-precision value `1.0`: no sampling.
pub const DEFAULT_P_BITS: u32 = 0x3f80_0000;

/// Controls how aggressively a theta sketch's internal hash table grows.
/// The default is `X8`.
#[derive(Debug, Clone, Copy, PartialEq, Eq, Structural)]
pub enum ResizeFactor {
    /// Grow by 1x (never resize past the initial allocation).
    X1,
    /// Grow by 2x each time the hash table fills.
    X2,
    /// Grow by 4x each time the hash table fills.
    X4,
    /// Grow by 8x each time the hash table fills. The default.
    X8,
}

impl Default for ResizeFactor {
    fn default() -> (rf: Self)
        ensures
            rf == ResizeFactor::X8,
    {
        ResizeFactor::X8
    }
}

/// Builder for an update theta sketch. `lg_k` defaults to `12`,
/// `resize_factor` to [`ResizeFactor::X8`], `p` to `1.0`.
#[derive(Debug, Clone, Copy)]
pub struct ThetaSketchBuilder {
    lg_k: u8,
    resize_factor: ResizeFactor,
    p_bits: u32,
}

impl ThetaSketchBuilder {
    /// The `lg_k` this builder will hand to the engine.
    pub closed spec fn configured_lg_k(self) -> u8 {
        self.lg_k
    }

    /// The growth policy this builder will hand to the engine.
    pub closed spec fn configured_resize_factor(self) -> ResizeFactor {
        self.resize_factor
    }

    /// The bit pattern of the sampling probability this builder will hand to
    /// the engine.
    pub closed spec fn configured_p_bits(self) -> u32 {
        self.p_bits
    }
}

impl Default for ThetaSketchBuilder {
    fn default() -> (b: Self)
        ensures
            b.configured_lg_k() == DEFAULT_LG_K,
            b.configured_resize_factor() == ResizeFactor::X8,
            b.configured_p_bits() == DEFAULT_P_BITS,
    {
        Self { lg_k: DEFAULT_LG_K, resize_factor: ResizeFactor::default(), p_bits: DEFAULT_P_BITS }
    }
}

impl ThetaSketchBuilder {
    /// Creates a new builder with default settings (`lg_k = 12`,
    /// `resize_factor = X8`, `p = 1.0`).
    pub fn new() -> (b: Self)
        ensures
            b.configured_lg_k() == DEFAULT_LG_K,
            b.configured_resize_factor() == ResizeFactor::X8,
            b.configured_p_bits() == DEFAULT_P_BITS,
    {
        Self::default()
    }

    /// Sets the base-2 log of the target number of retained entries.
    pub fn lg_k(self, lg_k: u8) -> (b: Self)
        ensures
            b.configured_lg_k() == lg_k,
            b.configured_resize_factor() == self.configured_resize_factor(),
            b.configured_p_bits() == self.configured_p_bits(),
    {
        let mut b = self;
        b.lg_k = lg_k;
        b
    }

    /// Sets the hash table's growth [`ResizeFactor`].
    pub fn resize_factor(self, resize_factor: ResizeFactor) -> (b: Self)
        ensures
            b.configured_lg_k() == self.configured_lg_k(),
            b.configured_resize_factor() == resize_factor,
            b.configured_p_bits() == self.configured_p_bits(),
    {
        let mut b = self;
        b.resize_factor = resize_factor;
        b
    }

    /// Sets the sampling probability, given as the bit pattern of its
    /// single-precision value. `1.0` disables sampling; values below `1.0`
    /// put the sketch into estimation mode from the start.
    pub fn p(self, p_bits: u32) -> (b: Self)
        ensures
            b.configured_lg_k() == self.configured_lg_k(),
            b.configured_resize_factor() == self.configured_resize_factor(),
            b.configured_p_bits() == p_bits,
    {
        let mut b = self;
        b.p_bits = p_bits;
        b
    }

    /// Builds the sketch: calls `construct` once with the configured
    /// `(lg_k, resize_factor, p)` and returns what it built, or
    /// [`SketchError::InvalidConfig`] with the engine's message if the
    /// engine rejected the configuration.
    pub fn build<S, F>(self, construct: F) -> (r: Result<S, SketchError>) where
        F: FnOnce(u8, ResizeFactor, u32) -> Result<S, String>,

        requires
            call_requires(
                construct,
                (self.configured_lg_k(), self.configured_resize_factor(), self.configured_p_bits()),
            ),
        ensures
            exists|out: Result<S, String>|
                call_ensures(
                    construct,
                    (
                        self.configured_lg_k(),
                        self.configured_resize_factor(),
                        self.configured_p_bits(),
                    ),
                    out,
                ) && r == config_outcome(out),
            r is Err ==> (r matches Err(SketchError::InvalidConfig(_))),
    {
        let out = construct(self.lg_k, self.resize_factor, self.p_bits);
        config_result(out)
    }
}

/// Builder for a theta union. `lg_k` defaults to `12`, `resize_factor` to
/// [`ResizeFactor::X8`], `p` to `1.0`.
#[derive(Debug, Clone, Copy)]
pub struct ThetaUnionBuilder {
    lg_k: u8,
    resize_factor: ResizeFactor,
    p_bits: u32,
}

impl ThetaUnionBuilder {
    /// The `lg_k` this builder will hand to the engine.
    pub closed spec fn configured_lg_k(self) -> u8 {
        self.lg_k
    }

    /// The growth policy this builder will hand to the engine.
    pub closed spec fn configured_resize_factor(self) -> ResizeFactor {
        self.resize_factor
    }

    /// The bit pattern of the sampling probability this builder will hand to
    /// the engine.
    pub closed spec fn configured_p_bits(self) -> u32 {
        self.p_bits
    }
}

impl Default for ThetaUnionBuilder {
    fn default() -> (b: Self)
        ensures
            b.configured_lg_k() == DEFAULT_LG_K,
            b.configured_resize_factor() == ResizeFactor::X8,
            b.configured_p_bits() == DEFAULT_P_BITS,
    {
        Self { lg_k: DEFAULT_LG_K, resize_factor: ResizeFactor::default(), p_bits: DEFAULT_P_BITS }
    }
}

impl ThetaUnionBuilder {
    /// Creates a new builder with default settings.
    pub fn new() -> (b: Self)
        ensures
            b.configured_lg_k() == DEFAULT_LG_K,
            b.configured_resize_factor() == ResizeFactor::X8,
            b.configured_p_bits() == DEFAULT_P_BITS,
    {
        Self::default()
    }

    /// Sets the base-2 log of the target number of retained entries.
    pub fn lg_k(self, lg_k: u8) -> (b: Self)
        ensures
            b.configured_lg_k() == lg_k,
            b.configured_resize_factor() == self.configured_resize_factor(),
            b.configured_p_bits() == self.configured_p_bits(),
    {
        let mut b = self;
        b.lg_k = lg_k;
        b
    }

    /// Sets the hash table's growth [`ResizeFactor`].
    pub fn resize_factor(self, resize_factor: ResizeFactor) -> (b: Self)
        ensures
            b.configured_lg_k() == self.configured_lg_k(),
            b.configured_resize_factor() == resize_factor,
            b.configured_p_bits() == self.configured_p_bits(),
    {
        let mut b = self;
        b.resize_factor = resize_factor;
        b
    }

    /// Sets the sampling probability, given as the bit pattern of its
    /// single-precision value.
    pub fn p(self, p_bits: u32) -> (b: Self)
        ensures
            b.configured_lg_k() == self.configured_lg_k(),
            b.configured_resize_factor() == self.configured_resize_factor(),
            b.configured_p_bits() == p_bits,
    {
        let mut b = self;
        b.p_bits = p_bits;
        b
    }

    /// Builds the union: calls `construct` once with the configured
    /// `(lg_k, resize_factor, p)` and returns what it built, or
    /// [`SketchError::InvalidConfig`] with the engine's message.
    pub fn build<U, F>(self, construct: F) -> (r: Result<U, SketchError>) where
        F: FnOnce(u8, ResizeFactor, u32) -> Result<U, String>,

        requires
            call_requires(
                construct,
                (self.configured_lg_k(), self.configured_resize_factor(), self.configured_p_bits()),
            ),
        ensures
            exists|out: Result<U, String>|
                call_ensures(
                    construct,
                    (
                        self.configured_lg_k(),
                        self.configured_resize_factor(),
                        self.configured_p_bits(),
                    ),
                    out,
                ) && r == config_outcome(out),
            r is Err ==> (r matches Err(SketchError::InvalidConfig(_))),
    {
        let out = construct(self.lg_k, self.resize_factor, self.p_bits);
        config_result(out)
    }
}

} // verus!
