//! CPC (Compressed Probabilistic Counting) sketch family: the builders for
//! the sketch and for the union.
//!
//! A builder holds the configuration (`lg_k`, default `11`) and, on `build`,
//! hands exactly that configuration to the engine constructor it is given,
//! mapping an engine rejection to [`SketchError::InvalidConfig`]. The seed is
//! never exposed: every sketch uses the engine's default seed.

use crate::error::{config_outcome, config_result, SketchError};
use vstd::prelude::*;

verus! {

/// The default base-2 log of the number of bins of a CPC sketch or union.
pub const DEFAULT_LG_K: u8 = 11;

/// Builder for a CPC sketch. `lg_k` defaults to `11`.
#[derive(Debug, Clone, Copy)]
pub struct CpcSketchBuilder {
    lg_k: u8,
}

impl CpcSketchBuilder {
    /// The `lg_k` this builder will hand to the engine.
    pub closed spec fn configured_lg_k(self) -> u8 {
        self.lg_k
    }
}

impl Default for CpcSketchBuilder {
    fn default() -> (b: Self)
        ensures
            b.configured_lg_k() == DEFAULT_LG_K,
    {
        Self { lg_k: DEFAULT_LG_K }
    }
}

impl CpcSketchBuilder {
    /// Creates a new builder with the default `lg_k` (`11`).
    pub fn new() -> (b: Self)
        ensures
            b.configured_lg_k() == DEFAULT_LG_K,
    {
        Self::default()
    }

    /// Sets the base-2 log of the number of bins in the sketch (`4..=26`).
    pub fn lg_k(self, lg_k: u8) -> (b: Self)
        ensures
            b.configured_lg_k() == lg_k,
    {
        let mut b = self;
        b.lg_k = lg_k;
        b
    }

    /// Builds the sketch: calls `construct` once with the configured `lg_k`
    /// and returns what it built, or [`SketchError::InvalidConfig`] with the
    /// engine's message if the engine rejected `lg_k` (it accepts `4..=26`).
    pub fn build<S, F>(self, construct: F) -> (r: Result<S, SketchError>) where
        F: FnOnce(u8) -> Result<S, String>,

        requires
            call_requires(construct, (self.configured_lg_k(),)),
        ensures
            exists|out: Result<S, String>|
                call_ensures(construct, (self.configured_lg_k(),), out) && r == config_outcome(
                    out,
                ),
            r is Err ==> (r matches Err(SketchError::InvalidConfig(_))),
    {
        let out = construct(self.lg_k);
        config_result(out)
    }
}

/// Builder for a CPC union. `lg_k` defaults to `11`.
#[derive(Debug, Clone, Copy)]
pub struct CpcUnionBuilder {
    lg_k: u8,
}

impl CpcUnionBuilder {
    /// The `lg_k` this builder will hand to the engine.
    pub closed spec fn configured_lg_k(self) -> u8 {
        self.lg_k
    }
}

impl Default for CpcUnionBuilder {
    fn default() -> (b: Self)
        ensures
            b.configured_lg_k() == DEFAULT_LG_K,
    {
        Self { lg_k: DEFAULT_LG_K }
    }
}

impl CpcUnionBuilder {
    /// Creates a new builder with the default `lg_k` (`11`).
    pub fn new() -> (b: Self)
        ensures
            b.configured_lg_k() == DEFAULT_LG_K,
    {
        Self::default()
    }

    /// Sets the base-2 log of the number of bins in the union (`4..=26`).
    pub fn lg_k(self, lg_k: u8) -> (b: Self)
        ensures
            b.configured_lg_k() == lg_k,
    {
        let mut b = self;
        b.lg_k = lg_k;
        b
    }

    /// Builds the union: calls `construct` once with the configured `lg_k`
    /// and returns what it built, or [`SketchError::InvalidConfig`] with the
    /// engine's message if the engine rejected `lg_k`.
    pub fn build<U, F>(self, construct: F) -> (r: Result<U, SketchError>) where
        F: FnOnce(u8) -> Result<U, String>,

        requires
            call_requires(construct, (self.configured_lg_k(),)),
        ensures
            exists|out: Result<U, String>|
                call_ensures(construct, (self.configured_lg_k(),), out) && r == config_outcome(
                    out,
                ),
            r is Err ==> (r matches Err(SketchError::InvalidConfig(_))),
    {
        let out = construct(self.lg_k);
        config_result(out)
    }
}

} // verus!
