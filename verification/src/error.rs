//! The single error type shared across every sketch family, the messages it
//! renders, and the mapping from an engine failure to the right variant.

use vstd::prelude::*;

verus! {

/// Error type shared across all sketch families (HLL, Theta, CPC, Tuple):
/// there is no per-family error type.
#[derive(Debug)]
pub enum SketchError {
    /// A builder or constructor was given an out-of-range configuration value
    /// (e.g. `lg_k` outside its valid bounds, `num_values` of `0`, or operands
    /// that disagree on `num_values`). The string says what was wrong.
    InvalidConfig(String),
    /// Bytes that do not parse as a valid serialized sketch (truncated,
    /// corrupt, or produced with an incompatible seed).
    Deserialization(String),
    /// Any other failure reported by the sketch engine, carrying its message.
    Cpp(String),
    /// An intersection's result was requested before any `update()`.
    EmptyIntersection,
}

/// The human-readable rendering of an error: a fixed prefix per variant,
/// followed by the carried message.
pub open spec fn error_text(e: SketchError) -> Seq<char> {
    match e {
        SketchError::InvalidConfig(m) => "invalid sketch configuration: "@ + m@,
        SketchError::Deserialization(m) => "failed to deserialize sketch: "@ + m@,
        SketchError::Cpp(m) => "datasketches C++ error: "@ + m@,
        SketchError::EmptyIntersection =>
            "intersection has no result: no update() call has been made yet"@,
    }
}

impl SketchError {
    /// Renders this error as text, the way it is shown to a user.
    pub fn to_string(&self) -> (s: String)
        ensures
            s@ == error_text(*self),
    {
        match self {
            SketchError::InvalidConfig(m) => {
                String::from_str("invalid sketch configuration: ").concat(m.as_str())
            },
            SketchError::Deserialization(m) => {
                String::from_str("failed to deserialize sketch: ").concat(m.as_str())
            },
            SketchError::Cpp(m) => String::from_str("datasketches C++ error: ").concat(m.as_str()),
            SketchError::EmptyIntersection => String::from_str(
                "intersection has no result: no update() call has been made yet",
            ),
        }
    }
}

/// What an engine constructor's outcome becomes: its value on success, and
/// [`SketchError::InvalidConfig`] carrying the engine's message on failure.
pub open spec fn config_outcome<T>(r: Result<T, String>) -> Result<T, SketchError> {
    match r {
        Ok(v) => Ok(v),
        Err(m) => Err(SketchError::InvalidConfig(m)),
    }
}

/// What an engine parse's outcome becomes: failure maps to
/// [`SketchError::Deserialization`].
pub open spec fn deserialization_outcome<T>(r: Result<T, String>) -> Result<T, SketchError> {
    match r {
        Ok(v) => Ok(v),
        Err(m) => Err(SketchError::Deserialization(m)),
    }
}

/// What any other engine call's outcome becomes: failure maps to
/// [`SketchError::Cpp`].
pub open spec fn engine_outcome<T>(r: Result<T, String>) -> Result<T, SketchError> {
    match r {
        Ok(v) => Ok(v),
        Err(m) => Err(SketchError::Cpp(m)),
    }
}

/// A configuration the engine accepts passes through unchanged, and every
/// rejection, whatever the engine's message, becomes
/// [`SketchError::InvalidConfig`] carrying exactly that message.
pub proof fn lemma_config_outcome<T>(r: Result<T, String>)
    ensures
        forall|v: T| r == Ok::<T, String>(v) ==> config_outcome(r) == Ok::<T, SketchError>(v),
        forall|m: String|
            r == Err::<T, String>(m) ==> (config_outcome(r) matches Err(
                SketchError::InvalidConfig(x),
            ) && x == m),
{
}

/// Bytes the engine parses pass through unchanged, and every parse failure,
/// whatever the engine's message, becomes [`SketchError::Deserialization`]
/// carrying exactly that message.
pub proof fn lemma_deserialization_outcome<T>(r: Result<T, String>)
    ensures
        forall|v: T| r == Ok::<T, String>(v) ==> deserialization_outcome(r) == Ok::<
            T,
            SketchError,
        >(v),
        forall|m: String|
            r == Err::<T, String>(m) ==> (deserialization_outcome(r) matches Err(
                SketchError::Deserialization(x),
            ) && x == m),
{
}

/// Any other engine call's result passes through unchanged, and every
/// failure it reports becomes [`SketchError::Cpp`] carrying exactly its
/// message.
pub proof fn lemma_engine_outcome<T>(r: Result<T, String>)
    ensures
        forall|v: T| r == Ok::<T, String>(v) ==> engine_outcome(r) == Ok::<T, SketchError>(v),
        forall|m: String|
            r == Err::<T, String>(m) ==> (engine_outcome(r) matches Err(SketchError::Cpp(x))
                && x == m),
{
}

/// Maps the outcome of an engine call that validates configuration (a
/// constructor, or a bound with a `num_std_dev` argument).
pub fn config_result<T>(r: Result<T, String>) -> (out: Result<T, SketchError>)
    ensures
        out == config_outcome(r),
        forall|v: T| r == Ok::<T, String>(v) ==> out == Ok::<T, SketchError>(v),
        forall|m: String|
            r == Err::<T, String>(m) ==> (out matches Err(SketchError::InvalidConfig(x)) && x == m),
{
    match r {
        Ok(v) => Ok(v),
        Err(m) => Err(SketchError::InvalidConfig(m)),
    }
}

/// Maps the outcome of an engine call that parses serialized bytes.
pub fn deserialization_result<T>(r: Result<T, String>) -> (out: Result<T, SketchError>)
    ensures
        out == deserialization_outcome(r),
        forall|v: T| r == Ok::<T, String>(v) ==> out == Ok::<T, SketchError>(v),
        forall|m: String|
            r == Err::<T, String>(m) ==> (out matches Err(SketchError::Deserialization(x)) && x == m),
{
    match r {
        Ok(v) => Ok(v),
        Err(m) => Err(SketchError::Deserialization(m)),
    }
}

/// Maps the outcome of any other engine call.
pub fn engine_result<T>(r: Result<T, String>) -> (out: Result<T, SketchError>)
    ensures
        out == engine_outcome(r),
        forall|v: T| r == Ok::<T, String>(v) ==> out == Ok::<T, SketchError>(v),
        forall|m: String|
            r == Err::<T, String>(m) ==> (out matches Err(SketchError::Cpp(x)) && x == m),
{
    match r {
        Ok(v) => Ok(v),
        Err(m) => Err(SketchError::Cpp(m)),
    }
}

/// Produces an intersection's result. An intersection that has never been
/// updated has no result (the engine treats it as the infinite universe), so
/// `get_result` is not called and [`SketchError::EmptyIntersection`] is
/// returned; otherwise `get_result` is called once and a failure it reports
/// becomes [`SketchError::Cpp`].
pub fn intersection_result<T, F>(has_result: bool, get_result: F) -> (r: Result<T, SketchError>) where
    F: FnOnce() -> Result<T, String>,

    requires
        has_result ==> call_requires(get_result, ()),
    ensures
        !has_result ==> r matches Err(SketchError::EmptyIntersection),
        has_result && r is Err ==> (r matches Err(SketchError::Cpp(_))),
        has_result ==> exists|out: Result<T, String>|
            call_ensures(get_result, (), out) && r == engine_outcome(out),
{
    if !has_result {
        return Err(SketchError::EmptyIntersection);
    }
    let out = get_result();
    engine_result(out)
}

} // verus!
