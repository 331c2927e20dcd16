use vstd::prelude::*;

verus! {

/// A draw attribute: a closed set of exactly two values.
///
/// Future shapes may carry a `Color`; no rendering semantics is attached to
/// it yet, so the type's whole contract is that the set is closed.
#[derive(Clone, Copy, Debug, PartialEq, Eq, Structural)]
pub enum Color {
    Red,
    Blue,
}

/// The two `Color` values are distinct, and every `Color` is one of them:
/// a consumer that handles `Red` and `Blue` needs no fallback case.
pub proof fn lemma_color_exhaustive(c: Color)
    ensures
        c == Color::Red || c == Color::Blue,
        Color::Red != Color::Blue,
{
}

} // verus!
