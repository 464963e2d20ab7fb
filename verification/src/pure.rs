//! Closures that compute: they accept every argument, and the same argument
//! always gives the same result.

use vstd::prelude::*;

verus! {

/// The closure accepts every argument and is a function of it.
pub open spec fn pure<A, R, P: Fn(A) -> R>(f: P) -> bool {
    &&& forall|a: A| call_requires(f, (a,))
    &&& forall|a: A, r: R, s: R|
        call_ensures(f, (a,), r) && call_ensures(f, (a,), s) ==> r == s
}

/// What a pure closure returns.
pub open spec fn result<A, R, P: Fn(A) -> R>(f: P, a: A) -> R {
    choose|r: R| call_ensures(f, (a,), r)
}

/// Calls a pure closure.
pub fn apply<A, R, P: Fn(A) -> R>(f: &P, a: A) -> (r: R)
    requires
        pure(*f),
    ensures
        r == result(*f, a),
        call_ensures(*f, (a,), r),
{
    f(a)
}

/// The closure accepts every pair of arguments and is a function of them.
pub open spec fn pure2<A, B, R, P: Fn(A, B) -> R>(f: P) -> bool {
    &&& forall|a: A, b: B| call_requires(f, (a, b))
    &&& forall|a: A, b: B, r: R, s: R|
        call_ensures(f, (a, b), r) && call_ensures(f, (a, b), s) ==> r == s
}

/// What a pure closure of two arguments returns.
pub open spec fn result2<A, B, R, P: Fn(A, B) -> R>(f: P, a: A, b: B) -> R {
    choose|r: R| call_ensures(f, (a, b), r)
}

/// Calls a pure closure of two arguments.
pub fn apply2<A, B, R, P: Fn(A, B) -> R>(f: &P, a: A, b: B) -> (r: R)
    requires
        pure2(*f),
    ensures
        r == result2(*f, a, b),
        call_ensures(*f, (a, b), r),
{
    f(a, b)
}

/// What a text stands for.
pub open spec fn spoken<H, P: Fn(&str) -> Option<H>>(parse: P, text: Seq<char>) -> Option<H> {
    choose|h: Option<H>| reads(parse, text, h)
}

/// Whether a text can be read as `h`.
pub open spec fn reads<H, P: Fn(&str) -> Option<H>>(
    parse: P,
    text: Seq<char>,
    h: Option<H>,
) -> bool {
    exists|s: &str| s@ == text && #[trigger] call_ensures(parse, (s,), h)
}

/// Whether a reader accepts every text, and reads the same text the same
/// way.
pub open spec fn reads_texts<H, P: Fn(&str) -> Option<H>>(parse: P) -> bool {
    &&& forall|s: &str| call_requires(parse, (s,))
    &&& forall|text: Seq<char>, a: Option<H>, b: Option<H>|
        reads(parse, text, a) && reads(parse, text, b) ==> a == b
}

} // verus!
