//! A filter for `Option`.

use vstd::prelude::*;

verus! {

/// Keeps the value of an option only where a test accepts it.
pub trait FilterExt<T> {
    /// The value that `self` holds, if it holds one.
    spec fn held(&self) -> Option<T>;

    /// `self` where it holds a value for which `predicate` returns `true`,
    /// and the empty option otherwise. The predicate is called once where
    /// there is a value, and not at all where there is none.
    fn filter_<P: FnOnce(&T) -> bool>(self, predicate: P) -> (kept: Self)
        requires
            self.held() matches Some(x) ==> call_requires(predicate, (&x,)),
        ensures
            self.held() is None ==> kept.held() is None,
            self.held() matches Some(x) ==> ({
                ||| call_ensures(predicate, (&x,), true) && kept.held() == Some(x)
                ||| call_ensures(predicate, (&x,), false) && kept.held() is None
            }),
    ;
}

impl<T> FilterExt<T> for Option<T> {
    open spec fn held(&self) -> Option<T> {
        *self
    }

    fn filter_<P: FnOnce(&T) -> bool>(self, predicate: P) -> (kept: Self) {
        if let Some(x) = self {
            if predicate(&x) {
                return Some(x);
            }
        }
        None
    }
}

} // verus!
