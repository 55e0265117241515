use vstd::prelude::*;

verus! {

/// The entry point of dependency injection; it has nothing to set up yet.
pub fn Injector() {
}

/// A type that makes values of itself.
pub trait Factory {
    fn get() -> Box<Self>;
}

} // verus!
