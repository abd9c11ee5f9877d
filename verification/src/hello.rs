//! The object that the QML front end instantiates.

use vstd::prelude::*;

verus! {

/// The Rust side of the QML `Hello` object; it holds no state.
#[derive(Debug)]
pub struct HelloRust {}

impl Default for HelloRust {
    fn default() -> (r: Self)
        ensures
            r == (HelloRust {}),
    {
        HelloRust {}
    }
}

} // verus!
