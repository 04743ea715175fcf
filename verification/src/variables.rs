//! Binding values to names.

use vstd::prelude::*;
use crate::functions::fn_test;

verus! {

/// Takes a value of any type and gives nothing back.
///
/// The value is moved in and dropped when the function returns.
#[allow(unused_variables)]
pub fn foobar<T>(x: T) {
}

/// Walks through the ways of binding a value to a name.
///
/// A name may be declared first and given its value later, as long as the
/// value is there before the name is read. A binding may state its type or
/// leave it out. Binding to `_` throws the value away.
///
/// Nothing is returned and nothing outside the function changes.
#[allow(unused_variables)]
pub fn variables() {
    // Declared first, assigned afterwards.
    let x: i32;
    x = 5;

    let y: i32 = 3;

    // Signed, 32 bits wide. The other widths are 8, 16, 64 and 128, each
    // signed (`i8` ..) or unsigned (`u8` ..).
    let z: i32 = 6;

    // A fresh `x` shadows the first one. It has to hold a value before it is
    // handed to `foobar`.
    let x: i32;
    x = 42;
    foobar(x);

    // Throwing a value away.
    let _: i32 = 42;

    // Throwing a returned value away.
    let _ = fn_test();
}

} // verus!
