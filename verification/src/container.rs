//! Telling whether the program itself runs inside a container.
//!
//! The program's own container image sets one environment variable to one
//! fixed value. Neither is for users to configure. The caller reads the
//! variable and hands over what it found.

use vstd::prelude::*;

verus! {

/// The variable that the container image sets.
pub const ENV_KEY: &'static str = "OXKER_RUNTIME";

/// The value that the container image gives it.
pub const ENV_VALUE: &'static str = "container";

/// Whether a reading of the variable marks a container: the variable is
/// set, and to exactly the fixed value.
pub open spec fn marks_container(value: Option<Seq<char>>) -> bool {
    value == Some(ENV_VALUE@)
}

} // verus!
