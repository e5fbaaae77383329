//! The reasons for which a command line is refused.

use vstd::prelude::*;

verus! {

/// Why start-up stops. Each of them is final: nothing is defaulted or
/// partly applied once one of them has come up.
#[derive(Debug, Clone, Copy, PartialEq, Eq, Structural)]
pub enum ConfigError {
    /// A `-m` token does not begin with `name`, `image` or `label`.
    MapSelector,
    /// A `-m` token begins with a selector but has fewer than three parts,
    /// so that its base url is missing.
    MapUrl,
    /// `-d` was given as zero.
    ZeroInterval,
}

impl ConfigError {
    /// The line shown to the operator for this error.
    pub open spec fn spec_message(self) -> Seq<char> {
        match self {
            ConfigError::MapSelector =>
                "Couldn't parse type, \"-m\" argument needs to be in the format \"name|image|label;value;base_url\""@,
            ConfigError::MapUrl =>
                "Couldn't parse url, \"-m\" argument needs to be in the format \"name|image|label;value;input_url\""@,
            ConfigError::ZeroInterval => "\"-d\" argument needs to be greater than 0"@,
        }
    }

    /// The status with which the process ends after this error.
    pub open spec fn spec_exit_code(self) -> i32 {
        1
    }

    /// The line to write on the error channel before giving up.
    pub fn message(&self) -> (text: &'static str)
        ensures
            text@ == self.spec_message(),
    {
        match self {
            ConfigError::MapSelector =>
                "Couldn't parse type, \"-m\" argument needs to be in the format \"name|image|label;value;base_url\"",
            ConfigError::MapUrl =>
                "Couldn't parse url, \"-m\" argument needs to be in the format \"name|image|label;value;input_url\"",
            ConfigError::ZeroInterval => "\"-d\" argument needs to be greater than 0",
        }
    }

    /// The exit status that goes with this error: never zero.
    pub fn exit_code(&self) -> (code: i32)
        ensures
            code == self.spec_exit_code(),
            code != 0,
    {
        1
    }
}

} // verus!
