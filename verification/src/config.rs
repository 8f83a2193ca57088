//! The settings of one import run.

use vstd::prelude::*;

verus! {

/// The settings that the user gives: where the library of sorted files lies.
#[derive(Debug, PartialEq, Eq)]
pub struct UserConfig {
    target_path: String,
}

impl View for UserConfig {
    type V = Seq<char>;

    /// The path of the root of the library.
    closed spec fn view(&self) -> Seq<char> {
        self.target_path@
    }
}

impl UserConfig {
    /// The settings with the given root of the library.
    pub fn new(target_path: String) -> (config: Self)
        ensures
            config@ == target_path@,
    {
        UserConfig { target_path }
    }

    /// The root of the library.
    pub fn target_path(&self) -> (path: &String)
        ensures
            path@ == self@,
    {
        &self.target_path
    }
}

} // verus!
