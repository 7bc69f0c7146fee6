//! The values a download is made for.

use vstd::prelude::*;
use vstd::string::*;
use crate::text::{decimal, u32_to_decimal};

verus! {

/// One published build: a dotted version such as `11.0.5` and a build number.
#[derive(Debug, PartialEq, Eq)]
pub struct Build {
    version: String,
    build_number: u32,
}

impl Build {
    /// The dotted version, as text.
    pub closed spec fn version(&self) -> Seq<char> {
        self.version@
    }

    /// The build number.
    pub closed spec fn number(&self) -> u32 {
        self.build_number
    }

    /// The full version: the dotted version, a dot, and the build number in
    /// decimal. It names the build in requests and on disk.
    pub open spec fn full_version(&self) -> Seq<char> {
        self.version() + "."@ + decimal(self.number() as nat)
    }

    pub fn new(version: &str, build_number: u32) -> (build: Build)
        ensures
            build.version() == version@,
            build.number() == build_number,
    {
        Build { version: String::from_str(version), build_number }
    }

    /// Writes the full version.
    pub fn format_full_version(&self) -> (text: String)
        ensures
            text@ == self.full_version(),
    {
        let mut text = self.version.clone();
        text.append(".");
        let number = u32_to_decimal(self.build_number);
        text.append(number.as_str());
        text
    }
}

impl Clone for Build {
    fn clone(&self) -> (copy: Build)
        ensures
            copy == *self,
    {
        Build { version: self.version.clone(), build_number: self.build_number }
    }
}

} // verus!
