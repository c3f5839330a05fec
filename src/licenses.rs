//! Licenses that a program can declare in its version information.

use vstd::prelude::*;

verus! {

/// List of recognized licenses for informational messages.
#[derive(Clone, Copy, Debug, PartialEq, Eq, Structural)]
pub enum License {
    Apache2,
    BSD3Clause,
    MIT,
}

/// The license that a package's license identifier names, if it is one of the recognized ones.
pub open spec fn license_of(id: Seq<char>) -> Option<License> {
    if id == "Apache-2.0"@ {
        Some(License::Apache2)
    } else if id == "BSD-3-Clause"@ {
        Some(License::BSD3Clause)
    } else if id == "MIT"@ {
        Some(License::MIT)
    } else {
        None
    }
}

/// How a license is named to the user.
pub open spec fn license_text(l: License) -> Seq<char> {
    match l {
        License::Apache2 => "Apache Version 2.0 <http://www.apache.org/licenses/LICENSE-2.0>"@,
        License::BSD3Clause => "BSD 3-Claus <https://opensource.org/license/bsd-3-clause>"@,
        License::MIT => "MIT <https://opensource.org/license/mit>"@,
    }
}

impl License {
    /// Maps a package license identifier, as Cargo records it, to a `License`. Only a single
    /// identifier is recognized; anything else, such as an `OR` expression, gives `None`.
    pub fn from_cargo(id: &str) -> (r: Option<License>)
        ensures
            r == license_of(id@),
    {
        let id = String::from_str(id);
        if id == String::from_str("Apache-2.0") {
            Some(License::Apache2)
        } else if id == String::from_str("BSD-3-Clause") {
            Some(License::BSD3Clause)
        } else if id == String::from_str("MIT") {
            Some(License::MIT)
        } else {
            None
        }
    }

    /// The name of the license as shown to the user.
    pub fn text(&self) -> (r: &'static str)
        ensures
            r@ == license_text(*self),
    {
        match self {
            License::Apache2 => "Apache Version 2.0 <http://www.apache.org/licenses/LICENSE-2.0>",
            License::BSD3Clause => "BSD 3-Claus <https://opensource.org/license/bsd-3-clause>",
            License::MIT => "MIT <https://opensource.org/license/mit>",
        }
    }

    /// The name of the license as shown to the user.
    pub fn to_string(&self) -> (r: String)
        ensures
            r@ == license_text(*self),
    {
        String::from_str(self.text())
    }
}

} // verus!
