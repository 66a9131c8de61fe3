//! Structured extraction of a single work's page from the Archive of Our Own.

use vstd::prelude::*;
use vstd::string::StringExecFns;

pub mod content;
pub mod dom;
pub mod extract;
pub mod fetch;
pub mod laws;
pub mod page;
pub mod registry;
pub mod text;
pub mod work;

verus! {

/// Root of the archive that every work address starts with.
pub const BASE_URL: &'static str = "https://archiveofourown.org";

/// Greets `name`.
pub fn say_hello(name: &str) -> (greeting: String)
    ensures
        greeting@ == "Hello "@ + name@,
{
    String::from_str("Hello ").concat(name)
}

} // verus!
