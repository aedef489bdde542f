//! The payload a newsletter issue is posted with.

use vstd::prelude::*;

verus! {

/// An issue's content, in both formats.
#[derive(Clone, Debug)]
pub struct Content {
    pub html: String,
    pub test: String,
}

/// An issue: its title and its content.
#[derive(Clone, Debug)]
pub struct BodyData {
    pub title: String,
    pub content: Content,
}

} // verus!
