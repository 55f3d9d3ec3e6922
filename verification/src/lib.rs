pub mod http;
pub mod json;
pub mod num;
pub mod server;
pub mod text;

use vstd::prelude::*;

verus! {

/// A stored task: the one resource this library manages.
pub struct Task {
    pub id: Option<i32>,
    pub title: String,
    pub description: String,
}

} // verus!
