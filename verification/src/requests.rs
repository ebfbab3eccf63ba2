//! The parameters that requests carry.
use vstd::prelude::*;

verus! {

/// The query of the pages that can move on to the next book or sentence.
pub struct NextReq {
    pub next: Option<bool>,
}

/// The guess posted by the player.
pub struct FormData {
    pub title: String,
}

/// Which of the two hints the player asks for.
pub struct HelpReq {
    pub number: u8,
}

} // verus!
