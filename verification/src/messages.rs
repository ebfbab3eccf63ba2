//! The texts of the user interface in one language.
use vstd::prelude::*;

verus! {

/// The interface texts of one language, read from
/// `templates/<lang>/messages.toml`.
pub struct Messages {
    pub correct: String,
    pub results: String,
    pub next_button_msg: String,
    pub give_up_page_msg: String,
    pub give_up_button_msg: String,
    pub check_button_msg: String,
    pub input_placeholder: String,
    pub help1_button_msg: String,
    pub help2_button_msg: String,
}

} // verus!
