//! The cache's rows.
use vstd::prelude::*;

verus! {

/// One cached upload: the normalized link and the media id the chat platform gave.
pub struct Video {
    pub url: String,
    pub file_id: String,
}

} // verus!
