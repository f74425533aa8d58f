//! One record of the remote feed: a saint entry as the feed's JSON carries
//! it, with its Italian field names.

use vstd::prelude::*;

verus! {

/// One saint entry of the feed: name, category, and an optional image URL
/// and description.
pub struct SaintApi {
    pub nome: String,
    pub tipologia: String,
    pub urlimmagine: Option<String>,
    pub descrizione: Option<String>,
}

} // verus!
