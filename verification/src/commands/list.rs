//! `avpm list` - list all known vault-ids.

use vstd::prelude::*;

use crate::error::Error;
use crate::index::VaultIndex;
use crate::text;

verus! {

/// What is told where there is nothing to list.
pub const NOTHING_TO_LIST: &'static str = "No vault-ids found";

/// The lines to print, and what to tell the user beside them.
pub struct Listing {
    pub lines: Vec<String>,
    pub notice: Option<&'static str>,
}

/// The known vault-ids in ascending order, with a notice where there are none.
pub fn execute(index: &VaultIndex) -> (r: Result<Listing, Error>)
    ensures
        match r {
            Ok(listing) => {
                &&& index.readable()
                &&& text::strictly_sorted(text::views(listing.lines@))
                &&& forall|k: Seq<char>|
                    text::views(listing.lines@).contains(k) <==> index.ids().contains(k)
                &&& match listing.notice {
                    Some(notice) => notice@ == NOTHING_TO_LIST@ && listing.lines@.len() == 0,
                    None => listing.lines@.len() > 0,
                }
            },
            Err(e) => !index.readable() && index.failure(e),
        },
{
    match index.list() {
        Ok(lines) => {
            let notice = if lines.len() == 0 {
                Some(NOTHING_TO_LIST)
            } else {
                None
            };
            Ok(Listing { lines, notice })
        },
        Err(e) => Err(e),
    }
}

} // verus!
