//! What the repositories compute before they query: where a page starts.
use vstd::prelude::*;

verus! {

/// The number of rows before page `page` (counted from 1) of `page_size`
/// rows: `(page - 1) * page_size`.
pub fn offset_de_pagina(page: u32, page_size: u32) -> (r: u32)
    requires
        page >= 1,
        (page - 1) * page_size <= u32::MAX,
    ensures
        r == (page - 1) * page_size,
{
    (page - 1) * page_size
}

} // verus!
