//! Where documents are looked for when the caller names no directory.

use vstd::prelude::*;

verus! {

pub const DEFAULT_PDF_DIR: &'static str = "./pdfs/";

} // verus!
