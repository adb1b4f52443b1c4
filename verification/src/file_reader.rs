//! Entry point for markup handed in by the caller. Reading the file
//! itself is the caller's concern; this module receives the text.

use vstd::prelude::*;

verus! {

/// Receive the loaded markup text. No markup construct is in the present
/// repertoire, so the text asks for nothing and the scene is left alone.
pub fn read_file(file_data: String) {
    let _ = file_data;
}

} // verus!
