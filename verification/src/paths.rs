//! Names of the three cache artifacts inside the storage directory.
//!
//! The storage directory itself is resolved and created by an outside
//! collaborator and passed in.

use vstd::prelude::*;
use vstd::string::*;

verus! {

/// Path of the image payload inside the storage directory.
pub fn get_image_path(dir: &str) -> (r: String)
    ensures
        r@ == dir@ + "/image.bin"@,
{
    let mut s = String::from_str(dir);
    s.append("/image.bin");
    s
}

/// Path of the image type marker inside the storage directory.
pub fn get_image_format_path(dir: &str) -> (r: String)
    ensures
        r@ == dir@ + "/image.format"@,
{
    let mut s = String::from_str(dir);
    s.append("/image.format");
    s
}

/// Path of the text payload inside the storage directory.
pub fn get_text_path(dir: &str) -> (r: String)
    ensures
        r@ == dir@ + "/text.txt"@,
{
    let mut s = String::from_str(dir);
    s.append("/text.txt");
    s
}

} // verus!
