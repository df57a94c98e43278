//! Choice of the raster file format from a file-name extension.
//!
//! The renderer's driver hands the finished pixel grid to an image encoder
//! in a caller-chosen format; the choice itself is a pure decision on the
//! extension string and is made here.

use vstd::prelude::*;
use vstd::string::StrSliceExecFns;

verus! {

/// The raster formats the driver can encode to.
#[derive(Clone, Copy, Debug, PartialEq, Eq, Structural)]
pub enum OutputFormat {
    Jpeg,
    Png,
    Bmp,
    Ico,
    Tiff,
}

/// The format a file-name extension selects, if any.
pub open spec fn spec_format_for_extension(s: Seq<char>) -> Option<OutputFormat> {
    if s == "jpeg"@ || s == "jpg"@ {
        Some(OutputFormat::Jpeg)
    } else if s == "png"@ {
        Some(OutputFormat::Png)
    } else if s == "bmp"@ {
        Some(OutputFormat::Bmp)
    } else if s == "ico"@ {
        Some(OutputFormat::Ico)
    } else if s == "tiff"@ {
        Some(OutputFormat::Tiff)
    } else {
        None
    }
}

/// Character-for-character string equality.
fn str_eq(a: &str, b: &str) -> (r: bool)
    ensures
        r == (a@ == b@),
{
    let alen = a.unicode_len();
    let blen = b.unicode_len();
    if alen != blen {
        return false;
    }
    let mut idx: usize = 0;
    while idx < alen
        invariant
            idx <= alen,
            alen == a@.len(),
            alen == b@.len(),
            forall|k: int| 0 <= k < idx ==> a@[k] == b@[k],
        decreases alen - idx,
    {
        if a.get_char(idx) != b.get_char(idx) {
            return false;
        }
        idx = idx + 1;
    }
    proof {
        assert(a@ =~= b@);
    }
    true
}

pub fn format_for_extension(ext: &str) -> (r: Option<OutputFormat>)
    ensures
        r == spec_format_for_extension(ext@),
{
    if str_eq(ext, "jpeg") || str_eq(ext, "jpg") {
        Some(OutputFormat::Jpeg)
    } else if str_eq(ext, "png") {
        Some(OutputFormat::Png)
    } else if str_eq(ext, "bmp") {
        Some(OutputFormat::Bmp)
    } else if str_eq(ext, "ico") {
        Some(OutputFormat::Ico)
    } else if str_eq(ext, "tiff") {
        Some(OutputFormat::Tiff)
    } else {
        None
    }
}

} // verus!
