//! The input formats a scene may hold, judged by file extension.
use vstd::prelude::*;
use vstd::string::StrSliceExecFns;

use crate::text::{extension_of, path_extension};

verus! {

/// Code point of `c` after ASCII lower-casing.
pub open spec fn ascii_lower(c: char) -> int {
    if 'A' <= c <= 'Z' {
        c as int + 32
    } else {
        c as int
    }
}

/// Whether `ext` spells `name` (given in lower case) up to ASCII case.
pub open spec fn ext_is(ext: Seq<char>, name: Seq<char>) -> bool {
    &&& ext.len() == name.len()
    &&& forall|i: int| 0 <= i < ext.len() ==> ascii_lower(#[trigger] ext[i]) == name[i] as int
}

/// Extensions of the inputs a scene may hold: JPEG, which can be filtered, and the raw and
/// intermediate formats that are converted before the merge.
pub open spec fn supported_extensions() -> Seq<Seq<char>> {
    seq![
        "jpg"@, "jpeg"@, "3fr"@, "ari"@, "arw"@, "bay"@, "braw"@, "crw"@, "cr2"@, "cr3"@,
        "cap"@, "data"@, "dcs"@, "dcr"@, "dng"@, "drf"@, "eip"@, "erf"@, "fff"@, "gpr"@,
        "iiq"@, "k25"@, "kdc"@, "mdc"@, "mef"@, "mos"@, "mrw"@, "nef"@, "nrw"@, "obm"@,
        "orf"@, "pef"@, "ptx"@, "pxn"@, "r3d"@, "raf"@, "raw"@, "rwl"@, "rw2"@, "rwz"@,
        "sr2"@, "srf"@, "srw"@, "tif"@, "tiff"@, "x3f"@,
    ]
}

pub open spec fn is_supported_extension(ext: Seq<char>) -> bool {
    exists|i: int| 0 <= i < supported_extensions().len() && ext_is(ext, #[trigger] supported_extensions()[i])
}

pub open spec fn is_jpeg_extension(ext: Seq<char>) -> bool {
    ext_is(ext, "jpg"@) || ext_is(ext, "jpeg"@)
}

pub open spec fn is_tiff_extension(ext: Seq<char>) -> bool {
    ext_is(ext, "tif"@) || ext_is(ext, "tiff"@)
}

/// A file the merge can take, judged by its extension.
pub open spec fn is_supported_path(path: Seq<char>) -> bool {
    is_supported_extension(path_extension(path))
}

/// A JPEG file, judged by its extension.
pub open spec fn is_jpeg_path(path: Seq<char>) -> bool {
    is_jpeg_extension(path_extension(path))
}

/// A file that must be converted to TIFF before the merge: neither JPEG nor TIFF.
pub open spec fn is_raw_path(path: Seq<char>) -> bool {
    !is_jpeg_extension(path_extension(path)) && !is_tiff_extension(path_extension(path))
}

/// Whether `ext` spells `name` (lower case) up to ASCII case.
pub fn extension_is(ext: &str, name: &str) -> (r: bool)
    ensures
        r == ext_is(ext@, name@),
{
    let n = ext.unicode_len();
    if n != name.unicode_len() {
        return false;
    }
    let mut i: usize = 0;
    while i < n
        invariant
            i <= n == ext@.len() == name@.len(),
            forall|j: int| 0 <= j < i ==> ascii_lower(#[trigger] ext@[j]) == name@[j] as int,
        decreases n - i,
    {
        let c = ext.get_char(i);
        let lowered: u32 = if 'A' <= c && c <= 'Z' {
            c as u32 + 32
        } else {
            c as u32
        };
        if lowered != name.get_char(i) as u32 {
            return false;
        }
        i = i + 1;
    }
    true
}

fn supported_extension_list() -> (r: Vec<&'static str>)
    ensures
        r@.len() == supported_extensions().len(),
        forall|i: int| 0 <= i < r@.len() ==> #[trigger] r@[i]@ == supported_extensions()[i],
{
    let r = vec![
        "jpg", "jpeg", "3fr", "ari", "arw", "bay", "braw", "crw", "cr2", "cr3",
        "cap", "data", "dcs", "dcr", "dng", "drf", "eip", "erf", "fff", "gpr",
        "iiq", "k25", "kdc", "mdc", "mef", "mos", "mrw", "nef", "nrw", "obm",
        "orf", "pef", "ptx", "pxn", "r3d", "raf", "raw", "rwl", "rw2", "rwz",
        "sr2", "srf", "srw", "tif", "tiff", "x3f",
    ];
    r
}

/// Whether an extension is one of the supported input formats, ignoring ASCII case.
pub fn is_supported_extension_text(ext: &str) -> (r: bool)
    ensures
        r == is_supported_extension(ext@),
{
    let list = supported_extension_list();
    let mut i: usize = 0;
    while i < list.len()
        invariant
            i <= list@.len() == supported_extensions().len(),
            forall|j: int| 0 <= j < list@.len() ==> #[trigger] list@[j]@ == supported_extensions()[j],
            forall|j: int| 0 <= j < i ==> !ext_is(ext@, #[trigger] supported_extensions()[j]),
        decreases list@.len() - i,
    {
        if extension_is(ext, list[i]) {
            return true;
        }
        i = i + 1;
    }
    false
}

/// Whether `path` has a supported input extension.
pub fn is_supported_format(path: &str) -> (r: bool)
    ensures
        r == is_supported_path(path@),
{
    let ext = extension_of(path);
    is_supported_extension_text(ext.as_str())
}

/// Whether `path` names a JPEG image (extension `jpg` or `jpeg`, any case).
pub fn is_jpeg(path: &str) -> (r: bool)
    ensures
        r == is_jpeg_path(path@),
{
    let ext = extension_of(path);
    extension_is(ext.as_str(), "jpg") || extension_is(ext.as_str(), "jpeg")
}

/// Whether `path` names a raw image that needs conversion to TIFF: not JPEG and not TIFF.
pub fn is_raw(path: &str) -> (r: bool)
    ensures
        r == is_raw_path(path@),
{
    let ext = extension_of(path);
    let e = ext.as_str();
    !(extension_is(e, "jpg") || extension_is(e, "jpeg") || extension_is(e, "tiff")
        || extension_is(e, "tif"))
}

} // verus!
