use vstd::prelude::*;
use vstd::string::StrSliceExecFns;

verus! {

/// The MIME type that a recognised image file extension declares, if any.
/// The extension is expected already lower-cased, without its leading dot.
pub open spec fn mime_for_extension(ext: Seq<char>) -> Option<Seq<char>> {
    if ext == "png"@ {
        Some("image/png"@)
    } else if ext == "jpg"@ || ext == "jpeg"@ {
        Some("image/jpeg"@)
    } else if ext == "webp"@ {
        Some("image/webp"@)
    } else if ext == "bmp"@ {
        Some("image/bmp"@)
    } else if ext == "gif"@ {
        Some("image/gif"@)
    } else {
        None
    }
}

/// Character-by-character text equality.
fn str_equals(a: &str, b: &str) -> (eq: bool)
    ensures
        eq == (a@ == b@),
{
    let len_a = a.unicode_len();
    let len_b = b.unicode_len();
    if len_a != len_b {
        return false;
    }
    let mut i: usize = 0;
    while i < len_a
        invariant
            i <= len_a,
            len_a == a@.len(),
            len_a == b@.len(),
            forall|j: int| 0 <= j < i ==> a@[j] == b@[j],
        decreases len_a - i,
    {
        if a.get_char(i) != b.get_char(i) {
            return false;
        }
        i = i + 1;
    }
    proof {
        assert(a@ =~= b@);
    }
    true
}

/// Map a file extension, lower-cased by the caller, to the MIME type it
/// declares for an image payload.
pub fn mime_from_extension(ext: &str) -> (mime: Option<String>)
    ensures
        match mime {
            Some(text) => mime_for_extension(ext@) == Some(text@),
            None => mime_for_extension(ext@) is None,
        },
{
    if str_equals(ext, "png") {
        Some("image/png".to_owned())
    } else if str_equals(ext, "jpg") || str_equals(ext, "jpeg") {
        Some("image/jpeg".to_owned())
    } else if str_equals(ext, "webp") {
        Some("image/webp".to_owned())
    } else if str_equals(ext, "bmp") {
        Some("image/bmp".to_owned())
    } else if str_equals(ext, "gif") {
        Some("image/gif".to_owned())
    } else {
        None
    }
}

} // verus!
