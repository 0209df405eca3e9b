use vstd::prelude::*;
use vstd::string::StrSliceExecFns;
use crate::types::AndroidOcrError;

verus! {

/// The image placeholder marker that a rendered prompt carries once per
/// supplied image.
pub open spec fn image_slot_pattern() -> Seq<char> {
    seq!['<', 'i', 'm', 'a', 'g', 'e', '>']
}

/// Number of non-overlapping image placeholder markers in the text, counted
/// from the left.
pub open spec fn image_slot_count(s: Seq<char>) -> nat
    decreases s.len(),
{
    if s.len() < 7 {
        0
    } else if s.take(7) == image_slot_pattern() {
        1 + image_slot_count(s.skip(7))
    } else {
        image_slot_count(s.skip(1))
    }
}

/// Does an image placeholder marker start at character `i`?
fn slot_at(prompt: &str, i: usize) -> (found: bool)
    requires
        i + 7 <= prompt@.len(),
        prompt@.len() <= usize::MAX,
    ensures
        found == (prompt@.subrange(i as int, i as int + 7) == image_slot_pattern()),
{
    let found = prompt.get_char(i) == '<' && prompt.get_char(i + 1) == 'i' && prompt.get_char(
        i + 2,
    ) == 'm' && prompt.get_char(i + 3) == 'a' && prompt.get_char(i + 4) == 'g' && prompt.get_char(
        i + 5,
    ) == 'e' && prompt.get_char(i + 6) == '>';
    proof {
        let sub = prompt@.subrange(i as int, i as int + 7);
        assert(sub[0] == prompt@[i as int]);
        assert(sub[1] == prompt@[i as int + 1]);
        assert(sub[2] == prompt@[i as int + 2]);
        assert(sub[3] == prompt@[i as int + 3]);
        assert(sub[4] == prompt@[i as int + 4]);
        assert(sub[5] == prompt@[i as int + 5]);
        assert(sub[6] == prompt@[i as int + 6]);
        if found {
            assert(sub =~= image_slot_pattern());
        }
        if sub == image_slot_pattern() {
            assert(found);
        }
    }
    found
}

/// Count the non-overlapping image placeholder markers in the prompt.
pub fn count_image_slots(prompt: &str) -> (n: usize)
    ensures
        n as nat == image_slot_count(prompt@),
{
    let len = prompt.unicode_len();
    if len < 7 {
        return 0;
    }
    let mut n: usize = 0;
    let mut i: usize = 0;
    proof {
        assert(prompt@.skip(0) =~= prompt@);
    }
    while i <= len - 7
        invariant
            7 <= len,
            len == prompt@.len(),
            i <= len,
            7 * n <= i,
            image_slot_count(prompt@) == n + image_slot_count(prompt@.skip(i as int)),
        decreases len - i,
    {
        if slot_at(prompt, i) {
            proof {
                assert(prompt@.skip(i as int).take(7) =~= prompt@.subrange(
                    i as int,
                    i as int + 7,
                ));
                assert(prompt@.skip(i as int).skip(7) =~= prompt@.skip(i as int + 7));
            }
            n = n + 1;
            i = i + 7;
        } else {
            proof {
                assert(prompt@.skip(i as int).take(7) =~= prompt@.subrange(
                    i as int,
                    i as int + 7,
                ));
                assert(prompt@.skip(i as int).skip(1) =~= prompt@.skip(i as int + 1));
            }
            i = i + 1;
        }
    }
    proof {
        assert(prompt@.skip(i as int).len() < 7);
    }
    n
}

/// An unspecified prompt template falls back to the plain one.
pub fn normalize_template(template: String) -> (r: String)
    ensures
        template@.len() == 0 ==> r@ == "plain"@,
        template@.len() != 0 ==> r@ == template@,
{
    if template.as_str().is_empty() {
        "plain".to_owned()
    } else {
        template
    }
}

/// Relies on the `format` macro: renders the two counts in a readable
/// mismatch message.
#[verifier::external_body]
fn slot_mismatch_message(slots: usize, images: usize) -> (message: String) {
    format!("prompt includes {slots} <image> tokens but {images} image(s) provided")
}

/// Check that the rendered prompt carries exactly one image placeholder
/// marker per supplied image. A mismatch is a hard precondition failure,
/// reported before any decode work starts.
pub fn validate_image_slots(prompt: &str, image_count: usize) -> (r: Result<(), AndroidOcrError>)
    ensures
        r is Ok <==> image_slot_count(prompt@) == image_count as nat,
{
    let slots = count_image_slots(prompt);
    if slots == image_count {
        Ok(())
    } else {
        Err(AndroidOcrError::Failure(slot_mismatch_message(slots, image_count)))
    }
}

} // verus!
