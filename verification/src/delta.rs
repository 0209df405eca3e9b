use vstd::prelude::*;
use vstd::string::StrSliceExecFns;

verus! {

/// Length of the longest common prefix of two character sequences.
pub open spec fn common_prefix_len(a: Seq<char>, b: Seq<char>) -> nat
    decreases a.len(),
{
    if a.len() == 0 || b.len() == 0 || a[0] != b[0] {
        0
    } else {
        1 + common_prefix_len(a.skip(1), b.skip(1))
    }
}

/// The common prefix is never longer than either sequence.
pub proof fn lemma_common_prefix_le(a: Seq<char>, b: Seq<char>)
    ensures
        common_prefix_len(a, b) <= a.len(),
        common_prefix_len(a, b) <= b.len(),
    decreases a.len(),
{
    if a.len() == 0 || b.len() == 0 || a[0] != b[0] {
    } else {
        lemma_common_prefix_le(a.skip(1), b.skip(1));
    }
}

/// When one sequence is a prefix of the other, the common prefix is the whole
/// shorter sequence.
pub proof fn lemma_common_prefix_of_prefix(a: Seq<char>, b: Seq<char>)
    requires
        a.is_prefix_of(b),
    ensures
        common_prefix_len(a, b) == a.len(),
    decreases a.len(),
{
    if a.len() == 0 {
    } else {
        assert(a[0] == b.subrange(0, a.len() as int)[0]);
        assert(a.skip(1) =~= b.skip(1).subrange(0, a.skip(1).len() as int));
        lemma_common_prefix_of_prefix(a.skip(1), b.skip(1));
    }
}

/// A scan that found `i` equal leading characters, and a mismatch or an end
/// right after them, found exactly the longest common prefix.
proof fn lemma_scan_pins_common_prefix(a: Seq<char>, b: Seq<char>, i: int)
    requires
        0 <= i <= a.len(),
        i <= b.len(),
        forall|j: int| 0 <= j < i ==> a[j] == b[j],
        i < a.len() && i < b.len() ==> a[i] != b[i],
    ensures
        common_prefix_len(a, b) == i,
    decreases i,
{
    if i == 0 {
    } else {
        assert(a[0] == b[0]);
        assert(forall|j: int| 0 <= j < i - 1 ==> a.skip(1)[j] == b.skip(1)[j]);
        assert(i - 1 < a.skip(1).len() && i - 1 < b.skip(1).len() ==> a.skip(1)[i - 1] != b.skip(
            1,
        )[i - 1]);
        lemma_scan_pins_common_prefix(a.skip(1), b.skip(1), i - 1);
    }
}

/// Number of leading characters on which the two texts agree.
fn common_prefix_scan(a: &str, b: &str) -> (i: usize)
    ensures
        i as nat == common_prefix_len(a@, b@),
{
    let len_a = a.unicode_len();
    let len_b = b.unicode_len();
    let bound = if len_a < len_b {
        len_a
    } else {
        len_b
    };
    let mut i: usize = 0;
    loop
        invariant
            i <= bound,
            bound <= a@.len(),
            bound <= b@.len(),
            bound == a@.len() || bound == b@.len(),
            forall|j: int| 0 <= j < i ==> a@[j] == b@[j],
        ensures
            i <= bound,
            forall|j: int| 0 <= j < i ==> a@[j] == b@[j],
            i == bound || a@[i as int] != b@[i as int],
        decreases bound - i,
    {
        if i >= bound {
            break ;
        }
        if a.get_char(i) != b.get_char(i) {
            break ;
        }
        i = i + 1;
    }
    proof {
        lemma_scan_pins_common_prefix(a@, b@, i as int);
    }
    i
}

/// Stateful text differencer: remembers the last full-text snapshot that was
/// handed out and, on each new snapshot, returns only the characters beyond
/// the longest common prefix with the remembered text.
///
/// A snapshot that extends the remembered text yields exactly the appended
/// suffix. A snapshot whose prefix changed (re-tokenization drift) or that
/// shrank yields the portion beyond the common prefix — a conservative
/// re-sync that never emits a garbled delta and never splits the text at an
/// arbitrary byte.
pub struct DeltaTracker {
    last: String,
}

impl View for DeltaTracker {
    type V = Seq<char>;

    closed spec fn view(&self) -> Seq<char> {
        self.last@
    }
}

impl DeltaTracker {
    /// A fresh tracker remembers the empty text.
    pub fn new() -> (tracker: Self)
        ensures
            tracker@ == Seq::<char>::empty(),
    {
        DeltaTracker { last: String::new() }
    }

    /// Take the next full-text snapshot as authoritative: remember it and
    /// return the delta beyond the longest common prefix with the previous
    /// snapshot. On `is_final` the logic is the same; the caller guarantees
    /// that no later call follows.
    ///
    /// Identical consecutive snapshots give an empty delta, and a snapshot
    /// that extends the previous one gives exactly the appended suffix.
    pub fn advance(&mut self, full_text: &str, is_final: bool) -> (delta: String)
        ensures
            final(self)@ == full_text@,
            delta@ == full_text@.skip(common_prefix_len(old(self)@, full_text@) as int),
            old(self)@.is_prefix_of(full_text@) ==> delta@ == full_text@.skip(
                old(self)@.len() as int,
            ),
            old(self)@ == full_text@ ==> delta@.len() == 0,
    {
        let shared = common_prefix_scan(self.last.as_str(), full_text);
        proof {
            lemma_common_prefix_le(self.last@, full_text@);
        }
        let full_len = full_text.unicode_len();
        let suffix = full_text.substring_char(shared, full_len);
        let delta = suffix.to_owned();
        self.last = full_text.to_owned();
        proof {
            assert(delta@ =~= full_text@.skip(common_prefix_len(old(self)@, full_text@) as int));
            if old(self)@.is_prefix_of(full_text@) {
                lemma_common_prefix_of_prefix(old(self)@, full_text@);
            }
            if old(self)@ == full_text@ {
                assert(old(self)@.is_prefix_of(full_text@));
                lemma_common_prefix_of_prefix(old(self)@, full_text@);
            }
        }
        delta
    }
}

impl Default for DeltaTracker {
    /// A fresh tracker remembers the empty text.
    fn default() -> (tracker: Self)
        ensures
            tracker@ == Seq::<char>::empty(),
    {
        DeltaTracker::new()
    }
}

/// The delta that `DeltaTracker::advance` hands out when `prev` is the
/// remembered text and `next` is the new snapshot.
pub open spec fn delta_of(prev: Seq<char>, next: Seq<char>) -> Seq<char> {
    next.skip(common_prefix_len(prev, next) as int)
}

/// The concatenation of all deltas of a run of snapshots, fed in order to a
/// tracker that started out remembering the empty text.
pub open spec fn concat_deltas(snaps: Seq<Seq<char>>) -> Seq<char>
    decreases snaps.len(),
{
    if snaps.len() == 0 {
        Seq::empty()
    } else {
        let prev = if snaps.len() == 1 {
            Seq::<char>::empty()
        } else {
            snaps[snaps.len() - 2]
        };
        concat_deltas(snaps.drop_last()) + delta_of(prev, snaps.last())
    }
}

/// Delta concatenation law: when every snapshot extends its predecessor by
/// appending, concatenating the deltas in order reconstructs the last
/// snapshot exactly.
pub proof fn lemma_delta_concatenation(snaps: Seq<Seq<char>>)
    requires
        snaps.len() > 0,
        forall|k: int| 0 <= k < snaps.len() - 1 ==> (#[trigger] snaps[k]).is_prefix_of(
            snaps[k + 1],
        ),
    ensures
        concat_deltas(snaps) == snaps.last(),
    decreases snaps.len(),
{
    if snaps.len() == 1 {
        assert(common_prefix_len(Seq::<char>::empty(), snaps[0]) == 0);
        assert(snaps.drop_last().len() == 0);
        assert(concat_deltas(snaps.drop_last()) == Seq::<char>::empty());
        assert(snaps.last() == snaps[0]);
        assert(concat_deltas(snaps) =~= snaps[0]);
    } else {
        let shorter = snaps.drop_last();
        assert(forall|k: int|
            0 <= k < shorter.len() - 1 ==> (#[trigger] shorter[k]).is_prefix_of(shorter[k + 1]));
        lemma_delta_concatenation(shorter);
        let prev = snaps[snaps.len() - 2];
        let lastv = snaps.last();
        assert(prev.is_prefix_of(lastv));
        lemma_common_prefix_of_prefix(prev, lastv);
        assert(shorter.last() == prev);
        assert(concat_deltas(snaps) == prev + lastv.skip(prev.len() as int));
        assert(prev + lastv.skip(prev.len() as int) =~= lastv);
    }
}

} // verus!
