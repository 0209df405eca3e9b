use vstd::prelude::*;
use vstd::math::min;
use crate::delta::DeltaTracker;
use crate::delta::common_prefix_len;
use crate::types::AndroidProgressEvent;

verus! {

/// Declares tokenizers::Tokenizer so it can stand in fields and signatures;
/// the value is opaque here and only carried through to the decode call.
#[verifier::external_type_specification]
#[verifier::external_body]
pub struct ExTokenizer(tokenizers::Tokenizer);

/// Relies on tokenizers::Tokenizer::decode: renders token ids as text through
/// the tokenizer's vocabulary and decoder. The text depends on that
/// vocabulary, so nothing is pinned about the returned string; a rejected id
/// slice comes back as `None`.
#[verifier::external_body]
fn decode_token_ids(tokenizer: &tokenizers::Tokenizer, ids: &Vec<u32>) -> (decoded: Option<String>) {
    tokenizer.decode(ids, true).ok()
}

/// Spec-level state of one dispatcher: the text already handed out and the
/// highest token count acted upon.
#[verifier::ext_equal]
pub ghost struct DispatcherModel {
    pub last_text: Seq<char>,
    pub last_count: int,
}

/// Spec-level progress event.
#[verifier::ext_equal]
pub ghost struct ProgressEventModel {
    pub token_count: u32,
    pub delta: Seq<char>,
    pub is_final: bool,
}

/// A notification is acted upon when its count is neither zero nor (unless
/// final) behind the highest count already acted upon.
pub open spec fn accepts(last_count: int, count: int, is_final: bool) -> bool {
    count != 0 && (is_final || count > last_count)
}

/// The token count carried by an event, clamped to what a `u32` can hold.
pub open spec fn clamp_count(count: int) -> u32 {
    if count > u32::MAX {
        u32::MAX
    } else {
        count as u32
    }
}

/// The ids of a notification prefix that are representable as unsigned token
/// ids, in order; the rest are dropped rather than failing the notification.
pub open spec fn valid_token_ids(ids: Seq<i64>) -> Seq<u32>
    decreases ids.len(),
{
    if ids.len() == 0 {
        Seq::empty()
    } else {
        let rest = valid_token_ids(ids.drop_last());
        if 0 <= ids.last() <= u32::MAX {
            rest.push(ids.last() as u32)
        } else {
            rest
        }
    }
}

/// The characters of an optional decoded text.
pub open spec fn decoded_view(decoded: Option<String>) -> Option<Seq<char>> {
    match decoded {
        Some(text) => Some(text@),
        None => None,
    }
}

/// Dispatcher state after one notification with count `count`, decoded text
/// `decoded` (`None` when detokenization failed or was skipped) and finality
/// `is_final`.
pub open spec fn step_state(
    pre: DispatcherModel,
    count: int,
    decoded: Option<Seq<char>>,
    is_final: bool,
) -> DispatcherModel {
    if count == 0 {
        DispatcherModel { last_text: pre.last_text, last_count: 0 }
    } else if !is_final && count <= pre.last_count {
        pre
    } else {
        match decoded {
            Some(text) => DispatcherModel { last_text: text, last_count: count },
            None => DispatcherModel { last_text: pre.last_text, last_count: count },
        }
    }
}

/// Event emitted by that same notification: at most one, only when the
/// notification was acted upon, decoded, and produced a non-empty delta.
pub open spec fn step_event(
    pre: DispatcherModel,
    count: int,
    decoded: Option<Seq<char>>,
    is_final: bool,
) -> Option<ProgressEventModel> {
    if count == 0 || (!is_final && count <= pre.last_count) {
        None
    } else {
        match decoded {
            Some(text) => {
                let delta = text.skip(common_prefix_len(pre.last_text, text) as int);
                if delta.len() == 0 {
                    None
                } else {
                    Some(
                        ProgressEventModel {
                            token_count: clamp_count(count),
                            delta: delta,
                            is_final: is_final,
                        },
                    )
                }
            },
            None => None,
        }
    }
}

/// An executable event matches its spec-level counterpart field by field.
pub open spec fn matches_event(
    event: Option<AndroidProgressEvent>,
    model: Option<ProgressEventModel>,
) -> bool {
    match event {
        Some(ev) => model matches Some(em) && ev.token_count == em.token_count && ev.delta_text@
            == em.delta && ev.is_final == em.is_final,
        None => model is None,
    }
}

/// Bridge between a decode loop's raw `(count, token ids)` notifications and
/// host-visible progress events: drops stale and duplicate notifications,
/// detokenizes the snapshot prefix, and emits an event only when new,
/// non-empty text appeared.
pub struct ProgressDispatcher {
    tokenizer: tokenizers::Tokenizer,
    tracker: DeltaTracker,
    last_count: usize,
}

impl View for ProgressDispatcher {
    type V = DispatcherModel;

    closed spec fn view(&self) -> DispatcherModel {
        DispatcherModel { last_text: self.tracker@, last_count: self.last_count as int }
    }
}

impl ProgressDispatcher {
    /// A fresh dispatcher for one decode session: nothing emitted yet, no
    /// notification acted upon yet.
    pub fn new(tokenizer: tokenizers::Tokenizer) -> (dispatcher: Self)
        ensures
            dispatcher@.last_text == Seq::<char>::empty(),
            dispatcher@.last_count == 0,
    {
        ProgressDispatcher { tokenizer, tracker: DeltaTracker::new(), last_count: 0 }
    }

    /// Apply one notification whose snapshot text is already decoded
    /// (`None` when detokenization failed: the notification is skipped
    /// without an event, recoverable by the next, larger snapshot).
    ///
    /// Two consecutive snapshots with identical text never produce a second
    /// event: the delta beyond their common prefix is empty and is
    /// suppressed.
    pub fn handle_decoded(&mut self, count: usize, decoded: Option<String>, is_final: bool) -> (r:
        Option<AndroidProgressEvent>)
        ensures
            final(self)@ == step_state(old(self)@, count as int, decoded_view(decoded), is_final),
            matches_event(r, step_event(old(self)@, count as int, decoded_view(decoded), is_final)),
            decoded matches Some(text) && text@ == old(self)@.last_text ==> r is None,
    {
        if count == 0 {
            self.last_count = 0;
            proof {
                assert(self@ =~= step_state(old(self)@, count as int, decoded_view(decoded), is_final));
            }
            return None;
        }
        if !is_final && count <= self.last_count {
            return None;
        }
        self.last_count = count;
        match decoded {
            None => {
                proof {
                    assert(self@ =~= step_state(
                        old(self)@,
                        count as int,
                        decoded_view(decoded),
                        is_final,
                    ));
                }
                None
            },
            Some(text) => {
                let delta = self.tracker.advance(text.as_str(), is_final);
                proof {
                    assert(self@ =~= step_state(
                        old(self)@,
                        count as int,
                        decoded_view(Some(text)),
                        is_final,
                    ));
                }
                if delta.as_str().is_empty() {
                    None
                } else {
                    let token_count: u32 = if count > u32::MAX as usize {
                        u32::MAX
                    } else {
                        count as u32
                    };
                    Some(AndroidProgressEvent { token_count, delta_text: delta, is_final })
                }
            },
        }
    }

    /// Receive one raw notification from the decode loop. A zero count resets
    /// the session's high-water mark; a stale or duplicate non-final count is
    /// dropped; otherwise the representable ids of the snapshot prefix are
    /// detokenized and the resulting text drives the delta tracker.
    ///
    /// What the tokenizer returns is not pinned, so the contract speaks of
    /// the relation between the state before and after: an emitted event
    /// carries exactly the characters beyond the common prefix of the two
    /// states, and a silent outcome leaves nothing new unreported.
    pub fn handle(&mut self, count: usize, ids: &[i64], is_final: bool) -> (r: Option<
        AndroidProgressEvent,
    >)
        ensures
            count == 0 ==> final(self)@.last_text == old(self)@.last_text
                && final(self)@.last_count == 0
                && r is None,
            count != 0 && !is_final && count as int <= old(self)@.last_count
                ==> final(self)@ == old(self)@ && r is None,
            accepts(old(self)@.last_count, count as int, is_final)
                ==> final(self)@.last_count == count as int,
            accepts(old(self)@.last_count, count as int, is_final)
                && valid_token_ids(ids@.take(min(count as int, ids@.len() as int))).len() == 0
                ==> final(self)@.last_text == old(self)@.last_text && r is None,
            accepts(old(self)@.last_count, count as int, is_final) ==> match r {
                Some(ev) => ev.token_count == clamp_count(count as int)
                    && ev.is_final == is_final
                    && ev.delta_text@ == final(self)@.last_text.skip(
                        common_prefix_len(old(self)@.last_text, final(self)@.last_text) as int)
                    && ev.delta_text@.len() > 0,
                None => common_prefix_len(old(self)@.last_text, final(self)@.last_text)
                    == final(self)@.last_text.len(),
            },
    {
        if count == 0 || (!is_final && count <= self.last_count) {
            return self.handle_decoded(count, None, is_final);
        }
        let upto = if count < ids.len() {
            count
        } else {
            ids.len()
        };
        let token_slice = collect_valid_ids(ids, upto);
        let decoded = if token_slice.len() == 0 {
            None
        } else {
            decode_token_ids(&self.tokenizer, &token_slice)
        };
        let ghost pre = self@;
        let r = self.handle_decoded(count, decoded, is_final);
        proof {
            crate::delta::lemma_common_prefix_le(pre.last_text, self@.last_text);
            if self@.last_text == pre.last_text {
                assert(pre.last_text.is_prefix_of(self@.last_text));
                crate::delta::lemma_common_prefix_of_prefix(pre.last_text, self@.last_text);
            }
        }
        r
    }

    /// Guarantee one last, complete flush after the decode loop has fully
    /// returned: apply a final notification carrying the whole generated
    /// token sequence, even when the loop itself never called back.
    pub fn finalize(&mut self, tokens: &[i64]) -> (r: Option<AndroidProgressEvent>)
        ensures
            tokens@.len() == 0 ==> final(self)@.last_text == old(self)@.last_text
                && final(self)@.last_count == 0
                && r is None,
            tokens@.len() != 0 ==> final(self)@.last_count == tokens@.len() as int,
            tokens@.len() != 0 ==> match r {
                Some(ev) => ev.token_count == clamp_count(tokens@.len() as int)
                    && ev.is_final
                    && ev.delta_text@ == final(self)@.last_text.skip(
                        common_prefix_len(old(self)@.last_text, final(self)@.last_text) as int)
                    && ev.delta_text@.len() > 0,
                None => common_prefix_len(old(self)@.last_text, final(self)@.last_text)
                    == final(self)@.last_text.len(),
            },
    {
        self.handle(tokens.len(), tokens, true)
    }
}

/// Collect the ids of `ids[..upto]` that are representable as unsigned token
/// ids, dropping the rest.
fn collect_valid_ids(ids: &[i64], upto: usize) -> (out: Vec<u32>)
    requires
        upto <= ids@.len(),
    ensures
        out@ == valid_token_ids(ids@.take(upto as int)),
{
    let mut out: Vec<u32> = Vec::new();
    let mut i: usize = 0;
    while i < upto
        invariant
            upto <= ids@.len(),
            i <= upto,
            out@ == valid_token_ids(ids@.take(i as int)),
        decreases upto - i,
    {
        let id = ids[i];
        if id >= 0 && id <= u32::MAX as i64 {
            out.push(id as u32);
        }
        i = i + 1;
        proof {
            assert(ids@.take(i as int).drop_last() =~= ids@.take(i as int - 1));
            assert(ids@.take(i as int).last() == ids@[i as int - 1]);
        }
    }
    out
}

/// Final flush guarantee: from a fresh session, a final notification whose
/// snapshot decodes to the complete, non-empty generated text emits exactly
/// one event, terminal, whose delta is that whole text.
pub proof fn lemma_final_flush(text: Seq<char>, count: int)
    requires
        text.len() > 0,
        count != 0,
    ensures
        ({
            let pre = DispatcherModel { last_text: Seq::<char>::empty(), last_count: 0 };
            &&& step_event(pre, count, Some(text), true) == Some(
                ProgressEventModel { token_count: clamp_count(count), delta: text, is_final: true },
            )
            &&& step_state(pre, count, Some(text), true) == (DispatcherModel {
                last_text: text,
                last_count: count,
            })
        }),
{
    let pre = DispatcherModel { last_text: Seq::<char>::empty(), last_count: 0 };
    assert(common_prefix_len(pre.last_text, text) == 0);
    assert(text.skip(0) =~= text);
}

/// Empty-delta suppression: a notification whose snapshot decodes to exactly
/// the text already handed out emits no event, whatever its count.
pub proof fn lemma_empty_delta_suppression(
    pre: DispatcherModel,
    count: int,
    is_final: bool,
)
    ensures
        step_event(pre, count, Some(pre.last_text), is_final) is None,
{
    let text = pre.last_text;
    assert(text.is_prefix_of(text)) by {
        assert(text =~= text.subrange(0, text.len() as int));
    }
    crate::delta::lemma_common_prefix_of_prefix(text, text);
    assert(text.skip(text.len() as int) =~= Seq::<char>::empty());
}

} // verus!
