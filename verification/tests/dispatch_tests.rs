use deepseek_ocr_android::{AndroidProgressEvent, ProgressDispatcher};
use tokenizers::models::wordlevel::WordLevel;
use tokenizers::Tokenizer;

fn vocab_tokenizer(entries: &[(&str, u32)]) -> Tokenizer {
    let model = WordLevel::builder()
        .vocab(
            entries
                .iter()
                .map(|(token, id)| (token.to_string(), *id))
                .collect(),
        )
        .unk_token("<unk>".to_string())
        .build()
        .expect("word-level vocabulary");
    Tokenizer::new(model)
}

fn hello_world_tokenizer() -> Tokenizer {
    vocab_tokenizer(&[("Hello", 15496), ("world", 995)])
}

fn numbered_tokenizer() -> Tokenizer {
    vocab_tokenizer(&[
        ("w0", 0),
        ("w1", 1),
        ("w2", 2),
        ("w3", 3),
        ("w4", 4),
        ("w5", 5),
        ("w6", 6),
        ("w7", 7),
        ("w8", 8),
        ("w9", 9),
    ])
}

#[test]
fn single_notification_emits_full_text() {
    let mut dispatcher = ProgressDispatcher::new(hello_world_tokenizer());
    let event = dispatcher
        .handle(2, &[15496, 995], false)
        .expect("one event");
    assert_eq!(event.token_count, 2);
    assert_eq!(event.delta_text, "Hello world");
    assert!(!event.is_final);
}

#[test]
fn stale_and_duplicate_counts_are_suppressed() {
    let ids: Vec<i64> = (0..10).collect();
    let mut dispatcher = ProgressDispatcher::new(numbered_tokenizer());
    let mut emitted: Vec<(usize, AndroidProgressEvent)> = Vec::new();
    for count in [5usize, 3, 7, 7, 10] {
        if let Some(event) = dispatcher.handle(count, &ids, false) {
            emitted.push((count, event));
        }
    }
    let counts: Vec<usize> = emitted.iter().map(|(count, _)| *count).collect();
    assert_eq!(counts, vec![5, 7, 10]);
    let rebuilt: String = emitted
        .iter()
        .map(|(_, event)| event.delta_text.as_str())
        .collect();
    assert_eq!(rebuilt, "w0 w1 w2 w3 w4 w5 w6 w7 w8 w9");
}

#[test]
fn identical_decoded_text_produces_no_second_event() {
    let mut dispatcher = ProgressDispatcher::new(hello_world_tokenizer());
    let first = dispatcher.handle_decoded(1, Some("same".to_string()), false);
    assert_eq!(first.expect("first event").delta_text, "same");
    let second = dispatcher.handle_decoded(2, Some("same".to_string()), false);
    assert!(second.is_none());
}

#[test]
fn finalize_flushes_everything_when_loop_never_called_back() {
    let mut dispatcher = ProgressDispatcher::new(hello_world_tokenizer());
    let event = dispatcher
        .finalize(&[15496, 995])
        .expect("terminal event");
    assert_eq!(event.token_count, 2);
    assert_eq!(event.delta_text, "Hello world");
    assert!(event.is_final);
}

#[test]
fn finalize_with_no_tokens_emits_nothing() {
    let mut dispatcher = ProgressDispatcher::new(hello_world_tokenizer());
    assert!(dispatcher.finalize(&[]).is_none());
}

#[test]
fn final_notification_is_processed_even_without_count_progress() {
    let ids: Vec<i64> = (0..10).collect();
    let mut dispatcher = ProgressDispatcher::new(numbered_tokenizer());
    assert!(dispatcher.handle(10, &ids, false).is_some());
    // A non-final repeat is dropped; the final flush at the same count is not.
    assert!(dispatcher.handle(10, &ids, false).is_none());
    let event = dispatcher.finalize(&ids);
    assert!(event.is_none());
    // Nothing new to say, but the count was still acted upon.
    let late = dispatcher.handle(10, &ids, false);
    assert!(late.is_none());
}

#[test]
fn unrepresentable_ids_are_dropped_not_fatal() {
    let mut dispatcher = ProgressDispatcher::new(hello_world_tokenizer());
    let event = dispatcher
        .handle(3, &[-5, 15496, 995], false)
        .expect("event despite malformed id");
    assert_eq!(event.token_count, 3);
    assert_eq!(event.delta_text, "Hello world");
}

#[test]
fn zero_count_resets_the_high_water_mark() {
    let ids: Vec<i64> = (0..10).collect();
    let mut dispatcher = ProgressDispatcher::new(numbered_tokenizer());
    assert!(dispatcher.handle(5, &ids, false).is_some());
    assert!(dispatcher.handle(0, &ids, false).is_none());
    // After the reset a lower count is accepted again; its text is a prefix
    // of what was already emitted, so no event is due.
    assert!(dispatcher.handle(2, &ids, false).is_none());
    // But the high-water mark moved: count 2 is now the baseline.
    assert!(dispatcher.handle(2, &ids, false).is_none());
    assert!(dispatcher.handle(6, &ids, false).is_some());
}

#[test]
fn detokenization_failure_is_skipped_silently() {
    let mut dispatcher = ProgressDispatcher::new(hello_world_tokenizer());
    assert!(dispatcher.handle_decoded(3, None, false).is_none());
    // The next, larger snapshot self-corrects.
    let event = dispatcher.handle_decoded(4, Some("ok".to_string()), false);
    assert_eq!(event.expect("recovered event").delta_text, "ok");
}
