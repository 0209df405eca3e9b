use deepseek_ocr_android::CancellationToken;

#[test]
fn fresh_token_is_not_cancelled() {
    let token = CancellationToken::new();
    assert!(!token.is_cancelled());
    assert!(!token.is_cancelled());
}

#[test]
fn cancel_latches_and_stays_set() {
    let mut token = CancellationToken::new();
    assert!(!token.is_cancelled());
    token.cancel();
    assert!(token.is_cancelled());
    assert!(token.is_cancelled());
    assert!(token.is_cancelled());
}

#[test]
fn cancel_is_idempotent() {
    let mut token = CancellationToken::new();
    token.cancel();
    token.cancel();
    assert!(token.is_cancelled());
}

#[test]
fn default_token_is_not_cancelled() {
    let token = CancellationToken::default();
    assert!(!token.is_cancelled());
}
