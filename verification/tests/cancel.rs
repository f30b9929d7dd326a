use exile_rs::pob::InstallCancelToken;
use tokio_util::sync::CancellationToken;

#[test]
fn cancel_without_an_installation_does_nothing() {
    let holder = InstallCancelToken::default();
    assert!(holder.token.is_none());
    assert!(!holder.cancel());
}

#[test]
fn cancel_raises_the_signal_of_the_installation() {
    let mut holder = InstallCancelToken::default();
    let token = CancellationToken::new();
    holder.set(token.clone());
    assert!(!token.is_cancelled());
    assert!(holder.cancel());
    assert!(token.is_cancelled());
}

#[test]
fn take_hands_the_signal_back() {
    let mut holder = InstallCancelToken::default();
    let token = CancellationToken::new();
    holder.set(token.clone());
    let taken = holder.take().unwrap();
    assert!(holder.token.is_none());
    assert!(holder.take().is_none());
    assert!(!holder.cancel());
    assert!(!token.is_cancelled());
    taken.cancel();
    assert!(token.is_cancelled());
}
