use tx_rs::{Notifier, NotifierError};

struct OnlyAlice;

impl Notifier for OnlyAlice {
    fn notify(&self, to: &str, _message: &str) -> Result<(), NotifierError> {
        if to == "Alice" {
            Ok(())
        } else {
            Err(NotifierError::UnknownDestination(to.to_string()))
        }
    }
}

#[test]
fn notifier_reports_unknown_destination() {
    let n = OnlyAlice;
    assert_eq!(n.notify("Alice", "hello"), Ok(()));
    assert_eq!(
        n.notify("Bob", "hello"),
        Err(NotifierError::UnknownDestination("Bob".to_string()))
    );
    assert_ne!(
        NotifierError::Unavailable("x".to_string()),
        NotifierError::UnknownDestination("x".to_string())
    );
}
