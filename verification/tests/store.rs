use sequence_state::store::applied;
use sequence_state::store::lookup;
use sequence_state::store::StoreError;
use sequence_state::store::Update;

#[test]
fn lookup_passes_a_value_on() {
    let read: Result<Option<Vec<u8>>, String> = Ok(Some("toto".as_bytes().to_vec()));
    let found = lookup(read).unwrap();
    assert_eq!(String::from_utf8(found).unwrap(), "toto");
    let empty: Result<Option<Vec<u8>>, String> = Ok(Some(Vec::new()));
    assert_eq!(lookup(empty), Ok(Vec::new()));
}

#[test]
fn lookup_reports_an_unknown_key() {
    let read: Result<Option<Vec<u8>>, String> = Ok(None);
    assert_eq!(lookup(read), Err(StoreError::NotFound));
}

#[test]
fn lookup_reports_a_failed_read() {
    let read: Result<Option<Vec<u8>>, String> = Err(String::from("IO error"));
    assert_eq!(lookup(read), Err(StoreError::ReadFailed));
}

#[test]
fn applied_passes_success_on() {
    for update in [Update::Put, Update::Delete, Update::Destroy] {
        let answer: Result<(), String> = Ok(());
        assert_eq!(applied(update, answer), Ok(()));
    }
}

#[test]
fn applied_names_the_refused_request() {
    let refused = || -> Result<(), String> { Err(String::from("IO error")) };
    assert_eq!(applied(Update::Put, refused()), Err(StoreError::WriteFailed));
    assert_eq!(applied(Update::Delete, refused()), Err(StoreError::DeleteFailed));
    assert_eq!(applied(Update::Destroy, refused()), Err(StoreError::DestroyFailed));
}

#[test]
fn failures_have_their_messages() {
    assert_eq!(StoreError::NotFound.message(), "objectnotfound");
    assert_eq!(StoreError::ReadFailed.message(), "fail to read database");
    assert_eq!(StoreError::WriteFailed.message(), "Error puting object");
    assert_eq!(StoreError::DeleteFailed.message(), "fail");
    assert_eq!(StoreError::DestroyFailed.message(), "Error deleting database");
}
