use jawn::{Conv, ConvLoader, StoreAction, ThreadId};

fn conv(id: &str) -> Conv {
    Conv { thread_id: ThreadId(id.to_string()) }
}

#[test]
fn stale_record_is_replaced() {
    let mut creates = 0;
    let (mut l, action) = ConvLoader::new(false, true);
    assert_eq!(action, StoreAction::ReadRecord);
    let action = l.on_read(Some(conv("T1")));
    assert_eq!(action, StoreAction::VerifyThread(ThreadId("T1".to_string())));
    let action = l.on_verified(false);
    assert_eq!(action, StoreAction::CreateThread);
    creates += 1;
    let action = l.on_created(ThreadId("T2".to_string()));
    assert_eq!(action, StoreAction::SaveRecord(conv("T2")));
    let action = l.on_saved();
    assert_eq!(action, StoreAction::Done(conv("T2")));
    assert_ne!(action, StoreAction::Done(conv("T1")));
    assert_eq!(creates, 1);
}

#[test]
fn valid_record_is_kept_on_reload() {
    for _ in 0..2 {
        let (mut l, _) = ConvLoader::new(false, true);
        let _ = l.on_read(Some(conv("T1")));
        assert_eq!(l.on_verified(true), StoreAction::Done(conv("T1")));
    }
}

#[test]
fn recreate_removes_record_and_makes_new_thread() {
    let (mut l, action) = ConvLoader::new(true, true);
    assert_eq!(action, StoreAction::DeleteRecord);
    assert_eq!(l.on_deleted(), StoreAction::CreateThread);
    assert_eq!(l.on_created(ThreadId("T9".to_string())), StoreAction::SaveRecord(conv("T9")));
    assert_eq!(l.on_saved(), StoreAction::Done(conv("T9")));

    let (_, action) = ConvLoader::new(true, false);
    assert_eq!(action, StoreAction::CreateThread);
}

#[test]
fn corrupt_or_missing_record_makes_new_thread() {
    let (mut l, _) = ConvLoader::new(false, false);
    assert_eq!(l.on_read(None), StoreAction::CreateThread);
    assert_eq!(l.on_created(ThreadId("T3".to_string())), StoreAction::SaveRecord(conv("T3")));
    assert_eq!(l.on_saved(), StoreAction::Done(conv("T3")));
}

#[test]
fn record_from_thread_id() {
    assert_eq!(Conv::from(ThreadId("T4".to_string())), conv("T4"));
}
