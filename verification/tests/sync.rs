use dot15d4::sync::{
    ConsumerToken, LockPoll, Mutex, PollingResponseToken, RequestToken, ResponseToken,
};

#[test]
fn tokens() {
    let t = RequestToken::new(3);
    assert_eq!(t.message_slot(), 3);
    assert_eq!(t.consume(), 3);
    let t = PollingResponseToken::new(4);
    assert_eq!(t.message_slot(), 4);
    assert_eq!(t.consume(), 4);
    let t = ResponseToken::new(5);
    assert_eq!(t.message_slot(), 5);
    assert_eq!(t.consume(), 5);
    let t = ConsumerToken::new(1);
    assert_eq!(t.consumer_slot(), 1);
    assert_eq!(t.consume(), 1);
}

#[test]
fn mutex_try_lock() {
    let mut mutex = Mutex::new(0usize);
    let mut guard = mutex.try_lock().unwrap();
    assert!(mutex.try_lock().is_none());
    *guard += 1;
    assert_eq!(*guard, 1);
    assert_eq!(mutex.poll_lock(1, false), LockPoll::Pending { wake: None });
    assert_eq!(mutex.poll_lock(2, false), LockPoll::Pending { wake: Some(1) });
    assert_eq!(mutex.poll_lock(2, true), LockPoll::Pending { wake: None });
    assert_eq!(mutex.unlock(guard), Some(2));
    assert_eq!(*mutex.get_mut(), 1);
    match mutex.poll_lock(2, true) {
        LockPoll::Ready(guard) => {
            assert_eq!(*guard, 1);
            assert_eq!(mutex.unlock(guard), None);
        }
        LockPoll::Pending { .. } => panic!("the mutex was unlocked"),
    }
    *mutex.get_mut() += 1;
    assert_eq!(*mutex.try_lock().unwrap(), 2);
}
