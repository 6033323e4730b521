use esp_thing::observer::Notifier;
use std::sync::{Arc, Mutex};

type Callback = Box<dyn Fn(&u32) + Send>;

#[test]
fn notify_calls_every_subscriber_in_order() {
    let log: Arc<Mutex<Vec<(u8, u32)>>> = Arc::new(Mutex::new(Vec::new()));
    let mut notifier: Notifier<u32, Callback> = Notifier::new();
    let first = log.clone();
    notifier.register(Box::new(move |e: &u32| first.lock().unwrap().push((1, *e))));
    let second = log.clone();
    notifier.register(Box::new(move |e: &u32| second.lock().unwrap().push((2, *e))));
    notifier.notify(7);
    notifier.notify(9);
    assert_eq!(*log.lock().unwrap(), vec![(1, 7), (2, 7), (1, 9), (2, 9)]);
}

#[test]
fn notify_without_subscribers_does_nothing() {
    let notifier: Notifier<u32, Callback> = Notifier::new();
    notifier.notify(3);
}

#[test]
fn notifier_with_plain_functions() {
    fn double_check(e: &u64) {
        assert!(*e % 2 == 0);
    }
    let mut notifier: Notifier<u64, fn(&u64)> = Notifier::new();
    notifier.register(double_check);
    notifier.notify(4);
}
