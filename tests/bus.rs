use desktop_runtime::bus::{dispatch, ResponseQueue, Route, IPC_WORKER_POOL_SIZE, MAX_PENDING_IPC};
use desktop_runtime::event_loop::{delivery_script, drain_for_delivery};
use desktop_runtime::ipc::Command;

fn s(x: &str) -> String {
    x.to_string()
}

#[test]
fn admission_saturates_at_capacity() {
    let mut q = ResponseQueue::new(MAX_PENDING_IPC);
    let mut admitted = 0usize;
    for _ in 0..2 * MAX_PENDING_IPC {
        if q.try_admit() {
            admitted += 1;
        }
        assert!(q.pending() <= MAX_PENDING_IPC);
    }
    assert_eq!(admitted, MAX_PENDING_IPC);
    assert_eq!(q.pending(), MAX_PENDING_IPC);
    assert_eq!(MAX_PENDING_IPC, 256);
    assert_eq!(IPC_WORKER_POOL_SIZE, 4);
}

#[test]
fn accept_sheds_when_full() {
    let mut q = ResponseQueue::new(2);
    assert_eq!(q.accept(s("r1")), Some(true));
    assert_eq!(q.accept(s("r2")), Some(false));
    assert_eq!(q.accept(s("r3")), None);
    assert_eq!(q.pending(), 2);
    assert_eq!(q.len(), 2);
    assert_eq!(q.drain_all(), vec![s("r1"), s("r2")]);
    assert_eq!(q.pending(), 0);
    assert_eq!(q.accept(s("r4")), Some(true));
}

#[test]
fn drain_of_empty_queue_is_empty_and_signals_nothing() {
    let mut q = ResponseQueue::new(4);
    assert!(q.is_empty());
    assert!(q.drain_all().is_empty());
    assert_eq!(q.pending(), 0);
    assert_eq!(drain_for_delivery(&mut q), None);
}

#[test]
fn batch_keeps_enqueue_order() {
    let mut q = ResponseQueue::new(8);
    assert!(q.enqueue(s("r1")));
    assert!(!q.enqueue(s("r2")));
    assert!(!q.enqueue(s("r3")));
    assert_eq!(q.drain_all(), vec![s("r1"), s("r2"), s("r3")]);
    assert!(q.enqueue(s("r4")));
}

#[test]
fn drain_decrements_counter_without_going_negative() {
    let mut q = ResponseQueue::new(8);
    assert!(q.try_admit());
    q.enqueue(s("a"));
    q.enqueue(s("b"));
    q.enqueue(s("c"));
    assert_eq!(q.pending(), 1);
    assert_eq!(q.drain_all().len(), 3);
    assert_eq!(q.pending(), 0);
    q.release();
    assert_eq!(q.pending(), 0);
}

#[test]
fn complete_releases_slot_on_serialization_failure() {
    let mut q = ResponseQueue::new(3);
    assert!(q.try_admit());
    assert!(q.try_admit());
    assert!(!q.complete(None));
    assert_eq!(q.pending(), 1);
    assert!(q.is_empty());
    assert!(q.complete(Some(s("x"))));
    assert_eq!(q.pending(), 1);
    assert!(!q.complete(Some(s("y"))));
    assert_eq!(q.len(), 2);
}

#[test]
fn dispatch_routes_by_classification() {
    let mut q = ResponseQueue::new(1);
    assert_eq!(dispatch(&mut q, &Command::Ping), Route::Inline);
    assert_eq!(q.pending(), 0);
    assert_eq!(dispatch(&mut q, &Command::OpenFolderDialog), Route::Worker);
    assert_eq!(q.pending(), 1);
    assert_eq!(dispatch(&mut q, &Command::CheckForUpdates), Route::Shed);
    assert_eq!(dispatch(&mut q, &Command::GetVersion), Route::Inline);
    assert_eq!(q.pending(), 1);
}

#[test]
fn five_blocking_requests_all_delivered_once() {
    let mut q = ResponseQueue::new(MAX_PENDING_IPC);
    let ids = ["a", "b", "c", "d", "e"];
    let mut routes = Vec::new();
    for _ in ids.iter() {
        routes.push(dispatch(&mut q, &Command::CheckForUpdates));
    }
    assert!(routes.iter().all(|r| *r == Route::Worker));
    assert_eq!(q.pending(), 5);
    let mut delivered: Vec<String> = Vec::new();
    let mut wakes = 0;
    for (i, id) in ids.iter().enumerate() {
        let json = format!("{{\"id\":\"{}\",\"ok\":{{\"pong\":true}}}}", id);
        if q.complete(Some(json)) {
            wakes += 1;
        }
        if i == 2 {
            delivered.extend(q.drain_all());
        }
    }
    delivered.extend(q.drain_all());
    assert_eq!(wakes, 2);
    assert_eq!(q.pending(), 0);
    assert_eq!(delivered.len(), 5);
    for id in ids.iter() {
        let tag = format!("\"id\":\"{}\"", id);
        assert_eq!(delivered.iter().filter(|d| d.contains(&tag)).count(), 1);
    }
}

#[test]
fn drain_for_delivery_builds_one_script() {
    let mut q = ResponseQueue::new(4);
    q.accept(s("{\"id\":\"1\"}"));
    q.accept(s("{\"id\":\"2\"}"));
    let script = drain_for_delivery(&mut q).expect("batch");
    assert_eq!(script, delivery_script(&vec![s("{\"id\":\"1\"}"), s("{\"id\":\"2\"}")]));
    assert_eq!(
        script,
        "if (window.__resolveIpc) { try { var r = JSON.parse(\"{\\\"id\\\":\\\"1\\\"}\"); window.__resolveIpc(r.id, r); } catch(e) {}try { var r = JSON.parse(\"{\\\"id\\\":\\\"2\\\"}\"); window.__resolveIpc(r.id, r); } catch(e) {} }"
    );
    assert!(q.is_empty());
    assert_eq!(q.pending(), 0);
    assert_eq!(drain_for_delivery(&mut q), None);
}

#[test]
fn admit_many_admits_up_to_the_bound() {
    let mut q = ResponseQueue::new(MAX_PENDING_IPC);
    assert_eq!(q.admit_many(2 * MAX_PENDING_IPC), MAX_PENDING_IPC);
    assert_eq!(q.pending(), MAX_PENDING_IPC);
    assert_eq!(q.admit_many(3), 0);
    let mut q = ResponseQueue::new(5);
    assert!(q.try_admit());
    assert_eq!(q.admit_many(2), 2);
    assert_eq!(q.pending(), 3);
}

#[test]
fn enqueue_all_keeps_order_and_wakes_once() {
    let mut q = ResponseQueue::new(4);
    assert!(!q.enqueue_all(&vec![]));
    assert!(q.enqueue_all(&vec![s("r1"), s("r2")]));
    assert!(!q.enqueue_all(&vec![s("r3")]));
    assert_eq!(q.drain_all(), vec![s("r1"), s("r2"), s("r3")]);
}
