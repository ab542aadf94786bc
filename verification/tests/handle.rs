use websocat::types::StreamSocket;
use websocat::utils::{
    run_task, take_slot, task_run, Handle, HandleExt, HandleExt2, TaskHandleExt, TaskRun,
};

#[test]
fn first_take_gets_the_value() {
    let h: Handle<u32> = Some(7).wrap();
    assert_eq!(h.lut(), Some(7));
    assert_eq!(h.lut(), None);
    assert_eq!(h.lut(), None);
}

#[test]
fn empty_handle_yields_nothing() {
    let h: Handle<String> = None.wrap();
    assert_eq!(h.lut(), None);
    assert_eq!(h.lut(), None);
}

#[test]
fn clones_share_the_slot() {
    let h: Handle<String> = Some("pipe".to_string()).wrap();
    let other = h.clone();
    assert_eq!(other.lut(), Some("pipe".to_string()));
    assert_eq!(h.lut(), None);
}

#[test]
fn many_takes_one_value() {
    let h: Handle<Vec<u8>> = Some(vec![1, 2, 3]).wrap();
    let mut handles = Vec::new();
    for _ in 0..16 {
        handles.push(h.clone());
    }
    let got: Vec<Option<Vec<u8>>> = handles.iter().map(|h| h.lut()).collect();
    assert_eq!(got.iter().filter(|g| g.is_some()).count(), 1);
    assert_eq!(got[0], Some(vec![1, 2, 3]));
}

#[test]
fn take_slot_empties_the_slot() {
    let mut slot = Some(5u8);
    assert_eq!(take_slot(&mut slot), Some(5));
    assert_eq!(slot, None);
    assert_eq!(take_slot(&mut slot), None);
    assert_eq!(slot, None);
}

#[test]
fn stream_socket_is_taken_once() {
    let socket: StreamSocket<&str, &str, ()> =
        StreamSocket { read: Some("r"), write: Some("w"), close: None };
    let h = socket.wrap();
    let taken = h.lut().unwrap();
    assert_eq!(taken.read, Some("r"));
    assert_eq!(taken.write, Some("w"));
    assert_eq!(taken.close, None);
    assert!(h.lut().is_none());
}

#[test]
fn task_is_taken_once() {
    let h = TaskHandleExt::wrap(std::future::ready(()));
    assert!(h.lut().is_some());
    assert!(h.lut().is_none());
}

fn shareable<T: Send + Sync>(_: &T) {}

#[test]
fn handle_may_cross_to_other_tasks() {
    let h: Handle<String> = Some("x".to_string()).wrap();
    shareable(&h);
    assert_eq!(h.lut().as_deref(), Some("x"));
}

#[test]
fn task_runs_once_and_then_idles() {
    let h: Handle<&str> = Some("job").wrap();
    assert!(matches!(run_task(&h), TaskRun::Run("job")));
    assert!(matches!(run_task(&h), TaskRun::Idle));
    assert!(matches!(run_task(&h), TaskRun::Idle));
    let never: Handle<&str> = None.wrap();
    assert!(matches!(run_task(&never), TaskRun::Idle));
}

#[test]
fn what_a_take_means_for_a_task() {
    assert!(matches!(task_run(Some("job")), TaskRun::Run("job")));
    assert!(matches!(task_run(None::<&str>), TaskRun::Idle));
}
