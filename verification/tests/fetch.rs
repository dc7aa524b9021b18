use script_flow::fetch::{
    FetchCancelReason, FetchEngine, FetchProcess, FetchProcessReader, FetchStatus,
};
use std::sync::{Arc, Mutex};

/// An engine that has every resource at hand: the fetch is done at once.
struct MemoryEngine {
    content: Vec<u8>,
}

impl FetchEngine for MemoryEngine {
    fn fetch(&mut self, path: &str) -> Result<FetchProcess, FetchStatus> {
        if path.is_empty() {
            return Err(FetchStatus::Canceled(FetchCancelReason::Error));
        }
        let mut process = FetchProcess::new_start();
        process.done(self.content.clone());
        Ok(process)
    }
}

#[test]
fn test_general() {
    let mut engine = MemoryEngine { content: b"[package]".to_vec() };
    let reader = Arc::new(Mutex::new(engine.fetch("Cargo.toml").unwrap()));
    let reader2 = reader.clone();
    loop {
        match reader.lock().unwrap().status() {
            FetchStatus::InProgress(_) => continue,
            _ => break,
        }
    }
    assert_eq!(reader.lock().unwrap().status(), FetchStatus::Done);
    assert_eq!(reader2.lock().unwrap().status(), FetchStatus::Done);
    assert!(!reader.lock().unwrap().read().unwrap().is_empty());
    assert_eq!(reader.lock().unwrap().status(), FetchStatus::Read);
    assert_eq!(reader2.lock().unwrap().status(), FetchStatus::Read);
    drop(reader);
    drop(reader2);
}

#[test]
fn a_new_process_is_empty() {
    let process = FetchProcess::new();
    assert_eq!(process.status(), FetchStatus::Empty);
    assert_eq!(process.byte_size(), None);
    assert_ne!(process.id(), FetchProcess::new().id());
}

#[test]
fn progress_is_reported_as_given() {
    let mut process = FetchProcess::new_start();
    assert_eq!(process.status(), FetchStatus::InProgress(0.0f32.to_bits()));
    process.progress(0.5f32.to_bits());
    assert_eq!(process.status(), FetchStatus::InProgress(0.5f32.to_bits()));
    process.start();
    assert_eq!(process.status(), FetchStatus::InProgress(0));
}

#[test]
fn bytes_are_read_once() {
    let mut process = FetchProcess::new_done(vec![1, 2, 3]);
    assert_eq!(process.byte_size(), Some(3));
    assert_eq!(process.read(), Some(vec![1, 2, 3]));
    assert_eq!(process.status(), FetchStatus::Read);
    assert_eq!(process.read(), None);
    assert_eq!(process.byte_size(), None);
    assert_eq!(process.status(), FetchStatus::Read);
}

#[test]
fn a_canceled_process_has_no_bytes() {
    let mut process = FetchProcess::new_cancel(FetchCancelReason::Error);
    assert_eq!(process.status(), FetchStatus::Canceled(FetchCancelReason::Error));
    assert_eq!(process.read(), None);
    process.done(vec![7]);
    process.cancel(FetchCancelReason::User);
    assert_eq!(process.status(), FetchStatus::Canceled(FetchCancelReason::User));
    assert_eq!(process.byte_size(), None);
}

#[test]
fn an_engine_cancels_on_behalf_of_the_user() {
    let mut engine = MemoryEngine { content: vec![1] };
    let mut process = engine.fetch("a").unwrap();
    engine.cancel(&mut process);
    assert_eq!(process.status(), FetchStatus::Canceled(FetchCancelReason::User));
    assert_eq!(engine.fetch("").unwrap_err(), FetchStatus::Canceled(FetchCancelReason::Error));
}

#[test]
fn a_reader_sees_what_the_process_holds() {
    let mut process = FetchProcess::new_done(vec![9, 9]);
    let reader: &mut dyn FetchProcessReader = &mut process;
    assert_eq!(reader.status(), FetchStatus::Done);
    assert_eq!(reader.byte_size(), Some(2));
    assert_eq!(reader.read(), Some(vec![9, 9]));
    assert_eq!(reader.status(), FetchStatus::Read);
}
