use vc_processors::{DaemonProcessor, Processor};

fn run<P: Processor<()>>(processor: &P) -> anyhow::Result<()> {
    processor.process(())
}

fn name_of<P: Processor<()>>(processor: &P) -> String {
    processor.name()
}

#[test]
fn daemon_process_returns_ok() {
    let daemon = DaemonProcessor;
    let outcome = daemon.process(());
    assert!(matches!(outcome, Ok(())));
    assert_eq!(outcome.unwrap(), ());
}

#[test]
fn daemon_name_is_empty() {
    let daemon = DaemonProcessor;
    assert_eq!(daemon.name(), "");
    assert_eq!(daemon.name(), String::new());
    assert!(daemon.name().is_empty());
    assert_eq!(daemon.name().len(), 0);
}

#[test]
fn daemon_succeeds_at_every_call() {
    let daemon = DaemonProcessor;
    let mut calls = 0;
    while calls < 1000 {
        assert!(daemon.process(()).is_ok());
        assert_eq!(daemon.name(), "");
        calls += 1;
    }
}

#[test]
fn daemon_through_the_interface_alone() {
    let daemon = DaemonProcessor;
    assert!(run(&daemon).is_ok());
    assert_eq!(name_of(&daemon), "");
}

#[test]
fn boxed_daemon_is_the_daemon() {
    let boxed = Box::new(DaemonProcessor);
    assert!(matches!(boxed.process(()), Ok(())));
    assert_eq!(boxed.name(), "");
    assert!(run(&boxed).is_ok());
    let twice = Box::new(Box::new(DaemonProcessor));
    assert!(matches!(twice.process(()), Ok(())));
    assert_eq!(twice.name(), "");
}

#[test]
fn daemon_behind_a_handle_is_the_daemon() {
    let handle: Box<dyn Processor<()>> = Box::new(DaemonProcessor);
    assert!(matches!(handle.process(()), Ok(())));
    assert_eq!(handle.name(), "");
    assert!(run(&handle).is_ok());
    assert_eq!(name_of(&handle), "");
}

#[test]
fn daemon_is_a_stateless_marker() {
    assert_eq!(std::mem::size_of::<DaemonProcessor>(), 0);
    let first = DaemonProcessor;
    let copy = first;
    let clone = first.clone();
    let default = DaemonProcessor::default();
    assert!(first.process(()).is_ok());
    assert!(copy.process(()).is_ok());
    assert!(clone.process(()).is_ok());
    assert!(default.process(()).is_ok());
    assert_eq!(default.name(), "");
    assert_eq!(format!("{:?}", first), "DaemonProcessor");
}
