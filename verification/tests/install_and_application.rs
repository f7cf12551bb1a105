//! The one-shot installation lifecycle, the safe no-op before
//! installation, and the application layer's decisions.

use logger::ApplicationError;
use logger::Logger;
use logger::Severity;
use logger::Sink;
use logger::application::FlowDirective;
use logger::application::check_first_initialization;
use logger::application::event_flow_directive;
use logger::install::InstallError;
use logger::install::InstallSlot;

#[test]
fn test_install_succeeds_once_and_errors_after() {
    let mut slot = InstallSlot::new();
    assert!(slot.active.is_none());
    let first = slot.install(Logger::new(vec![Sink::new(Severity::Info)], Severity::Info));
    assert_eq!(first, Ok(()));
    let second = slot.install(Logger::new(Vec::new(), Severity::Error));
    assert_eq!(second, Err(InstallError::AlreadyInstalled));
    let active = slot.active.as_ref().unwrap();
    assert_eq!(active.max_level, Severity::Info);
    assert_eq!(active.writers.len(), 1);
}

#[test]
fn test_log_before_install_is_a_safe_no_op() {
    let mut slot = InstallSlot::new();
    slot.log(Severity::Error, "dropped");
    assert!(slot.active.is_none());
    assert!(!slot.enabled(Severity::Error));
}

#[test]
fn test_log_after_install_dispatches() {
    let mut slot = InstallSlot::new();
    slot.install(Logger::new(vec![Sink::new(Severity::Warn)], Severity::Warn))
        .unwrap();
    assert!(slot.enabled(Severity::Error));
    assert!(!slot.enabled(Severity::Info));
    slot.log(Severity::Error, "ERROR");
    slot.log(Severity::Info, "INFO");
    let active = slot.active.as_ref().unwrap();
    assert_eq!(active.writers[0].content, "[ERROR]: ERROR\n");
}

#[test]
fn test_install_error_message() {
    assert_eq!(InstallError::AlreadyInstalled.message(), "Failed to set logger!");
}

#[test]
fn test_application_error_message() {
    assert_eq!(
        ApplicationError::AlreadyInitialized.message(),
        "Application already got initialized!"
    );
}

#[test]
fn test_first_initialization_is_checked() {
    assert_eq!(check_first_initialization(false), Ok(()));
    assert_eq!(
        check_first_initialization(true),
        Err(ApplicationError::AlreadyInitialized)
    );
}

#[test]
fn test_event_flow_directive() {
    assert_eq!(event_flow_directive(true, true), FlowDirective::Exit);
    assert_eq!(event_flow_directive(true, false), FlowDirective::Poll);
    assert_eq!(event_flow_directive(false, true), FlowDirective::Poll);
    assert_eq!(event_flow_directive(false, false), FlowDirective::Poll);
}
