//! The global installation slot: process-wide state holding at most one
//! active logger. A logger is installed exactly once; a second installation
//! is a configuration error surfaced to the caller, and a record emitted
//! before any installation is a safe no-op.

use vstd::prelude::*;
use crate::registry::Logger;
use crate::registry::sink_dispatched;
use crate::severity::Severity;
use crate::severity::spec_admits;

verus! {

/// The error surfaced when installation cannot proceed.
#[derive(Clone, Copy, Debug, PartialEq, Eq, Structural)]
pub enum InstallError {
    /// A logger is already active; the slot is set at most once.
    AlreadyInstalled,
}

impl InstallError {
    /// The diagnostic text of the error.
    pub fn message(&self) -> (r: &'static str)
        ensures
            r@ == "Failed to set logger!"@,
    {
        match self {
            InstallError::AlreadyInstalled => "Failed to set logger!",
        }
    }
}

/// The slot itself: uninstalled until `install` succeeds, then holding the
/// one active logger until the end of the process. There is no transition
/// back to the uninstalled state.
pub struct InstallSlot {
    pub active: Option<Logger>,
}

impl InstallSlot {
    /// Whether a logger has been installed.
    pub open spec fn is_installed(self) -> bool {
        self.active is Some
    }

    /// A fresh, uninstalled slot.
    pub fn new() -> (r: InstallSlot)
        ensures
            !r.is_installed(),
    {
        InstallSlot { active: None }
    }

    /// Installs the logger. Succeeds exactly when the slot was still
    /// uninstalled; a second installation leaves the slot untouched and
    /// surfaces the error rather than silently overwriting.
    pub fn install(&mut self, logger: Logger) -> (r: Result<(), InstallError>)
        ensures
            r is Ok <==> !old(self).is_installed(),
            !old(self).is_installed() ==> final(self).active == Some(logger),
            old(self).is_installed() ==> r == Result::<(), InstallError>::Err(
                InstallError::AlreadyInstalled,
            ) && *final(self) == *old(self),
    {
        if self.active.is_some() {
            Err(InstallError::AlreadyInstalled)
        } else {
            self.active = Some(logger);
            Ok(())
        }
    }

    /// The fast path consulted when a record is constructed: whether a
    /// record of the given severity would reach the dispatch at all. Only
    /// the master ceiling is read, never the sink list; before
    /// installation nothing is enabled.
    pub fn enabled(&self, level: Severity) -> (r: bool)
        ensures
            r == (self.is_installed() && spec_admits(self.active.unwrap().max_level, level)),
    {
        match &self.active {
            Some(logger) => logger.enabled(level),
            None => false,
        }
    }

    /// Emits one record through the slot. Before installation this is a
    /// safe no-op — the record is dropped; after installation the active
    /// logger dispatches it as `Logger::log` states.
    pub fn log(&mut self, level: Severity, message: &str)
        ensures
            final(self).is_installed() == old(self).is_installed(),
            !old(self).is_installed() ==> *final(self) == *old(self),
            old(self).is_installed() ==> {
                let before = old(self).active.unwrap();
                let after = final(self).active.unwrap();
                &&& after.max_level == before.max_level
                &&& after.writers@.len() == before.writers@.len()
                &&& forall|i: int|
                    #![trigger after.writers@[i]]
                    0 <= i < before.writers@.len() ==> after.writers@[i].ceiling
                        == before.writers@[i].ceiling && after.writers@[i].content@
                        == sink_dispatched(
                        before.writers@[i].content@,
                        before.writers@[i].ceiling,
                        before.max_level,
                        level,
                        message@,
                    )
                &&& !spec_admits(before.max_level, level) ==> after == before
            },
    {
        let taken = self.active.take();
        match taken {
            Some(mut logger) => {
                logger.log(level, message);
                self.active = Some(logger);
            },
            None => {},
        }
    }
}

} // verus!
