//! Boot validation: the checks after a firmware update that decide whether
//! the new image is kept.

use vstd::prelude::*;

verus! {

/// Number of attempts to reach the telemetry broker.
pub const MAX_RETRIES: u8 = 3;

/// Pause between two looks at the broker connection, in milliseconds.
pub const CONNECT_POLL_MS: u32 = 3000;

/// Longest wait for the broker connection in one attempt, in milliseconds.
pub const CONNECT_WAIT_MS: u32 = 12_000;

/// Pause after a failed publish, in milliseconds.
pub const PUBLISH_BACKOFF_MS: u32 = 1000;

/// Wi-Fi connection states
#[derive(Clone, Copy, Debug, PartialEq, Eq, Structural)]
pub enum WifiState {
    /// Not associated.
    Disconnected,
    /// Associated, no address yet.
    Connecting,
    /// Associated and addressed.
    Connected,
}

/// The state of the wireless link: without an association it is
/// disconnected, with one it is connected once it has an address and
/// connecting until then.
pub fn wifi_state(associated: bool, has_address: bool) -> (state: WifiState)
    ensures
        !associated ==> state == WifiState::Disconnected,
        associated && has_address ==> state == WifiState::Connected,
        associated && !has_address ==> state == WifiState::Connecting,
{
    if !associated {
        WifiState::Disconnected
    } else if has_address {
        WifiState::Connected
    } else {
        WifiState::Connecting
    }
}

/// What the boot diagnostic does next.
#[derive(Clone, Copy, Debug, PartialEq, Eq, Structural)]
pub enum DiagnosticAction {
    /// Sleep for this many milliseconds, then look at the connection again.
    Wait {
        /// Pause in milliseconds.
        delay_ms: u32,
    },
    /// Publish the boot record.
    Publish,
    /// The diagnostic has passed.
    Pass,
    /// The diagnostic has failed.
    Fail,
}

/// What the diagnostic has seen since its last action.
#[derive(Clone, Copy, Debug, PartialEq, Eq, Structural)]
pub enum DiagnosticEvent {
    /// A look at the broker connection.
    Connection {
        /// Whether the client reports that it is connected.
        connected: bool,
    },
    /// The end of a publish.
    Published {
        /// Whether the publish succeeded.
        ok: bool,
    },
}

/// Mathematical state of the boot diagnostic.
pub struct DiagnosticModel {
    /// Attempt in progress, counted from one.
    pub attempt: int,
    /// Time waited for the connection in this attempt, in milliseconds.
    pub waited_ms: int,
}

impl DiagnosticModel {
    /// The action on an event.
    pub open spec fn action(self, event: DiagnosticEvent) -> DiagnosticAction {
        match event {
            DiagnosticEvent::Connection { connected } => if connected {
                DiagnosticAction::Publish
            } else if self.waited_ms < CONNECT_WAIT_MS {
                DiagnosticAction::Wait { delay_ms: CONNECT_POLL_MS }
            } else if self.attempt < MAX_RETRIES {
                DiagnosticAction::Wait { delay_ms: 0 }
            } else {
                DiagnosticAction::Fail
            },
            DiagnosticEvent::Published { ok } => if ok {
                DiagnosticAction::Pass
            } else if self.attempt < MAX_RETRIES {
                DiagnosticAction::Wait { delay_ms: PUBLISH_BACKOFF_MS }
            } else {
                DiagnosticAction::Fail
            },
        }
    }

    /// The state after an event.
    pub open spec fn after(self, event: DiagnosticEvent) -> DiagnosticModel {
        match event {
            DiagnosticEvent::Connection { connected } => if connected {
                self
            } else if self.waited_ms < CONNECT_WAIT_MS {
                DiagnosticModel { waited_ms: self.waited_ms + CONNECT_POLL_MS, ..self }
            } else if self.attempt < MAX_RETRIES {
                DiagnosticModel { attempt: self.attempt + 1, waited_ms: 0 }
            } else {
                self
            },
            DiagnosticEvent::Published { ok } => if !ok && self.attempt < MAX_RETRIES {
                DiagnosticModel { attempt: self.attempt + 1, waited_ms: 0 }
            } else {
                self
            },
        }
    }

    /// Well-formedness: the attempt and the wait are within their limits.
    pub open spec fn wf(self) -> bool {
        1 <= self.attempt <= MAX_RETRIES && 0 <= self.waited_ms <= CONNECT_WAIT_MS
            && self.waited_ms % (CONNECT_POLL_MS as int) == 0
    }
}

/// The check of the telemetry broker during boot validation.
#[derive(Clone, Copy, Debug)]
pub struct BootDiagnostic {
    attempt: u8,
    waited_ms: u32,
}

impl View for BootDiagnostic {
    type V = DiagnosticModel;

    closed spec fn view(&self) -> DiagnosticModel {
        DiagnosticModel { attempt: self.attempt as int, waited_ms: self.waited_ms as int }
    }
}

impl BootDiagnostic {
    /// Starts the diagnostic from the Wi-Fi state: without an address the
    /// diagnostic fails at once.
    pub fn boot_diagnostic(wifi: WifiState) -> (start: Option<Self>)
        ensures
            start.is_some() == (wifi == WifiState::Connected),
            start.is_some() ==> start.unwrap()@ == (DiagnosticModel { attempt: 1, waited_ms: 0 })
                && start.unwrap()@.wf(),
    {
        match wifi {
            WifiState::Connected => Some(BootDiagnostic { attempt: 1, waited_ms: 0 }),
            _ => None,
        }
    }

    /// Takes an event and says what to do next.
    pub fn next(&mut self, event: DiagnosticEvent) -> (action: DiagnosticAction)
        requires
            old(self)@.wf(),
        ensures
            final(self)@.wf(),
            action == old(self)@.action(event),
            final(self)@ == old(self)@.after(event),
    {
        match event {
            DiagnosticEvent::Connection { connected } => {
                if connected {
                    DiagnosticAction::Publish
                } else if self.waited_ms < CONNECT_WAIT_MS {
                    self.waited_ms = self.waited_ms + CONNECT_POLL_MS;
                    DiagnosticAction::Wait { delay_ms: CONNECT_POLL_MS }
                } else if self.attempt < MAX_RETRIES {
                    self.attempt = self.attempt + 1;
                    self.waited_ms = 0;
                    DiagnosticAction::Wait { delay_ms: 0 }
                } else {
                    DiagnosticAction::Fail
                }
            },
            DiagnosticEvent::Published { ok } => {
                if ok {
                    DiagnosticAction::Pass
                } else if self.attempt < MAX_RETRIES {
                    self.attempt = self.attempt + 1;
                    self.waited_ms = 0;
                    DiagnosticAction::Wait { delay_ms: PUBLISH_BACKOFF_MS }
                } else {
                    DiagnosticAction::Fail
                }
            },
        }
    }
}

/// What to do with the running image after boot.
#[derive(Clone, Copy, Debug, PartialEq, Eq, Structural)]
pub enum BootVerdict {
    /// A normal boot: the image has been validated before.
    AlreadyValidated,
    /// Running from the factory partition: clear the first-boot flag.
    SkipValidation,
    /// The diagnostic passed: mark the image valid and clear the first-boot flag.
    MarkValid,
    /// The diagnostic failed: mark the image invalid and reboot into the old one.
    RollBack,
}

/// Decides what to do with the running image: only a first boot is
/// validated, the factory image never is, and otherwise the diagnostic decides.
pub fn boot_verdict(first_boot: u8, factory_image: bool, diagnostic_passed: bool) -> (verdict:
    BootVerdict)
    ensures
        first_boot != 1 ==> verdict == BootVerdict::AlreadyValidated,
        first_boot == 1 && factory_image ==> verdict == BootVerdict::SkipValidation,
        first_boot == 1 && !factory_image && diagnostic_passed ==> verdict
            == BootVerdict::MarkValid,
        first_boot == 1 && !factory_image && !diagnostic_passed ==> verdict
            == BootVerdict::RollBack,
{
    if first_boot != 1 {
        BootVerdict::AlreadyValidated
    } else if factory_image {
        BootVerdict::SkipValidation
    } else if diagnostic_passed {
        BootVerdict::MarkValid
    } else {
        BootVerdict::RollBack
    }
}

} // verus!
