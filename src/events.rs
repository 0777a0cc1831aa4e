use vstd::prelude::*;

use crate::status::{project, status_of, ConnectionStatus, TunnelState};
use crate::tray::TrayModel;

verus! {

/// What a daemon notification is about.
#[derive(Clone, Debug, PartialEq, Eq)]
pub enum DaemonEventKind {
    TunnelState(TunnelState),
    Settings,
    RelayList,
    VersionInfo,
    Device,
    RemoveDevice,
    NewAccessMethod,
}

/// One item of the daemon's event stream; its payload may be missing.
#[derive(Clone, Debug, PartialEq, Eq)]
pub struct DaemonEvent {
    pub event: Option<DaemonEventKind>,
}

/// What the event loop does with one item of the stream.
#[derive(Clone, Debug, PartialEq, Eq)]
pub enum LoopStep {
    /// Replace the tray's status with this one.
    Apply(ConnectionStatus),
    /// Leave the tray as it is and wait for the next item.
    Ignore,
    /// The stream has ended: leave the loop.
    Stop,
}

/// The step for one receipt from the stream (`None` once it has ended).
pub open spec fn step_of(received: Option<DaemonEvent>) -> LoopStep {
    match received {
        Some(DaemonEvent { event: Some(DaemonEventKind::TunnelState(raw)) }) => LoopStep::Apply(
            status_of(raw),
        ),
        Some(DaemonEvent { event: Some(_) }) => LoopStep::Ignore,
        _ => LoopStep::Stop,
    }
}

/// Decides what to do with one receipt from the stream: tunnel states are
/// applied, other notifications ignored, and an ended stream or an empty
/// item ends the loop.
pub fn next_step(received: Option<DaemonEvent>) -> (r: LoopStep)
    ensures
        r == step_of(received),
{
    match received {
        Some(DaemonEvent { event: Some(DaemonEventKind::TunnelState(raw)) }) => LoopStep::Apply(
            project(raw),
        ),
        Some(DaemonEvent { event: Some(_) }) => LoopStep::Ignore,
        _ => LoopStep::Stop,
    }
}

impl TrayModel {
    /// Takes one receipt from the stream into the model; returns whether the
    /// loop goes on.
    pub fn reconcile(&mut self, received: Option<DaemonEvent>) -> (go_on: bool)
        ensures
            go_on == !(step_of(received) is Stop),
            final(self).spec_regions() == old(self).spec_regions(),
            final(self).spec_status() == match step_of(received) {
                LoopStep::Apply(s) => s,
                _ => old(self).spec_status(),
            },
    {
        match next_step(received) {
            LoopStep::Apply(s) => {
                self.apply_status(s);
                true
            },
            LoopStep::Ignore => true,
            LoopStep::Stop => false,
        }
    }
}

} // verus!
