//! One probe: a single connection attempt and what follows from its outcome.
//!
//! A [`Prober`] does no I/O. Its owner attempts the connection and hands the
//! outcome to [`Prober::step`], which answers with what to do next; a result
//! that is to be delivered goes to the collector, and the outcome of that
//! delivery comes back through `step` as well.

use vstd::prelude::*;
use crate::address::Address;

verus! {

/// A port that accepted a connection.
#[derive(Clone, Copy, Debug, PartialEq, Eq, Hash, Structural)]
pub struct ProbeResult {
    pub address: Address,
    pub port: u16,
}

/// A result that could not be handed to the collector.
#[derive(Clone, Copy, Debug, PartialEq, Eq, Structural)]
pub struct DeliveryError {
    /// The result that was not delivered.
    pub result: ProbeResult,
}

/// Where a probe stands.
#[derive(Clone, Copy, Debug, PartialEq, Eq, Structural)]
pub enum ProbePhase {
    /// The connection attempt is outstanding.
    Connecting,
    /// The port is open and its result is on the way to the collector.
    Delivering,
    /// Nothing is left to do.
    Finished,
}

/// What happened to a probe's outstanding operation.
#[derive(Clone, Copy, Debug, PartialEq, Eq, Structural)]
pub enum ProbeEvent {
    /// The connection was established.
    Connected,
    /// The connection was refused, timed out or failed in any other way.
    ConnectFailed,
    /// The collector took the result.
    Delivered,
    /// The collector is gone and the result was not taken.
    DeliveryFailed,
}

/// What a probe's owner is to do after an event.
#[derive(Clone, Copy, Debug, PartialEq, Eq)]
pub enum ProbeAction {
    /// Release the connection and hand this result to the collector.
    Deliver(ProbeResult),
    /// Stop. A closed port ends a probe with `Ok`, and so does a delivered
    /// result; only a failed delivery ends it with an error.
    Finish(Result<(), DeliveryError>),
}

/// The mathematical content of a [`Prober`].
pub struct ProberView {
    pub address: Address,
    pub port: u16,
    pub phase: ProbePhase,
}

impl ProberView {
    /// The result this probe reports if its port turns out to be open.
    pub open spec fn result(self) -> ProbeResult {
        ProbeResult { address: self.address, port: self.port }
    }

    /// Whether `event` answers the operation that is outstanding in this phase.
    pub open spec fn expects(self, event: ProbeEvent) -> bool {
        match self.phase {
            ProbePhase::Connecting => event is Connected || event is ConnectFailed,
            ProbePhase::Delivering => event is Delivered || event is DeliveryFailed,
            ProbePhase::Finished => false,
        }
    }

    /// The phase after `event`. An event that is not expected changes nothing.
    pub open spec fn phase_after(self, event: ProbeEvent) -> ProbePhase {
        if !self.expects(event) {
            self.phase
        } else if event is Connected {
            ProbePhase::Delivering
        } else {
            ProbePhase::Finished
        }
    }

    /// The action that answers `event`, if the event is expected.
    pub open spec fn action(self, event: ProbeEvent) -> Option<ProbeAction> {
        if !self.expects(event) {
            None
        } else {
            Some(
                match event {
                    ProbeEvent::Connected => ProbeAction::Deliver(self.result()),
                    ProbeEvent::DeliveryFailed => ProbeAction::Finish(
                        Err(DeliveryError { result: self.result() }),
                    ),
                    _ => ProbeAction::Finish(Ok(())),
                },
            )
        }
    }

    /// The probe after `event`.
    pub open spec fn after(self, event: ProbeEvent) -> ProberView {
        ProberView { phase: self.phase_after(event), ..self }
    }

    /// What a probe of `port` hands to the collector when its connection
    /// attempt ends with `outcome`: its result if the connection was
    /// established, nothing otherwise.
    pub open spec fn emitted(address: Address, port: u16, outcome: ProbeEvent) -> Option<
        ProbeResult,
    > {
        match (ProberView { address, port, phase: ProbePhase::Connecting }).action(outcome) {
            Some(ProbeAction::Deliver(result)) => Some(result),
            _ => None,
        }
    }
}

/// The probe of one port. It is handed out by a scan, once per port, and
/// cannot be copied.
#[derive(Debug)]
pub struct Prober {
    address: Address,
    port: u16,
    phase: ProbePhase,
}

impl View for Prober {
    type V = ProberView;

    closed spec fn view(&self) -> ProberView {
        ProberView { address: self.address, port: self.port, phase: self.phase }
    }
}

impl Prober {
    /// A probe of `port` whose connection attempt is yet to be made.
    pub(crate) fn new(address: Address, port: u16) -> (prober: Prober)
        ensures
            prober@ == (ProberView { address, port, phase: ProbePhase::Connecting }),
    {
        Prober { address, port, phase: ProbePhase::Connecting }
    }

    /// The address to connect to.
    pub fn address(&self) -> (a: Address)
        ensures
            a == self@.address,
    {
        self.address
    }

    /// The port to connect to.
    pub fn port(&self) -> (p: u16)
        ensures
            p == self@.port,
    {
        self.port
    }

    /// Where the probe stands.
    pub fn phase(&self) -> (p: ProbePhase)
        ensures
            p == self@.phase,
    {
        self.phase
    }

    /// Takes the outcome of the outstanding operation and says what to do
    /// next. An established connection asks for the delivery of this port's
    /// result; a failed one finishes the probe silently. A delivery that
    /// succeeded finishes it too, and one that failed finishes it with the
    /// error. An event that does not answer the outstanding operation is
    /// ignored: the probe stays as it is and `None` comes back.
    pub fn step(&mut self, event: ProbeEvent) -> (action: Option<ProbeAction>)
        ensures
            final(self)@ == old(self)@.after(event),
            action == old(self)@.action(event),
    {
        match (self.phase, event) {
            (ProbePhase::Connecting, ProbeEvent::Connected) => {
                self.phase = ProbePhase::Delivering;
                Some(ProbeAction::Deliver(ProbeResult { address: self.address, port: self.port }))
            },
            (ProbePhase::Connecting, ProbeEvent::ConnectFailed) => {
                self.phase = ProbePhase::Finished;
                Some(ProbeAction::Finish(Ok(())))
            },
            (ProbePhase::Delivering, ProbeEvent::Delivered) => {
                self.phase = ProbePhase::Finished;
                Some(ProbeAction::Finish(Ok(())))
            },
            (ProbePhase::Delivering, ProbeEvent::DeliveryFailed) => {
                self.phase = ProbePhase::Finished;
                Some(
                    ProbeAction::Finish(
                        Err(
                            DeliveryError {
                                result: ProbeResult { address: self.address, port: self.port },
                            },
                        ),
                    ),
                )
            },
            _ => None,
        }
    }
}

} // verus!
