//! The life of the device from boot on: load the bond, advertise, serve
//! one connection, start over.

use crate::service::ble::advertise_service::AdvertiseError;
use crate::service::ble::notification_characteristics::{Notification, TamagotchiStatus};
use crate::service::ble::notification_service::{message_frame, NotificationService};
use crate::service::ble::security::BondInformation;
use vstd::prelude::*;
use vstd::string::StringSliceAdditionalSpecFns;

verus! {

/// Seconds between two ticks of the periodic notifier.
pub const TICK_SECS: u64 = 10;

/// Ticks after which the periodic notifier is where it began: six states,
/// one on every other tick.
pub const ROTATION_TICKS: u8 = 12;

/// The periodic notifier: on every other tick it reports the next state of
/// a fixed rotation of six.
#[derive(Clone, Copy, Debug, PartialEq, Eq, Structural)]
pub struct StatusRotation {
    counter: u8,
}

impl StatusRotation {
    /// Ticks taken since the rotation last began: fewer than twelve.
    pub closed spec fn phase(self) -> nat {
        (self.counter % 12) as nat
    }

    /// What the tick that comes `ticks` ticks after the start reports: a
    /// state on every even tick, in the order of the status codes.
    pub open spec fn report_at(ticks: nat) -> Option<TamagotchiStatus> {
        if ticks % 2 == 0 {
            Some(TamagotchiStatus::of_code(((ticks / 2) % 6) as u8))
        } else {
            None
        }
    }

    /// A rotation at its start.
    pub fn new() -> (rotation: StatusRotation)
        ensures
            rotation.phase() == 0,
    {
        StatusRotation { counter: 0 }
    }

    /// Takes one tick of the timer and says which state, if any, is due to
    /// be reported on it.
    pub fn tick(&mut self) -> (report: Option<TamagotchiStatus>)
        ensures
            final(self).phase() == (old(self).phase() + 1) % 12,
            report == Self::report_at(old(self).phase()),
    {
        let phase = self.counter % ROTATION_TICKS;
        let report = if phase % 2 == 0 {
            Some(TamagotchiStatus::from_u8(phase / 2))
        } else {
            None
        };
        self.counter = (phase + 1) % ROTATION_TICKS;
        report
    }
}

/// Status rotation: the report of a tick depends only on the tick's place
/// among twelve, every even tick reports, and the reports run through the
/// status codes 0, 1, 2, 3, 4, 5 and start over.
pub proof fn lemma_rotation(ticks: nat)
    ensures
        StatusRotation::report_at(ticks) == StatusRotation::report_at(ticks % 12),
        StatusRotation::report_at(2 * ticks) is Some,
        StatusRotation::report_at(2 * ticks)->Some_0.code() == ticks % 6,
        StatusRotation::report_at(2 * ticks + 1) is None,
{
    assert((ticks / 2) % 6 == ((ticks % 12) / 2) % 6 && ticks % 2 == (ticks % 12) % 2) by {
        vstd::arithmetic::div_mod::lemma_fundamental_div_mod(ticks as int, 12);
        let q = ticks / 12;
        let r = ticks % 12;
        assert(ticks == 12 * q + r);
        assert((12 * q + r) / 2 == 6 * q + r / 2);
        assert((6 * q + r / 2) % 6 == (r / 2) % 6) by {
            vstd::arithmetic::div_mod::lemma_mod_multiples_vanish(q as int, (r / 2) as int, 6);
        }
        assert((12 * q + r) % 2 == r % 2) by {
            vstd::arithmetic::div_mod::lemma_mod_multiples_vanish(6 * q as int, r as int, 2);
        }
    }
    assert((2 * ticks) / 2 == ticks && (2 * ticks) % 2 == 0 && (2 * ticks + 1) % 2 == 1);
}

/// A task that runs while a central is connected.
#[derive(Clone, Copy, Debug, PartialEq, Eq, Structural)]
pub enum Task {
    /// The session that answers the events of the link.
    Gatt,
    /// The task that keeps an idle link from being dropped.
    KeepAlive,
    /// The periodic notifier.
    Notifier,
}

/// What is set up on a link that has just come up.
#[derive(Clone, Copy, Debug, PartialEq, Eq)]
pub struct ConnectionSetup {
    /// Whether the link accepts a bond: only while no bond is stored.
    pub bondable: bool,
    /// The greeting to send first, if any.
    pub welcome: Option<Notification>,
    /// Whether the periodic notifier runs beside the session and the
    /// keep-alive task.
    pub notifier: bool,
}

/// What the device does next.
#[derive(Clone, Copy, Debug, PartialEq, Eq, Structural)]
pub enum Cycle {
    /// Build a fresh advertisement and a fresh attribute table, advertise
    /// and accept.
    Advertise,
}

/// The state that outlives a connection.
#[derive(Clone, Copy, Debug, PartialEq, Eq, Structural)]
pub struct Orchestrator {
    /// Whether a bond is stored for the identity under which the device
    /// advertises.
    pub bond_stored: bool,
    /// Whether the device sends notifications of its own accord.
    pub notifications: bool,
}

impl Orchestrator {
    /// The text of the greeting.
    pub open spec fn greeting() -> Seq<u8> {
        "Conectado!".spec_bytes()
    }

    /// Whether `setup` is what this state asks for on a new link.
    pub open spec fn asks_for(self, setup: ConnectionSetup) -> bool {
        &&& setup.bondable == !self.bond_stored
        &&& setup.notifier == self.notifications
        &&& if self.notifications {
            setup.welcome matches Some(Notification::Message(frame)) && frame@ == message_frame(
                Self::greeting(),
            )
        } else {
            setup.welcome is None
        }
    }

    /// Starts the device from what the store answered when asked for any
    /// bonded peer. A bond that was found is the second result: it goes
    /// back to the host stack. A failure of the store is no reason to halt:
    /// the device goes on without a bond.
    pub fn boot<E>(first: Result<Option<BondInformation>, E>, notifications: bool) -> (r: (
        Orchestrator,
        Option<BondInformation>,
    ))
        ensures
            r.0.notifications == notifications,
            r.0.bond_stored == (first matches Ok(Some(_))),
            r.1 == (match first {
                Ok(found) => found,
                Err(_) => None,
            }),
    {
        match first {
            Ok(Some(bond)) => (Orchestrator { bond_stored: true, notifications }, Some(bond)),
            _ => (Orchestrator { bond_stored: false, notifications }, None),
        }
    }

    /// Whether the next link accepts a bond.
    pub fn bondable(&self) -> (yes: bool)
        ensures
            yes == !self.bond_stored,
    {
        !self.bond_stored
    }

    /// Says what to set up on the link that has just come up.
    pub fn accepted(&self) -> (setup: ConnectionSetup)
        ensures
            self.asks_for(setup),
    {
        let welcome = if self.notifications {
            proof {
                lemma_greeting_len();
            }
            match NotificationService::send_message::<()>("Conectado!".as_bytes()) {
                Ok(notification) => Some(notification),
                Err(_) => vstd::pervasive::unreached(),
            }
        } else {
            None
        };
        ConnectionSetup { bondable: !self.bond_stored, welcome, notifier: self.notifications }
    }

    /// Takes note that an attempt to get a connection failed. The attempt
    /// is not repeated behind the caller's back: the cycle starts over.
    pub fn advertise_failed<E>(&self, error: &AdvertiseError<E>) -> (next: Cycle)
        ensures
            next == Cycle::Advertise,
    {
        Cycle::Advertise
    }

    /// Takes the end of a connection: `winner` is the task that finished
    /// first, which ends the other two where they stand, and `bond_stored`
    /// is the flag as the session left it. The cycle starts over.
    pub fn race_won(&mut self, winner: Task, bond_stored: bool) -> (next: Cycle)
        ensures
            next == Cycle::Advertise,
            final(self).bond_stored == bond_stored,
            final(self).notifications == old(self).notifications,
    {
        self.bond_stored = bond_stored;
        Cycle::Advertise
    }
}

/// The greeting has ten bytes.
pub proof fn lemma_greeting_len()
    ensures
        Orchestrator::greeting().len() == 10,
{
    broadcast use vstd::string::is_ascii_spec_bytes;

    reveal_strlit("Conectado!");
    assert(vstd::string::is_ascii("Conectado!"));
}

} // verus!
