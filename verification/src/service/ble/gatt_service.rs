//! The session on one connection: what each event from the link means and
//! what is done about it.

use crate::service::ble::security::{BondInformation, SecurityLevel};
use crate::service::ble::storage_service::{store_bonding_info, StoreError, Upsert, UpsertStage};
use vstd::prelude::*;

verus! {

/// A request of the central on the attribute table.
#[derive(Clone, Copy, Debug, PartialEq, Eq, Structural)]
pub enum GattEvent {
    /// The attribute with this handle is being read.
    Read { handle: u16 },
    /// The attribute with this handle is being written.
    Write { handle: u16 },
    /// Any other request.
    Other,
}

/// The answer to a request on the attribute table.
#[derive(Clone, Copy, Debug, PartialEq, Eq, Structural)]
pub enum GattReply {
    /// Let the attribute table process the request.
    Accept,
    /// Refuse the request; the attribute table never sees it.
    Reject,
}

/// What the link reports while a central is connected. `Stored` is the one
/// event that does not come from the link: it reports how the upsert asked
/// for by [`SessionAction::Persist`] ended.
#[derive(Debug, PartialEq, Eq)]
pub enum GattConnectionEvent<E> {
    /// The link is down, for the reason given as a status code.
    Disconnected { reason: u8 },
    /// Pairing has completed, with a bond if both sides were bondable.
    PairingComplete { security_level: SecurityLevel, bond: Option<BondInformation> },
    /// The bond of the last pairing has been written, or has failed to be.
    Stored { outcome: Result<(), StoreError<E>> },
    /// Pairing has failed. The link stays up.
    PairingFailed,
    /// A request on the attribute table, with the security level of the link
    /// at that moment, or `None` where the link did not tell it.
    Gatt { event: GattEvent, link: Option<SecurityLevel> },
    /// Anything else.
    Other,
}

/// What the caller does after an event.
#[derive(Clone, Copy, Debug, PartialEq, Eq)]
pub enum SessionAction {
    /// Answer the request, then wait for the next event.
    Reply(GattReply),
    /// Carry out this upsert on the bonding store, report its outcome as
    /// [`GattConnectionEvent::Stored`], then wait for the next event.
    Persist(Upsert),
    /// Wait for the next event.
    Continue,
    /// Leave the session: the link is down for this reason.
    Finish { reason: u8 },
}

/// Whether a write may reach the attribute table on a link whose
/// security level is `link`: only where the link is known to be encrypted.
pub open spec fn write_allowed(link: Option<SecurityLevel>) -> bool {
    match link {
        Some(level) => level.is_encrypted(),
        None => false,
    }
}

/// The answer to a request: writes pass the encryption gate or are
/// refused, everything else is left to the attribute table.
pub open spec fn gatt_reply(event: GattEvent, link: Option<SecurityLevel>) -> GattReply {
    match event {
        GattEvent::Write { .. } => if write_allowed(link) {
            GattReply::Accept
        } else {
            GattReply::Reject
        },
        _ => GattReply::Accept,
    }
}

/// The action that an event calls for.
pub open spec fn session_action<E>(event: GattConnectionEvent<E>) -> SessionAction {
    match event {
        GattConnectionEvent::Disconnected { reason } => SessionAction::Finish { reason },
        GattConnectionEvent::PairingComplete { bond: Some(bond), .. } => SessionAction::Persist(
            Upsert { key: bond.key(), value: bond.value(), stage: UpsertStage::Removing },
        ),
        GattConnectionEvent::Gatt { event, link } => SessionAction::Reply(gatt_reply(event, link)),
        _ => SessionAction::Continue,
    }
}

/// The bond-stored flag after an event: it follows the outcome of writing
/// a bond, and nothing else changes it.
pub open spec fn session_flag<E>(event: GattConnectionEvent<E>, bond_stored: bool) -> bool {
    match event {
        GattConnectionEvent::Stored { outcome } => outcome is Ok,
        _ => bond_stored,
    }
}

/// The session state of one connection.
#[derive(Clone, Copy, Debug, PartialEq, Eq, Structural)]
pub struct GattService {
    notification_counter: u32,
}

impl GattService {
    /// Number of notifications sent in this session.
    pub closed spec fn notifications(self) -> nat {
        self.notification_counter as nat
    }

    /// A session that has sent nothing yet.
    pub fn new() -> (service: GattService)
        ensures
            service.notifications() == 0,
    {
        GattService { notification_counter: 0 }
    }

    /// Takes note that the link is down. Nothing is kept of a link.
    pub fn handle_disconect_event(&self) {
    }

    /// Takes the outcome of writing the bond of a completed pairing and
    /// says whether a bond is now stored. A failed write does not fail the
    /// pairing: it only leaves the device bondable.
    pub fn handle_paring_complete_event<E>(&self, outcome: &Result<(), StoreError<E>>) -> (stored:
        bool)
        ensures
            stored == (*outcome is Ok),
    {
        match outcome {
            Ok(_) => true,
            Err(_) => false,
        }
    }

    /// Takes note of a failed pairing. The link stays as it is.
    pub fn handle_paring_failed_event(&self) {
    }

    /// Decides on a write by the security level of the link: refused
    /// unless the link is known to be encrypted.
    pub fn gatt_write_handler(&self, link: Option<SecurityLevel>) -> (reply: GattReply)
        ensures
            reply == (if write_allowed(link) {
                GattReply::Accept
            } else {
                GattReply::Reject
            }),
    {
        match link {
            Some(SecurityLevel::Encrypted) => GattReply::Accept,
            Some(SecurityLevel::EncryptedAuthenticated) => GattReply::Accept,
            Some(SecurityLevel::NoEncryption) => GattReply::Reject,
            None => GattReply::Reject,
        }
    }

    /// Observes a read. The value is served by the attribute table.
    pub fn gatt_read_handler(&self, handle: u16) -> (reply: GattReply)
        ensures
            reply == GattReply::Accept,
    {
        GattReply::Accept
    }

    /// Answers a request on the attribute table.
    pub fn handle_gatt_event(&self, event: GattEvent, link: Option<SecurityLevel>) -> (reply:
        GattReply)
        ensures
            reply == gatt_reply(event, link),
    {
        match event {
            GattEvent::Write { .. } => self.gatt_write_handler(link),
            GattEvent::Read { handle } => self.gatt_read_handler(handle),
            GattEvent::Other => GattReply::Accept,
        }
    }

    /// One turn of the session: takes the next event, updates the
    /// bond-stored flag and says what to do. The session goes on until the
    /// action is [`SessionAction::Finish`].
    pub fn handle_gatt_events<E>(&self, event: GattConnectionEvent<E>, bond_stored: &mut bool) -> (action:
        SessionAction)
        ensures
            action == session_action(event),
            *final(bond_stored) == session_flag(event, *old(bond_stored)),
    {
        match event {
            GattConnectionEvent::Disconnected { reason } => {
                self.handle_disconect_event();
                SessionAction::Finish { reason }
            },
            GattConnectionEvent::PairingComplete { security_level, bond } => {
                match bond {
                    Some(bond) => SessionAction::Persist(store_bonding_info(&bond)),
                    None => SessionAction::Continue,
                }
            },
            GattConnectionEvent::Stored { outcome } => {
                *bond_stored = self.handle_paring_complete_event(&outcome);
                SessionAction::Continue
            },
            GattConnectionEvent::PairingFailed => {
                self.handle_paring_failed_event();
                SessionAction::Continue
            },
            GattConnectionEvent::Gatt { event, link } => SessionAction::Reply(
                self.handle_gatt_event(event, link),
            ),
            GattConnectionEvent::Other => SessionAction::Continue,
        }
    }
}

/// Encryption gate: a write is accepted exactly on a link that is known
/// to be encrypted, authenticated or not; on a link without encryption it
/// never reaches the attribute table.
pub proof fn lemma_encryption_gate<E>(handle: u16, link: Option<SecurityLevel>)
    ensures
        ({
            let action = session_action::<E>(
                GattConnectionEvent::Gatt { event: GattEvent::Write { handle }, link },
            );
            &&& link == Some(SecurityLevel::NoEncryption) ==> action == SessionAction::Reply(
                GattReply::Reject,
            )
            &&& link == Some(SecurityLevel::Encrypted) ==> action == SessionAction::Reply(
                GattReply::Accept,
            )
            &&& link == Some(SecurityLevel::EncryptedAuthenticated) ==> action
                == SessionAction::Reply(GattReply::Accept)
            &&& link is None ==> action == SessionAction::Reply(GattReply::Reject)
        }),
{
}

/// The session ends on a disconnect and on nothing else, and only the
/// outcome of writing a bond changes the bond-stored flag.
pub proof fn lemma_session_ends_on_disconnect<E>(event: GattConnectionEvent<E>, bond_stored: bool)
    ensures
        session_action(event) is Finish <==> event is Disconnected,
        event is Disconnected ==> session_action(event) == (SessionAction::Finish {
            reason: event->reason,
        }),
        !(event is Stored) ==> session_flag(event, bond_stored) == bond_stored,
{
}

} // verus!
