//! The notification service of the attribute table: its three
//! characteristics and the states that the pet reports.

use crate::service::ble::little_endian::{le_bytes, to_le_bytes};
use vstd::prelude::*;
use vstd::string::StringSliceAdditionalSpecFns;

verus! {

/// Number of bytes of the message characteristic.
pub const MESSAGE_LEN: usize = 128;

/// State of the pet, as reported to the phone.
#[derive(Clone, Copy, Debug, PartialEq, Eq, Structural)]
pub enum TamagotchiStatus {
    Happy,
    Hungry,
    Tired,
    Sick,
    Playing,
    Sleeping,
}

impl TamagotchiStatus {
    /// The status code: the place of the state in the rotation.
    pub open spec fn code(self) -> u8 {
        match self {
            TamagotchiStatus::Happy => 0,
            TamagotchiStatus::Hungry => 1,
            TamagotchiStatus::Tired => 2,
            TamagotchiStatus::Sick => 3,
            TamagotchiStatus::Playing => 4,
            TamagotchiStatus::Sleeping => 5,
        }
    }

    /// The state with the status code `code % 6`.
    pub open spec fn of_code(code: u8) -> TamagotchiStatus {
        match code % 6 {
            0 => TamagotchiStatus::Happy,
            1 => TamagotchiStatus::Hungry,
            2 => TamagotchiStatus::Tired,
            3 => TamagotchiStatus::Sick,
            4 => TamagotchiStatus::Playing,
            _ => TamagotchiStatus::Sleeping,
        }
    }

    /// The text that goes with the state, as bytes.
    pub open spec fn message(self) -> Seq<u8> {
        match self {
            TamagotchiStatus::Happy => "Estou feliz!".spec_bytes(),
            TamagotchiStatus::Hungry => "Com fome...".spec_bytes(),
            TamagotchiStatus::Tired => "Cansado...".spec_bytes(),
            TamagotchiStatus::Sick => "Doente :(".spec_bytes(),
            TamagotchiStatus::Playing => "Brincando!".spec_bytes(),
            TamagotchiStatus::Sleeping => "Dormindo zzz".spec_bytes(),
        }
    }

    /// Computes [`Self::code`].
    pub fn as_u8(&self) -> (code: u8)
        ensures
            code == self.code(),
            code < 6,
    {
        match self {
            TamagotchiStatus::Happy => 0,
            TamagotchiStatus::Hungry => 1,
            TamagotchiStatus::Tired => 2,
            TamagotchiStatus::Sick => 3,
            TamagotchiStatus::Playing => 4,
            TamagotchiStatus::Sleeping => 5,
        }
    }

    /// Computes [`Self::of_code`].
    pub fn from_u8(code: u8) -> (status: TamagotchiStatus)
        ensures
            status == TamagotchiStatus::of_code(code),
            code < 6 ==> status.code() == code,
    {
        match code % 6 {
            0 => TamagotchiStatus::Happy,
            1 => TamagotchiStatus::Hungry,
            2 => TamagotchiStatus::Tired,
            3 => TamagotchiStatus::Sick,
            4 => TamagotchiStatus::Playing,
            _ => TamagotchiStatus::Sleeping,
        }
    }

    /// The text that goes with the state: at most twelve bytes, so that it
    /// fits in the message characteristic.
    pub fn as_message(&self) -> (text: &'static [u8])
        ensures
            text@ == self.message(),
            text@.len() <= 12,
    {
        proof {
            lemma_message_len(*self);
        }
        match self {
            TamagotchiStatus::Happy => "Estou feliz!".as_bytes(),
            TamagotchiStatus::Hungry => "Com fome...".as_bytes(),
            TamagotchiStatus::Tired => "Cansado...".as_bytes(),
            TamagotchiStatus::Sick => "Doente :(".as_bytes(),
            TamagotchiStatus::Playing => "Brincando!".as_bytes(),
            TamagotchiStatus::Sleeping => "Dormindo zzz".as_bytes(),
        }
    }
}

/// No text of a state is longer than twelve bytes.
pub proof fn lemma_message_len(status: TamagotchiStatus)
    ensures
        status.message().len() <= 12,
{
    broadcast use vstd::string::is_ascii_spec_bytes;

    reveal_strlit("Estou feliz!");
    reveal_strlit("Com fome...");
    reveal_strlit("Cansado...");
    reveal_strlit("Doente :(");
    reveal_strlit("Brincando!");
    reveal_strlit("Dormindo zzz");
    assert(vstd::string::is_ascii("Estou feliz!"));
    assert(vstd::string::is_ascii("Com fome..."));
    assert(vstd::string::is_ascii("Cansado..."));
    assert(vstd::string::is_ascii("Doente :("));
    assert(vstd::string::is_ascii("Brincando!"));
    assert(vstd::string::is_ascii("Dormindo zzz"));
}

/// One value pushed to the phone.
#[derive(Clone, Copy, Debug, PartialEq, Eq)]
pub enum Notification {
    /// A text, padded with zero bytes to the size of its characteristic.
    Message([u8; 128]),
    /// The counter of notifications, four bytes on the air.
    Counter(u32),
    /// A status code, one byte on the air.
    Status(u8),
}

impl Notification {
    /// The bytes of the value on the air, of a fixed width for each kind:
    /// 128 for a text, four for the counter, least significant first, one
    /// for a status code.
    pub open spec fn frame(self) -> Seq<u8> {
        match self {
            Notification::Message(message) => message@,
            Notification::Counter(counter) => le_bytes(counter as nat, 4),
            Notification::Status(status) => seq![status],
        }
    }

    /// Computes [`Self::frame`].
    pub fn encode(&self) -> (bytes: Vec<u8>)
        ensures
            bytes@ == self.frame(),
    {
        match self {
            Notification::Message(message) => {
                let mut bytes: Vec<u8> = Vec::new();
                let mut i: usize = 0;
                while i < MESSAGE_LEN
                    invariant
                        i <= 128,
                        bytes@ == message@.take(i as int),
                    decreases MESSAGE_LEN - i,
                {
                    bytes.push(message[i]);
                    assert(message@.take(i + 1) =~= message@.take(i as int).push(message@[i as int]));
                    i += 1;
                }
                assert(message@.take(128) =~= message@);
                bytes
            },
            Notification::Counter(counter) => to_le_bytes(*counter as u128, 4),
            Notification::Status(status) => {
                let mut bytes: Vec<u8> = Vec::new();
                bytes.push(*status);
                assert(bytes@ =~= seq![*status]);
                bytes
            },
        }
    }
}

/// The values of the three characteristics, which the attribute table
/// serves to a central that reads them.
#[derive(Clone, Copy, Debug, PartialEq, Eq)]
pub struct NotificationCharacteristics {
    /// Text for the phone.
    pub message: [u8; 128],
    /// Counter of notifications.
    pub counter: u32,
    /// Status code of the pet.
    pub tamagotchi_status: u8,
}

impl NotificationCharacteristics {
    /// The values after `notification` has been pushed: its own
    /// characteristic holds the new value, the other two are as before.
    pub open spec fn after(self, notification: Notification) -> NotificationCharacteristics {
        match notification {
            Notification::Message(message) => NotificationCharacteristics { message, ..self },
            Notification::Counter(counter) => NotificationCharacteristics { counter, ..self },
            Notification::Status(tamagotchi_status) => NotificationCharacteristics {
                tamagotchi_status,
                ..self
            },
        }
    }

    /// The values before anything was pushed: an empty text, zero, zero.
    pub fn new() -> (service: NotificationCharacteristics)
        ensures
            service.message@ == Seq::new(128, |i: int| 0u8),
            service.counter == 0,
            service.tamagotchi_status == 0,
    {
        let service = NotificationCharacteristics {
            message: [0u8; 128],
            counter: 0,
            tamagotchi_status: 0,
        };
        assert(service.message@ =~= Seq::new(128, |i: int| 0u8));
        service
    }

    /// Takes note of a value that was pushed.
    pub fn record(&mut self, notification: &Notification)
        ensures
            *final(self) == old(self).after(*notification),
    {
        match notification {
            Notification::Message(message) => {
                self.message = *message;
            },
            Notification::Counter(counter) => {
                self.counter = *counter;
            },
            Notification::Status(status) => {
                self.tamagotchi_status = *status;
            },
        }
    }
}

} // verus!
