//! Building the notifications that go to the phone, and the order in
//! which a status report sends them.

use crate::service::ble::notification_characteristics::{
    Notification,
    TamagotchiStatus,
    MESSAGE_LEN,
};
use vstd::prelude::*;

verus! {

/// Why a notification was not delivered.
#[derive(Debug, PartialEq, Eq)]
pub enum NotifyError<E> {
    /// The text is longer than its characteristic. Nothing was sent.
    InvalidValue,
    /// The link refused the transmission.
    Link(E),
}

/// The frame of a text: the text, then zero bytes up to 128.
pub open spec fn message_frame(message: Seq<u8>) -> Seq<u8> {
    Seq::new(
        128,
        |i: int|
            if i < message.len() {
                message[i]
            } else {
                0u8
            },
    )
}

/// The frame that is sent for a text, or `None` for a text that is too
/// long to be sent at all.
pub open spec fn message_outcome(message: Seq<u8>) -> Option<Seq<u8>> {
    if message.len() > 128 {
        None
    } else {
        Some(message_frame(message))
    }
}

/// What the caller reports of a transmission that ended with `outcome`.
pub open spec fn delivery<E>(outcome: Result<(), E>) -> Result<(), NotifyError<E>> {
    match outcome {
        Ok(_) => Ok(()),
        Err(e) => Err(NotifyError::Link(e)),
    }
}

/// Entry points for sending notifications.
#[derive(Clone, Copy, Debug, PartialEq, Eq, Structural)]
pub struct NotificationService;

impl NotificationService {
    /// Builds the notification of a text. A text of more than 128 bytes is
    /// refused, not cut, and nothing is to be sent; a shorter one is padded
    /// with zero bytes.
    pub fn send_message<E>(message: &[u8]) -> (r: Result<Notification, NotifyError<E>>)
        ensures
            (match (r, message_outcome(message@)) {
                (Ok(Notification::Message(sent)), Some(frame)) => sent@ == frame,
                (Err(NotifyError::InvalidValue), None) => true,
                _ => false,
            }),
    {
        if message.len() > MESSAGE_LEN {
            return Err(NotifyError::InvalidValue);
        }
        let mut buffer = [0u8; 128];
        let mut i: usize = 0;
        while i < message.len()
            invariant
                i <= message@.len() <= 128,
                forall|j: int| 0 <= j < i ==> buffer@[j] == message@[j],
                forall|j: int| i <= j < 128 ==> buffer@[j] == 0,
            decreases message@.len() - i,
        {
            buffer[i] = message[i];
            i += 1;
        }
        assert(buffer@ =~= message_frame(message@));
        Ok(Notification::Message(buffer))
    }

    /// Builds the notification of the counter.
    pub fn send_counter(value: u32) -> (notification: Notification)
        ensures
            notification == Notification::Counter(value),
    {
        Notification::Counter(value)
    }

    /// Builds the notification of a status code.
    pub fn send_status(status: u8) -> (notification: Notification)
        ensures
            notification == Notification::Status(status),
    {
        Notification::Status(status)
    }

    /// Says how a transmission ended. A failure is for the caller to note
    /// and go on from, not to stop at.
    pub fn sent<E>(outcome: Result<(), E>) -> (r: Result<(), NotifyError<E>>)
        ensures
            r == delivery(outcome),
    {
        match outcome {
            Ok(_) => Ok(()),
            Err(e) => Err(NotifyError::Link(e)),
        }
    }

    /// Begins the report of a status: its code is due first.
    pub fn send_tamagotchi_status(status: TamagotchiStatus) -> (report: StatusReport)
        ensures
            report == (StatusReport { status, stage: ReportStage::Code }),
    {
        StatusReport { status, stage: ReportStage::Code }
    }
}

/// How far the report of a status has come.
#[derive(Clone, Copy, Debug, PartialEq, Eq, Structural)]
pub enum ReportStage {
    /// The status code is due.
    Code,
    /// The code was sent; the text is due.
    Text,
}

/// The report of a status in progress: the code, then the text.
#[derive(Clone, Copy, Debug, PartialEq, Eq, Structural)]
pub struct StatusReport {
    /// The status being reported.
    pub status: TamagotchiStatus,
    /// What is due next.
    pub stage: ReportStage,
}

/// What follows one transmission of a report.
#[derive(Debug, PartialEq, Eq)]
pub enum ReportStep<E> {
    /// Another transmission is due.
    Next(StatusReport),
    /// The report has ended with this result.
    Done(Result<(), NotifyError<E>>),
}

impl StatusReport {
    /// Whether `notification` is the one that is due.
    pub open spec fn is_request(self, notification: Notification) -> bool {
        match self.stage {
            ReportStage::Code => notification == Notification::Status(self.status.code()),
            ReportStage::Text => notification matches Notification::Message(frame) && frame@
                == message_frame(self.status.message()),
        }
    }

    /// What follows when the due transmission ends with `outcome`: the text
    /// follows the code only if the code went out.
    pub open spec fn step<E>(self, outcome: Result<(), E>) -> ReportStep<E> {
        match (self.stage, outcome) {
            (ReportStage::Code, Ok(_)) => ReportStep::Next(
                StatusReport { stage: ReportStage::Text, ..self },
            ),
            _ => ReportStep::Done(delivery(outcome)),
        }
    }

    /// The notification that is due.
    pub fn pending(&self) -> (notification: Notification)
        ensures
            self.is_request(notification),
    {
        match self.stage {
            ReportStage::Code => NotificationService::send_status(self.status.as_u8()),
            ReportStage::Text => {
                let text = self.status.as_message();
                let built = NotificationService::send_message::<()>(text);
                match built {
                    Ok(notification) => notification,
                    Err(_) => vstd::pervasive::unreached(),
                }
            },
        }
    }

    /// Takes the outcome of the transmission that was due and says what
    /// follows.
    pub fn resume<E>(self, outcome: Result<(), E>) -> (next: ReportStep<E>)
        ensures
            next == self.step(outcome),
    {
        match outcome {
            Ok(_) => match self.stage {
                ReportStage::Code => ReportStep::Next(
                    StatusReport { status: self.status, stage: ReportStage::Text },
                ),
                ReportStage::Text => ReportStep::Done(Ok(())),
            },
            Err(e) => ReportStep::Done(Err(NotifyError::Link(e))),
        }
    }
}

/// Notification length contract: a text of exactly 128 bytes is sent as
/// it is; a longer one, such as one of 129 bytes, is not sent at all.
pub proof fn lemma_message_length_contract(message: Seq<u8>)
    ensures
        message.len() == 128 ==> message_outcome(message) == Some(message),
        message.len() > 128 ==> message_outcome(message) is None,
        message.len() <= 128 ==> message_outcome(message) is Some,
{
    if message.len() == 128 {
        assert(message_frame(message) =~= message);
    }
}

} // verus!
