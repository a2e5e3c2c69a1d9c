//! Security grades of a link and the credentials kept for a bonded peer.

use vstd::prelude::*;

verus! {

/// Grade of protection negotiated on a link.
#[derive(Clone, Copy, Debug, PartialEq, Eq, Structural)]
pub enum SecurityLevel {
    /// Neither encrypted nor authenticated; every link starts here.
    NoEncryption,
    /// Encrypted, without protection against an attacker in the middle.
    Encrypted,
    /// Encrypted and authenticated.
    EncryptedAuthenticated,
}

impl SecurityLevel {
    /// The byte that stands for the level in a persisted record.
    pub open spec fn tag(self) -> u8 {
        match self {
            SecurityLevel::NoEncryption => 0,
            SecurityLevel::Encrypted => 1,
            SecurityLevel::EncryptedAuthenticated => 2,
        }
    }

    /// The level a tag byte stands for, if any.
    pub open spec fn of_tag(tag: u8) -> Option<SecurityLevel> {
        if tag == 0 {
            Some(SecurityLevel::NoEncryption)
        } else if tag == 1 {
            Some(SecurityLevel::Encrypted)
        } else if tag == 2 {
            Some(SecurityLevel::EncryptedAuthenticated)
        } else {
            None
        }
    }

    /// Whether traffic at this level is encrypted.
    pub open spec fn is_encrypted(self) -> bool {
        self != SecurityLevel::NoEncryption
    }

    /// Computes [`Self::tag`].
    pub fn to_tag(&self) -> (tag: u8)
        ensures
            tag == self.tag(),
            SecurityLevel::of_tag(tag) == Some(*self),
    {
        match self {
            SecurityLevel::NoEncryption => 0,
            SecurityLevel::Encrypted => 1,
            SecurityLevel::EncryptedAuthenticated => 2,
        }
    }

    /// Computes [`Self::of_tag`].
    pub fn from_tag(tag: u8) -> (level: Option<SecurityLevel>)
        ensures
            level == SecurityLevel::of_tag(tag),
            level is Some <==> tag <= 2,
    {
        match tag {
            0 => Some(SecurityLevel::NoEncryption),
            1 => Some(SecurityLevel::Encrypted),
            2 => Some(SecurityLevel::EncryptedAuthenticated),
            _ => None,
        }
    }

    /// Computes [`Self::is_encrypted`].
    pub fn encrypted(&self) -> (yes: bool)
        ensures
            yes == self.is_encrypted(),
    {
        match self {
            SecurityLevel::NoEncryption => false,
            _ => true,
        }
    }
}

/// Credentials of one paired peer, as the host stack hands them over when
/// pairing completes and takes them back at boot.
#[derive(Clone, Copy, Debug, PartialEq, Eq)]
pub struct BondInformation {
    /// Device address of the peer.
    pub bd_addr: [u8; 6],
    /// Long-term key shared with the peer.
    pub ltk: u128,
    /// Security level the key was created at.
    pub security_level: SecurityLevel,
    /// Whether the pairing created a bond.
    pub is_bonded: bool,
}

} // verus!
