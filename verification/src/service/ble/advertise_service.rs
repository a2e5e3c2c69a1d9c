//! The advertisement payload and the steps from advertising to a
//! connection that serves the attribute table.

use trouble_host::prelude::AdStructure;
use vstd::prelude::*;
use vstd::string::StringSliceAdditionalSpecFns;

verus! {

/// Most bytes that a legacy advertisement carries.
pub const ADVERTISEMENT_MAX: usize = 31;

/// Most bytes of a local name that fit beside the flags and the services.
pub const NAME_MAX: usize = 20;

/// Advertising flags: general discoverable, classic Bluetooth unsupported.
pub const FLAGS: u8 = 0x06;

/// Assigned number of the battery service.
pub const BATTERY: u16 = 0x180F;

/// Assigned number of the human interface device service.
pub const HUMAN_INTERFACE_DEVICE: u16 = 0x1812;

/// Type byte of the flags structure.
pub const AD_FLAGS: u8 = 0x01;

/// Type byte of the list of 16-bit service identifiers.
pub const AD_SERVICE_UUIDS16: u8 = 0x02;

/// Type byte of the complete local name.
pub const AD_COMPLETE_LOCAL_NAME: u8 = 0x09;

/// One advertising structure: a length byte that counts the type byte and
/// the data, the type byte, the data.
pub open spec fn ad_structure(kind: u8, data: Seq<u8>) -> Seq<u8> {
    seq![(data.len() + 1) as u8, kind] + data
}

/// The two bytes of a 16-bit identifier, least significant first.
pub open spec fn uuid16_bytes(uuid: u16) -> Seq<u8> {
    seq![(uuid % 256) as u8, (uuid / 256) as u8]
}

/// Flags, a list of two 16-bit services and the complete local name, one
/// structure after the other.
pub open spec fn ad_structures(flags: u8, first: Seq<u8>, second: Seq<u8>, name: Seq<u8>) -> Seq<
    u8,
> {
    ad_structure(AD_FLAGS, seq![flags]) + ad_structure(AD_SERVICE_UUIDS16, first + second)
        + ad_structure(AD_COMPLETE_LOCAL_NAME, name)
}

/// The payload that announces the device under `name`.
pub open spec fn advertisement(name: Seq<u8>) -> Seq<u8> {
    ad_structures(FLAGS, uuid16_bytes(BATTERY), uuid16_bytes(HUMAN_INTERFACE_DEVICE), name)
}

/// Encodes flags, two 16-bit services and a complete local name with
/// `AdStructure::encode_slice` of trouble-host. Trusted: the encoder
/// writes the structures in the order given, each as its length byte, its
/// type byte (0x01, 0x02, 0x09) and its data, from the front of `dest`, and
/// returns the number of bytes written; where they do not all fit it fails,
/// and `dest` may hold a part of them.
#[verifier::external_body]
fn encode_ad_structures(flags: u8, first: [u8; 2], second: [u8; 2], name: &[u8], dest: &mut [
    u8; 31],
) -> (len: Option<usize>)
    ensures
        ({
            let all = ad_structures(flags, first@, second@, name@);
            if all.len() <= 31 {
                len == Some(all.len() as usize) && final(dest)@ == all + old(dest)@.skip(
                    all.len() as int,
                )
            } else {
                len is None
            }
        }),
{
    let services = [first, second];
    let structures = [
        AdStructure::Flags(flags),
        AdStructure::ServiceUuids16(&services),
        AdStructure::CompleteLocalName(name),
    ];
    AdStructure::encode_slice(&structures, dest).ok()
}

/// Computes [`uuid16_bytes`].
pub fn uuid16_le(uuid: u16) -> (bytes: [u8; 2])
    ensures
        bytes@ == uuid16_bytes(uuid),
{
    let bytes = [(uuid % 256) as u8, (uuid / 256) as u8];
    assert(bytes@ =~= uuid16_bytes(uuid));
    bytes
}

/// The advertisement of the device, built once per connection cycle.
#[derive(Clone, Copy, Debug, PartialEq, Eq)]
pub struct AdvertiseService {
    advertise_data: [u8; 31],
    len: usize,
}

impl AdvertiseService {
    /// The bytes that go on the air.
    pub closed spec fn payload(self) -> Seq<u8> {
        self.advertise_data@.take(self.len as int)
    }

    /// The payload is no longer than an advertisement may be.
    #[verifier::type_invariant]
    spec fn within_bounds(self) -> bool {
        self.len <= 31
    }

    /// Whether the payload for `name` fits in an advertisement.
    pub open spec fn name_fits(name: Seq<u8>) -> bool {
        name.len() <= NAME_MAX
    }

    /// Computes [`Self::name_fits`] of the bytes of `name`.
    pub fn fits(name: &str) -> (yes: bool)
        ensures
            yes == Self::name_fits(name.spec_bytes()),
    {
        name.as_bytes().len() <= NAME_MAX
    }

    /// Builds the advertisement for the device called `name`. A name that
    /// does not fit is a mistake in the configuration of the device, not a
    /// condition to recover from: callers test [`Self::fits`] first.
    pub fn new(name: &str) -> (service: AdvertiseService)
        requires
            Self::name_fits(name.spec_bytes()),
        ensures
            service.payload() == advertisement(name.spec_bytes()),
            service.payload().len() == 11 + name.spec_bytes().len(),
    {
        let mut advertise_data = [0u8; 31];
        let encoded = encode_ad_structures(
            FLAGS,
            uuid16_le(BATTERY),
            uuid16_le(HUMAN_INTERFACE_DEVICE),
            name.as_bytes(),
            &mut advertise_data,
        );
        let len = match encoded {
            Some(len) => len,
            None => vstd::pervasive::unreached(),
        };
        proof {
            let all = advertisement(name.spec_bytes());
            assert(all.len() == 11 + name.spec_bytes().len());
            assert(advertise_data@.take(len as int) =~= all);
        }
        AdvertiseService { advertise_data, len }
    }

    /// The payload, for the call that starts advertising.
    pub fn data(&self) -> (bytes: &[u8])
        ensures
            bytes@ == self.payload(),
            bytes@.len() <= ADVERTISEMENT_MAX,
    {
        proof {
            use_type_invariant(self);
        }
        vstd::slice::slice_subrange(self.advertise_data.as_slice(), 0, self.len)
    }
}

/// The fixed parameters of advertising.
#[derive(Clone, Copy, Debug, PartialEq, Eq, Structural)]
pub struct AdvertisementParameters {
    /// Shortest time between two advertisements, in milliseconds.
    pub interval_min_ms: u64,
    /// Longest time between two advertisements, in milliseconds.
    pub interval_max_ms: u64,
    /// Transmit power, in dBm.
    pub tx_power_dbm: i8,
}

/// The call on the radio that is due on the way to a connection.
#[derive(Clone, Copy, Debug, PartialEq, Eq, Structural)]
pub enum AdvertiseRequest {
    /// Start connectable, scannable, undirected advertising of the payload,
    /// with no scan response data.
    Start(AdvertisementParameters),
    /// Wait, without a time limit, for a central to connect.
    Accept,
    /// Attach the attribute server to the new link.
    Attach,
}

/// How far the way to a connection has come.
#[derive(Clone, Copy, Debug, PartialEq, Eq, Structural)]
pub enum AdvertiseStage {
    /// Advertising is due to start.
    Starting,
    /// Advertising runs; a central is awaited.
    Accepting,
    /// A central has connected; the attribute server is due to be attached.
    Attaching,
}

/// The stage at which an attempt to get a connection failed, with the
/// failure that the radio reported.
#[derive(Debug, PartialEq, Eq)]
pub enum AdvertiseError<E> {
    /// Advertising could not be started.
    Start(E),
    /// No link came of accepting.
    Accept(E),
    /// The attribute server could not be attached.
    Attach(E),
}

/// What follows one call on the radio.
#[derive(Debug, PartialEq, Eq)]
pub enum AdvertiseStep<E> {
    /// Another call is due.
    Next(AdvertiseStage),
    /// The link is up and serves the attribute table.
    Connected,
    /// The attempt has failed. Nothing is retried here: whether to try
    /// again is for the caller to decide.
    Failed(AdvertiseError<E>),
}

impl AdvertiseStage {
    /// The call that is due.
    pub open spec fn request(self) -> AdvertiseRequest {
        match self {
            AdvertiseStage::Starting => AdvertiseRequest::Start(
                AdvertisementParameters {
                    interval_min_ms: 100,
                    interval_max_ms: 200,
                    tx_power_dbm: 0,
                },
            ),
            AdvertiseStage::Accepting => AdvertiseRequest::Accept,
            AdvertiseStage::Attaching => AdvertiseRequest::Attach,
        }
    }

    /// What follows when the due call ends with `outcome`: success leads
    /// one stage on, failure at any stage ends the attempt.
    pub open spec fn step<E>(self, outcome: Result<(), E>) -> AdvertiseStep<E> {
        match (self, outcome) {
            (AdvertiseStage::Starting, Ok(_)) => AdvertiseStep::Next(AdvertiseStage::Accepting),
            (AdvertiseStage::Accepting, Ok(_)) => AdvertiseStep::Next(AdvertiseStage::Attaching),
            (AdvertiseStage::Attaching, Ok(_)) => AdvertiseStep::Connected,
            (AdvertiseStage::Starting, Err(e)) => AdvertiseStep::Failed(AdvertiseError::Start(e)),
            (AdvertiseStage::Accepting, Err(e)) => AdvertiseStep::Failed(AdvertiseError::Accept(e)),
            (AdvertiseStage::Attaching, Err(e)) => AdvertiseStep::Failed(AdvertiseError::Attach(e)),
        }
    }

    /// Computes [`Self::request`].
    pub fn pending(&self) -> (request: AdvertiseRequest)
        ensures
            request == self.request(),
    {
        match self {
            AdvertiseStage::Starting => AdvertiseRequest::Start(
                AdvertisementParameters {
                    interval_min_ms: 100,
                    interval_max_ms: 200,
                    tx_power_dbm: 0,
                },
            ),
            AdvertiseStage::Accepting => AdvertiseRequest::Accept,
            AdvertiseStage::Attaching => AdvertiseRequest::Attach,
        }
    }

    /// Takes the outcome of the call that was due and says what follows.
    pub fn resume<E>(self, outcome: Result<(), E>) -> (next: AdvertiseStep<E>)
        ensures
            next == self.step(outcome),
    {
        match outcome {
            Ok(_) => match self {
                AdvertiseStage::Starting => AdvertiseStep::Next(AdvertiseStage::Accepting),
                AdvertiseStage::Accepting => AdvertiseStep::Next(AdvertiseStage::Attaching),
                AdvertiseStage::Attaching => AdvertiseStep::Connected,
            },
            Err(e) => match self {
                AdvertiseStage::Starting => AdvertiseStep::Failed(AdvertiseError::Start(e)),
                AdvertiseStage::Accepting => AdvertiseStep::Failed(AdvertiseError::Accept(e)),
                AdvertiseStage::Attaching => AdvertiseStep::Failed(AdvertiseError::Attach(e)),
            },
        }
    }
}

impl AdvertiseService {
    /// Begins an attempt to get a connection: advertising is due to start.
    pub fn advertise(&self) -> (stage: AdvertiseStage)
        ensures
            stage == AdvertiseStage::Starting,
    {
        AdvertiseStage::Starting
    }
}

} // verus!
