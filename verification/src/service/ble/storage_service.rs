//! Persisted bonding records: their byte layout and the store protocol.

use crate::service::ble::little_endian::{
    le_bytes,
    le_value,
    lemma_le_bytes_len,
    lemma_le_bytes_of_value,
    lemma_le_value_bound,
    lemma_le_value_of_bytes,
    lemma_pow256_16,
    lemma_pow256_monotonic,
    pow256,
};
use crate::service::ble::security::{BondInformation, SecurityLevel};
use vstd::prelude::*;

verus! {

/// Why a record could not be written to or read from a buffer.
#[derive(Clone, Copy, Debug, PartialEq, Eq, Structural)]
pub enum SerializationError {
    /// The buffer is shorter than the fixed size of the record.
    BufferTooSmall,
    /// The bytes do not describe a record.
    InvalidData,
}

/// Number of bytes of a serialized device address.
pub const ADDR_LEN: usize = 6;

/// Number of bytes of a serialized long-term key.
pub const LTK_LEN: usize = 16;

/// Number of bytes of a serialized record value: the key, then the tag.
pub const VALUE_LEN: usize = 17;

/// Key of a bonding record: the raw device address.
#[derive(Clone, Copy, Debug, PartialEq, Eq)]
pub struct StorageAddr(pub [u8; 6]);

impl StorageAddr {
    /// The serialized key: the six raw bytes, without framing.
    pub open spec fn encoding(self) -> Seq<u8> {
        self.0@
    }

    /// What `deserialize_from` makes of `bytes`: the first six bytes are the
    /// address; fewer than six are refused.
    pub open spec fn decoding(bytes: Seq<u8>) -> Result<(Seq<u8>, usize), SerializationError> {
        if bytes.len() < 6 {
            Err(SerializationError::BufferTooSmall)
        } else {
            Ok((bytes.take(6), 6))
        }
    }

    /// Writes the key to the front of `buffer` and returns its length, 6.
    /// A buffer of fewer than six bytes is refused and left as it was.
    pub fn serialize_into(&self, buffer: &mut [u8]) -> (r: Result<usize, SerializationError>)
        ensures
            old(buffer)@.len() < 6 ==> r == Err::<usize, SerializationError>(
                SerializationError::BufferTooSmall,
            ) && final(buffer)@ == old(buffer)@,
            old(buffer)@.len() >= 6 ==> r == Ok::<usize, SerializationError>(6) && final(buffer)@
                == self.encoding() + old(buffer)@.skip(6),
    {
        if buffer.len() < ADDR_LEN {
            return Err(SerializationError::BufferTooSmall);
        }
        let mut i: usize = 0;
        while i < ADDR_LEN
            invariant
                i <= 6,
                buffer@.len() == old(buffer)@.len(),
                buffer@.len() >= 6,
                forall|j: int| 0 <= j < i ==> buffer@[j] == self.0@[j],
                forall|j: int| i <= j < buffer@.len() ==> buffer@[j] == old(buffer)@[j],
            decreases ADDR_LEN - i,
        {
            buffer[i] = self.0[i];
            i += 1;
        }
        assert(buffer@ =~= self.encoding() + old(buffer)@.skip(6));
        Ok(ADDR_LEN)
    }

    /// Reads a key from the front of `buffer`, with the number of bytes read.
    pub fn deserialize_from(buffer: &[u8]) -> (r: Result<(StorageAddr, usize), SerializationError>)
        ensures
            (match (r, StorageAddr::decoding(buffer@)) {
                (Ok((addr, used)), Ok((bytes, len))) => addr.encoding() == bytes && used == len,
                (Err(e), Err(expected)) => e == expected,
                _ => false,
            }),
    {
        if buffer.len() < ADDR_LEN {
            return Err(SerializationError::BufferTooSmall);
        }
        let mut raw: [u8; 6] = [0u8; 6];
        let mut i: usize = 0;
        while i < ADDR_LEN
            invariant
                i <= 6,
                buffer@.len() >= 6,
                forall|j: int| 0 <= j < i ==> raw@[j] == buffer@[j],
            decreases ADDR_LEN - i,
        {
            raw[i] = buffer[i];
            i += 1;
        }
        assert(raw@ =~= buffer@.take(6));
        Ok((StorageAddr(raw), ADDR_LEN))
    }
}

/// Value of a bonding record: what is kept of a peer besides its address.
#[derive(Clone, Copy, Debug, PartialEq, Eq, Structural)]
pub struct StoredBondInformation {
    /// Long-term key shared with the peer.
    pub ltk: u128,
    /// Security level the key was created at.
    pub security_level: SecurityLevel,
}

impl StoredBondInformation {
    /// The serialized value: sixteen bytes of the key, least significant
    /// first, then the tag of the security level.
    pub open spec fn encoding(self) -> Seq<u8> {
        le_bytes(self.ltk as nat, 16).push(self.security_level.tag())
    }

    /// What `deserialize_from` makes of `bytes`: fewer than seventeen bytes
    /// are refused as too small, a tag other than 0, 1 or 2 as invalid data.
    pub open spec fn decoding(bytes: Seq<u8>) -> Result<
        (StoredBondInformation, usize),
        SerializationError,
    > {
        if bytes.len() < 17 {
            Err(SerializationError::BufferTooSmall)
        } else {
            match SecurityLevel::of_tag(bytes[16]) {
                Some(security_level) => Ok(
                    (
                        StoredBondInformation {
                            ltk: le_value(bytes.take(16)) as u128,
                            security_level,
                        },
                        17,
                    ),
                ),
                None => Err(SerializationError::InvalidData),
            }
        }
    }

    /// Writes the value to the front of `buffer` and returns its length, 17.
    /// A buffer of fewer than seventeen bytes is refused and left as it was.
    pub fn serialize_into(&self, buffer: &mut [u8]) -> (r: Result<usize, SerializationError>)
        ensures
            old(buffer)@.len() < 17 ==> r == Err::<usize, SerializationError>(
                SerializationError::BufferTooSmall,
            ) && final(buffer)@ == old(buffer)@,
            old(buffer)@.len() >= 17 ==> r == Ok::<usize, SerializationError>(17)
                && final(buffer)@ == self.encoding() + old(buffer)@.skip(17),
    {
        if buffer.len() < VALUE_LEN {
            return Err(SerializationError::BufferTooSmall);
        }
        let mut rest: u128 = self.ltk;
        let mut i: usize = 0;
        while i < LTK_LEN
            invariant
                i <= 16,
                buffer@.len() == old(buffer)@.len(),
                buffer@.len() >= 17,
                le_bytes(self.ltk as nat, 16) == buffer@.take(i as int) + le_bytes(
                    rest as nat,
                    (16 - i) as nat,
                ),
                forall|j: int| i <= j < buffer@.len() ==> buffer@[j] == old(buffer)@[j],
            decreases LTK_LEN - i,
        {
            let ghost before = buffer@;
            buffer[i] = (rest % 256) as u8;
            proof {
                let tail = le_bytes((rest / 256) as nat, (15 - i) as nat);
                assert(le_bytes(rest as nat, (16 - i) as nat) == seq![(rest % 256) as u8] + tail);
                assert(buffer@.take(i + 1) =~= before.take(i as int) + seq![(rest % 256) as u8]);
                assert(buffer@.take(i + 1) + tail =~= before.take(i as int) + (seq![
                    (rest % 256) as u8,
                ] + tail));
            }
            rest = rest / 256;
            i += 1;
        }
        buffer[LTK_LEN] = self.security_level.to_tag();
        proof {
            assert(le_bytes(rest as nat, 0) =~= Seq::<u8>::empty());
            assert(buffer@.take(16) =~= le_bytes(self.ltk as nat, 16));
            assert(buffer@ =~= self.encoding() + old(buffer)@.skip(17));
        }
        Ok(VALUE_LEN)
    }

    /// Reads a value from the front of `buffer`, with the number of bytes read.
    pub fn deserialize_from(buffer: &[u8]) -> (r: Result<
        (StoredBondInformation, usize),
        SerializationError,
    >)
        ensures
            r == StoredBondInformation::decoding(buffer@),
    {
        if buffer.len() < VALUE_LEN {
            return Err(SerializationError::BufferTooSmall);
        }
        let ghost key = buffer@.take(16);
        let mut ltk: u128 = 0;
        let mut i: usize = LTK_LEN;
        while i > 0
            invariant
                i <= 16,
                buffer@.len() >= 17,
                key == buffer@.take(16),
                ltk == le_value(key.skip(i as int)),
            decreases i,
        {
            proof {
                lemma_le_value_bound(key.skip(i as int));
                lemma_pow256_16();
                lemma_pow256_monotonic((16 - i) as nat, 15);
                reveal_with_fuel(pow256, 17);
                assert(key.skip(i - 1).skip(1) =~= key.skip(i as int));
            }
            i -= 1;
            ltk = ltk * 256 + buffer[i] as u128;
        }
        assert(key.skip(0) =~= key);
        match SecurityLevel::from_tag(buffer[LTK_LEN]) {
            Some(security_level) => Ok((StoredBondInformation { ltk, security_level }, VALUE_LEN)),
            None => Err(SerializationError::InvalidData),
        }
    }
}

/// Round trip of a key: decoding the encoding of an address, with anything
/// behind it, gives the address back and consumes six bytes.
pub proof fn lemma_key_round_trip(addr: StorageAddr, rest: Seq<u8>)
    ensures
        StorageAddr::decoding(addr.encoding() + rest) == Ok::<
            (Seq<u8>, usize),
            SerializationError,
        >((addr.encoding(), 6)),
{
    assert((addr.encoding() + rest).take(6) =~= addr.encoding());
}

/// Round trip of a value: decoding the encoding of a record, with anything
/// behind it, gives the record back and consumes seventeen bytes.
pub proof fn lemma_value_round_trip(value: StoredBondInformation, rest: Seq<u8>)
    ensures
        StoredBondInformation::decoding(value.encoding() + rest) == Ok::<
            (StoredBondInformation, usize),
            SerializationError,
        >((value, 17)),
{
    let key = le_bytes(value.ltk as nat, 16);
    let bytes = value.encoding() + rest;
    lemma_le_bytes_len(value.ltk as nat, 16);
    lemma_le_value_of_bytes(value.ltk as nat, 16);
    lemma_pow256_16();
    assert(bytes.take(16) =~= key);
    assert(bytes[16] == value.security_level.tag());
    assert((value.ltk as nat) % pow256(16) == value.ltk as nat) by {
        vstd::arithmetic::div_mod::lemma_small_mod(value.ltk as nat, pow256(16));
    }
}

/// The encoding is the only sequence of seventeen bytes that decodes to a
/// record: what was read, written out again, is what was read.
pub proof fn lemma_value_encoding_of_decoding(bytes: Seq<u8>)
    requires
        bytes.len() == 17,
        StoredBondInformation::decoding(bytes) is Ok,
    ensures
        StoredBondInformation::decoding(bytes)->Ok_0.0.encoding() == bytes,
{
    let value = StoredBondInformation::decoding(bytes)->Ok_0.0;
    let key = bytes.take(16);
    lemma_le_value_bound(key);
    lemma_le_bytes_of_value(key);
    lemma_pow256_16();
    assert(value.encoding() =~= bytes);
}

/// Rejection: a buffer too short for a key or a value is refused as too
/// small, and seventeen bytes whose last is no tag are refused as invalid.
pub proof fn lemma_rejection(bytes: Seq<u8>)
    ensures
        bytes.len() < 6 ==> StorageAddr::decoding(bytes) == Err::<
            (Seq<u8>, usize),
            SerializationError,
        >(SerializationError::BufferTooSmall),
        bytes.len() < 17 ==> StoredBondInformation::decoding(bytes) == Err::<
            (StoredBondInformation, usize),
            SerializationError,
        >(SerializationError::BufferTooSmall),
        bytes.len() >= 17 && bytes[16] > 2 ==> StoredBondInformation::decoding(bytes) == Err::<
            (StoredBondInformation, usize),
            SerializationError,
        >(SerializationError::InvalidData),
        bytes.len() >= 17 && bytes[16] <= 2 ==> StoredBondInformation::decoding(bytes) is Ok,
{
}

impl BondInformation {
    /// The key under which the bond is kept.
    pub open spec fn key(self) -> StorageAddr {
        StorageAddr(self.bd_addr)
    }

    /// What is kept of the bond under its key.
    pub open spec fn value(self) -> StoredBondInformation {
        StoredBondInformation { ltk: self.ltk, security_level: self.security_level }
    }

    /// The bond that a stored record stands for: a record is only ever
    /// written for a bonded peer.
    pub open spec fn of_record(bd_addr: [u8; 6], value: StoredBondInformation) -> BondInformation {
        BondInformation {
            bd_addr,
            ltk: value.ltk,
            security_level: value.security_level,
            is_bonded: true,
        }
    }

    /// Computes [`Self::of_record`].
    pub fn from_record(bd_addr: [u8; 6], value: StoredBondInformation) -> (bond: BondInformation)
        ensures
            bond == BondInformation::of_record(bd_addr, value),
    {
        BondInformation {
            bd_addr,
            ltk: value.ltk,
            security_level: value.security_level,
            is_bonded: true,
        }
    }
}

/// How an operation on the flash log failed, as far as the protocol tells
/// failures apart.
#[derive(Debug, PartialEq, Eq)]
pub enum StoreError<E> {
    /// The region does not hold a readable log: it was never formatted, or
    /// its contents are damaged.
    Corrupted,
    /// Any other failure, kept as the log reported it.
    Other(E),
}

/// The reserved range of flash addresses that holds the log.
#[derive(Clone, Copy, Debug, PartialEq, Eq, Structural)]
pub struct StorageRegion {
    /// First address of the range.
    pub start: u32,
    /// First address behind the range.
    pub end: u32,
}

/// Size of the scratch buffer handed to every operation on the log.
pub const DATA_BUFFER_LEN: usize = 32;

impl StorageRegion {
    /// Whether a log can live in the range on a flash with pages of
    /// `page_size` bytes: both ends on page boundaries, two pages at least.
    pub open spec fn usable(self, page_size: u32) -> bool {
        &&& page_size > 0
        &&& self.start <= self.end
        &&& self.start % page_size == 0
        &&& self.end % page_size == 0
        &&& self.end - self.start >= 2 * page_size
    }

    /// Computes [`Self::usable`].
    pub fn is_usable(&self, page_size: u32) -> (yes: bool)
        ensures
            yes == self.usable(page_size),
    {
        page_size > 0 && self.start <= self.end && self.start % page_size == 0 && self.end
            % page_size == 0 && (self.end - self.start) / 2 >= page_size
    }
}

/// The range reserved for bonding records: the last 32 KiB of a flash of
/// 4 MiB, which is eight pages of 4 KiB. One key and one value fit in the
/// scratch buffer together.
pub fn init_storage() -> (region: StorageRegion)
    ensures
        region == (StorageRegion { start: 0x3F_0000, end: 0x3F_8000 }),
        region.usable(4096),
        ADDR_LEN + VALUE_LEN <= DATA_BUFFER_LEN,
{
    StorageRegion { start: 0x3F_0000, end: 0x3F_8000 }
}

/// One operation that the caller performs on the flash log.
#[derive(Clone, Copy, Debug, PartialEq, Eq)]
pub enum StoreRequest {
    /// Erase every record kept under the key.
    Remove(StorageAddr),
    /// Append a record under the key.
    Append(StorageAddr, StoredBondInformation),
}

/// How far an upsert has come.
#[derive(Clone, Copy, Debug, PartialEq, Eq, Structural)]
pub enum UpsertStage {
    /// The removal of the old record is due.
    Removing,
    /// The new record is due to be appended.
    Appending,
}

/// Replacement of the record of one peer in progress: delete, then append.
#[derive(Clone, Copy, Debug, PartialEq, Eq)]
pub struct Upsert {
    /// Key of the record.
    pub key: StorageAddr,
    /// Value to store under the key.
    pub value: StoredBondInformation,
    /// What is due next.
    pub stage: UpsertStage,
}

/// What follows one operation of an upsert.
#[derive(Debug, PartialEq, Eq)]
pub enum UpsertStep<E> {
    /// Another operation is due.
    Next(Upsert),
    /// The upsert has ended with this result.
    Done(Result<(), StoreError<E>>),
}

impl Upsert {
    /// The operation that is due.
    pub open spec fn request(self) -> StoreRequest {
        match self.stage {
            UpsertStage::Removing => StoreRequest::Remove(self.key),
            UpsertStage::Appending => StoreRequest::Append(self.key, self.value),
        }
    }

    /// What follows when the due operation ends with `outcome`. A corrupted
    /// region has nothing to remove, so there the removal counts as done;
    /// any other failed removal ends the upsert with that failure. The
    /// append ends it with its own outcome, whatever that is.
    pub open spec fn step<E>(self, outcome: Result<(), StoreError<E>>) -> UpsertStep<E> {
        match self.stage {
            UpsertStage::Removing => match outcome {
                Err(StoreError::Other(e)) => UpsertStep::Done(Err(StoreError::Other(e))),
                _ => UpsertStep::Next(Upsert { stage: UpsertStage::Appending, ..self }),
            },
            UpsertStage::Appending => UpsertStep::Done(outcome),
        }
    }

    /// Computes [`Self::request`].
    pub fn pending(&self) -> (request: StoreRequest)
        ensures
            request == self.request(),
    {
        match self.stage {
            UpsertStage::Removing => StoreRequest::Remove(self.key),
            UpsertStage::Appending => StoreRequest::Append(self.key, self.value),
        }
    }

    /// Takes the outcome of the operation that was due and says what
    /// follows.
    pub fn resume<E>(self, outcome: Result<(), StoreError<E>>) -> (next: UpsertStep<E>)
        ensures
            next == self.step(outcome),
    {
        match self.stage {
            UpsertStage::Removing => match outcome {
                Err(StoreError::Other(e)) => UpsertStep::Done(Err(StoreError::Other(e))),
                _ => UpsertStep::Next(
                    Upsert { key: self.key, value: self.value, stage: UpsertStage::Appending },
                ),
            },
            UpsertStage::Appending => UpsertStep::Done(outcome),
        }
    }
}

/// Starts the upsert of a bond: its first request removes what is kept
/// under the peer's address.
pub fn store_bonding_info(info: &BondInformation) -> (upsert: Upsert)
    ensures
        upsert == (Upsert { key: info.key(), value: info.value(), stage: UpsertStage::Removing }),
{
    Upsert {
        key: StorageAddr(info.bd_addr),
        value: StoredBondInformation { ltk: info.ltk, security_level: info.security_level },
        stage: UpsertStage::Removing,
    }
}

/// What a lookup or a scan answers for the outcome `fetched` of reading the
/// log: a corrupted region holds no record; other failures are passed on.
pub open spec fn read_result<T, E>(fetched: Result<Option<T>, StoreError<E>>) -> Result<
    Option<T>,
    E,
> {
    match fetched {
        Ok(found) => Ok(found),
        Err(StoreError::Corrupted) => Ok(None),
        Err(StoreError::Other(e)) => Err(e),
    }
}

/// The key to fetch for the peer at `addr`.
pub fn lookup_key(addr: &[u8; 6]) -> (key: StorageAddr)
    ensures
        key == StorageAddr(*addr),
{
    StorageAddr(*addr)
}

/// Answers a lookup of the peer at `addr` from the outcome `fetched` of
/// fetching the record under [`lookup_key`].
pub fn load_bonding_info<E>(
    addr: &[u8; 6],
    fetched: Result<Option<StoredBondInformation>, StoreError<E>>,
) -> (r: Result<Option<BondInformation>, E>)
    ensures
        r == (match read_result(fetched) {
            Ok(Some(value)) => Ok(Some(BondInformation::of_record(*addr, value))),
            Ok(None) => Ok(None),
            Err(e) => Err(e),
        }),
{
    match fetched {
        Ok(Some(value)) => Ok(Some(BondInformation::from_record(*addr, value))),
        Ok(None) => Ok(None),
        Err(StoreError::Corrupted) => Ok(None),
        Err(StoreError::Other(e)) => Err(e),
    }
}

/// What follows the attempt to open a scan of the log.
#[derive(Debug, PartialEq, Eq)]
pub enum ScanStep<E> {
    /// The scan is open: read its first record.
    Read,
    /// The scan has ended with this answer.
    Done(Result<Option<BondInformation>, E>),
}

/// The step that follows when opening the scan ends with `opened`.
pub open spec fn scan_step<E>(opened: Result<(), StoreError<E>>) -> ScanStep<E> {
    match opened {
        Ok(_) => ScanStep::Read,
        Err(StoreError::Corrupted) => ScanStep::Done(Ok(None)),
        Err(StoreError::Other(e)) => ScanStep::Done(Err(e)),
    }
}

/// The answer of the scan when reading its first record ends with `item`.
pub open spec fn scan_answer<E>(
    item: Result<Option<(StorageAddr, StoredBondInformation)>, StoreError<E>>,
) -> Result<Option<BondInformation>, E> {
    match read_result(item) {
        Ok(Some((key, value))) => Ok(Some(BondInformation::of_record(key.0, value))),
        Ok(None) => Ok(None),
        Err(e) => Err(e),
    }
}

/// Begins the search for any bonded peer, from the outcome `opened` of
/// opening a scan over all records. A region that does not hold a readable
/// log has no records, so the search ends there with `Ok(None)`; any other
/// failure ends it with that failure.
pub fn get_first_bonded<E>(opened: Result<(), StoreError<E>>) -> (step: ScanStep<E>)
    ensures
        step == scan_step(opened),
{
    match opened {
        Ok(_) => ScanStep::Read,
        Err(StoreError::Corrupted) => ScanStep::Done(Ok(None)),
        Err(StoreError::Other(e)) => ScanStep::Done(Err(e)),
    }
}

/// Ends the search for any bonded peer, from the outcome `item` of reading
/// the first record of the scan.
pub fn first_bonded_item<E>(
    item: Result<Option<(StorageAddr, StoredBondInformation)>, StoreError<E>>,
) -> (r: Result<Option<BondInformation>, E>)
    ensures
        r == scan_answer(item),
{
    match item {
        Ok(Some((key, value))) => Ok(Some(BondInformation::from_record(key.0, value))),
        Ok(None) => Ok(None),
        Err(StoreError::Corrupted) => Ok(None),
        Err(StoreError::Other(e)) => Err(e),
    }
}

/// Corruption tolerance: whatever a region that holds no readable log is
/// asked, the answer is that it holds no record, never a failure.
pub proof fn lemma_corrupted_region_is_empty<E>()
    ensures
        scan_step::<E>(Err(StoreError::Corrupted)) == ScanStep::<E>::Done(Ok(None)),
        scan_answer::<E>(Err(StoreError::Corrupted)) == Ok::<Option<BondInformation>, E>(None),
        read_result::<StoredBondInformation, E>(Err(StoreError::Corrupted)) == Ok::<
            Option<StoredBondInformation>,
            E,
        >(None),
{
}

} // verus!
