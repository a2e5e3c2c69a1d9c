//! The bonding store seen as a log of live records, and what an upsert
//! does to it.

use crate::service::ble::security::BondInformation;
use crate::service::ble::storage_service::{
    StorageAddr,
    StoreRequest,
    StoredBondInformation,
    Upsert,
    UpsertStage,
    UpsertStep,
};
use vstd::prelude::*;

verus! {

/// The live records of the store, oldest first.
pub type Log = Seq<(StorageAddr, StoredBondInformation)>;

/// The log without the records kept under `key`.
pub open spec fn removed(log: Log, key: StorageAddr) -> Log
    decreases log.len(),
{
    if log.len() == 0 {
        log
    } else if log.last().0 == key {
        removed(log.drop_last(), key)
    } else {
        removed(log.drop_last(), key).push(log.last())
    }
}

/// Number of records kept under `key`.
pub open spec fn count(log: Log, key: StorageAddr) -> nat
    decreases log.len(),
{
    if log.len() == 0 {
        0
    } else if log.last().0 == key {
        count(log.drop_last(), key) + 1
    } else {
        count(log.drop_last(), key)
    }
}

/// What a lookup of `key` finds: the most recent record kept under it.
pub open spec fn latest(log: Log, key: StorageAddr) -> Option<StoredBondInformation>
    decreases log.len(),
{
    if log.len() == 0 {
        None
    } else if log.last().0 == key {
        Some(log.last().1)
    } else {
        latest(log.drop_last(), key)
    }
}

/// No address has more than one record.
pub open spec fn one_record_per_peer(log: Log) -> bool {
    forall|key: StorageAddr| count(log, key) <= 1
}

impl StoreRequest {
    /// The log after the request has been carried out.
    pub open spec fn effect(self, log: Log) -> Log {
        match self {
            StoreRequest::Remove(key) => removed(log, key),
            StoreRequest::Append(key, value) => log.push((key, value)),
        }
    }
}

/// The log after `value` has been upserted under `key`.
pub open spec fn upserted(log: Log, key: StorageAddr, value: StoredBondInformation) -> Log {
    removed(log, key).push((key, value))
}

/// A removal leaves nothing under its key and touches no other key.
pub proof fn lemma_removed(log: Log, key: StorageAddr, other: StorageAddr)
    ensures
        count(removed(log, key), key) == 0,
        latest(removed(log, key), key) is None,
        other != key ==> count(removed(log, key), other) == count(log, other),
        other != key ==> latest(removed(log, key), other) == latest(log, other),
    decreases log.len(),
{
    if log.len() > 0 {
        let front = log.drop_last();
        lemma_removed(front, key, other);
        if log.last().0 != key {
            let kept = removed(front, key).push(log.last());
            assert(kept.drop_last() =~= removed(front, key));
            assert(kept.last() == log.last());
        }
    }
}

/// The two requests of an upsert, carried out in order, replace the
/// record of the peer: when both succeed the log is the upserted one, and
/// the upsert ends well.
pub proof fn lemma_upsert_requests(info: BondInformation, log: Log)
    ensures
        ({
            let first = Upsert { key: info.key(), value: info.value(), stage: UpsertStage::Removing };
            let second = Upsert { stage: UpsertStage::Appending, ..first };
            &&& first.step::<()>(Ok(())) == UpsertStep::<()>::Next(second)
            &&& second.step::<()>(Ok(())) == UpsertStep::<()>::Done(Ok(()))
            &&& second.request().effect(first.request().effect(log)) == upserted(
                log,
                info.key(),
                info.value(),
            )
        }),
{
}

/// Where the removal was skipped because the region was corrupted, the
/// appended record is still the one a lookup finds.
pub proof fn lemma_append_wins(log: Log, key: StorageAddr, value: StoredBondInformation)
    ensures
        latest(StoreRequest::Append(key, value).effect(log), key) == Some(value),
{
}

/// An upsert leaves exactly one record under its key, the one it wrote,
/// and leaves every other key as it was.
pub proof fn lemma_upsert(log: Log, key: StorageAddr, value: StoredBondInformation, other: StorageAddr)
    ensures
        latest(upserted(log, key, value), key) == Some(value),
        count(upserted(log, key, value), key) == 1,
        other != key ==> latest(upserted(log, key, value), other) == latest(log, other),
        other != key ==> count(upserted(log, key, value), other) == count(log, other),
{
    lemma_removed(log, key, other);
    let after = upserted(log, key, value);
    assert(after.drop_last() =~= removed(log, key));
    assert(after.last() == (key, value));
}

/// Idempotent upsert: after two upserts under one key a lookup finds the
/// second value, and the first is gone.
pub proof fn lemma_upsert_twice(
    log: Log,
    key: StorageAddr,
    first: StoredBondInformation,
    second: StoredBondInformation,
)
    ensures
        latest(upserted(upserted(log, key, first), key, second), key) == Some(second),
        count(upserted(upserted(log, key, first), key, second), key) == 1,
{
    lemma_upsert(upserted(log, key, first), key, second, key);
}

/// An upsert keeps the store at one record per peer.
pub proof fn lemma_upsert_keeps_one_record_per_peer(
    log: Log,
    key: StorageAddr,
    value: StoredBondInformation,
)
    requires
        one_record_per_peer(log),
    ensures
        one_record_per_peer(upserted(log, key, value)),
{
    assert forall|other: StorageAddr| count(upserted(log, key, value), other) <= 1 by {
        lemma_upsert(log, key, value, other);
    }
}

} // verus!
