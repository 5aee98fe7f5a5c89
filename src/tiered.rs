//! The decisions of a tiered lookup and of a tiered write, as functions from
//! the answer of one tier to the next action. Whoever performs the I/O hands
//! each answer back and carries out the action.
//!
//! A lookup asks the local tier, then the remote cache, then the source of
//! record (the relational store, or a derivation such as an image's color).
//! A remote hit is copied into the local tier; a source hit is copied into
//! both caches. A remote failure during a read counts as a miss; a source
//! failure ends the lookup with that error.

use vstd::prelude::*;

verus! {

/// A failure of the remote cache service.
#[derive(Debug)]
pub enum CacheError {
    /// The request could not be sent or its answer not read.
    Transport(String),
    /// The service answered with a status other than success or not-found.
    Status(u16),
    /// The body of a successful answer could not be decoded.
    Body(String),
}

/// A failure of the source of record.
#[derive(Debug)]
pub struct StoreError {
    pub message: String,
}

/// The answer of one tier to a lookup.
pub enum ReadEvent<V> {
    /// The local tier's answer.
    Local(Option<V>),
    /// The remote cache's answer.
    Remote(Result<Option<V>, CacheError>),
    /// The source of record's answer.
    Source(Result<Option<V>, StoreError>),
}

/// What a lookup does next.
pub enum Lookup<V> {
    /// Ask the remote cache.
    AskRemote,
    /// Ask the source of record.
    AskSource,
    /// The value is found. `fill_local` says that it must be copied into the
    /// local tier, `fill_remote` that it must be written to the remote cache.
    Found { value: V, fill_local: bool, fill_remote: bool },
    /// No tier holds the key.
    NotFound,
    /// The source of record failed.
    Failed(StoreError),
}

/// The decision that follows a tier's answer.
pub open spec fn read_step_spec<V>(event: ReadEvent<V>) -> Lookup<V> {
    match event {
        ReadEvent::Local(Some(v)) => Lookup::Found { value: v, fill_local: false, fill_remote: false },
        ReadEvent::Local(None) => Lookup::AskRemote,
        ReadEvent::Remote(Ok(Some(v))) => Lookup::Found {
            value: v,
            fill_local: true,
            fill_remote: false,
        },
        ReadEvent::Remote(_) => Lookup::AskSource,
        ReadEvent::Source(Ok(Some(v))) => Lookup::Found {
            value: v,
            fill_local: true,
            fill_remote: true,
        },
        ReadEvent::Source(Ok(None)) => Lookup::NotFound,
        ReadEvent::Source(Err(e)) => Lookup::Failed(e),
    }
}

/// Decides what a lookup does after a tier has answered.
pub fn read_step<V>(event: ReadEvent<V>) -> (r: Lookup<V>)
    ensures
        r == read_step_spec(event),
{
    match event {
        ReadEvent::Local(Some(v)) => Lookup::Found { value: v, fill_local: false, fill_remote: false },
        ReadEvent::Local(None) => Lookup::AskRemote,
        ReadEvent::Remote(Ok(Some(v))) => Lookup::Found {
            value: v,
            fill_local: true,
            fill_remote: false,
        },
        ReadEvent::Remote(_) => Lookup::AskSource,
        ReadEvent::Source(Ok(Some(v))) => Lookup::Found {
            value: v,
            fill_local: true,
            fill_remote: true,
        },
        ReadEvent::Source(Ok(None)) => Lookup::NotFound,
        ReadEvent::Source(Err(e)) => Lookup::Failed(e),
    }
}

/// The answer of one tier to a write.
pub enum WriteEvent {
    /// The local tier has been written.
    Local,
    /// The source of record's answer.
    Source(Result<(), StoreError>),
    /// The remote cache's answer.
    Remote(Result<(), CacheError>),
}

/// What a write does next, or how it ended.
pub enum WriteStep {
    /// Write the source of record.
    WriteSource,
    /// Write the remote cache.
    WriteRemote,
    /// Every tier holds the value.
    Complete,
    /// The value is durable, but the remote cache could not be updated: it may
    /// serve an older value until that entry is rewritten or expires.
    RemoteStale(CacheError),
    /// The source of record refused the value: the write failed.
    Failed(StoreError),
}

/// The decision that follows a tier's answer to a write. `durable` says that
/// the entity has a source of record to write (prefixes and sessions do,
/// colors do not).
pub open spec fn write_step_spec(durable: bool, event: WriteEvent) -> WriteStep {
    match event {
        WriteEvent::Local => if durable {
            WriteStep::WriteSource
        } else {
            WriteStep::WriteRemote
        },
        WriteEvent::Source(Ok(())) => WriteStep::WriteRemote,
        WriteEvent::Source(Err(e)) => WriteStep::Failed(e),
        WriteEvent::Remote(Ok(())) => WriteStep::Complete,
        WriteEvent::Remote(Err(e)) => WriteStep::RemoteStale(e),
    }
}

/// Decides what a write does after a tier has answered.
pub fn write_step(durable: bool, event: WriteEvent) -> (r: WriteStep)
    ensures
        r == write_step_spec(durable, event),
{
    match event {
        WriteEvent::Local => if durable {
            WriteStep::WriteSource
        } else {
            WriteStep::WriteRemote
        },
        WriteEvent::Source(Ok(())) => WriteStep::WriteRemote,
        WriteEvent::Source(Err(e)) => WriteStep::Failed(e),
        WriteEvent::Remote(Ok(())) => WriteStep::Complete,
        WriteEvent::Remote(Err(e)) => WriteStep::RemoteStale(e),
    }
}

/// A write whose source of record succeeded never fails, whatever the remote
/// cache answers; a write whose source of record fails never reaches the
/// remote cache.
pub proof fn durable_success_is_final(source: Result<(), StoreError>, remote: Result<(), CacheError>)
    ensures
        source is Ok ==> write_step_spec(true, WriteEvent::Source(source)) is WriteRemote,
        source is Ok ==> !(write_step_spec(true, WriteEvent::Remote(remote)) is Failed),
        source is Err ==> write_step_spec(true, WriteEvent::Source(source)) is Failed,
{
}

} // verus!
