//! The checkpoint: how far the pull from the remote store has come.
//!
//! A checkpoint is issued by the remote store and handed back to it at the
//! next pull. The engine keeps it and never reads a meaning into it.

use vstd::prelude::*;
use crate::error::StorageFailure;
use crate::text::option_text;

verus! {

/// An instant: whole seconds since the start of 1970 in UTC, and the
/// nanoseconds after the last whole second.
#[derive(Clone, Copy, Debug, PartialEq, Eq, Structural)]
pub struct Timestamp {
    pub secs: i64,
    pub nanos: u32,
}

/// The position in the remote store's sequence of changes up to which the
/// changes were pulled.
#[derive(Debug, PartialEq)]
pub struct Checkpoint {
    pub updated_at: Timestamp,
    pub id: String,
}

/// What a [`Checkpoint`] holds.
pub struct CheckpointView {
    pub updated_at: Timestamp,
    pub id: Seq<char>,
}

impl View for Checkpoint {
    type V = CheckpointView;

    open spec fn view(&self) -> CheckpointView {
        CheckpointView { updated_at: self.updated_at, id: self.id@ }
    }
}

impl Clone for Checkpoint {
    fn clone(&self) -> (copy: Checkpoint)
        ensures
            copy@ == self@,
    {
        Checkpoint { updated_at: self.updated_at, id: self.id.clone() }
    }
}

/// What an optional checkpoint holds.
pub open spec fn option_checkpoint(checkpoint: Option<Checkpoint>) -> Option<CheckpointView> {
    match checkpoint {
        Some(c) => Some(c@),
        None => None,
    }
}

/// A copy of an optional checkpoint.
pub fn clone_option_checkpoint(checkpoint: &Option<Checkpoint>) -> (copy: Option<Checkpoint>)
    ensures
        option_checkpoint(copy) == option_checkpoint(*checkpoint),
{
    match checkpoint {
        Some(c) => Some(c.clone()),
        None => None,
    }
}

/// The instant that `chrono` reads from a text as an RFC 3339 date and time,
/// as seconds and nanoseconds; `None` where it refuses the text.
pub uninterp spec fn rfc3339_instant(text: Seq<char>) -> Option<(i64, u32)>;

/// The RFC 3339 text that `chrono` writes for an instant in UTC; `None` where
/// the seconds and nanoseconds are no instant that it can hold.
pub uninterp spec fn rfc3339_text(secs: i64, nanos: u32) -> Option<Seq<char>>;

/// Whether an instant lies in the years 0 to 9999, which are written with
/// four digits, in a second that is no leap second.
pub open spec fn four_digit_instant(secs: i64, nanos: u32) -> bool {
    -62_167_219_200 <= secs <= 253_402_300_799 && nanos < 1_000_000_000
}

/// Whether `chrono` reads an instant from a text.
pub open spec fn reads_as(text: Seq<char>, secs: i64, nanos: u32) -> bool {
    rfc3339_instant(text) == Some((secs, nanos))
}

/// Calls `chrono::DateTime::parse_from_rfc3339` and moves the result to UTC.
/// The contract only gives the outcome its name: what `chrono` accepts, and
/// which instant it reads, is not stated here.
#[verifier::external_body]
fn parse_rfc3339(text: &str) -> (instant: Option<(i64, u32)>)
    ensures
        instant == rfc3339_instant(text@),
{
    match chrono::DateTime::parse_from_rfc3339(text) {
        Ok(parsed) => {
            let utc = parsed.with_timezone(&chrono::Utc);
            Some((utc.timestamp(), utc.timestamp_subsec_nanos()))
        },
        Err(_) => None,
    }
}

/// Calls `chrono::DateTime::from_timestamp` and, where that gives an instant,
/// `to_rfc3339` on it. Beside the name of the outcome the contract claims
/// that an instant of the years 0 to 9999 is written, and that `chrono`
/// reads it back from what was written: the text then holds the year in
/// four digits, the fraction of the second in no, three, six or nine, and
/// the offset `+00:00`.
#[verifier::external_body]
fn format_rfc3339(secs: i64, nanos: u32) -> (text: Option<String>)
    ensures
        option_text(text) == rfc3339_text(secs, nanos),
        four_digit_instant(secs, nanos) ==> text.is_some(),
        text matches Some(t) ==> four_digit_instant(secs, nanos) ==> reads_as(t@, secs, nanos),
{
    match chrono::DateTime::<chrono::Utc>::from_timestamp(secs, nanos) {
        Some(instant) => Some(instant.to_rfc3339()),
        None => None,
    }
}

/// The checkpoint that a persisted pair of texts stands for.
pub open spec fn checkpoint_from_texts(updated_at: Seq<char>, id: Seq<char>) -> Result<
    CheckpointView,
    StorageFailure,
> {
    match rfc3339_instant(updated_at) {
        Some(instant) => Ok(
            CheckpointView { updated_at: Timestamp { secs: instant.0, nanos: instant.1 }, id },
        ),
        None => Err(StorageFailure::CheckpointTimestamp),
    }
}

/// The pair of texts that is persisted for a checkpoint whose time was
/// written as a text, or the failure where it could not be written.
pub open spec fn texts_with(text: Option<Seq<char>>, id: Seq<char>) -> Result<
    (Seq<char>, Seq<char>),
    StorageFailure,
> {
    match text {
        Some(t) => Ok((t, id)),
        None => Err(StorageFailure::CheckpointTimestamp),
    }
}

/// The pair of texts under which a checkpoint is persisted.
pub open spec fn checkpoint_texts(checkpoint: CheckpointView) -> Result<
    (Seq<char>, Seq<char>),
    StorageFailure,
> {
    texts_with(rfc3339_text(checkpoint.updated_at.secs, checkpoint.updated_at.nanos), checkpoint.id)
}

/// What is made of the outcome of reading the persisted time.
pub open spec fn checkpoint_from_instant(instant: Option<(i64, u32)>, id: Seq<char>) -> Result<
    CheckpointView,
    StorageFailure,
> {
    match instant {
        Some(i) => Ok(CheckpointView { updated_at: Timestamp { secs: i.0, nanos: i.1 }, id }),
        None => Err(StorageFailure::CheckpointTimestamp),
    }
}

impl Checkpoint {
    /// The checkpoint with a time and an identifier.
    pub fn new(updated_at: Timestamp, id: String) -> (checkpoint: Checkpoint)
        ensures
            checkpoint@ == (CheckpointView { updated_at, id: id@ }),
    {
        Checkpoint { updated_at, id }
    }

    /// The checkpoint for the instant that was read from the persisted time,
    /// or the failure where none was read. A time that cannot be read is an
    /// error: to start over from the beginning instead would pull every
    /// record again.
    pub fn from_instant(instant: Option<(i64, u32)>, id: &str) -> (checkpoint: Result<
        Checkpoint,
        StorageFailure,
    >)
        ensures
            match checkpoint {
                Ok(c) => checkpoint_from_instant(instant, id@) == Ok::<
                    CheckpointView,
                    StorageFailure,
                >(c@),
                Err(e) => checkpoint_from_instant(instant, id@) == Err::<
                    CheckpointView,
                    StorageFailure,
                >(e),
            },
    {
        match instant {
            Some(i) => Ok(
                Checkpoint { updated_at: Timestamp { secs: i.0, nanos: i.1 }, id: id.to_owned() },
            ),
            None => Err(StorageFailure::CheckpointTimestamp),
        }
    }

    /// Reads a checkpoint from the pair of texts under which it is persisted.
    pub fn from_persisted(updated_at: &str, id: &str) -> (checkpoint: Result<
        Checkpoint,
        StorageFailure,
    >)
        ensures
            match checkpoint {
                Ok(c) => checkpoint_from_texts(updated_at@, id@) == Ok::<
                    CheckpointView,
                    StorageFailure,
                >(c@),
                Err(e) => checkpoint_from_texts(updated_at@, id@) == Err::<
                    CheckpointView,
                    StorageFailure,
                >(e),
            },
    {
        Checkpoint::from_instant(parse_rfc3339(updated_at), id)
    }

    /// The pair of texts that is persisted for the checkpoint, given its
    /// time as a text. A time that could not be written is an error.
    pub fn persisted_with(&self, text: Option<String>) -> (texts: Result<
        (String, String),
        StorageFailure,
    >)
        ensures
            match texts {
                Ok(pair) => texts_with(option_text(text), self@.id) == Ok::<
                    (Seq<char>, Seq<char>),
                    StorageFailure,
                >((pair.0@, pair.1@)),
                Err(e) => texts_with(option_text(text), self@.id) == Err::<
                    (Seq<char>, Seq<char>),
                    StorageFailure,
                >(e),
            },
    {
        match text {
            Some(t) => Ok((t, self.id.clone())),
            None => Err(StorageFailure::CheckpointTimestamp),
        }
    }

    /// The pair of texts under which the checkpoint is persisted: its time in
    /// RFC 3339 form, and its identifier. A checkpoint of the years 0 to 9999
    /// is persisted, and reads back as itself.
    pub fn to_persisted(&self) -> (texts: Result<(String, String), StorageFailure>)
        ensures
            match texts {
                Ok(pair) => checkpoint_texts(self@) == Ok::<(Seq<char>, Seq<char>), StorageFailure>(
                    (pair.0@, pair.1@),
                ),
                Err(e) => checkpoint_texts(self@) == Err::<(Seq<char>, Seq<char>), StorageFailure>(
                    e,
                ),
            },
            four_digit_instant(self@.updated_at.secs, self@.updated_at.nanos) ==> texts.is_ok(),
            texts matches Ok(pair) ==> four_digit_instant(
                self@.updated_at.secs,
                self@.updated_at.nanos,
            ) ==> checkpoint_from_texts(pair.0@, pair.1@) == Ok::<CheckpointView, StorageFailure>(
                self@,
            ),
    {
        self.persisted_with(format_rfc3339(self.updated_at.secs, self.updated_at.nanos))
    }
}

} // verus!
