//! The failures that the pipeline reports.

use vstd::prelude::*;
use crate::text::join3;

verus! {

/// Why a report could not be produced.
#[derive(Clone, Copy, PartialEq, Eq, Structural, Debug)]
pub enum StatsError {
    /// The upstream session service rejected the credentials, or its answer
    /// lacked a field.
    AuthError,
    /// The ticket was still stale after the allowed number of logins.
    RenewalExhausted,
    /// No identity was found by any strategy.
    PlayerNotFound,
    /// The identity exists but has no record for the requested game.
    NoGameRecord,
    /// The upstream answered with an error marker or a malformed document.
    UpstreamError,
    /// A raw record did not have its game's length.
    SchemaMismatch { observed: usize, expected: usize },
    /// The request for one identity failed.
    FetchError,
    /// The identity store could not be written.
    StoreError,
}

pub open spec fn error_text(e: StatsError) -> Seq<char> {
    match e {
        StatsError::AuthError => "failed to log in to the upstream service"@,
        StatsError::RenewalExhausted => "failed to renew the upstream ticket"@,
        StatsError::PlayerNotFound => "player not found"@,
        StatsError::NoGameRecord => "the player exists but has no record for this game"@,
        StatsError::UpstreamError => "the upstream service answered with an error"@,
        StatsError::SchemaMismatch { .. } => "the statistics record has an unexpected length"@,
        StatsError::FetchError => "the statistics request failed"@,
        StatsError::StoreError => "the identity store could not be written"@,
    }
}

impl StatsError {
    /// A short description, which carries no credential material.
    pub fn text(&self) -> (r: &'static str)
        ensures
            r@ == error_text(*self),
    {
        match self {
            StatsError::AuthError => "failed to log in to the upstream service",
            StatsError::RenewalExhausted => "failed to renew the upstream ticket",
            StatsError::PlayerNotFound => "player not found",
            StatsError::NoGameRecord => "the player exists but has no record for this game",
            StatsError::UpstreamError => "the upstream service answered with an error",
            StatsError::SchemaMismatch { .. } => "the statistics record has an unexpected length",
            StatsError::FetchError => "the statistics request failed",
            StatsError::StoreError => "the identity store could not be written",
        }
    }

    /// The description followed by the queried name.
    pub fn message_for(&self, name: &str) -> (r: String)
        ensures
            r@ == error_text(*self) + ": "@ + name@,
    {
        join3(self.text(), ": ", name)
    }
}

} // verus!
