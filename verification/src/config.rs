//! Operator-chosen configuration: where to start reading a shard and how to
//! render record payloads.
//!
//! A start policy is chosen once per invocation and applied identically to
//! every polled shard.  Two of the policies need a parameter: a sequence
//! number, or an epoch timestamp.  `resolve_start_policy` checks that the
//! needed parameter is there before any polling begins; a missing one is a
//! configuration error, fatal at startup.

use vstd::prelude::*;

use crate::error::Error;
use crate::error::ErrorKind;
use vstd::string::StringExecFns;

verus! {

/// How a shard's first position token is obtained.
#[derive(Clone, Copy, Debug, PartialEq, Eq, Structural)]
pub enum IteratorType {
    /// Only records appended after the token is issued.
    Latest,
    /// The oldest retained record of the shard.
    TrimHorizon,
    /// The record with the given sequence number.
    AtSequenceNumber,
    /// The record after the given sequence number.
    AfterSequenceNumber,
    /// The first record at or after the given epoch time.
    AtTimestamp,
}

/// The name the remote service gives each iterator type.
pub open spec fn spec_api_name(t: IteratorType) -> Seq<char> {
    match t {
        IteratorType::Latest => "LATEST"@,
        IteratorType::TrimHorizon => "TRIM_HORIZON"@,
        IteratorType::AtSequenceNumber => "AT_SEQUENCE_NUMBER"@,
        IteratorType::AfterSequenceNumber => "AFTER_SEQUENCE_NUMBER"@,
        IteratorType::AtTimestamp => "AT_TIMESTAMP"@,
    }
}

impl IteratorType {
    /// Whether this iterator type needs a starting sequence number.
    pub open spec fn needs_sequence_number(self) -> bool {
        self is AtSequenceNumber || self is AfterSequenceNumber
    }

    /// Whether this iterator type needs a starting timestamp.
    pub open spec fn needs_timestamp(self) -> bool {
        self is AtTimestamp
    }

    /// The name the remote service knows this iterator type by.
    pub fn api_name(&self) -> (r: &'static str)
        ensures
            r@ == spec_api_name(*self),
    {
        match self {
            IteratorType::Latest => "LATEST",
            IteratorType::TrimHorizon => "TRIM_HORIZON",
            IteratorType::AtSequenceNumber => "AT_SEQUENCE_NUMBER",
            IteratorType::AfterSequenceNumber => "AFTER_SEQUENCE_NUMBER",
            IteratorType::AtTimestamp => "AT_TIMESTAMP",
        }
    }
}

/// How a record payload is rendered: as a decimal byte array, as lowercase
/// hex, or decoded as UTF-8.
#[derive(Clone, Copy, Debug, PartialEq, Eq, Structural)]
pub enum DataFormat {
    RawBytes,
    RawString,
    Utf8String,
}

/// A validated start policy: the iterator type together with the parameter
/// it needs, if any.
#[derive(Debug)]
pub enum StartPolicy {
    Latest,
    TrimHorizon,
    /// Carries the non-empty sequence number to start at.
    AtSequenceNumber(String),
    /// Carries the non-empty sequence number to start after.
    AfterSequenceNumber(String),
    /// Carries the epoch time, in milliseconds, to start at.
    AtTimestamp(u64),
}

/// Whether the parameters an operator supplied satisfy what the iterator
/// type requires: a non-empty sequence number for the sequence-number
/// policies, a timestamp for the timestamp policy.
pub open spec fn policy_params_ok(
    t: IteratorType,
    sequence_number: Option<String>,
    timestamp: Option<u64>,
) -> bool {
    &&& t.needs_sequence_number() ==> (sequence_number matches Some(s) && s@.len() > 0)
    &&& t.needs_timestamp() ==> timestamp is Some
}

/// The policy that a valid parameter combination denotes.
pub open spec fn spec_policy_of(
    t: IteratorType,
    sequence_number: Option<String>,
    timestamp: Option<u64>,
) -> StartPolicy {
    match t {
        IteratorType::Latest => StartPolicy::Latest,
        IteratorType::TrimHorizon => StartPolicy::TrimHorizon,
        IteratorType::AtSequenceNumber => StartPolicy::AtSequenceNumber(sequence_number->0),
        IteratorType::AfterSequenceNumber => StartPolicy::AfterSequenceNumber(sequence_number->0),
        IteratorType::AtTimestamp => StartPolicy::AtTimestamp(timestamp->0),
    }
}

/// Checks the operator's start-policy parameters, before any poller runs.
///
/// Returns the validated policy exactly when every parameter the iterator
/// type requires is present (and, for a sequence number, non-empty); a
/// configuration error otherwise.
pub fn resolve_start_policy(
    t: IteratorType,
    sequence_number: Option<String>,
    timestamp: Option<u64>,
) -> (r: Result<StartPolicy, Error>)
    ensures
        r is Ok <==> policy_params_ok(t, sequence_number, timestamp),
        r matches Ok(p) ==> p == spec_policy_of(t, sequence_number, timestamp),
        r matches Err(e) ==> e.kind == ErrorKind::Config,
{
    match t {
        IteratorType::Latest => Ok(StartPolicy::Latest),
        IteratorType::TrimHorizon => Ok(StartPolicy::TrimHorizon),
        IteratorType::AtSequenceNumber => {
            match sequence_number {
                Some(s) => {
                    if !s.as_str().is_empty() {
                        Ok(StartPolicy::AtSequenceNumber(s))
                    } else {
                        Err(
                            Error::new(
                                ErrorKind::Config,
                                String::from_str("sequence number must not be empty"),
                            ),
                        )
                    }
                },
                None => Err(
                    Error::new(
                        ErrorKind::Config,
                        String::from_str("iterator type requires a sequence number"),
                    ),
                ),
            }
        },
        IteratorType::AfterSequenceNumber => {
            match sequence_number {
                Some(s) => {
                    if !s.as_str().is_empty() {
                        Ok(StartPolicy::AfterSequenceNumber(s))
                    } else {
                        Err(
                            Error::new(
                                ErrorKind::Config,
                                String::from_str("sequence number must not be empty"),
                            ),
                        )
                    }
                },
                None => Err(
                    Error::new(
                        ErrorKind::Config,
                        String::from_str("iterator type requires a sequence number"),
                    ),
                ),
            }
        },
        IteratorType::AtTimestamp => {
            match timestamp {
                Some(ms) => Ok(StartPolicy::AtTimestamp(ms)),
                None => Err(
                    Error::new(
                        ErrorKind::Config,
                        String::from_str("iterator type requires a timestamp"),
                    ),
                ),
            }
        },
    }
}

} // verus!
