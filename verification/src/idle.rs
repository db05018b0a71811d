//! How long the user has been idle.
//!
//! On macOS the answer comes from the input-device service of the I/O
//! registry, in three native calls that the host makes one after another:
//! look the service up, copy its properties, read the idle counter out of
//! them. The service handle is given back before the query ends. `IdleQuery`
//! holds the decisions between those calls: the host asks it what to do, does
//! it, and reports what came back. On every other system the query is over
//! before it starts, with an idle time of zero.

use vstd::prelude::*;
use crate::platform::Platform;

verus! {

/// Nanoseconds in one millisecond.
pub const NANOS_PER_MILLI: i64 = 1_000_000;

/// A reading of the idle counter in whole milliseconds. The quotient is
/// rounded toward zero; a negative quotient is then read as an unsigned
/// 64-bit number, bit for bit.
pub open spec fn millis_of(idle_ns: int) -> int {
    if idle_ns >= 0 {
        idle_ns / (NANOS_PER_MILLI as int)
    } else if -idle_ns < NANOS_PER_MILLI {
        0
    } else {
        0x1_0000_0000_0000_0000 - (-idle_ns) / (NANOS_PER_MILLI as int)
    }
}

/// Converts a reading of the idle counter, in nanoseconds, to milliseconds.
pub fn idle_millis(idle_ns: i64) -> (ms: u64)
    ensures
        ms == millis_of(idle_ns as int),
{
    if idle_ns >= 0 {
        (idle_ns / NANOS_PER_MILLI) as u64
    } else {
        let magnitude: u64 = (-(idle_ns + 1)) as u64 + 1;
        let quotient: u64 = magnitude / 1_000_000;
        if quotient == 0 {
            0
        } else {
            u64::MAX - quotient + 1
        }
    }
}

/// Why a query for the idle time failed.
#[derive(Clone, Copy, Debug, PartialEq, Eq, Structural)]
pub enum IdleError {
    /// The input-device service was not found.
    ServiceNotFound,
    /// The service's properties could not be copied.
    PropertiesUnavailable,
    /// The properties hold no idle counter that reads as a signed 64-bit number.
    IdleTimeMissing,
}

impl IdleError {
    /// The text of the message that reports this error.
    pub open spec fn text(self) -> Seq<char> {
        match self {
            IdleError::ServiceNotFound => "Failed to get IOHIDSystem service"@,
            IdleError::PropertiesUnavailable => "Failed to get properties"@,
            IdleError::IdleTimeMissing => "HIDIdleTime not found"@,
        }
    }

    /// The message that reports this error.
    pub fn message(&self) -> (s: &'static str)
        ensures
            s@ == self.text(),
    {
        match self {
            IdleError::ServiceNotFound => "Failed to get IOHIDSystem service",
            IdleError::PropertiesUnavailable => "Failed to get properties",
            IdleError::IdleTimeMissing => "HIDIdleTime not found",
        }
    }
}

/// What the host is asked to do next.
#[derive(Clone, Copy, Debug, PartialEq, Eq, Structural)]
pub enum IdleRequest {
    /// Look up the input-device service and report its handle.
    FindService,
    /// Copy the properties of the service and report the call's status.
    ReadProperties { service: u32 },
    /// Read the idle counter out of the properties, in nanoseconds.
    ReadIdleTime,
    /// Give the service handle back.
    Release { service: u32 },
}

/// What the host reports back.
#[derive(Clone, Copy, Debug, PartialEq, Eq)]
pub enum IdleReply {
    /// The handle of the service; zero when there is none.
    Service(u32),
    /// The status of copying the properties; zero for success.
    Properties(i32),
    /// The idle counter, `None` when it is absent or not a 64-bit number.
    IdleTime(Option<i64>),
    /// The service handle was given back.
    Released,
}

/// A query for the idle time, between two native calls.
#[derive(Clone, Copy, Debug, PartialEq, Eq)]
pub enum IdleQuery {
    /// The service is being looked up.
    FindingService,
    /// The properties of `service` are being copied.
    ReadingProperties { service: u32 },
    /// The idle counter is being read; `service` is still held.
    ReadingIdleTime { service: u32 },
    /// The outcome is known and `service` is being given back.
    Releasing { service: u32, outcome: Result<u64, IdleError> },
    /// The query is over.
    Finished { outcome: Result<u64, IdleError> },
}

impl IdleQuery {
    /// The state a query starts in.
    pub open spec fn initial(platform: Platform) -> IdleQuery {
        match platform {
            Platform::MacOs => IdleQuery::FindingService,
            Platform::Other => IdleQuery::Finished { outcome: Ok(0) },
        }
    }

    /// The call the query waits for, `None` once it is over.
    pub open spec fn pending(self) -> Option<IdleRequest> {
        match self {
            IdleQuery::FindingService => Some(IdleRequest::FindService),
            IdleQuery::ReadingProperties { service } => Some(IdleRequest::ReadProperties { service }),
            IdleQuery::ReadingIdleTime { .. } => Some(IdleRequest::ReadIdleTime),
            IdleQuery::Releasing { service, .. } => Some(IdleRequest::Release { service }),
            IdleQuery::Finished { .. } => None,
        }
    }

    /// The result of the query, `None` until it is over.
    pub open spec fn result(self) -> Option<Result<u64, IdleError>> {
        match self {
            IdleQuery::Finished { outcome } => Some(outcome),
            _ => None,
        }
    }

    /// The service handle that the query holds and has yet to give back.
    pub open spec fn held(self) -> Option<u32> {
        match self {
            IdleQuery::ReadingProperties { service } => Some(service),
            IdleQuery::ReadingIdleTime { service } => Some(service),
            IdleQuery::Releasing { service, .. } => Some(service),
            _ => None,
        }
    }

    /// The number of native calls that the query may still ask for.
    pub open spec fn calls_left(self) -> nat {
        match self {
            IdleQuery::FindingService => 4,
            IdleQuery::ReadingProperties { .. } => 3,
            IdleQuery::ReadingIdleTime { .. } => 2,
            IdleQuery::Releasing { .. } => 1,
            IdleQuery::Finished { .. } => 0,
        }
    }

    /// Whether `reply` answers the call that the query waits for.
    pub open spec fn accepts(self, reply: IdleReply) -> bool {
        match (self, reply) {
            (IdleQuery::FindingService, IdleReply::Service(_)) => true,
            (IdleQuery::ReadingProperties { .. }, IdleReply::Properties(_)) => true,
            (IdleQuery::ReadingIdleTime { .. }, IdleReply::IdleTime(_)) => true,
            (IdleQuery::Releasing { .. }, IdleReply::Released) => true,
            _ => false,
        }
    }

    /// The state after `reply`. A reply that does not answer the pending call
    /// changes nothing.
    pub open spec fn next(self, reply: IdleReply) -> IdleQuery {
        match (self, reply) {
            (IdleQuery::FindingService, IdleReply::Service(service)) => if service == 0 {
                IdleQuery::Finished { outcome: Err(IdleError::ServiceNotFound) }
            } else {
                IdleQuery::ReadingProperties { service }
            },
            (IdleQuery::ReadingProperties { service }, IdleReply::Properties(status)) => if status
                != 0 {
                IdleQuery::Releasing { service, outcome: Err(IdleError::PropertiesUnavailable) }
            } else {
                IdleQuery::ReadingIdleTime { service }
            },
            (IdleQuery::ReadingIdleTime { service }, IdleReply::IdleTime(reading)) => IdleQuery::Releasing {
                service,
                outcome: match reading {
                    Some(idle_ns) => Ok(millis_of(idle_ns as int) as u64),
                    None => Err(IdleError::IdleTimeMissing),
                },
            },
            (IdleQuery::Releasing { outcome, .. }, IdleReply::Released) => IdleQuery::Finished {
                outcome,
            },
            _ => self,
        }
    }

    /// Starts a query on `platform`.
    pub fn begin(platform: Platform) -> (query: IdleQuery)
        ensures
            query == IdleQuery::initial(platform),
    {
        match platform {
            Platform::MacOs => IdleQuery::FindingService,
            Platform::Other => IdleQuery::Finished { outcome: Ok(0) },
        }
    }

    /// The call that the host has to make now, `None` once the query is over.
    pub fn request(&self) -> (request: Option<IdleRequest>)
        ensures
            request == self.pending(),
    {
        match self {
            IdleQuery::FindingService => Some(IdleRequest::FindService),
            IdleQuery::ReadingProperties { service } => Some(
                IdleRequest::ReadProperties { service: *service },
            ),
            IdleQuery::ReadingIdleTime { .. } => Some(IdleRequest::ReadIdleTime),
            IdleQuery::Releasing { service, .. } => Some(IdleRequest::Release { service: *service }),
            IdleQuery::Finished { .. } => None,
        }
    }

    /// The result of the query, `None` until it is over.
    pub fn outcome(&self) -> (outcome: Option<Result<u64, IdleError>>)
        ensures
            outcome == self.result(),
    {
        match self {
            IdleQuery::Finished { outcome } => Some(*outcome),
            _ => None,
        }
    }

    /// Takes the host's report of the call it made and moves on.
    pub fn advance(self, reply: IdleReply) -> (query: IdleQuery)
        ensures
            query == self.next(reply),
    {
        match self {
            IdleQuery::FindingService => match reply {
                IdleReply::Service(service) => if service == 0 {
                    IdleQuery::Finished { outcome: Err(IdleError::ServiceNotFound) }
                } else {
                    IdleQuery::ReadingProperties { service }
                },
                _ => self,
            },
            IdleQuery::ReadingProperties { service } => match reply {
                IdleReply::Properties(status) => if status != 0 {
                    IdleQuery::Releasing { service, outcome: Err(IdleError::PropertiesUnavailable) }
                } else {
                    IdleQuery::ReadingIdleTime { service }
                },
                _ => self,
            },
            IdleQuery::ReadingIdleTime { service } => match reply {
                IdleReply::IdleTime(Some(idle_ns)) => IdleQuery::Releasing {
                    service,
                    outcome: Ok(idle_millis(idle_ns)),
                },
                IdleReply::IdleTime(None) => IdleQuery::Releasing {
                    service,
                    outcome: Err(IdleError::IdleTimeMissing),
                },
                _ => self,
            },
            IdleQuery::Releasing { service, outcome } => match reply {
                IdleReply::Released => IdleQuery::Finished { outcome },
                _ => self,
            },
            IdleQuery::Finished { .. } => self,
        }
    }
}

/// The result that the three native calls determine: no service, no
/// properties or no idle counter each fail the query in that order of
/// precedence; otherwise the counter is reported in milliseconds.
pub open spec fn outcome_of(service: u32, status: i32, reading: Option<i64>) -> Result<u64, IdleError> {
    if service == 0 {
        Err(IdleError::ServiceNotFound)
    } else if status != 0 {
        Err(IdleError::PropertiesUnavailable)
    } else {
        match reading {
            Some(idle_ns) => Ok(millis_of(idle_ns as int) as u64),
            None => Err(IdleError::IdleTimeMissing),
        }
    }
}

/// The milliseconds of a reading always fit in 64 bits.
pub proof fn lemma_millis_in_range(idle_ns: i64)
    ensures
        0 <= millis_of(idle_ns as int) <= u64::MAX,
        idle_ns >= 0 ==> millis_of(idle_ns as int) * NANOS_PER_MILLI <= idle_ns < (millis_of(
            idle_ns as int,
        ) + 1) * NANOS_PER_MILLI,
{
}

/// A query never ends while it holds a service handle: it ends only from the
/// lookup, when there is no service, or once the host has reported the
/// release that a query holding a handle asks for.
pub proof fn lemma_released_before_finished(query: IdleQuery, reply: IdleReply)
    requires
        !(query is Finished),
        query.next(reply) is Finished,
    ensures
        query.next(reply).held() is None,
        query.held() is None ==> query is FindingService && reply == IdleReply::Service(0),
        query.held() matches Some(service) ==> reply == IdleReply::Released && query.pending()
            == Some(IdleRequest::Release { service }),
{
}

/// A held handle stays the same until the query ends, and a handle is taken
/// up only from a lookup that reported it, never the null handle.
pub proof fn lemma_handle_kept(query: IdleQuery, reply: IdleReply)
    ensures
        query.held() is Some && !(query.next(reply) is Finished) ==> query.next(reply).held()
            == query.held(),
        query.held() is None && query.next(reply).held() is Some ==> query is FindingService
            && reply == IdleReply::Service(query.next(reply).held()->0)
            && query.next(reply).held()->0 != 0,
{
}

/// Each reply that answers the pending call brings the query nearer its end,
/// every other reply leaves it as it is, and a query with no call left is
/// over. So a query ends after at most four calls.
pub proof fn lemma_query_progress(query: IdleQuery, reply: IdleReply)
    ensures
        query.accepts(reply) ==> query.next(reply).calls_left() < query.calls_left(),
        !query.accepts(reply) ==> query.next(reply) == query,
        query.calls_left() == 0 <==> query is Finished,
        query is Finished <==> query.pending() is None,
        query is Finished <==> query.result() is Some,
{
}

/// What a query on macOS ends with, for each way the three calls can go.
pub proof fn lemma_query_outcome(service: u32, status: i32, reading: Option<i64>)
    ensures
        service == 0 ==> IdleQuery::initial(Platform::MacOs).next(IdleReply::Service(service)).result()
            == Some(outcome_of(service, status, reading)),
        service != 0 && status != 0 ==> IdleQuery::initial(Platform::MacOs).next(
            IdleReply::Service(service),
        ).next(IdleReply::Properties(status)).next(IdleReply::Released).result() == Some(
            outcome_of(service, status, reading),
        ),
        service != 0 && status == 0 ==> IdleQuery::initial(Platform::MacOs).next(
            IdleReply::Service(service),
        ).next(IdleReply::Properties(status)).next(IdleReply::IdleTime(reading)).next(
            IdleReply::Released,
        ).result() == Some(outcome_of(service, status, reading)),
        IdleQuery::initial(Platform::Other).result() == Some(Ok::<u64, IdleError>(0)),
{
}

} // verus!
