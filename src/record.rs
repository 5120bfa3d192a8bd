use vstd::prelude::*;
use std::collections::HashMap;
use crate::config::{ClientSettings, Overlay};
use crate::error::TimberlogsError;
use crate::queue::{accepted_step, LogQueue};
use crate::types::{Environment, LogEntry, LogLevel, level_rank};
use crate::validate::{validate_entry, validation_result};

verus! {

/// A record merged with the client's context: the unit that is queued and sent.
pub struct OutboundRecord {
    pub level: LogLevel,
    pub message: String,
    pub source: String,
    pub environment: Environment,
    pub version: Option<String>,
    pub user_id: Option<String>,
    pub session_id: Option<String>,
    pub request_id: Option<String>,
    pub data: Option<HashMap<String, serde_json::Value>>,
    pub error_name: Option<String>,
    pub error_stack: Option<String>,
    pub tags: Option<Vec<String>>,
    pub flow_id: Option<String>,
    pub step_index: Option<u32>,
    pub dataset: Option<String>,
    pub timestamp: Option<u64>,
    pub ip_address: Option<String>,
    pub country: Option<String>,
}

/// View of an optional string.
pub open spec fn opt_view(o: Option<String>) -> Option<Seq<char>> {
    match o {
        Some(s) => Some(s@),
        None => None,
    }
}

/// The record's own value if it has one, else the fallback.
pub open spec fn or_fallback(own: Option<String>, fallback: Option<String>) -> Option<Seq<char>> {
    match own {
        Some(s) => Some(s@),
        None => opt_view(fallback),
    }
}

/// `r` is `e` merged with the settings and the overlay: the caller's fields are
/// kept, user and session id fall back on the overlay, the dataset on the settings.
pub open spec fn merged(r: OutboundRecord, s: ClientSettings, o: Overlay, e: LogEntry) -> bool {
    &&& r.level == e.level
    &&& r.message == e.message
    &&& r.source@ == s.source@
    &&& r.environment == s.environment
    &&& opt_view(r.version) == opt_view(s.version)
    &&& opt_view(r.user_id) == or_fallback(e.user_id, o.user_id)
    &&& opt_view(r.session_id) == or_fallback(e.session_id, o.session_id)
    &&& r.request_id == e.request_id
    &&& r.data == e.data
    &&& r.error_name == e.error_name
    &&& r.error_stack == e.error_stack
    &&& r.tags == e.tags
    &&& r.flow_id == e.flow_id
    &&& r.step_index == e.step_index
    &&& opt_view(r.dataset) == or_fallback(e.dataset, s.dataset)
    &&& r.timestamp == e.timestamp
    &&& r.ip_address == e.ip_address
    &&& r.country == e.country
}

fn clone_opt(o: &Option<String>) -> (r: Option<String>)
    ensures
        opt_view(r) == opt_view(*o),
{
    match o {
        Some(s) => Some(s.clone()),
        None => None,
    }
}

fn own_or(own: Option<String>, fallback: &Option<String>) -> (r: Option<String>)
    ensures
        opt_view(r) == or_fallback(own, *fallback),
{
    match own {
        Some(s) => Some(s),
        None => clone_opt(fallback),
    }
}

impl ClientSettings {
    /// The part of logging that decides: a record below the minimum level is
    /// dropped (`Ok(None)`), an invalid one is refused, any other is merged
    /// into the record to queue.
    pub fn prepare_record(&self, entry: LogEntry, overlay: &Overlay) -> (r: Result<Option<OutboundRecord>, TimberlogsError>)
        ensures
            level_rank(entry.level) < level_rank(self.min_level) ==> r is Ok && r->Ok_0 is None,
            level_rank(entry.level) >= level_rank(self.min_level) ==> match validation_result(entry) {
                Err(v) => r == Err::<Option<OutboundRecord>, TimberlogsError>(TimberlogsError::Validation(v)),
                Ok(_) => r is Ok && r->Ok_0 is Some && merged(r->Ok_0->0, *self, *overlay, entry),
            },
    {
        if entry.level.is_below(&self.min_level) {
            return Ok(None);
        }
        match validate_entry(&entry) {
            Err(v) => Err(TimberlogsError::Validation(v)),
            Ok(()) => {
                let user_id = own_or(entry.user_id, &overlay.user_id);
                let session_id = own_or(entry.session_id, &overlay.session_id);
                let dataset = own_or(entry.dataset, &self.dataset);
                Ok(Some(OutboundRecord {
                    level: entry.level,
                    message: entry.message,
                    source: self.source.clone(),
                    environment: self.environment,
                    version: clone_opt(&self.version),
                    user_id,
                    session_id,
                    request_id: entry.request_id,
                    data: entry.data,
                    error_name: entry.error_name,
                    error_stack: entry.error_stack,
                    tags: entry.tags,
                    flow_id: entry.flow_id,
                    step_index: entry.step_index,
                    dataset,
                    timestamp: entry.timestamp,
                    ip_address: entry.ip_address,
                    country: entry.country,
                }))
            },
        }
    }
}

impl ClientSettings {
    /// Logs `entry` into `queue`: a record below the minimum level is dropped
    /// and an invalid one refused, both leaving the queue as it was; any other
    /// is merged and appended. `Ok(true)` asks the caller to flush now; on
    /// `Ok(false)` and on an error nothing is to be sent.
    pub fn enqueue_entry(&self, queue: &mut LogQueue, entry: LogEntry, overlay: &Overlay) -> (r: Result<bool, TimberlogsError>)
        ensures
            level_rank(entry.level) < level_rank(self.min_level) ==> r == Ok::<bool, TimberlogsError>(false)
                && final(queue)@ == old(queue)@,
            level_rank(entry.level) >= level_rank(self.min_level) ==> match validation_result(entry) {
                Err(v) => r == Err::<bool, TimberlogsError>(TimberlogsError::Validation(v))
                    && final(queue)@ == old(queue)@,
                Ok(_) => {
                    &&& final(queue)@.len() == old(queue)@.len() + 1
                    &&& final(queue)@.drop_last() == old(queue)@
                    &&& merged(final(queue)@.last(), *self, *overlay, entry)
                    &&& r == Ok::<bool, TimberlogsError>(final(queue)@.len() >= self.batch_size)
                    &&& accepted_step(old(queue)@, final(queue)@, r->Ok_0, self.batch_size)
                },
            },
    {
        match self.prepare_record(entry, overlay) {
            Err(e) => Err(e),
            Ok(None) => Ok(false),
            Ok(Some(record)) => {
                let flush_now = queue.enqueue(record, self.batch_size);
                proof {
                    assert(queue@.drop_last() =~= old(queue)@);
                }
                Ok(flush_now)
            },
        }
    }
}

/// A correlation handle: records logged through it carry the flow's id and
/// consecutive step indices starting at zero.
pub struct Flow {
    pub id: String,
    pub name: String,
    step_index: u32,
}

impl Flow {
    pub closed spec fn next_step(&self) -> u32 {
        self.step_index
    }

    pub closed spec fn id_view(&self) -> Seq<char> {
        self.id@
    }

    pub closed spec fn name_view(&self) -> Seq<char> {
        self.name@
    }

    /// A handle for a flow the server registered, at step zero.
    pub fn new(id: String, name: String) -> (r: Flow)
        ensures
            r.id_view() == id@,
            r.name_view() == name@,
            r.next_step() == 0,
    {
        Flow { id, name, step_index: 0 }
    }

    pub fn step_index(&self) -> (r: u32)
        ensures
            r == self.next_step(),
    {
        self.step_index
    }

    /// The record for the next step of the flow; the counter moves on by one.
    /// At `u32::MAX` it stays there: such a step is refused by validation anyway.
    pub fn next_entry(
        &mut self,
        level: LogLevel,
        message: String,
        data: Option<HashMap<String, serde_json::Value>>,
        tags: Option<Vec<String>>,
    ) -> (r: LogEntry)
        ensures
            r.level == level,
            r.message == message,
            r.data == data,
            r.tags == tags,
            opt_view(r.flow_id) == Some(old(self).id_view()),
            r.step_index == Some(old(self).next_step()),
            final(self).id_view() == old(self).id_view(),
            final(self).name_view() == old(self).name_view(),
            old(self).next_step() < u32::MAX ==> final(self).next_step() == old(self).next_step() + 1,
            old(self).next_step() == u32::MAX ==> final(self).next_step() == u32::MAX,
            r.user_id is None && r.session_id is None && r.request_id is None,
            r.error_name is None && r.error_stack is None && r.dataset is None,
            r.timestamp is None && r.ip_address is None && r.country is None,
    {
        let step = self.step_index;
        if self.step_index < u32::MAX {
            self.step_index = self.step_index + 1;
        }
        LogEntry {
            level,
            message,
            data,
            user_id: None,
            session_id: None,
            request_id: None,
            error_name: None,
            error_stack: None,
            tags,
            flow_id: Some(self.id.clone()),
            step_index: Some(step),
            dataset: None,
            timestamp: None,
            ip_address: None,
            country: None,
        }
    }
}

} // verus!
