use vstd::prelude::*;

verus! {

use crate::errors::ProcessError;

/// The processing variant a feed's payloads are routed to. The variants
/// themselves are external collaborators; the core only carries the tag.
#[derive(Debug, Clone, Copy, PartialEq, Eq, Structural)]
pub enum FeedType {
    /// Trade prints.
    Trades,
    /// Quote updates.
    Quotes,
    /// News items.
    News,
}

/// One configured feed: immutable after load, owned by the supervisor
/// and handed by reference to its consumption loop.
#[derive(Debug, Clone, PartialEq, Eq)]
pub struct FeedDescriptor {
    /// The connection URL, which identifies the feed.
    pub url: String,
    /// Selects the processing variant.
    pub feed_type: FeedType,
    /// The symbols subscribed on connect.
    pub symbols: Vec<String>,
    /// Upper bound on the loop's read cadence.
    pub max_reads_per_sec: u64,
}

impl FeedDescriptor {
    /// A zero rate would make the fixed-interval throttle divide by
    /// zero, so it is rejected when the configuration is loaded.
    pub open spec fn valid(&self) -> bool {
        self.max_reads_per_sec >= 1
    }
}

/// The fully resolved configuration the supervisor starts from; it must
/// exist before any loop is spawned, and never changes afterwards.
#[derive(Debug, Clone, PartialEq, Eq)]
pub struct AppConfig {
    /// The configured feeds, in order.
    pub feeds: Vec<FeedDescriptor>,
}

impl AppConfig {
    /// Every configured feed has a positive read rate.
    pub open spec fn valid(&self) -> bool {
        forall|i: int| 0 <= i < self.feeds@.len() ==> self.feeds@[i].valid()
    }
}

/// Validates a loaded feed list into the configuration the process runs
/// on. The external configuration source produces the raw descriptors; a
/// failure here is fatal to the whole process.
pub fn load_app_config(feeds: Vec<FeedDescriptor>) -> (r: Result<AppConfig, ProcessError>)
    ensures
        r matches Ok(c) ==> c.feeds == feeds && c.valid(),
        (r is Err) <==> exists|i: int| 0 <= i < feeds@.len() && !feeds@[i].valid(),
        r matches Err(e) ==> e matches ProcessError::ConfigError(_),
{
    let mut k: usize = 0;
    while k < feeds.len()
        invariant
            k <= feeds@.len(),
            forall|j: int| 0 <= j < k ==> feeds@[j].valid(),
        decreases feeds@.len() - k,
    {
        if feeds[k].max_reads_per_sec < 1 {
            return Err(
                ProcessError::ConfigError(
                    "a feed's maximum reads per second must be positive".to_owned(),
                ),
            );
        }
        k += 1;
    }
    Ok(AppConfig { feeds })
}

/// The configured feed for a connection URL, if any: the first match, as
/// the auth/subscribe step after a connect selects it. When none
/// matches, nothing is sent and the connect still counts as a success.
pub fn find_feed<'a>(cfg: &'a AppConfig, url: &String) -> (r: Option<&'a FeedDescriptor>)
    ensures
        r matches Some(f) ==> exists|i: int|
            0 <= i < cfg.feeds@.len() && cfg.feeds@[i] == *f && f.url@ == url@ && (forall|j: int|
                0 <= j < i ==> cfg.feeds@[j].url@ != url@),
        r is None ==> forall|i: int| 0 <= i < cfg.feeds@.len() ==> cfg.feeds@[i].url@ != url@,
{
    let mut k: usize = 0;
    while k < cfg.feeds.len()
        invariant
            k <= cfg.feeds@.len(),
            forall|j: int| 0 <= j < k ==> cfg.feeds@[j].url@ != url@,
        decreases cfg.feeds@.len() - k,
    {
        if cfg.feeds[k].url == *url {
            return Some(&cfg.feeds[k]);
        }
        k += 1;
    }
    None
}

} // verus!
