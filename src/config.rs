//! The settings of the services, as plain values.
use vstd::prelude::*;

verus! {

/// Where the store lives and which keys the engine uses.
#[derive(Debug)]
pub struct RedisConfig {
    pub url: String,
    pub channel: Option<String>,
    pub db: Option<u32>,
    /// The stream that carries every event.
    pub task_stream_key: String,
    /// The sorted set that lists the jobs.
    pub job_list_key: String,
}

/// The default stream key.
pub fn task_queue_key_default() -> (r: String)
    ensures
        r@ == "event-queue"@,
{
    String::from_str("event-queue")
}

/// The default job list key.
pub fn job_list_key_default() -> (r: String)
    ensures
        r@ == "job-list"@,
{
    String::from_str("job-list")
}

impl RedisConfig {
    /// The settings for the store at `url`, with the default keys.
    pub fn new(url: String) -> (r: RedisConfig)
        ensures
            r.url@ == url@,
            r.channel is None,
            r.db is None,
            r.task_stream_key@ == "event-queue"@,
            r.job_list_key@ == "job-list"@,
    {
        RedisConfig {
            url,
            channel: None,
            db: None,
            task_stream_key: task_queue_key_default(),
            job_list_key: job_list_key_default(),
        }
    }
}

/// Which services run.
#[derive(Clone, Copy, PartialEq, Eq, Structural, Debug)]
pub struct ModuleList {
    pub ca: bool,
    pub web: bool,
    pub cli: bool,
    pub inbox: bool,
    pub gc: bool,
    pub hooks: bool,
}

impl Default for ModuleList {
    /// The CA and the web surface run; nothing else does.
    fn default() -> (r: ModuleList)
        ensures
            r == (ModuleList { ca: true, web: true, cli: false, inbox: false, gc: false, hooks: false }),
    {
        ModuleList { ca: true, web: true, cli: false, inbox: false, gc: false, hooks: false }
    }
}

/// The watched directory of requests.
#[derive(Debug)]
pub struct InboxConfig {
    pub inbox: String,
    /// Seconds between two rescans of the directory.
    pub rescan_interval: u64,
}

/// The CA's certificate and private key on disk, and the hook scripts.
#[derive(Debug)]
pub struct CaConfig {
    pub hooks: Vec<String>,
    pub certificate: String,
    pub key: String,
}

/// The command line of a service: where its configuration file is.
#[derive(Debug)]
pub struct Args {
    pub config: String,
}

impl Args {
    /// The configuration file used when none is named.
    pub fn default_config() -> (r: String)
        ensures
            r@ == "./config.toml"@,
    {
        String::from_str("./config.toml")
    }
}

} // verus!
