//! What the gateway is configured with.

use vstd::prelude::*;
use vstd::string::{StrSliceExecFns, StringExecFns};
use crate::text::{opt_text, str_eq, texts};

verus! {

/// The whole configuration.
#[derive(Debug, Clone)]
pub struct Config {
    pub version: String,
    pub core: CoreConfig,
    pub adapters: Vec<AdapterConfig>,
}

/// Where the core listens and what it keeps.
#[derive(Debug, Clone)]
pub struct CoreConfig {
    pub bind_http: String,
    pub bind_grpc: String,
    pub request_replay: RequestReplayConfig,
    pub observability: ObservabilityConfig,
}

/// Where the metrics are served.
#[derive(Debug, Clone)]
pub struct ObservabilityConfig {
    pub metrics_path: String,
}

impl Default for ObservabilityConfig {
    fn default() -> (c: Self)
        ensures
            c.metrics_path@.len() == 0,
    {
        ObservabilityConfig { metrics_path: String::new() }
    }
}

/// The path under which the metrics are served where none is configured.
pub fn default_metrics_path() -> (path: String)
    ensures
        path@ == "/metrics"@,
{
    String::from_str("/metrics")
}

/// An adapter that is known from the start.
#[derive(Debug, Clone)]
pub struct AdapterConfig {
    pub id: String,
    pub kind: String,
    pub endpoint: String,
    pub capabilities: AdapterCapabilities,
}

/// What an adapter declares it can do.
#[derive(Clone, Copy, Debug, PartialEq, Eq, Structural)]
pub struct AdapterCapabilities {
    pub streaming: bool,
    pub token_count: bool,
    pub model_route: bool,
    pub embed_cache: bool,
}

impl Default for AdapterCapabilities {
    fn default() -> (c: Self)
        ensures
            c == AdapterCapabilities::none(),
    {
        AdapterCapabilities {
            streaming: false,
            token_count: false,
            model_route: false,
            embed_cache: false,
        }
    }
}

impl AdapterCapabilities {
    /// No capability declared.
    pub open spec fn none() -> AdapterCapabilities {
        AdapterCapabilities {
            streaming: false,
            token_count: false,
            model_route: false,
            embed_cache: false,
        }
    }
}

/// Whether forwarded requests are recorded, and where.
#[derive(Debug)]
pub struct RequestReplayConfig {
    pub enabled: bool,
    pub path: String,
}

/// The file that forwarded requests are recorded in where none is configured.
pub fn default_replay_path() -> (path: String)
    ensures
        path@ == "./replay.log"@,
{
    String::from_str("./replay.log")
}

impl Default for RequestReplayConfig {
    fn default() -> (c: Self)
        ensures
            !c.enabled,
            c.path@ == "./replay.log"@,
    {
        RequestReplayConfig { enabled: false, path: default_replay_path() }
    }
}

/// The path of the configuration file that the arguments of the program
/// name: what follows the first `--config`, or what the first argument that
/// starts with `--config=` goes on with, whichever comes first.
pub open spec fn config_path_in(args: Seq<Seq<char>>) -> Option<Seq<char>>
    decreases args.len(),
{
    if args.len() == 0 {
        None
    } else if args[0] == "--config"@ {
        if args.len() > 1 {
            Some(args[1])
        } else {
            None
        }
    } else if args[0].len() >= 9 && args[0].subrange(0, 9) == "--config="@ {
        Some(args[0].subrange(9, args[0].len() as int))
    } else {
        config_path_in(args.drop_first())
    }
}

/// Finds the path of the configuration file among the arguments of the
/// program. The name of the program is not among `args`.
pub fn parse_config_path_from_args(args: &Vec<String>) -> (path: Option<String>)
    ensures
        opt_text(path) == config_path_in(texts(args@)),
{
    let mut i: usize = 0;
    proof {
        assert(texts(args@).skip(0) =~= texts(args@));
    }
    while i < args.len()
        invariant
            i <= args.len(),
            config_path_in(texts(args@)) == config_path_in(texts(args@).skip(i as int)),
        decreases args.len() - i,
    {
        let ghost rest = texts(args@).skip(i as int);
        proof {
            assert(rest[0] == args@[i as int]@);
            assert(rest.drop_first() =~= texts(args@).skip(i + 1));
        }
        let arg = args[i].as_str();
        if str_eq(arg, "--config") {
            if i + 1 < args.len() {
                proof {
                    assert(rest[1] == args@[i + 1]@);
                }
                return Some(args[i + 1].clone());
            } else {
                return None;
            }
        }
        let n = arg.unicode_len();
        if n >= 9 && str_eq(arg.substring_char(0, 9), "--config=") {
            return Some(String::from_str(arg.substring_char(9, n)));
        }
        i += 1;
    }
    None
}

/// The path of the configuration file: the one that the arguments name, or
/// else the one that the environment names, or else the default.
pub fn resolve_config_path(from_args: Option<String>, from_env: Option<String>) -> (path: String)
    ensures
        path@ == match (opt_text(from_args), opt_text(from_env)) {
            (Some(p), _) => p,
            (None, Some(p)) => p,
            (None, None) => "../config/pagi.yaml"@,
        },
{
    match from_args {
        Some(p) => p,
        None => match from_env {
            Some(p) => p,
            None => String::from_str("../config/pagi.yaml"),
        },
    }
}

impl Clone for RequestReplayConfig {
    fn clone(&self) -> (c: Self)
        ensures
            c.enabled == self.enabled,
            c.path@ == self.path@,
    {
        RequestReplayConfig { enabled: self.enabled, path: self.path.clone() }
    }
}

} // verus!
