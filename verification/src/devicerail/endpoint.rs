//! Where the daemon comes from: the shapes of a session's endpoint.

use vstd::prelude::*;

use crate::ir::vocab::ErrorClass;
use crate::json::Json;
use crate::keyed::TextMap;
use crate::kit::error::{ProviderError, ProviderErrorV};
use crate::text::concat;

verus! {

/// The daemon command, looked up on the search path.
pub const DEFAULT_DAEMON_COMMAND: &'static str = "devicerail-daemon";

/// How long a daemon may take to shut down before it is killed.
pub const DEFAULT_SHUTDOWN_GRACE_MS: u64 = 5_000;

/// An endpoint that spawns a daemon of its own.
#[derive(Debug, PartialEq, Eq)]
pub struct SpawnSpec {
    /// Daemon command.
    pub command: String,
    /// Daemon arguments.
    pub args: Vec<String>,
    /// Extra environment of the daemon.
    pub env: TextMap<String>,
    /// Working directory of the daemon.
    pub cwd: Option<String>,
    /// Grace period of the shutdown.
    pub shutdown_grace_ms: u64,
}

/// The fields of a spawning endpoint, as far as they are given.
#[derive(Debug, PartialEq, Eq)]
pub struct SpawnFields {
    /// Daemon command.
    pub command: Option<String>,
    /// Daemon arguments.
    pub args: Option<Vec<String>>,
    /// Extra environment of the daemon.
    pub env: Option<TextMap<String>>,
    /// Working directory of the daemon.
    pub cwd: Option<String>,
    /// Grace period of the shutdown.
    pub shutdown_grace_ms: Option<u64>,
}

/// The members of an endpoint, as far as they are given.
#[derive(Debug, PartialEq, Eq)]
pub struct EndpointFields {
    /// The spawning form.
    pub spawn: Option<SpawnFields>,
    /// The attaching form.
    pub attach: Option<Json>,
}

impl SpawnSpec {
    /// Whether this is what the given fields say, with the default for each
    /// field that is missing.
    pub open spec fn fills(self, fields: SpawnFields) -> bool {
        &&& self.command@ == (match fields.command {
            Some(command) => command@,
            None => DEFAULT_DAEMON_COMMAND@,
        })
        &&& match fields.args {
            Some(args) => self.args == args,
            None => self.args@ == Seq::<String>::empty(),
        }
        &&& match fields.env {
            Some(env) => self.env == env,
            None => self.env@ == crate::keyed::Keyed::<String>::none(),
        }
        &&& self.cwd == fields.cwd
        &&& self.shutdown_grace_ms == (match fields.shutdown_grace_ms {
            Some(ms) => ms,
            None => DEFAULT_SHUTDOWN_GRACE_MS,
        })
    }

    fn filled(fields: SpawnFields) -> (r: SpawnSpec)
        ensures
            r.fills(fields),
    {
        SpawnSpec {
            command: match fields.command {
                Some(command) => command,
                None => DEFAULT_DAEMON_COMMAND.to_owned(),
            },
            args: match fields.args {
                Some(args) => args,
                None => Vec::new(),
            },
            env: match fields.env {
                Some(env) => env,
                None => TextMap::new(),
            },
            cwd: fields.cwd,
            shutdown_grace_ms: match fields.shutdown_grace_ms {
                Some(ms) => ms,
                None => DEFAULT_SHUTDOWN_GRACE_MS,
            },
        }
    }

    /// The grace period in effect: at least one millisecond.
    pub fn close_grace_ms(&self) -> (r: u64)
        ensures
            r == (if self.shutdown_grace_ms == 0 {
                1
            } else {
                self.shutdown_grace_ms
            }),
    {
        if self.shutdown_grace_ms == 0 {
            1
        } else {
            self.shutdown_grace_ms
        }
    }
}

/// Why an endpoint is refused: it cannot be read, or it is not exactly the
/// spawning form.
pub open spec fn endpoint_fault(endpoint: Result<EndpointFields, String>) -> Option<Seq<char>> {
    match endpoint {
        Err(detail) => Some(detail@),
        Ok(fields) => match (fields.spawn, fields.attach) {
            (Some(_), None) => None,
            (None, Some(_)) => Some(
                "the attach endpoint form is reserved for a later milestone; M1 implements spawn only (04 §9.1)"@,
            ),
            (Some(_), Some(_)) => Some(
                "endpoint must be exactly one of { spawn } | { attach }"@,
            ),
            (None, None) => Some("endpoint must carry a { spawn: SpawnSpec } object"@),
        },
    }
}

/// The spawning form of an endpoint that was read, or of one that could not
/// be, with the reader's text.
pub fn parse_spawn_endpoint(endpoint: Result<EndpointFields, String>) -> (r: Result<
    SpawnSpec,
    ProviderError,
>)
    ensures
        match endpoint_fault(endpoint) {
            Some(fault) => r matches Err(e) && e@ == ProviderErrorV::concluded(
                ErrorClass::BindArgumentsInvalid,
                "invalid DeviceRail endpoint: "@ + fault,
            ),
            None => r matches Ok(spec) && spec.fills(endpoint->Ok_0.spawn->0),
        },
{
    let detail = match endpoint {
        Err(detail) => detail,
        Ok(fields) => match (fields.spawn, fields.attach) {
            (Some(spawn), None) => {
                return Ok(SpawnSpec::filled(spawn));
            },
            (None, Some(_)) => {
                "the attach endpoint form is reserved for a later milestone; M1 implements spawn only (04 §9.1)".to_owned()
            },
            (Some(_), Some(_)) => {
                "endpoint must be exactly one of { spawn } | { attach }".to_owned()
            },
            (None, None) => "endpoint must carry a { spawn: SpawnSpec } object".to_owned(),
        },
    };
    Err(
        ProviderError::concluded(
            ErrorClass::BindArgumentsInvalid,
            concat("invalid DeviceRail endpoint: ", detail.as_str()),
        ),
    )
}

} // verus!
