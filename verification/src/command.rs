//! The spawn command that a session's configuration calls for.
//!
//! The external tunnel process is a fixed executable with a fixed subcommand
//! and document name; only the target, the ports and the credential profile
//! vary.  The library pins the whole argument vector down, so the embedding
//! program has nothing to decide when it performs the spawn.

use vstd::prelude::*;
use vstd::string::StringExecFns;
use crate::config::SessionConfig;
use crate::decimal::{decimal_string, spec_decimal};

verus! {

/// The parameters argument: `portNumber=<dest>,localPortNumber=<host>`.
pub open spec fn spec_parameters(dest_port: nat, host_port: nat) -> Seq<char> {
    "portNumber="@ + spec_decimal(dest_port) + ",localPortNumber="@ + spec_decimal(host_port)
}

/// The eight arguments of the spawn command, in order.
pub open spec fn spec_args(config: SessionConfig) -> Seq<Seq<char>> {
    seq![
        "ssm"@,
        "start-session"@,
        "--target"@,
        config.identifier@,
        "--document-name"@,
        "AWS-StartPortForwardingSession"@,
        "--parameters"@,
        spec_parameters(config.dest_port as nat, config.host_port as nat),
    ]
}

/// Everything the embedding program needs to spawn the tunnel process:
/// program name, arguments in order, and one environment variable naming
/// the credential profile.
#[derive(Debug, PartialEq)]
pub struct CommandSpec {
    pub program: String,
    pub args: Vec<String>,
    pub env_name: String,
    pub env_value: String,
}

impl CommandSpec {
    /// This is exactly the spawn command that `config` calls for.
    pub open spec fn is_for(self, config: SessionConfig) -> bool {
        &&& self.program@ == "aws"@
        &&& self.args.deep_view() == spec_args(config)
        &&& self.env_name@ == "AWS_PROFILE"@
        &&& self.env_value@ == config.profile@
    }
}

/// Renders the parameters argument for the two ports.
pub fn parameters_string(dest_port: usize, host_port: usize) -> (r: String)
    ensures
        r@ == spec_parameters(dest_port as nat, host_port as nat),
{
    let mut r = String::from_str("portNumber=");
    let dest = decimal_string(dest_port);
    r.append(dest.as_str());
    r.append(",localPortNumber=");
    let host = decimal_string(host_port);
    r.append(host.as_str());
    proof {
        assert(r@ =~= spec_parameters(dest_port as nat, host_port as nat));
    }
    r
}

/// Builds the spawn command for `config`.
pub fn build_command(config: &SessionConfig) -> (c: CommandSpec)
    ensures
        c.is_for(*config),
{
    let mut args: Vec<String> = Vec::new();
    args.push(String::from_str("ssm"));
    args.push(String::from_str("start-session"));
    args.push(String::from_str("--target"));
    args.push(config.identifier.clone());
    args.push(String::from_str("--document-name"));
    args.push(String::from_str("AWS-StartPortForwardingSession"));
    args.push(String::from_str("--parameters"));
    args.push(parameters_string(config.dest_port, config.host_port));
    let c = CommandSpec {
        program: String::from_str("aws"),
        args,
        env_name: String::from_str("AWS_PROFILE"),
        env_value: config.profile.clone(),
    };
    proof {
        assert(c.args.deep_view() =~= spec_args(*config));
    }
    c
}

} // verus!
