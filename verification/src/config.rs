//! Launch configuration: validation, path resolution and the worker's
//! argument vector.
//!
//! A configuration is immutable once built. Its two ports are validated
//! before any process or filesystem side effect; the data directory is
//! handed over already resolved against the platform's application-data
//! directory, since reading the environment is the binary's business, not
//! the library's.

use vstd::prelude::*;
use crate::errors::NodeError;
use crate::ports::{dec_str, digits_val, is_port_string, parse_port, port_to_string};

verus! {

/// Spec-level image of a launch configuration.
pub struct ConfigModel {
    pub network: Seq<char>,
    pub datapath: Seq<char>,
    pub daemon_port: u16,
    pub peer_port: u16,
    pub account_name: Seq<char>,
}

/// Everything one worker launch needs: network name, resolved data
/// directory (empty when none was given), the two validated ports, and the
/// logical account the worker will run for.
pub struct LaunchConfig {
    pub network: String,
    pub datapath: String,
    pub daemon_port: u16,
    pub peer_port: u16,
    pub account_name: String,
}

impl View for LaunchConfig {
    type V = ConfigModel;

    open spec fn view(&self) -> ConfigModel {
        ConfigModel {
            network: self.network@,
            datapath: self.datapath@,
            daemon_port: self.daemon_port,
            peer_port: self.peer_port,
            account_name: self.account_name@,
        }
    }
}

impl LaunchConfig {
    /// Validates the two port strings and assembles a configuration.
    ///
    /// Succeeds exactly when both strings name a 16-bit port; no other
    /// input is touched, so rejection has no side effect.
    pub fn new(
        network: String,
        datapath: String,
        daemon_listening_port: &str,
        ldk_peer_listening_port: &str,
        account_name: String,
    ) -> (r: Result<LaunchConfig, NodeError>)
        ensures
            r is Ok <==> is_port_string(daemon_listening_port@) && is_port_string(
                ldk_peer_listening_port@,
            ),
            r is Ok ==> r->Ok_0@ == (ConfigModel {
                network: network@,
                datapath: datapath@,
                daemon_port: (digits_val(daemon_listening_port@) as u16),
                peer_port: (digits_val(ldk_peer_listening_port@) as u16),
                account_name: account_name@,
            }),
            r is Err ==> r == Err::<LaunchConfig, NodeError>(NodeError::InvalidPortNumber),
    {
        let daemon_port = parse_port(daemon_listening_port)?;
        let peer_port = parse_port(ldk_peer_listening_port)?;
        Ok(LaunchConfig { network, datapath, daemon_port, peer_port, account_name })
    }

    /// The worker's argument vector: data directory (possibly empty), the
    /// two port flags with their decimal values, and the network flag.
    pub fn build_args(&self) -> (r: Vec<String>)
        ensures
            r.deep_view() == arg_model(self@),
    {
        let mut args: Vec<String> = Vec::new();
        args.push(self.datapath.clone());
        args.push(String::from_str("--daemon-listening-port"));
        args.push(port_to_string(self.daemon_port));
        args.push(String::from_str("--ldk-peer-listening-port"));
        args.push(port_to_string(self.peer_port));
        args.push(String::from_str("--network"));
        args.push(self.network.clone());
        proof {
            assert(args.deep_view() =~= arg_model(self@));
        }
        args
    }
}

/// The argument vector a configuration prescribes, as sequences.
pub open spec fn arg_model(c: ConfigModel) -> Seq<Seq<char>> {
    seq![
        c.datapath,
        "--daemon-listening-port"@,
        dec_str(c.daemon_port as nat),
        "--ldk-peer-listening-port"@,
        dec_str(c.peer_port as nat),
        "--network"@,
        c.network,
    ]
}

/// Joins a directory and an entry below it with the path separator.
pub fn join_path(dir: &str, name: &str) -> (r: String)
    ensures
        r@ == dir@ + "/"@ + name@,
{
    let mut s = dir.to_owned();
    s.append("/");
    s.append(name);
    s
}

/// Resolves the data directory a caller asked for against the application
/// data directory: empty when none was asked for, a path below the
/// application directory otherwise.
pub fn resolve_datapath(app_data_dir: &str, datapath: &Option<String>) -> (r: String)
    ensures
        datapath is None ==> r@ == Seq::<char>::empty(),
        datapath is Some ==> r@ == app_data_dir@ + "/"@ + datapath->0@,
{
    match datapath {
        Some(path) => join_path(app_data_dir, path.as_str()),
        None => String::new(),
    }
}

} // verus!
