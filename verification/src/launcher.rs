//! The game launcher's wrapper: which presence program it starts.

use vstd::prelude::*;

verus! {

/// The presence program's file name.
pub const RPC_BINARY_NAME: &'static str = "rl_discord_rpc";

/// Where a user-local install of the presence program lives, under the home
/// directory.
pub const USER_LOCAL_RPC_BINARY: &'static str = ".local/bin/rl_discord_rpc";

/// The wrapper's log file under the home directory.
pub const USER_LOG_FILE: &'static str = ".local/share/rl_rpc_wrapper.log";

/// The wrapper's log file when there is no home directory.
pub const FALLBACK_LOG_FILE: &'static str = "/tmp/rl_rpc_wrapper.log";

/// Which presence program the wrapper starts.
pub enum RpcBinary {
    /// The one next to the wrapper's own executable.
    BesideExecutable,
    /// The user-local install under the home directory.
    UserLocalBin,
    /// Whatever the search path finds under the program's name.
    OnPath,
}

/// The presence program to start: the one beside the wrapper if it exists,
/// else the user-local install if it exists, else the one on the search
/// path.
pub fn choose_rpc_binary(beside_executable_exists: bool, user_local_exists: bool) -> (choice:
    RpcBinary)
    ensures
        beside_executable_exists ==> choice is BesideExecutable,
        !beside_executable_exists && user_local_exists ==> choice is UserLocalBin,
        !beside_executable_exists && !user_local_exists ==> choice is OnPath,
{
    if beside_executable_exists {
        RpcBinary::BesideExecutable
    } else if user_local_exists {
        RpcBinary::UserLocalBin
    } else {
        RpcBinary::OnPath
    }
}

} // verus!
