//! What is settled before the server starts: the address it binds to and
//! whether the watch can begin.
use vstd::prelude::*;
use vstd::string::StringExecFns;

verus! {

/// The address the server binds to when none is given.
pub const DEFAULT_IP: &'static str = "127.0.0.1";

/// The port the server binds to when none is given.
pub const DEFAULT_PORT: &'static str = "8080";

/// Why the server did not start.
#[derive(Clone, Copy, Debug, PartialEq, Eq, Structural)]
pub enum StartupError {
    /// The address and port do not make a socket address.
    InvalidAddress,
    /// The file to watch does not exist.
    MissingFile,
}

/// What the program was started with.
#[derive(Clone, Debug)]
pub struct Config {
    /// The path of the file to watch, as given.
    pub filename: String,
    /// The address to bind to.
    pub ip: String,
    /// The port to bind to.
    pub port: String,
}

/// The text `ip:port`.
pub open spec fn host_text(ip: Seq<char>, port: Seq<char>) -> Seq<char> {
    ip + seq![':'] + port
}

impl Config {
    /// The host the server is reached at, written as `ip:port`.
    pub fn host(&self) -> (host: String)
        ensures
            host@ == host_text(self.ip@, self.port@),
    {
        let mut host = self.ip.clone();
        proof {
            reveal_strlit(":");
            assert(":"@ =~= seq![':']);
        }
        host.append(":");
        host.append(self.port.as_str());
        host
    }
}

/// Decides whether the server may start, from what the caller found out:
/// whether the host parses as a socket address and whether the file exists.
/// The address is judged first.
pub fn check_startup(address_is_valid: bool, file_exists: bool) -> (verdict: Result<
    (),
    StartupError,
>)
    ensures
        verdict == if !address_is_valid {
            Err::<(), StartupError>(StartupError::InvalidAddress)
        } else if !file_exists {
            Err(StartupError::MissingFile)
        } else {
            Ok(())
        },
{
    if !address_is_valid {
        Err(StartupError::InvalidAddress)
    } else if !file_exists {
        Err(StartupError::MissingFile)
    } else {
        Ok(())
    }
}

impl StartupError {
    /// The message shown to the operator.
    pub fn message(&self) -> (message: &'static str)
        ensures
            message@ == match self {
                StartupError::InvalidAddress => "could not parse ip/port"@,
                StartupError::MissingFile => "file does not exist"@,
            },
    {
        match self {
            StartupError::InvalidAddress => "could not parse ip/port",
            StartupError::MissingFile => "file does not exist",
        }
    }
}

} // verus!
