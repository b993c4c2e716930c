//! Where the server executable, its helper tool, its cache and its log live,
//! and the environment it is started with.
use vstd::prelude::*;
use crate::error::StartError;
use crate::text::{decimal, decimal_string, joined};

verus! {

/// The single well-known TCP port of the server.
pub const SERVER_PORT: u16 = 3847;

/// What `Path::join` makes of a base path and a relative part, as text.
pub uninterp spec fn path_join(base: Seq<char>, part: Seq<char>) -> Seq<char>;

/// Relies on std::path::Path::join: the joined path, taken back as text. The
/// result depends on the two arguments alone, for a given build target.
#[verifier::external_body]
fn join_path(base: &str, part: &str) -> (r: String)
    ensures
        r@ == path_join(base@, part@),
{
    std::path::Path::new(base).join(part).to_string_lossy().into_owned()
}

/// The processor architectures for which a server executable is bundled.
pub open spec fn supported_arch(arch: Seq<char>) -> bool {
    arch == "aarch64"@ || arch == "x86_64"@
}

/// The file name of the server executable built for `arch`.
pub open spec fn binary_name_of(arch: Seq<char>) -> Seq<char> {
    "voxtube-server-"@ + arch
}

/// Picks the executable for the architecture `arch`, or fails for an
/// architecture without one.
pub fn binary_name(arch: &String) -> (r: Result<String, StartError>)
    ensures
        supported_arch(arch@) ==> (r matches Ok(n) && n@ == binary_name_of(arch@)),
        !supported_arch(arch@) ==> (r matches Err(StartError::UnsupportedArchitecture { arch: a })
            && a@ == arch@),
{
    let aarch64 = String::from_str("aarch64");
    let x86_64 = String::from_str("x86_64");
    if *arch == aarch64 || *arch == x86_64 {
        Ok(joined("voxtube-server-", arch.as_str()))
    } else {
        Err(StartError::UnsupportedArchitecture { arch: arch.clone() })
    }
}

/// Everything a launch needs to know, resolved from the shell's directories.
pub struct ServerConfig {
    /// The server executable.
    pub server_path: String,
    /// The auxiliary command-line tool handed to the server.
    pub cli_path: String,
    /// The server's cache directory.
    pub cache_dir: String,
    /// The directory that holds the log file.
    pub log_dir: String,
    /// The log file that receives the server's output streams.
    pub log_file: String,
    /// The port the server listens on.
    pub port: u16,
}

/// The configuration for architecture `arch`, bundle resources under
/// `resource_dir` and application data under `data_dir`.
pub open spec fn config_spec(
    arch: Seq<char>,
    resource_dir: Seq<char>,
    data_dir: Seq<char>,
    c: ServerConfig,
) -> bool {
    let bin = path_join(resource_dir, "binaries"@);
    let logs = path_join(data_dir, "logs"@);
    &&& c.server_path@ == path_join(bin, binary_name_of(arch))
    &&& c.cli_path@ == path_join(bin, "yt"@)
    &&& c.cache_dir@ == path_join(data_dir, "cache"@)
    &&& c.log_dir@ == logs
    &&& c.log_file@ == path_join(logs, "voxtube-server.log"@)
    &&& c.port == SERVER_PORT
}

/// The environment variables set for the child: name and value, in order.
pub open spec fn env_spec(c: ServerConfig) -> Seq<(Seq<char>, Seq<char>)> {
    seq![
        ("CACHE_DIR"@, c.cache_dir@),
        ("YT_CLI_PATH"@, c.cli_path@),
        ("PORT"@, decimal(c.port as nat)),
    ]
}

impl ServerConfig {
    /// Resolves the configuration, failing only on an unsupported
    /// architecture.
    pub fn resolve(arch: &String, resource_dir: &String, data_dir: &String) -> (r: Result<
        ServerConfig,
        StartError,
    >)
        ensures
            supported_arch(arch@) ==> (r matches Ok(c) && config_spec(
                arch@,
                resource_dir@,
                data_dir@,
                c,
            )),
            !supported_arch(arch@) ==> (r matches Err(StartError::UnsupportedArchitecture {
                arch: a,
            }) && a@ == arch@),
    {
        let name = match binary_name(arch) {
            Ok(n) => n,
            Err(e) => return Err(e),
        };
        let bin = join_path(resource_dir.as_str(), "binaries");
        let server_path = join_path(bin.as_str(), name.as_str());
        let cli_path = join_path(bin.as_str(), "yt");
        let cache_dir = join_path(data_dir.as_str(), "cache");
        let log_dir = join_path(data_dir.as_str(), "logs");
        let log_file = join_path(log_dir.as_str(), "voxtube-server.log");
        Ok(ServerConfig { server_path, cli_path, cache_dir, log_dir, log_file, port: SERVER_PORT })
    }

    /// The environment injected into the server process.
    pub fn child_env(&self) -> (r: Vec<(String, String)>)
        ensures
            r.len() == 3,
            forall|i: int|
                0 <= i < 3 ==> (#[trigger] r[i]).0@ == env_spec(*self)[i].0 && r[i].1@
                    == env_spec(*self)[i].1,
    {
        let mut r: Vec<(String, String)> = Vec::new();
        r.push((String::from_str("CACHE_DIR"), self.cache_dir.clone()));
        r.push((String::from_str("YT_CLI_PATH"), self.cli_path.clone()));
        r.push((String::from_str("PORT"), decimal_string(self.port as u64)));
        r
    }
}

} // verus!
