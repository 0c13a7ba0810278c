//! Settings of the service, fixed at startup.

use vstd::prelude::*;
use vstd::string::*;

verus! {

/// What the service is started with.
#[derive(Clone, Debug, PartialEq, Eq)]
pub struct Config {
    /// Address and port that the server listens on.
    pub bind_address: String,
    /// Directory that holds the artifacts.
    pub storage_dir: String,
    /// Extension that an uploaded file name must end in, dot included.
    pub accepted_extension: String,
    /// Name or path of the merge tool.
    pub tool_path: String,
    /// Seconds after which a run of the tool is ended and counts as failed.
    pub tool_timeout_secs: u64,
}

/// A `Config` as plain sequences of characters.
pub struct ConfigView {
    pub bind_address: Seq<char>,
    pub storage_dir: Seq<char>,
    pub accepted_extension: Seq<char>,
    pub tool_path: Seq<char>,
    pub tool_timeout_secs: u64,
}

impl View for Config {
    type V = ConfigView;

    open spec fn view(&self) -> ConfigView {
        ConfigView {
            bind_address: self.bind_address@,
            storage_dir: self.storage_dir@,
            accepted_extension: self.accepted_extension@,
            tool_path: self.tool_path@,
            tool_timeout_secs: self.tool_timeout_secs,
        }
    }
}

/// The settings used when none are given.
pub open spec fn standard() -> ConfigView {
    ConfigView {
        bind_address: "100.90.241.174:8080"@,
        storage_dir: "./storage"@,
        accepted_extension: ".orf"@,
        tool_path: "hdrmerge"@,
        tool_timeout_secs: 600,
    }
}

impl Default for Config {
    fn default() -> (r: Config)
        ensures
            r@ == standard(),
    {
        Config {
            bind_address: String::from_str("100.90.241.174:8080"),
            storage_dir: String::from_str("./storage"),
            accepted_extension: String::from_str(".orf"),
            tool_path: String::from_str("hdrmerge"),
            tool_timeout_secs: 600,
        }
    }
}

} // verus!
