//! Configuration of the command-line tool: where data lives and how output looks.
use crate::text::{concat2, owned};
use vstd::prelude::*;

verus! {

broadcast use vstd::string::group_string_axioms;

/// `name` inside the directory `dir`: joined by `/` unless `dir` is empty or already ends
/// with one.
pub open spec fn path_join(dir: Seq<char>, name: Seq<char>) -> Seq<char> {
    if dir.len() == 0 {
        name
    } else if dir.last() == '/' {
        dir + name
    } else {
        dir + seq!['/'] + name
    }
}

/// `name` inside the directory `dir`.
pub fn join_path(dir: &str, name: &str) -> (r: String)
    ensures
        r@ == path_join(dir@, name@),
{
    let n = dir.unicode_len();
    if n == 0 {
        return owned(name);
    }
    if dir.get_char(n - 1) == '/' {
        concat2(dir, name)
    } else {
        proof {
            reveal_strlit("/");
        }
        let with_sep = concat2(dir, "/");
        concat2(with_sep.as_str(), name)
    }
}

/// Configuration: data directory, output format (`human` or `json`), log level, and an
/// optional proof-of-work target (hex).
#[derive(Debug, Clone)]
pub struct Config {
    /// Data directory (default `.metering-chain` in the working directory).
    pub data_dir: String,
    pub output_format: String,
    pub log_level: String,
    pub pow_target: Option<String>,
}

/// The default data directory, relative to the working directory.
pub open spec fn default_data_dir() -> Seq<char> {
    ".metering-chain"@
}

impl Config {
    /// Defaults: data in `.metering-chain`, human output, `info` logging, no target.
    pub fn new() -> (c: Config)
        ensures
            c.data_dir@ == default_data_dir(),
            c.output_format@ == "human"@,
            c.log_level@ == "info"@,
            c.pow_target is None,
    {
        Config {
            data_dir: owned(".metering-chain"),
            output_format: owned("human"),
            log_level: owned("info"),
            pow_target: None,
        }
    }

    /// Defaults with another data directory.
    pub fn with_data_dir(data_dir: String) -> (c: Config)
        ensures
            c.data_dir@ == data_dir@,
            c.output_format@ == "human"@,
            c.log_level@ == "info"@,
            c.pow_target is None,
    {
        let base = Config::new();
        Config { data_dir, ..base }
    }

    /// Defaults, with each setting that is given replacing its default.
    pub fn from_overrides(
        data_dir: Option<String>,
        output_format: Option<String>,
        log_level: Option<String>,
    ) -> (c: Config)
        ensures
            c.data_dir@ == (match data_dir {
                Some(d) => d@,
                None => default_data_dir(),
            }),
            c.output_format@ == (match output_format {
                Some(f) => f@,
                None => "human"@,
            }),
            c.log_level@ == (match log_level {
                Some(l) => l@,
                None => "info"@,
            }),
            c.pow_target is None,
    {
        let mut config = Config::new();
        if let Some(d) = data_dir {
            config.data_dir = d;
        }
        if let Some(f) = output_format {
            config.output_format = f;
        }
        if let Some(l) = log_level {
            config.log_level = l;
        }
        config
    }

    pub fn get_data_dir(&self) -> (r: &String)
        ensures
            r@ == self.data_dir@,
    {
        &self.data_dir
    }

    pub fn set_data_dir(&mut self, dir: String)
        ensures
            final(self).data_dir@ == dir@,
            final(self).output_format == old(self).output_format,
            final(self).log_level == old(self).log_level,
            final(self).pow_target == old(self).pow_target,
    {
        self.data_dir = dir;
    }

    pub fn get_output_format(&self) -> (r: &str)
        ensures
            r@ == self.output_format@,
    {
        self.output_format.as_str()
    }

    /// Set the output format (`human` or `json`).
    pub fn set_output_format(&mut self, format: String)
        ensures
            final(self).output_format@ == format@,
            final(self).data_dir == old(self).data_dir,
            final(self).log_level == old(self).log_level,
            final(self).pow_target == old(self).pow_target,
    {
        self.output_format = format;
    }

    pub fn get_log_level(&self) -> (r: &str)
        ensures
            r@ == self.log_level@,
    {
        self.log_level.as_str()
    }

    pub fn set_log_level(&mut self, level: String)
        ensures
            final(self).log_level@ == level@,
            final(self).data_dir == old(self).data_dir,
            final(self).output_format == old(self).output_format,
            final(self).pow_target == old(self).pow_target,
    {
        self.log_level = level;
    }

    /// The transaction log: `tx.log` in the data directory.
    pub fn get_tx_log_path(&self) -> (r: String)
        ensures
            r@ == path_join(self.data_dir@, "tx.log"@),
    {
        join_path(self.data_dir.as_str(), "tx.log")
    }

    /// The state snapshot: `state.bin` in the data directory.
    pub fn get_state_path(&self) -> (r: String)
        ensures
            r@ == path_join(self.data_dir@, "state.bin"@),
    {
        join_path(self.data_dir.as_str(), "state.bin")
    }

    /// The state as JSON, for debugging: `state.json` in the data directory.
    pub fn get_state_json_path(&self) -> (r: String)
        ensures
            r@ == path_join(self.data_dir@, "state.json"@),
    {
        join_path(self.data_dir.as_str(), "state.json")
    }

    /// The wallet store: `wallets.json` in the data directory.
    pub fn get_wallets_path(&self) -> (r: String)
        ensures
            r@ == path_join(self.data_dir@, "wallets.json"@),
    {
        join_path(self.data_dir.as_str(), "wallets.json")
    }
}

impl Default for Config {
    fn default() -> (c: Config)
        ensures
            c.data_dir@ == default_data_dir(),
            c.output_format@ == "human"@,
            c.log_level@ == "info"@,
            c.pow_target is None,
    {
        Config::new()
    }
}

} // verus!
