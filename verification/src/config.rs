//! Start-up configuration, fixed for the life of the process.

use vstd::prelude::*;

verus! {

/// How much the server tells a client about a failure.
#[derive(Clone, Copy, Debug, PartialEq, Eq, Structural)]
pub enum Mode {
    /// Error bodies carry the underlying error text.
    Development,
    /// Error bodies carry fixed wording only.
    Production,
}

/// The port the server listens on unless told otherwise.
pub const DEFAULT_PORT: u16 = 3000;

/// The directory that is served unless told otherwise: the working
/// directory.
pub const DEFAULT_SERVE_PATH: &'static str = "./";

/// The configuration that every request is handled under.
#[derive(Clone, Debug, PartialEq, Eq)]
pub struct Config {
    /// The directory that is served, as given at start-up.
    pub root: Vec<u8>,
    /// Whether error bodies may carry diagnostics.
    pub mode: Mode,
    /// The loopback port to listen on.
    pub port: u16,
}

/// The mathematical value of a [`Config`].
pub struct ConfigView {
    pub root: Seq<u8>,
    pub mode: Mode,
    pub port: u16,
}

impl View for Config {
    type V = ConfigView;

    open spec fn view(&self) -> ConfigView {
        ConfigView { root: self.root@, mode: self.mode, port: self.port }
    }
}

impl Config {
    /// A configuration for `root` that listens on the default port.
    pub fn new(root: Vec<u8>, mode: Mode) -> (config: Config)
        ensures
            config@ == (ConfigView { root: root@, mode, port: DEFAULT_PORT }),
    {
        Config { root, mode, port: DEFAULT_PORT }
    }
}

/// Whether the server runs in development mode.
pub fn is_dev(config: &Config) -> (dev: bool)
    ensures
        dev == (config.mode == Mode::Development),
{
    config.mode == Mode::Development
}

} // verus!
