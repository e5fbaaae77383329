//! The raw options, as the flag parser hands them over.

use vstd::prelude::*;

verus! {

/// The command line as a flat record. Nothing in it has been checked yet,
/// and the flags `-t`, `-s` and `-g` are still phrased as the user gives
/// them: each one switches something off.
///
/// | field | flag | default |
/// |---|---|---|
/// | `docker_interval` | `-d <ms>` | 1000 |
/// | `timestamp` | `-t`, leave timestamps out | false |
/// | `color` | `-c`, colorize; not together with `-r` | false |
/// | `raw` | `-r`, keep logs unformatted; not together with `-c` | false |
/// | `show_self` | `-s`, leave the program's own container out | false |
/// | `gui` | `-g`, draw no gui | false |
/// | `host` | `--host <string>` | none |
/// | `use_cli` | `--use-cli` | false |
/// | `save_dir` | `--save-dir <string>` | none |
/// | `base_url_map` | `-m`, `--base-url-map <tokens...>` | none |
#[derive(Debug, Clone)]
pub struct Args {
    pub docker_interval: u32,
    pub timestamp: bool,
    pub color: bool,
    pub raw: bool,
    pub show_self: bool,
    pub gui: bool,
    pub host: Option<String>,
    pub use_cli: bool,
    pub save_dir: Option<String>,
    pub base_url_map: Option<Vec<String>>,
}

/// `Args` with its texts as plain values.
pub struct ArgsView {
    pub docker_interval: u32,
    pub timestamp: bool,
    pub color: bool,
    pub raw: bool,
    pub show_self: bool,
    pub gui: bool,
    pub host: Option<Seq<char>>,
    pub use_cli: bool,
    pub save_dir: Option<Seq<char>>,
    pub base_url_map: Option<Seq<Seq<char>>>,
}

impl View for Args {
    type V = ArgsView;

    open spec fn view(&self) -> ArgsView {
        ArgsView {
            docker_interval: self.docker_interval,
            timestamp: self.timestamp,
            color: self.color,
            raw: self.raw,
            show_self: self.show_self,
            gui: self.gui,
            host: self.host.deep_view(),
            use_cli: self.use_cli,
            save_dir: self.save_dir.deep_view(),
            base_url_map: self.base_url_map.deep_view(),
        }
    }
}

/// The interval between two updates when `-d` is not given, in ms.
pub const DEFAULT_DOCKER_INTERVAL: u32 = 1000;

impl ArgsView {
    /// The record of a command line without any flag.
    pub open spec fn unset() -> ArgsView {
        ArgsView {
            docker_interval: DEFAULT_DOCKER_INTERVAL,
            timestamp: false,
            color: false,
            raw: false,
            show_self: false,
            gui: false,
            host: None,
            use_cli: false,
            save_dir: None,
            base_url_map: None,
        }
    }
}

impl Default for Args {
    /// The record of a command line without any flag.
    fn default() -> (args: Args)
        ensures
            args@ == ArgsView::unset(),
    {
        Args {
            docker_interval: DEFAULT_DOCKER_INTERVAL,
            timestamp: false,
            color: false,
            raw: false,
            show_self: false,
            gui: false,
            host: None,
            use_cli: false,
            save_dir: None,
            base_url_map: None,
        }
    }
}

} // verus!
