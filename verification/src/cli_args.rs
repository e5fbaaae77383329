//! The configuration that the program runs with.
//!
//! It is made once, at start-up, from the raw options and from two things
//! that the command line does not hold: what the environment says about
//! running inside a container, and the user's home directory. Either there
//! is a complete, valid configuration, or there is an error.

use std::path::PathBuf;
use vstd::prelude::*;

use crate::args::{Args, ArgsView};
use crate::base_url_map::{
    lemma_mapping_of_wf, lemma_parse_token_ok, parse_token, parsed_view, BaseUrlMap,
    BaseUrlMapView,
};
use crate::container::{marks_container, ENV_VALUE};
use crate::error::ConfigError;
use crate::save_dir::{path_of, platform_home_dir, resolved_save_dir, save_dir_from};
use crate::split::split_at_separator;

verus! {

/// The validated configuration.
///
/// `timestamp`, `show_self` and `gui` say what is switched on: each is the
/// opposite of the flag of the same name in `Args`, which switches it off.
/// `in_container` is found out, never given by the user. `save_dir` is
/// absent where no directory could be resolved, and saving is then off.
#[derive(Debug, Clone)]
pub struct CliArgs {
    pub color: bool,
    pub docker_interval: u32,
    pub gui: bool,
    pub host: Option<String>,
    pub in_container: bool,
    pub save_dir: Option<PathBuf>,
    pub raw: bool,
    pub show_self: bool,
    pub timestamp: bool,
    pub use_cli: bool,
    pub base_url_map: Option<Vec<BaseUrlMap>>,
}

/// `CliArgs` with its texts as plain values.
pub struct CliArgsView {
    pub color: bool,
    pub docker_interval: u32,
    pub gui: bool,
    pub host: Option<Seq<char>>,
    pub in_container: bool,
    pub save_dir: Option<PathBuf>,
    pub raw: bool,
    pub show_self: bool,
    pub timestamp: bool,
    pub use_cli: bool,
    pub base_url_map: Option<Seq<BaseUrlMapView>>,
}

impl View for CliArgs {
    type V = CliArgsView;

    open spec fn view(&self) -> CliArgsView {
        CliArgsView {
            color: self.color,
            docker_interval: self.docker_interval,
            gui: self.gui,
            host: self.host.deep_view(),
            in_container: self.in_container,
            save_dir: self.save_dir,
            raw: self.raw,
            show_self: self.show_self,
            timestamp: self.timestamp,
            use_cli: self.use_cli,
            base_url_map: self.base_url_map.deep_view(),
        }
    }
}

impl CliArgsView {
    /// What holds of every configuration that start-up hands out: the
    /// interval is positive, and each entry of the url map has exactly one
    /// selector.
    pub open spec fn wf(self) -> bool {
        &&& self.docker_interval > 0
        &&& self.base_url_map matches Some(entries) ==> forall|i: int|
            0 <= i < entries.len() ==> (#[trigger] entries[i]).wf()
    }
}

impl CliArgs {
    /// What holds of every configuration that start-up hands out.
    pub open spec fn wf(&self) -> bool {
        self@.wf()
    }
}

/// Whether `i` is the place of the first token that does not parse.
pub open spec fn is_first_bad_token(tokens: Seq<Seq<char>>, i: int) -> bool {
    &&& 0 <= i < tokens.len()
    &&& parse_token(tokens[i]) is Err
    &&& forall|j: int| 0 <= j < i ==> (#[trigger] parse_token(tokens[j])) is Ok
}

/// What a list of `-m` tokens means. Each token is read by itself. If all
/// of them parse, the entries stand in the order of their tokens; if not,
/// the error is that of the first token that does not parse.
pub open spec fn parse_tokens(tokens: Seq<Seq<char>>) -> Result<Seq<BaseUrlMapView>, ConfigError> {
    if exists|i: int| is_first_bad_token(tokens, i) {
        let i = choose|i: int| is_first_bad_token(tokens, i);
        Err(parse_token(tokens[i])->Err_0)
    } else {
        Ok(Seq::new(tokens.len(), |i: int| parse_token(tokens[i])->Ok_0))
    }
}

/// The configuration for the raw options `args`, for `marker`, the value
/// of the container variable (`None` when it is unset), and for `home`,
/// the home directory that the platform reported.
///
/// The url map is judged before the interval: with a token that does not
/// parse and an interval of zero, the error is the token's. An absent url
/// map stays absent, and is not an empty one.
pub open spec fn normalize(args: ArgsView, marker: Option<Seq<char>>, home: Option<PathBuf>)
    -> Result<CliArgsView, ConfigError> {
    let entries: Result<Option<Seq<BaseUrlMapView>>, ConfigError> = match args.base_url_map {
        None => Ok(None),
        Some(tokens) => match parse_tokens(tokens) {
            Ok(entries) => Ok(Some(entries)),
            Err(e) => Err(e),
        },
    };
    match entries {
        Err(e) => Err(e),
        Ok(base_url_map) => if args.docker_interval == 0 {
            Err(ConfigError::ZeroInterval)
        } else {
            Ok(
                CliArgsView {
                    color: args.color,
                    docker_interval: args.docker_interval,
                    gui: !args.gui,
                    host: args.host,
                    in_container: marks_container(marker),
                    save_dir: resolved_save_dir(args.save_dir, home),
                    raw: args.raw,
                    show_self: !args.show_self,
                    timestamp: !args.timestamp,
                    use_cli: args.use_cli,
                    base_url_map,
                },
            )
        },
    }
}

/// The outcome of start-up with its configuration as plain values.
pub open spec fn outcome_view(outcome: Result<CliArgs, ConfigError>) -> Result<
    CliArgsView,
    ConfigError,
> {
    match outcome {
        Ok(config) => Ok(config@),
        Err(e) => Err(e),
    }
}

/// A list of parsed `-m` tokens with its entries as plain values.
pub open spec fn entries_view(parsed: Result<Vec<BaseUrlMap>, ConfigError>) -> Result<
    Seq<BaseUrlMapView>,
    ConfigError,
> {
    match parsed {
        Ok(entries) => Ok(entries.deep_view()),
        Err(e) => Err(e),
    }
}

/// At most one place is that of the first token that does not parse.
pub proof fn lemma_first_bad_token_unique(tokens: Seq<Seq<char>>, i: int, j: int)
    requires
        is_first_bad_token(tokens, i),
        is_first_bad_token(tokens, j),
    ensures
        i == j,
{
    if i < j {
        assert(parse_token(tokens[i]) is Ok);
    } else if j < i {
        assert(parse_token(tokens[j]) is Ok);
    }
}

/// The error of a list is that of its first token that does not parse.
pub proof fn lemma_parse_tokens_err(tokens: Seq<Seq<char>>, i: int)
    requires
        is_first_bad_token(tokens, i),
    ensures
        parse_tokens(tokens) == Err::<Seq<BaseUrlMapView>, ConfigError>(
            parse_token(tokens[i])->Err_0,
        ),
{
    let k = choose|k: int| is_first_bad_token(tokens, k);
    lemma_first_bad_token_unique(tokens, i, k);
}

/// A list whose tokens all parse is accepted.
pub proof fn lemma_parse_tokens_all_ok(tokens: Seq<Seq<char>>)
    requires
        forall|i: int| 0 <= i < tokens.len() ==> (#[trigger] parse_token(tokens[i])) is Ok,
    ensures
        parse_tokens(tokens) is Ok,
{
    assert forall|i: int| !is_first_bad_token(tokens, i) by {
        if 0 <= i < tokens.len() {
            assert(parse_token(tokens[i]) is Ok);
        }
    }
}

/// Where some token does not parse, one of them is the first.
pub proof fn lemma_some_token_is_first_bad(tokens: Seq<Seq<char>>, i: int)
    requires
        0 <= i < tokens.len(),
        parse_token(tokens[i]) is Err,
    ensures
        exists|k: int| 0 <= k <= i && is_first_bad_token(tokens, k),
    decreases i,
{
    if forall|j: int| 0 <= j < i ==> (#[trigger] parse_token(tokens[j])) is Ok {
        assert(is_first_bad_token(tokens, i));
    } else {
        let j = choose|j: int| 0 <= j < i && !((#[trigger] parse_token(tokens[j])) is Ok);
        lemma_some_token_is_first_bad(tokens, j);
    }
}

/// The entries keep the order of their tokens: an accepted list has one
/// entry for each token, and the entry at a place is what the token at
/// that place means by itself, whatever stands around it.
pub proof fn lemma_parse_tokens_keeps_order(tokens: Seq<Seq<char>>)
    requires
        parse_tokens(tokens) is Ok,
    ensures
        parse_tokens(tokens)->Ok_0.len() == tokens.len(),
        forall|i: int|
            0 <= i < tokens.len() ==> parse_token(tokens[i]) == Ok::<BaseUrlMapView, ConfigError>(
                #[trigger] parse_tokens(tokens)->Ok_0[i],
            ),
{
    assert forall|i: int| 0 <= i < tokens.len() implies parse_token(tokens[i]) == Ok::<
        BaseUrlMapView,
        ConfigError,
    >(#[trigger] parse_tokens(tokens)->Ok_0[i]) by {
        if parse_token(tokens[i]) is Err {
            lemma_some_token_is_first_bad(tokens, i);
        }
    }
}

/// Every configuration that `normalize` gives is well formed.
pub proof fn lemma_normalize_wf(args: ArgsView, marker: Option<Seq<char>>, home: Option<PathBuf>)
    requires
        normalize(args, marker, home) is Ok,
    ensures
        normalize(args, marker, home)->Ok_0.wf(),
{
    if let Some(tokens) = args.base_url_map {
        lemma_parse_tokens_keeps_order(tokens);
        let entries = parse_tokens(tokens)->Ok_0;
        assert forall|i: int| 0 <= i < entries.len() implies (#[trigger] entries[i]).wf() by {
            assert(parse_token(tokens[i]) == Ok::<BaseUrlMapView, ConfigError>(entries[i]));
            lemma_parse_token_ok(tokens[i]);
        }
    }
}

/// An interval of zero is never accepted, and is the reason given unless a
/// `-m` token is at fault. Any other interval is accepted as it is, small
/// or large, whenever the url map is.
pub proof fn lemma_interval(args: ArgsView, marker: Option<Seq<char>>, home: Option<PathBuf>)
    ensures
        args.docker_interval == 0 ==> normalize(args, marker, home) is Err,
        args.docker_interval == 0 && (args.base_url_map matches Some(tokens) ==> parse_tokens(
            tokens,
        ) is Ok) ==> normalize(args, marker, home) == Err::<CliArgsView, ConfigError>(
            ConfigError::ZeroInterval,
        ),
        args.docker_interval > 0 && (args.base_url_map matches Some(tokens) ==> parse_tokens(
            tokens,
        ) is Ok) ==> normalize(args, marker, home) is Ok,
        normalize(args, marker, home) matches Ok(config) ==> config.docker_interval
            == args.docker_interval,
{
}

/// The three flags that switch something off come out turned round, as
/// what is switched on; the other options pass through as they are.
pub proof fn lemma_switches(args: ArgsView, marker: Option<Seq<char>>, home: Option<PathBuf>)
    requires
        normalize(args, marker, home) is Ok,
    ensures
        ({
            let config = normalize(args, marker, home)->Ok_0;
            &&& config.timestamp == !args.timestamp
            &&& config.show_self == !args.show_self
            &&& config.gui == !args.gui
            &&& config.color == args.color
            &&& config.raw == args.raw
            &&& config.use_cli == args.use_cli
            &&& config.host == args.host
        }),
{
}

/// A directory given in the options is the one saved to, exactly as
/// written; without one it is the home directory, and saving is off when
/// there is none.
pub proof fn lemma_save_dir(args: ArgsView, marker: Option<Seq<char>>, home: Option<PathBuf>)
    requires
        normalize(args, marker, home) is Ok,
    ensures
        args.save_dir matches Some(text) ==> normalize(args, marker, home)->Ok_0.save_dir == Some(
            path_of(text),
        ),
        args.save_dir is None ==> normalize(args, marker, home)->Ok_0.save_dir == home,
{
}

/// The program counts as running inside a container exactly when the
/// container variable is set to the fixed value: not when it is unset, and
/// not with any other value.
pub proof fn lemma_in_container(args: ArgsView, marker: Option<Seq<char>>, home: Option<PathBuf>)
    requires
        normalize(args, marker, home) is Ok,
    ensures
        normalize(args, marker, home)->Ok_0.in_container <==> marker == Some(ENV_VALUE@),
{
}

/// What is found outside the command line decides two fields and nothing
/// else: whether start-up fails, and why, is the same for every container
/// variable and every home directory, and so is the rest of the
/// configuration.
pub proof fn lemma_outside_findings(
    args: ArgsView,
    marker1: Option<Seq<char>>,
    home1: Option<PathBuf>,
    marker2: Option<Seq<char>>,
    home2: Option<PathBuf>,
)
    ensures
        match (normalize(args, marker1, home1), normalize(args, marker2, home2)) {
            (Ok(config1), Ok(config2)) => config2 == (CliArgsView {
                in_container: config2.in_container,
                save_dir: config2.save_dir,
                ..config1
            }),
            (Err(e1), Err(e2)) => e1 == e2,
            _ => false,
        },
{
}

impl CliArgs {
    /// Decides from a reading of the container variable (`None` when it is
    /// unset) whether the program itself runs inside a container: only when
    /// the variable holds exactly the fixed value.
    pub fn check_if_in_container(value: Option<&str>) -> (inside: bool)
        ensures
            inside == marks_container(value.deep_view()),
    {
        match value {
            Some(found) => found.to_owned() == ENV_VALUE.to_owned(),
            None => false,
        }
    }

    /// Reads one `-m` token: the entry that it stands for, or what is
    /// wrong with it. Nothing of a token that is refused is kept.
    pub fn parse_base_url_map_input(input: &str) -> (parsed: Result<BaseUrlMap, ConfigError>)
        ensures
            parsed_view(parsed) == parse_token(input@),
            parsed matches Ok(entry) ==> entry.wf(),
    {
        let (keyword, rest) = match split_at_separator(input) {
            Some((keyword, rest)) => (keyword, Some(rest)),
            None => (input, None),
        };
        let keyword = keyword.to_owned();
        let is_name = keyword == "name".to_owned();
        let is_image = keyword == "image".to_owned();
        let is_label = keyword == "label".to_owned();
        if !(is_name || is_image || is_label) {
            return Err(ConfigError::MapSelector);
        }
        let parts = match rest {
            Some(rest) => split_at_separator(rest),
            None => None,
        };
        let (value, base_url) = match parts {
            Some(parts) => parts,
            None => {
                return Err(ConfigError::MapUrl);
            },
        };
        proof {
            lemma_mapping_of_wf(keyword@, value@, base_url@);
        }
        Ok(
            BaseUrlMap {
                name: if is_name {
                    Some(value.to_owned())
                } else {
                    None
                },
                image: if is_image {
                    Some(value.to_owned())
                } else {
                    None
                },
                label: if is_label {
                    Some(value.to_owned())
                } else {
                    None
                },
                base_url: base_url.to_owned(),
            },
        )
    }

    /// Reads a list of `-m` tokens, each by itself, and keeps their order.
    /// Stops at the first token that does not parse.
    pub fn parse_base_url_map(tokens: &Vec<String>) -> (parsed: Result<Vec<BaseUrlMap>, ConfigError>)
        ensures
            entries_view(parsed) == parse_tokens(tokens.deep_view()),
            parsed matches Ok(entries) ==> {
                &&& entries.len() == tokens.len()
                &&& forall|i: int| 0 <= i < entries.len() ==> (#[trigger] entries[i]).wf()
            },
    {
        let ghost texts = tokens.deep_view();
        let mut entries: Vec<BaseUrlMap> = Vec::new();
        let mut i: usize = 0;
        while i < tokens.len()
            invariant
                texts == tokens.deep_view(),
                i <= tokens.len(),
                entries.len() == i,
                forall|k: int|
                    0 <= k < i ==> (#[trigger] parse_token(texts[k])) == Ok::<
                        BaseUrlMapView,
                        ConfigError,
                    >(entries[k]@),
                forall|k: int| 0 <= k < i ==> (#[trigger] entries[k]).wf(),
            decreases tokens.len() - i,
        {
            assert(texts[i as int] == tokens[i as int]@);
            match Self::parse_base_url_map_input(tokens[i].as_str()) {
                Ok(entry) => {
                    entries.push(entry);
                },
                Err(e) => {
                    proof {
                        assert(is_first_bad_token(texts, i as int));
                        lemma_parse_tokens_err(texts, i as int);
                    }
                    return Err(e);
                },
            }
            i += 1;
        }
        proof {
            lemma_parse_tokens_all_ok(texts);
            assert(entries.deep_view() =~= parse_tokens(texts)->Ok_0);
        }
        Ok(entries)
    }

    /// Makes the configuration from the raw options, from `marker`, the
    /// value of the container variable (`None` when it is unset), and from
    /// `home`, the user's home directory as far as the platform knows it.
    pub fn from_args(args: Args, marker: Option<&str>, home: Option<PathBuf>) -> (outcome: Result<
        CliArgs,
        ConfigError,
    >)
        ensures
            outcome_view(outcome) == normalize(args@, marker.deep_view(), home),
            outcome matches Ok(config) ==> config.wf(),
    {
        let save_dir = save_dir_from(args.save_dir, home);
        let base_url_map = match args.base_url_map {
            Some(tokens) => match Self::parse_base_url_map(&tokens) {
                Ok(entries) => Some(entries),
                Err(e) => {
                    return Err(e);
                },
            },
            None => None,
        };
        if args.docker_interval == 0 {
            return Err(ConfigError::ZeroInterval);
        }
        Ok(
            CliArgs {
                color: args.color,
                docker_interval: args.docker_interval,
                use_cli: args.use_cli,
                gui: !args.gui,
                host: args.host,
                in_container: Self::check_if_in_container(marker),
                save_dir,
                raw: args.raw,
                show_self: !args.show_self,
                timestamp: !args.timestamp,
                base_url_map,
            },
        )
    }

    /// Makes the configuration from the raw options and from `marker`, the
    /// value of the container variable (`None` when it is unset).
    ///
    /// The home directory is asked of the platform, and only when the
    /// options name no directory to save to. Whatever the platform answers,
    /// the outcome is the one that `from_args` gives for that answer, so
    /// everything but `save_dir` is settled by the arguments alone; with a
    /// directory in the options, `save_dir` is settled too.
    pub fn new(args: Args, marker: Option<&str>) -> (outcome: Result<CliArgs, ConfigError>)
        ensures
            exists|home: Option<PathBuf>|
                outcome_view(outcome) == #[trigger] normalize(args@, marker.deep_view(), home),
            args.save_dir is Some ==> outcome_view(outcome) == normalize(
                args@,
                marker.deep_view(),
                None,
            ),
            outcome matches Ok(config) ==> config.wf(),
    {
        let home = if args.save_dir.is_none() {
            platform_home_dir()
        } else {
            None
        };
        Self::from_args(args, marker, home)
    }
}

} // verus!
