//! The command line: which mode it asks for.

use vstd::prelude::*;

use crate::scan::{starts_with, strip_prefix};
use crate::text::{concat2, same_text};

#[allow(unused_imports)]
use crate::scan::{after_prefix, begins, option_view};
#[allow(unused_imports)]
use crate::text::texts;

verus! {

/// One argument of the command line.
#[derive(Clone, Debug, PartialEq, Eq)]
pub struct Argument {
    /// The argument as text. What is no valid UTF-8 in it is replaced.
    pub text: String,
    /// Whether nothing had to be replaced.
    pub valid: bool,
}

impl Argument {
    /// Whether the argument is exactly this word.
    pub open spec fn is_word(&self, word: Seq<char>) -> bool {
        self.valid && self.text@ == word
    }

    /// Whether the argument is exactly this word.
    pub fn is(&self, word: &str) -> (r: bool)
        ensures
            r == self.is_word(word@),
    {
        self.valid && same_text(self.text.as_str(), word)
    }
}

/// What the command line asks for.
#[derive(Clone, Debug, PartialEq, Eq)]
pub enum Mode {
    Project { path: Option<String>, profiles: Vec<String> },
    ConfigValidate { path: Option<String>, profiles: Vec<String> },
    ConfigShow { path: Option<String>, profiles: Vec<String> },
    FixtureProject { path: String, profiles: Vec<String> },
    FixtureRoundTrip(String),
    FixtureInput,
    FixturePaste,
    FixtureRendering,
    FixtureScrollback,
    FixtureMouse,
    FixtureInteraction(String),
    FixtureSmoke(String),
}

/// What the command line asks for, as mathematical values.
pub enum ModeView {
    Project { path: Option<Seq<char>>, profiles: Seq<Seq<char>> },
    ConfigValidate { path: Option<Seq<char>>, profiles: Seq<Seq<char>> },
    ConfigShow { path: Option<Seq<char>>, profiles: Seq<Seq<char>> },
    FixtureProject { path: Seq<char>, profiles: Seq<Seq<char>> },
    FixtureRoundTrip(Seq<char>),
    FixtureInput,
    FixturePaste,
    FixtureRendering,
    FixtureScrollback,
    FixtureMouse,
    FixtureInteraction(Seq<char>),
    FixtureSmoke(Seq<char>),
}

impl View for Mode {
    type V = ModeView;

    open spec fn view(&self) -> ModeView {
        match *self {
            Mode::Project { path, profiles } => ModeView::Project {
                path: option_view(path),
                profiles: texts(profiles@),
            },
            Mode::ConfigValidate { path, profiles } => ModeView::ConfigValidate {
                path: option_view(path),
                profiles: texts(profiles@),
            },
            Mode::ConfigShow { path, profiles } => ModeView::ConfigShow {
                path: option_view(path),
                profiles: texts(profiles@),
            },
            Mode::FixtureProject { path, profiles } => ModeView::FixtureProject {
                path: path@,
                profiles: texts(profiles@),
            },
            Mode::FixtureRoundTrip(text) => ModeView::FixtureRoundTrip(text@),
            Mode::FixtureInput => ModeView::FixtureInput,
            Mode::FixturePaste => ModeView::FixturePaste,
            Mode::FixtureRendering => ModeView::FixtureRendering,
            Mode::FixtureScrollback => ModeView::FixtureScrollback,
            Mode::FixtureMouse => ModeView::FixtureMouse,
            Mode::FixtureInteraction(path) => ModeView::FixtureInteraction(path@),
            Mode::FixtureSmoke(path) => ModeView::FixtureSmoke(path@),
        }
    }
}

/// A profile name, or why the text is none.
pub open spec fn profile_reading(text: Seq<char>, valid: bool) -> Result<Seq<char>, Seq<char>> {
    if !valid {
        Err("profile name must be valid UTF-8"@)
    } else if text.len() == 0 {
        Err("--profile requires a profile name"@)
    } else {
        Ok(text)
    }
}

fn profile_name(text: &str, valid: bool) -> (r: Result<String, String>)
    ensures
        (match r {
            Ok(name) => Ok(name@),
            Err(message) => Err(message@),
        }) == profile_reading(text@, valid),
{
    if !valid {
        return Err("profile name must be valid UTF-8".to_owned());
    }
    if text.unicode_len() == 0 {
        return Err("--profile requires a profile name".to_owned());
    }
    Ok(text.to_owned())
}

/// The path and the profiles of the arguments from `from` on, after those
/// that were found before.
pub open spec fn path_and_profiles(
    arguments: Seq<Argument>,
    from: int,
    path: Option<Seq<char>>,
    profiles: Seq<Seq<char>>,
    context: Seq<char>,
) -> Result<(Option<Seq<char>>, Seq<Seq<char>>), Seq<char>>
    decreases arguments.len() - from,
{
    if from < 0 || from >= arguments.len() {
        Ok((path, profiles))
    } else if arguments[from].is_word("--profile"@) {
        if from + 1 >= arguments.len() {
            Err("--profile requires a profile name"@)
        } else {
            match profile_reading(arguments[from + 1].text@, arguments[from + 1].valid) {
                Err(message) => Err(message),
                Ok(name) => path_and_profiles(
                    arguments,
                    from + 2,
                    path,
                    profiles.push(name),
                    context,
                ),
            }
        }
    } else if arguments[from].valid && begins(arguments[from].text@, "--profile="@) {
        match profile_reading(after_prefix(arguments[from].text@, "--profile="@)->0, true) {
            Err(message) => Err(message),
            Ok(name) => path_and_profiles(arguments, from + 1, path, profiles.push(name), context),
        }
    } else if begins(arguments[from].text@, "-"@) {
        Err("unknown argument: "@ + arguments[from].text@)
    } else if path is Some {
        Err(context + " accepts at most one Project path"@)
    } else {
        path_and_profiles(arguments, from + 1, Some(arguments[from].text@), profiles, context)
    }
}

fn parse_path_and_profiles(arguments: &Vec<Argument>, start: usize, context: &str) -> (r: Result<
    (Option<String>, Vec<String>),
    String,
>)
    requires
        start <= arguments.len(),
    ensures
        (match r {
            Ok((path, profiles)) => Ok((option_view(path), texts(profiles@))),
            Err(message) => Err(message@),
        }) == path_and_profiles(arguments@, start as int, None, Seq::empty(), context@),
{
    let mut path: Option<String> = None;
    let mut profiles: Vec<String> = Vec::new();
    let mut at: usize = start;
    let ghost whole = path_and_profiles(arguments@, start as int, None, Seq::empty(), context@);
    proof {
        assert(texts(profiles@) =~= Seq::<Seq<char>>::empty());
    }
    while at < arguments.len()
        invariant
            at <= arguments.len(),
            whole == path_and_profiles(
                arguments@,
                at as int,
                option_view(path),
                texts(profiles@),
                context@,
            ),
            whole == path_and_profiles(
                arguments@,
                start as int,
                None,
                Seq::empty(),
                context@,
            ),
        decreases arguments.len() - at,
    {
        let argument = &arguments[at];
        let ghost before = texts(profiles@);
        if argument.is("--profile") {
            if at + 1 >= arguments.len() {
                return Err("--profile requires a profile name".to_owned());
            }
            let value = &arguments[at + 1];
            match profile_name(value.text.as_str(), value.valid) {
                Ok(name) => {
                    profiles.push(name);
                    proof {
                        assert(texts(profiles@) =~= before.push(name@));
                    }
                },
                Err(message) => {
                    return Err(message);
                },
            }
            at = at + 2;
            continue;
        }
        if argument.valid && starts_with(argument.text.as_str(), "--profile=") {
            let value = match strip_prefix(argument.text.as_str(), "--profile=") {
                Some(value) => value,
                None => String::new(),
            };
            match profile_name(value.as_str(), true) {
                Ok(name) => {
                    profiles.push(name);
                    proof {
                        assert(texts(profiles@) =~= before.push(name@));
                    }
                },
                Err(message) => {
                    return Err(message);
                },
            }
            at = at + 1;
            continue;
        }
        if starts_with(argument.text.as_str(), "-") {
            return Err(concat2("unknown argument: ", argument.text.as_str()));
        }
        if path.is_some() {
            return Err(concat2(context, " accepts at most one Project path"));
        }
        path = Some(argument.text.clone());
        at = at + 1;
    }
    Ok((path, profiles))
}

/// The mode of a fixture that takes no arguments.
pub open spec fn plain_fixture(first: Argument) -> Option<(Seq<char>, ModeView)> {
    if first.is_word("--fixture-rendering"@) {
        Some(("--fixture-rendering"@, ModeView::FixtureRendering))
    } else if first.is_word("--fixture-input"@) {
        Some(("--fixture-input"@, ModeView::FixtureInput))
    } else if first.is_word("--fixture-paste"@) {
        Some(("--fixture-paste"@, ModeView::FixturePaste))
    } else if first.is_word("--fixture-scrollback"@) {
        Some(("--fixture-scrollback"@, ModeView::FixtureScrollback))
    } else if first.is_word("--fixture-mouse"@) {
        Some(("--fixture-mouse"@, ModeView::FixtureMouse))
    } else {
        None
    }
}

/// The mode that a configuration command asks for.
pub open spec fn config_reading(arguments: Seq<Argument>) -> Result<ModeView, Seq<char>> {
    if arguments.len() < 2 {
        Err("config requires a subcommand"@)
    } else if arguments[1].is_word("validate"@) {
        match path_and_profiles(arguments, 2, None, Seq::empty(), "config validate"@) {
            Ok((path, profiles)) => Ok(ModeView::ConfigValidate { path, profiles }),
            Err(message) => Err(message),
        }
    } else if arguments[1].is_word("show"@) {
        match path_and_profiles(arguments, 2, None, Seq::empty(), "config show"@) {
            Ok((path, profiles)) => Ok(ModeView::ConfigShow { path, profiles }),
            Err(message) => Err(message),
        }
    } else {
        Err("unknown config command: "@ + arguments[1].text@)
    }
}

/// The mode of a fixture that takes one text.
pub open spec fn round_trip_reading(arguments: Seq<Argument>) -> Result<ModeView, Seq<char>> {
    if arguments.len() < 2 {
        Err("--fixture-round-trip requires one text argument"@)
    } else if !arguments[1].valid {
        Err("fixture text must be valid UTF-8"@)
    } else if arguments.len() > 2 {
        Err("--fixture-round-trip accepts only one text argument"@)
    } else {
        Ok(ModeView::FixtureRoundTrip(arguments[1].text@))
    }
}

/// The mode that the arguments ask for, or why there is none.
pub open spec fn mode_reading(arguments: Seq<Argument>) -> Result<ModeView, Seq<char>> {
    if arguments.len() == 0 {
        Ok(ModeView::Project { path: None, profiles: Seq::empty() })
    } else if arguments[0].is_word("config"@) {
        config_reading(arguments)
    } else if arguments[0].is_word("--fixture-project"@) {
        match path_and_profiles(arguments, 1, None, Seq::empty(), "--fixture-project"@) {
            Err(message) => Err(message),
            Ok((path, profiles)) => match path {
                Some(path) => Ok(ModeView::FixtureProject { path, profiles }),
                None => Err("--fixture-project requires a YAML path"@),
            },
        }
    } else if plain_fixture(arguments[0]) is Some {
        let (name, mode) = plain_fixture(arguments[0])->0;
        if arguments.len() > 1 {
            Err(name + " does not accept arguments"@)
        } else {
            Ok(mode)
        }
    } else if arguments[0].is_word("--fixture-smoke"@) {
        if arguments.len() < 2 {
            Err("--fixture-smoke requires a YAML path"@)
        } else {
            Ok(ModeView::FixtureSmoke(arguments[1].text@))
        }
    } else if arguments[0].is_word("--fixture-interaction"@) {
        if arguments.len() < 2 {
            Err("--fixture-interaction requires a YAML path"@)
        } else {
            Ok(ModeView::FixtureInteraction(arguments[1].text@))
        }
    } else if arguments[0].is_word("--fixture-round-trip"@) {
        round_trip_reading(arguments)
    } else {
        match path_and_profiles(arguments, 0, None, Seq::empty(), "Project"@) {
            Ok((path, profiles)) => Ok(ModeView::Project { path, profiles }),
            Err(message) => Err(message),
        }
    }
}

/// A mode or a failure as mathematical values.
pub open spec fn mode_result(result: Result<Mode, String>) -> Result<ModeView, Seq<char>> {
    match result {
        Ok(mode) => Ok(mode@),
        Err(message) => Err(message@),
    }
}

fn parse_config(arguments: &Vec<Argument>) -> (r: Result<Mode, String>)
    ensures
        mode_result(r) == config_reading(arguments@),
{
    if arguments.len() < 2 {
        return Err("config requires a subcommand".to_owned());
    }
    if arguments[1].is("validate") {
        return match parse_path_and_profiles(arguments, 2, "config validate") {
            Ok((path, profiles)) => Ok(Mode::ConfigValidate { path, profiles }),
            Err(message) => Err(message),
        };
    }
    if arguments[1].is("show") {
        return match parse_path_and_profiles(arguments, 2, "config show") {
            Ok((path, profiles)) => Ok(Mode::ConfigShow { path, profiles }),
            Err(message) => Err(message),
        };
    }
    Err(concat2("unknown config command: ", arguments[1].text.as_str()))
}

fn parse_round_trip(arguments: &Vec<Argument>) -> (r: Result<Mode, String>)
    ensures
        mode_result(r) == round_trip_reading(arguments@),
{
    if arguments.len() < 2 {
        return Err("--fixture-round-trip requires one text argument".to_owned());
    }
    if !arguments[1].valid {
        return Err("fixture text must be valid UTF-8".to_owned());
    }
    if arguments.len() > 2 {
        return Err("--fixture-round-trip accepts only one text argument".to_owned());
    }
    Ok(Mode::FixtureRoundTrip(arguments[1].text.clone()))
}

fn find_plain_fixture(first: &Argument) -> (r: Option<(&'static str, Mode)>)
    ensures
        (match r {
            Some((name, mode)) => Some((name@, mode@)),
            None => None,
        }) == plain_fixture(*first),
{
    if first.is("--fixture-rendering") {
        Some(("--fixture-rendering", Mode::FixtureRendering))
    } else if first.is("--fixture-input") {
        Some(("--fixture-input", Mode::FixtureInput))
    } else if first.is("--fixture-paste") {
        Some(("--fixture-paste", Mode::FixturePaste))
    } else if first.is("--fixture-scrollback") {
        Some(("--fixture-scrollback", Mode::FixtureScrollback))
    } else if first.is("--fixture-mouse") {
        Some(("--fixture-mouse", Mode::FixtureMouse))
    } else {
        None
    }
}

/// The mode that the arguments after the program name ask for.
pub fn parse_mode(arguments: &Vec<Argument>) -> (r: Result<Mode, String>)
    ensures
        mode_result(r) == mode_reading(arguments@),
{
    if arguments.len() == 0 {
        let profiles: Vec<String> = Vec::new();
        proof {
            assert(texts(profiles@) =~= Seq::<Seq<char>>::empty());
        }
        return Ok(Mode::Project { path: None, profiles });
    }
    let first = &arguments[0];
    if first.is("config") {
        return parse_config(arguments);
    }
    if first.is("--fixture-project") {
        return match parse_path_and_profiles(arguments, 1, "--fixture-project") {
            Ok((path, profiles)) => match path {
                Some(path) => Ok(Mode::FixtureProject { path, profiles }),
                None => Err("--fixture-project requires a YAML path".to_owned()),
            },
            Err(message) => Err(message),
        };
    }
    if let Some((name, mode)) = find_plain_fixture(first) {
        if arguments.len() > 1 {
            return Err(concat2(name, " does not accept arguments"));
        }
        return Ok(mode);
    }
    if first.is("--fixture-smoke") {
        if arguments.len() < 2 {
            return Err("--fixture-smoke requires a YAML path".to_owned());
        }
        return Ok(Mode::FixtureSmoke(arguments[1].text.clone()));
    }
    if first.is("--fixture-interaction") {
        if arguments.len() < 2 {
            return Err("--fixture-interaction requires a YAML path".to_owned());
        }
        return Ok(Mode::FixtureInteraction(arguments[1].text.clone()));
    }
    if first.is("--fixture-round-trip") {
        return parse_round_trip(arguments);
    }
    match parse_path_and_profiles(arguments, 0, "Project") {
        Ok((path, profiles)) => Ok(Mode::Project { path, profiles }),
        Err(message) => Err(message),
    }
}

/// The one Project Profile of a Run, where there is one.
pub fn single_profile(profiles: &Vec<String>) -> (r: Result<Option<&str>, String>)
    ensures
        match r {
            Ok(None) => profiles@.len() == 0,
            Ok(Some(name)) => profiles@.len() == 1 && name@ == profiles@[0]@,
            Err(message) => profiles@.len() > 1 && message@ == "--profile can be given once"@,
        },
{
    if profiles.len() == 0 {
        Ok(None)
    } else if profiles.len() == 1 {
        Ok(Some(profiles[0].as_str()))
    } else {
        Err("--profile can be given once".to_owned())
    }
}

} // verus!
