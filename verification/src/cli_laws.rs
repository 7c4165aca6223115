//! What the arguments of the program ask for.

use vstd::prelude::*;

#[allow(unused_imports)]
use crate::cli::{mode_reading, path_and_profiles, Argument, ModeView};
#[allow(unused_imports)]
use crate::scan::{after_prefix, begins};
#[allow(unused_imports)]
use crate::text::word_at;

verus! {

/// Whether an argument is a path: it does not begin with a dash.
pub open spec fn is_path(argument: Argument) -> bool {
    argument.text@.len() == 0 || argument.text@[0] != '-'
}

proof fn dashes_begin(text: Seq<char>)
    ensures
        begins(text, "-"@) <==> text.len() > 0 && text[0] == '-',
        begins(text, "--profile="@) ==> begins(text, "-"@),
        text == "--profile"@ ==> begins(text, "-"@),
        text == "--profile"@ ==> !begins(text, "--profile="@),
{
    reveal_strlit("-");
    reveal_strlit("--profile=");
    reveal_strlit("--profile");
    if text.len() > 0 {
        assert(text.subrange(0, 1)[0] == text[0]);
        if text[0] == '-' {
            assert(text.subrange(0, 1) =~= "-"@);
        }
    }
    if begins(text, "--profile="@) {
        assert(text.subrange(0, 10)[0] == text[0]);
    }
}

proof fn more_arguments_continue(
    before: Seq<Argument>,
    more: Seq<Argument>,
    from: int,
    path: Option<Seq<char>>,
    profiles: Seq<Seq<char>>,
    context: Seq<char>,
)
    requires
        0 <= from <= before.len(),
    ensures
        path_and_profiles(before, from, path, profiles, context) matches Ok((found, named))
            ==> path_and_profiles(before + more, from, path, profiles, context)
            == path_and_profiles(before + more, before.len() as int, found, named, context),
    decreases before.len() - from,
{
    let all = before + more;
    if from < before.len() {
        assert(all[from] == before[from]);
        if before[from].is_word("--profile"@) {
            if from + 1 < before.len() {
                assert(all[from + 1] == before[from + 1]);
                more_arguments_continue(
                    before,
                    more,
                    from + 2,
                    path,
                    profiles.push(before[from + 1].text@),
                    context,
                );
            }
        } else if before[from].valid && begins(before[from].text@, "--profile="@) {
            let name = after_prefix(before[from].text@, "--profile="@)->0;
            more_arguments_continue(before, more, from + 1, path, profiles.push(name), context);
        } else if !begins(before[from].text@, "-"@) && path is None {
            more_arguments_continue(
                before,
                more,
                from + 1,
                Some(before[from].text@),
                profiles,
                context,
            );
        }
    }
}

/// A path behind arguments without one is the Project path, and a second path
/// is refused.
pub proof fn a_path_names_the_project(
    before: Seq<Argument>,
    path: Argument,
    from: int,
    context: Seq<char>,
)
    requires
        0 <= from <= before.len(),
        is_path(path),
    ensures
        path_and_profiles(before, from, None, Seq::empty(), context) matches Ok((found, profiles))
            ==> match found {
            None => path_and_profiles(before.push(path), from, None, Seq::empty(), context) == Ok::<
                (Option<Seq<char>>, Seq<Seq<char>>),
                Seq<char>,
            >((Some(path.text@), profiles)),
            Some(_) => path_and_profiles(before.push(path), from, None, Seq::empty(), context)
                is Err,
        },
{
    let more = seq![path];
    let all = before + more;
    assert(before.push(path) =~= all);
    more_arguments_continue(before, more, from, None, Seq::empty(), context);
    dashes_begin(path.text@);
    assert(all[before.len() as int] == path);
    reveal_with_fuel(path_and_profiles, 2);
}

/// `--profile` takes the next argument, and `--profile=` what follows it, as
/// the name of one more profile; an empty name is refused.
pub proof fn profile_options_name_a_profile(
    before: Seq<Argument>,
    option: Argument,
    name: Argument,
    whole: Argument,
    from: int,
    context: Seq<char>,
)
    requires
        0 <= from <= before.len(),
        option.valid && option.text@ == "--profile"@,
        name.valid,
        whole.valid && whole.text@ == "--profile="@ + name.text@,
    ensures
        path_and_profiles(before, from, None, Seq::empty(), context) matches Ok((path, profiles))
            ==> {
            let apart = path_and_profiles(
                before + seq![option, name],
                from,
                None,
                Seq::empty(),
                context,
            );
            let joined = path_and_profiles(
                before + seq![whole],
                from,
                None,
                Seq::empty(),
                context,
            );
            &&& name.text@.len() == 0 ==> apart is Err && joined is Err
            &&& name.text@.len() > 0 ==> apart == Ok::<
                (Option<Seq<char>>, Seq<Seq<char>>),
                Seq<char>,
            >((path, profiles.push(name.text@))) && joined == apart
        },
{
    more_arguments_continue(before, seq![option, name], from, None, Seq::empty(), context);
    more_arguments_continue(before, seq![whole], from, None, Seq::empty(), context);
    let at = before.len() as int;
    let apart = before + seq![option, name];
    let joined = before + seq![whole];
    assert(apart[at] == option && apart[at + 1] == name);
    assert(joined[at] == whole);
    reveal_strlit("--profile=");
    reveal_strlit("--profile");
    assert(whole.text@.subrange(0, 10) =~= "--profile="@);
    assert(whole.text@.skip(10) =~= name.text@);
    assert(whole.text@.len() >= 10);
    assert("--profile"@.len() == 9);
    reveal_with_fuel(path_and_profiles, 2);
}

/// An option that is not known is refused, wherever it stands.
pub proof fn unknown_options_are_refused(
    before: Seq<Argument>,
    option: Argument,
    from: int,
    context: Seq<char>,
)
    requires
        0 <= from <= before.len(),
        !is_path(option),
        !(option.valid && option.text@ == "--profile"@),
        !(option.valid && begins(option.text@, "--profile="@)),
    ensures
        path_and_profiles(before, from, None, Seq::empty(), context) is Ok ==> path_and_profiles(
            before.push(option),
            from,
            None,
            Seq::empty(),
            context,
        ) is Err,
{
    let all = before + seq![option];
    assert(before.push(option) =~= all);
    more_arguments_continue(before, seq![option], from, None, Seq::empty(), context);
    dashes_begin(option.text@);
    assert(all[before.len() as int] == option);
}

/// The first words choose what is done: a Project runs unless the arguments
/// begin with `config` or with a fixture, `config validate` validates and
/// `config show` shows.
pub proof fn first_words_choose_the_mode(arguments: Seq<Argument>)
    ensures
        arguments.len() == 0 ==> mode_reading(arguments) == Ok::<ModeView, Seq<char>>(
            ModeView::Project { path: None, profiles: Seq::empty() },
        ),
        mode_reading(arguments) matches Ok(mode) ==> {
            let config = arguments.len() > 0 && arguments[0].valid && arguments[0].text@
                == "config"@;
            &&& mode is ConfigValidate <==> config && arguments[1].valid && arguments[1].text@
                == "validate"@
            &&& mode is ConfigShow <==> config && arguments[1].valid && arguments[1].text@
                == "show"@
            &&& arguments.len() > 0 && is_path(arguments[0]) && !config ==> mode is Project
        },
        mode_reading(arguments) matches Ok(ModeView::ConfigValidate { path, profiles })
            ==> path_and_profiles(arguments, 2, None, Seq::empty(), "config validate"@) == Ok::<
            (Option<Seq<char>>, Seq<Seq<char>>),
            Seq<char>,
        >((path, profiles)),
        mode_reading(arguments) matches Ok(ModeView::ConfigShow { path, profiles })
            ==> path_and_profiles(arguments, 2, None, Seq::empty(), "config show"@) == Ok::<
            (Option<Seq<char>>, Seq<Seq<char>>),
            Seq<char>,
        >((path, profiles)),
{
    reveal_strlit("validate");
    reveal_strlit("show");
    assert("validate"@.len() == 8);
    assert("show"@.len() == 4);
    reveal_strlit("--fixture-project");
    reveal_strlit("--fixture-rendering");
    reveal_strlit("--fixture-input");
    reveal_strlit("--fixture-paste");
    reveal_strlit("--fixture-scrollback");
    reveal_strlit("--fixture-mouse");
    reveal_strlit("--fixture-smoke");
    reveal_strlit("--fixture-interaction");
    reveal_strlit("--fixture-round-trip");
}

/// A Run takes its path and its profiles from its arguments.
pub proof fn runs_take_their_path(arguments: Seq<Argument>)
    requires
        arguments.len() > 0,
        mode_reading(arguments) is Ok,
        mode_reading(arguments)->Ok_0 is Project,
    ensures
        mode_reading(arguments) matches Ok(ModeView::Project { path, profiles })
            && path_and_profiles(arguments, 0, None, Seq::empty(), "Project"@) == Ok::<
            (Option<Seq<char>>, Seq<Seq<char>>),
            Seq<char>,
        >((path, profiles)),
{
}

proof fn fixture_words_differ()
    ensures
        "--fixture-project"@.len() == 17,
        "--fixture-rendering"@.len() == 19,
        "--fixture-input"@.len() == 15,
        "--fixture-paste"@.len() == 15,
        "--fixture-scrollback"@.len() == 20,
        "--fixture-mouse"@.len() == 15,
        "--fixture-smoke"@.len() == 15,
        "--fixture-interaction"@.len() == 21,
        "--fixture-round-trip"@.len() == 20,
        "config"@.len() == 6,
        "--fixture-input"@[10] == 'i',
        "--fixture-paste"@[10] == 'p',
        "--fixture-mouse"@[10] == 'm',
        "--fixture-smoke"@[10] == 's',
        "--fixture-scrollback"@[10] == 's',
        "--fixture-round-trip"@[10] == 'r',
{
    reveal_strlit("--fixture-project");
    reveal_strlit("--fixture-rendering");
    reveal_strlit("--fixture-input");
    reveal_strlit("--fixture-paste");
    reveal_strlit("--fixture-scrollback");
    reveal_strlit("--fixture-mouse");
    reveal_strlit("--fixture-smoke");
    reveal_strlit("--fixture-interaction");
    reveal_strlit("--fixture-round-trip");
    reveal_strlit("config");
}

/// Each fixture is chosen by its own word alone, and takes what it needs from
/// the argument behind it: a text, a path, or nothing at all.
pub proof fn fixtures_are_chosen_by_name(arguments: Seq<Argument>)
    requires
        arguments.len() > 0,
        arguments[0].valid,
        mode_reading(arguments) is Ok,
    ensures
        ({
            let mode = mode_reading(arguments)->Ok_0;
            let word = arguments[0].text@;
            &&& mode is FixtureRendering <==> word == "--fixture-rendering"@
            &&& mode is FixtureInput <==> word == "--fixture-input"@
            &&& mode is FixturePaste <==> word == "--fixture-paste"@
            &&& mode is FixtureScrollback <==> word == "--fixture-scrollback"@
            &&& mode is FixtureMouse <==> word == "--fixture-mouse"@
            &&& mode is FixtureProject <==> word == "--fixture-project"@
            &&& mode is FixtureSmoke <==> word == "--fixture-smoke"@
            &&& mode is FixtureInteraction <==> word == "--fixture-interaction"@
            &&& mode is FixtureRoundTrip <==> word == "--fixture-round-trip"@
            &&& mode matches ModeView::FixtureSmoke(path) ==> path == arguments[1].text@
            &&& mode matches ModeView::FixtureInteraction(path) ==> path == arguments[1].text@
            &&& mode matches ModeView::FixtureRoundTrip(text) ==> arguments.len() == 2 && text
                == arguments[1].text@
            &&& word == "--fixture-input"@ || word == "--fixture-paste"@ ==> arguments.len() == 1
        }),
{
    fixture_words_differ();
}

} // verus!
