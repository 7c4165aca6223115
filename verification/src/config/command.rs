//! Commands, exit codes, terminals and durations of one Process.

use vstd::prelude::*;

use super::paths::{resolve_program, FileFacts};
use crate::model::{CommandForm, InputPolicy, TerminalMode};
use crate::scan::{is_blank, Blank};
use crate::text::{concat3, decimal_u64, decimal_usize, same_text};
use crate::yaml::Yaml;

#[allow(unused_imports)]
use super::paths::program_reading;
#[allow(unused_imports)]
use crate::model::CommandView;
#[allow(unused_imports)]
use crate::scan::{option_view, trimmed};
#[allow(unused_imports)]
use crate::text::{decimal_text, texts};
#[allow(unused_imports)]
use crate::yaml::{tree_items, Tree};

verus! {

/// The greatest exit code of a command.
pub const MAX_EXIT_CODE: i32 = 255;

/// The arguments of a direct command from item `from` on.
pub open spec fn arguments_reading(items: Seq<Tree>, from: int) -> Result<Seq<Seq<char>>, Seq<char>>
    decreases items.len() - from,
{
    if from < 0 || from >= items.len() {
        Ok(Seq::empty())
    } else {
        match items[from].as_text() {
            None => Err(
                "command argument "@ + decimal_text((from - 1) as nat) + " must be a string"@,
            ),
            Some(text) => match arguments_reading(items, from + 1) {
                Err(detail) => Err(detail),
                Ok(rest) => Ok(seq![text] + rest),
            },
        }
    }
}

/// A direct command.
pub open spec fn direct_reading(items: Seq<Tree>) -> Result<CommandView, Seq<char>> {
    if items.len() == 0 || items[0].as_text() is None {
        Err("command must contain a non-empty program as its first item"@)
    } else if items[0].as_text()->0.len() == 0 {
        Err("command program must not be empty"@)
    } else {
        match arguments_reading(items, 1) {
            Err(detail) => Err(detail),
            Ok(args) => Ok(CommandView::Direct { program: items[0].as_text()->0, args }),
        }
    }
}

/// The one command form of a Process or a check.
pub open spec fn command_reading(command: Option<Seq<Tree>>, shell: Option<Seq<char>>) -> Result<
    CommandView,
    Seq<char>,
> {
    match (command, shell) {
        (Some(_), Some(_)) => Err("define exactly one of 'command' or 'shell'"@),
        (Some(items), None) => direct_reading(items),
        (None, Some(text)) => if trimmed(text, Blank::White).len() == 0 {
            Err("shell expression must not be empty"@)
        } else {
            Ok(CommandView::Shell { text })
        },
        (None, None) => Err("define exactly one of 'command' or 'shell'"@),
    }
}

/// A command is read only where exactly one of its two forms is given.
pub proof fn exactly_one_form_is_given(command: Option<Seq<Tree>>, shell: Option<Seq<char>>)
    requires
        command_reading(command, shell) is Ok,
    ensures
        (command is Some) != (shell is Some),
{
}

/// Items of an optional sequence as mathematical values.
pub open spec fn items_option(items: Option<Vec<Yaml>>) -> Option<Seq<Tree>> {
    match items {
        Some(items) => Some(tree_items(items@)),
        None => None,
    }
}

/// A command or a failure as mathematical values.
pub open spec fn command_result(result: Result<CommandForm, String>) -> Result<
    CommandView,
    Seq<char>,
> {
    match result {
        Ok(command) => Ok(command@),
        Err(detail) => Err(detail@),
    }
}

/// The first item from `from` on that is no text.
proof fn argument_failure(items: Seq<Tree>, from: int, at: int)
    requires
        0 <= from <= at < items.len(),
        forall|i: int| from <= i < at ==> (#[trigger] items[i]).as_text() is Some,
        items[at].as_text() is None,
    ensures
        arguments_reading(items, from) == Err::<Seq<Seq<char>>, Seq<char>>(
            "command argument "@ + decimal_text((at - 1) as nat) + " must be a string"@,
        ),
    decreases at - from,
{
    if from < at {
        assert(items[from].as_text() is Some);
        argument_failure(items, from + 1, at);
    }
}

proof fn argument_success(items: Seq<Tree>, from: int, args: Seq<Seq<char>>)
    requires
        0 <= from <= items.len(),
        args.len() == items.len() - from,
        forall|i: int|
            0 <= i < args.len() ==> items[from + i].as_text() == Some(#[trigger] args[i]),
    ensures
        arguments_reading(items, from) == Ok::<Seq<Seq<char>>, Seq<char>>(args),
    decreases items.len() - from,
{
    if from < items.len() {
        let rest = args.skip(1);
        assert(items[from + 0].as_text() == Some(args[0]));
        assert forall|i: int| 0 <= i < rest.len() implies items[from + 1 + i].as_text() == Some(
            #[trigger] rest[i],
        ) by {
            assert(items[from + (i + 1)].as_text() == Some(args[i + 1]));
        }
        argument_success(items, from + 1, rest);
        assert(seq![args[0]] + rest =~= args);
    } else {
        assert(args =~= Seq::<Seq<char>>::empty());
    }
}

/// A direct command.
pub fn build_direct_command(values: &Vec<Yaml>) -> (r: Result<CommandForm, String>)
    ensures
        command_result(r) == direct_reading(tree_items(values@)),
{
    let ghost items = tree_items(values@);
    if values.len() == 0 {
        return Err("command must contain a non-empty program as its first item".to_owned());
    }
    proof {
        assert(items[0] == values@[0]@);
    }
    let program = match values[0].as_text() {
        Some(program) => program.clone(),
        None => {
            return Err("command must contain a non-empty program as its first item".to_owned());
        },
    };
    if program.as_str().unicode_len() == 0 {
        return Err("command program must not be empty".to_owned());
    }
    let mut args: Vec<String> = Vec::new();
    let mut index: usize = 1;
    while index < values.len()
        invariant
            items == tree_items(values@),
            1 <= index <= values.len(),
            args.len() == index - 1,
            values.len() > 0,
            items[0].as_text() == Some(program@),
            program@.len() > 0,
            forall|i: int|
                0 <= i < args.len() ==> items[1 + i].as_text() == Some((#[trigger] args@[i])@),
        decreases values.len() - index,
    {
        proof {
            assert(items[index as int] == values@[index as int]@);
        }
        match values[index].as_text() {
            Some(text) => {
                args.push(text.clone());
            },
            None => {
                let shown = decimal_usize(index - 1);
                proof {
                    assert forall|i: int| 1 <= i < index implies (
                    #[trigger] items[i]).as_text() is Some by {
                        assert(items[1 + (i - 1)].as_text() == Some(args@[i - 1]@));
                    }
                    argument_failure(items, 1, index as int);
                }
                return Err(concat3("command argument ", shown.as_str(), " must be a string"));
            },
        }
        index = index + 1;
    }
    proof {
        let words = texts(args@);
        assert forall|i: int| 0 <= i < words.len() implies items[1 + i].as_text() == Some(
            #[trigger] words[i],
        ) by {
            assert(items[1 + i].as_text() == Some(args@[i]@));
        }
        argument_success(items, 1, words);
    }
    Ok(CommandForm::Direct { program, args })
}

/// The one command form of a Process or a check.
pub fn build_command_form(command: &Option<Vec<Yaml>>, shell: &Option<String>) -> (r: Result<
    CommandForm,
    String,
>)
    ensures
        command_result(r) == command_reading(items_option(*command), option_view(*shell)),
{
    match (command, shell) {
        (Some(_), Some(_)) => Err("define exactly one of 'command' or 'shell'".to_owned()),
        (Some(values), None) => build_direct_command(values),
        (None, Some(text)) => {
            if is_blank(text.as_str()) {
                Err("shell expression must not be empty".to_owned())
            } else {
                Ok(CommandForm::Shell { text: text.clone() })
            }
        },
        (None, None) => Err("define exactly one of 'command' or 'shell'".to_owned()),
    }
}

/// A command whose direct program was resolved.
pub open spec fn resolved_command(
    command: CommandView,
    base: Seq<char>,
    context: Seq<char>,
    facts: FileFacts,
) -> Result<CommandView, Seq<char>> {
    match command {
        CommandView::Direct { program, args } => match program_reading(
            program,
            base,
            context,
            facts,
        ) {
            Ok(path) => Ok(CommandView::Direct { program: path, args }),
            Err(detail) => Err(detail),
        },
        CommandView::Shell { .. } => Ok(command),
    }
}

/// Resolve the program of a direct command.
pub fn resolve_direct_program(
    command: CommandForm,
    base_dir: &str,
    context: &str,
    facts: &FileFacts,
) -> (r: Result<CommandForm, String>)
    ensures
        command_result(r) == resolved_command(command@, base_dir@, context@, *facts),
{
    match command {
        CommandForm::Direct { program, args } => match resolve_program(
            program.as_str(),
            base_dir,
            context,
            facts,
        ) {
            Ok(path) => Ok(CommandForm::Direct { program: path, args }),
            Err(detail) => Err(detail),
        },
        CommandForm::Shell { text } => Ok(CommandForm::Shell { text }),
    }
}

/// Why exit codes from `from` on cannot be used.
pub open spec fn codes_fault(codes: Seq<i32>, from: int) -> Option<Seq<char>>
    decreases codes.len() - from,
{
    if from < 0 || from >= codes.len() {
        None
    } else if codes[from] < 0 || codes[from] > MAX_EXIT_CODE {
        Some("success_exit_codes values must be unique exit codes from 0 through 255"@)
    } else if codes.take(from).contains(codes[from]) {
        Some(
            "success_exit_codes values must be unique; "@ + decimal_text(codes[from] as nat)
                + " is repeated"@,
        )
    } else {
        codes_fault(codes, from + 1)
    }
}

/// The exit codes that count as success; only 0 where none are given.
pub open spec fn exit_codes_reading(configured: Option<Seq<i32>>) -> Result<Seq<i32>, Seq<char>> {
    match configured {
        None => Ok(seq![0i32]),
        Some(codes) => if codes.len() == 0 {
            Err("success_exit_codes must contain at least one exit code"@)
        } else {
            match codes_fault(codes, 0) {
                Some(fault) => Err(fault),
                None => Ok(codes),
            }
        },
    }
}

/// Optional exit codes as mathematical values.
pub open spec fn codes_option(codes: Option<Vec<i32>>) -> Option<Seq<i32>> {
    match codes {
        Some(codes) => Some(codes@),
        None => None,
    }
}

fn seen_before(codes: &Vec<i32>, at: usize) -> (r: bool)
    requires
        at < codes.len(),
    ensures
        r == codes@.take(at as int).contains(codes@[at as int]),
{
    let mut index: usize = 0;
    while index < at
        invariant
            index <= at < codes.len(),
            forall|i: int| 0 <= i < index ==> codes@[i] != codes@[at as int],
        decreases at - index,
    {
        if codes[index] == codes[at] {
            proof {
                assert(codes@.take(at as int)[index as int] == codes@[at as int]);
            }
            return true;
        }
        index = index + 1;
    }
    false
}

/// The exit codes that count as success.
pub fn build_success_exit_codes(configured: &Option<Vec<i32>>) -> (r: Result<Vec<i32>, String>)
    ensures
        (match r {
            Ok(codes) => Ok(codes@),
            Err(detail) => Err(detail@),
        }) == exit_codes_reading(codes_option(*configured)),
{
    let codes = match configured {
        None => {
            let mut codes: Vec<i32> = Vec::new();
            codes.push(0);
            proof {
                assert(codes@ =~= seq![0i32]);
            }
            return Ok(codes);
        },
        Some(codes) => codes,
    };
    if codes.len() == 0 {
        return Err("success_exit_codes must contain at least one exit code".to_owned());
    }
    let mut index: usize = 0;
    while index < codes.len()
        invariant
            index <= codes.len(),
            codes@.len() > 0,
            codes_option(*configured) == Some(codes@),
            codes_fault(codes@, 0) == codes_fault(codes@, index as int),
        decreases codes.len() - index,
    {
        let code: i32 = codes[index];
        if code < 0 || code > MAX_EXIT_CODE {
            return Err(
                "success_exit_codes values must be unique exit codes from 0 through 255".to_owned(),
            );
        }
        if seen_before(codes, index) {
            let shown = decimal_u64(code as u64);
            return Err(
                concat3(
                    "success_exit_codes values must be unique; ",
                    shown.as_str(),
                    " is repeated",
                ),
            );
        }
        index = index + 1;
    }
    let copy = codes.clone();
    proof {
        assert(copy@ =~= codes@);
    }
    Ok(copy)
}

/// The terminal mode of a Process. Without settings it is a PTY.
pub open spec fn mode_reading(mode: Option<Seq<char>>) -> Result<TerminalMode, Seq<char>> {
    match mode {
        None => Ok(TerminalMode::Pty),
        Some(text) => if text == "pty"@ {
            Ok(TerminalMode::Pty)
        } else if text == "pipe"@ {
            Ok(TerminalMode::Pipe)
        } else {
            Err("invalid terminal mode '"@ + text + "' (use 'pipe' or 'pty')"@)
        },
    }
}

/// The input policy of a Process. Without settings a PTY takes focused input
/// and a pipe takes none.
pub open spec fn input_reading(input: Option<Seq<char>>, mode: TerminalMode) -> Result<
    InputPolicy,
    Seq<char>,
> {
    match input {
        None => if mode == TerminalMode::Pty {
            Ok(InputPolicy::Focused)
        } else {
            Ok(InputPolicy::Disabled)
        },
        Some(text) => if text == "disabled"@ {
            Ok(InputPolicy::Disabled)
        } else if text == "focused"@ {
            Ok(InputPolicy::Focused)
        } else {
            Err("invalid input policy '"@ + text + "' (use 'focused' or 'disabled')"@)
        },
    }
}

/// The terminal settings of a Process.
pub open spec fn terminal_reading(mode: Option<Seq<char>>, input: Option<Seq<char>>) -> Result<
    (TerminalMode, InputPolicy),
    Seq<char>,
> {
    match mode_reading(mode) {
        Err(detail) => Err(detail),
        Ok(mode) => match input_reading(input, mode) {
            Err(detail) => Err(detail),
            Ok(policy) => Ok((mode, policy)),
        },
    }
}

proof fn spellings_differ()
    ensures
        "pty"@ != "pipe"@,
        "disabled"@ != "focused"@,
{
    reveal_strlit("pty");
    reveal_strlit("pipe");
    reveal_strlit("disabled");
    reveal_strlit("focused");
    assert("pty"@.len() != "pipe"@.len());
    assert("disabled"@.len() != "focused"@.len());
}

/// The terminal settings of a Process.
pub fn build_terminal_settings(mode: &Option<String>, input: &Option<String>) -> (r: Result<
    (TerminalMode, InputPolicy),
    String,
>)
    ensures
        (match r {
            Ok(settings) => Ok(settings),
            Err(detail) => Err(detail@),
        }) == terminal_reading(option_view(*mode), option_view(*input)),
{
    proof {
        spellings_differ();
    }
    let terminal_mode = match mode {
        None => TerminalMode::Pty,
        Some(text) => {
            if same_text(text.as_str(), "pty") {
                TerminalMode::Pty
            } else if same_text(text.as_str(), "pipe") {
                TerminalMode::Pipe
            } else {
                return Err(
                    concat3(
                        "invalid terminal mode '",
                        text.as_str(),
                        "' (use 'pipe' or 'pty')",
                    ),
                );
            }
        },
    };
    let input_policy = match input {
        None => match terminal_mode {
            TerminalMode::Pty => InputPolicy::Focused,
            TerminalMode::Pipe => InputPolicy::Disabled,
        },
        Some(text) => {
            if same_text(text.as_str(), "disabled") {
                InputPolicy::Disabled
            } else if same_text(text.as_str(), "focused") {
                InputPolicy::Focused
            } else {
                return Err(
                    concat3(
                        "invalid input policy '",
                        text.as_str(),
                        "' (use 'focused' or 'disabled')",
                    ),
                );
            }
        },
    };
    Ok((terminal_mode, input_policy))
}

/// Whether a character is a decimal digit.
pub open spec fn is_digit(character: char) -> bool {
    '0' <= character && character <= '9'
}

/// Whether a text is a number in digits.
pub open spec fn all_digits(text: Seq<char>) -> bool {
    text.len() > 0 && forall|i: int| 0 <= i < text.len() ==> is_digit(#[trigger] text[i])
}

/// The number that digits stand for.
pub open spec fn digits_value(text: Seq<char>) -> nat
    decreases text.len(),
{
    if text.len() == 0 {
        0
    } else {
        digits_value(text.drop_last()) * 10 + (text.last() as nat - '0' as nat) as nat
    }
}

} // verus!
