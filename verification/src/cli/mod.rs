//! The command line: its arguments, its help, and the switches that are read
//! straight from the tokens.

pub mod debug;
pub mod engine;
pub mod help;
pub mod optional;
pub mod positional;

use vstd::prelude::*;
use crate::cli::engine::{
    arg_settings, command_args, command_settings, command_styles, painted_style, settings_of,
    styles_held, ArgSetting, CommandSetting, Paint, Setting, StyleRole, StyleSetting,
};
use crate::text::{same_text, texts};

pub use help::help_wanted;

verus! {

/// What the command is for, in a line.
pub const ABOUT: &'static str = "Conversion of meshtal file meshes to MCNP weight windows";

/// The characters of each name in a list.
pub open spec fn names_of(names: Seq<&str>) -> Seq<Seq<char>> {
    Seq::new(names.len(), |j: int| names[j]@)
}

/// Whether one of the tokens is one of the names.
pub open spec fn flag_present(args: Seq<Seq<char>>, names: Seq<Seq<char>>) -> bool {
    exists|i: int| 0 <= i < args.len() && names.contains(#[trigger] args[i])
}

/// Whether one of the tokens is the name.
pub fn has_token(args: &Vec<String>, name: &str) -> (r: bool)
    ensures
        r == texts(args@).contains(name@),
{
    let mut i: usize = 0;
    while i < args.len()
        invariant
            i <= args.len(),
            forall|k: int| 0 <= k < i ==> texts(args@)[k] != name@,
        decreases args.len() - i,
    {
        if same_text(args[i].as_str(), name) {
            assert(texts(args@)[i as int] == name@);
            return true;
        }
        i += 1;
    }
    false
}

/// The settings of the command: its name, what its help says, that it turns
/// an empty command line down, and that it brings no help switch of its own.
pub open spec fn cli_settings() -> Map<CommandSetting, Setting> {
    map![
        CommandSetting::Name => Setting::Text("mesh2ww"@),
        CommandSetting::About => Setting::Text(ABOUT@),
        CommandSetting::LongAbout => Setting::Text(help::LONG_HELP@),
        CommandSetting::AfterHelp => Setting::Text(help::AFTER_HELP@),
        CommandSetting::Usage => Setting::Text(help::USAGE@),
        CommandSetting::ArgumentsRequired => Setting::Flag(true),
        CommandSetting::HelpFlagDisabled => Setting::Flag(true),
        CommandSetting::TermWidth => Setting::Count(76),
        CommandSetting::HiddenValues => Setting::Flag(true),
    ]
}

/// The arguments of the command, in order: the two positional values, the
/// options, and the arguments that steer logging and help.
pub open spec fn cli_arguments() -> Seq<Map<ArgSetting, Setting>> {
    positional::positional_settings() + optional::optional_settings() + debug::debug_settings()
}

/// Whether a command is the command line's: it has the settings and the
/// arguments that [`cli_init`] gives it.
pub open spec fn is_cli(command: clap::Command) -> bool {
    &&& command_settings(command) == cli_settings()
    &&& command_args(command) == cli_arguments()
    &&& command_styles(command) == cli_styles()
}

/// The colours of the help: green headings, a cyan and underlined heading of
/// the usage, blue literals, all of them bold, and magenta placeholders.
pub open spec fn cli_styles() -> Map<StyleRole, Map<StyleSetting, Setting>> {
    map![
        StyleRole::Header => painted_style(Paint::Green).insert(
            StyleSetting::Bold,
            Setting::Flag(true),
        ),
        StyleRole::Usage => painted_style(Paint::Cyan).insert(
            StyleSetting::Bold,
            Setting::Flag(true),
        ).insert(StyleSetting::Underline, Setting::Flag(true)),
        StyleRole::Literal => painted_style(Paint::Blue).insert(
            StyleSetting::Bold,
            Setting::Flag(true),
        ),
        StyleRole::Placeholder => painted_style(Paint::Magenta),
    ]
}

/// Customise the colour styles of the help.
fn custom_style() -> (r: clap::builder::Styles)
    ensures
        styles_held(r) == cli_styles(),
{
    let styles = engine::new_styles();
    let styles = engine::with_header_style(styles, engine::bold(engine::painted(Paint::Green)));
    let styles = engine::with_usage_style(
        styles,
        engine::underlined(engine::bold(engine::painted(Paint::Cyan))),
    );
    let styles = engine::with_literal_style(styles, engine::bold(engine::painted(Paint::Blue)));
    let styles = engine::with_placeholder_style(styles, engine::painted(Paint::Magenta));
    assert(styles_held(styles) =~= cli_styles());
    styles
}

/// Initialises the command and sets up its arguments.
pub fn cli_init() -> (r: clap::Command)
    ensures
        is_cli(r),
        command_settings(r) == cli_settings(),
        command_args(r) == cli_arguments(),
        command_styles(r) == cli_styles(),
{
    let command = engine::new_command("mesh2ww");
    let command = engine::with_about(command, ABOUT);
    let command = engine::with_arguments_required(command, true);
    let command = engine::with_help_flag_disabled(command, true);
    let command = engine::with_after_help(command, help::after_help_message());
    let command = engine::with_long_about(command, help::cli_long_help());
    let command = engine::with_term_width(command, 76);
    let command = engine::with_hidden_values(command, true);
    let command = engine::with_usage(command, help::usage_message());
    assert(command_settings(command) =~= cli_settings());
    let positional = positional::positional_args();
    let optional = optional::optional_args();
    let debug = debug::debug_args();
    proof {
        lemma_have_headings(positional@, positional::positional_settings());
        lemma_have_headings(optional@, optional::optional_settings());
        lemma_have_headings(debug@, debug::debug_settings());
    }
    let command = engine::with_args(command, positional);
    let command = engine::with_args(command, optional);
    let command = engine::with_args(command, debug);
    assert(command_args(command) =~= cli_arguments());
    engine::with_styles(command, custom_style())
}

/// Arguments whose settings all name a heading have one each.
proof fn lemma_have_headings(args: Seq<clap::Arg>, settings: Seq<Map<ArgSetting, Setting>>)
    requires
        settings_of(args) == settings,
        forall|i: int|
            0 <= i < settings.len() ==> (#[trigger] settings[i]).contains_key(ArgSetting::Heading),
    ensures
        forall|i: int|
            0 <= i < args.len() ==> (#[trigger] arg_settings(args[i])).contains_key(
                ArgSetting::Heading,
            ),
{
    assert forall|i: int| 0 <= i < args.len() implies (#[trigger] arg_settings(
        args[i],
    )).contains_key(ArgSetting::Heading) by {
        assert(settings_of(args)[i] == arg_settings(args[i]));
        assert(settings[i].contains_key(ArgSetting::Heading));
    }
}

/// Checks if a flag is present in any of the arguments.
pub fn is_flag_present(args: &Vec<String>, names: &[&str]) -> (r: bool)
    ensures
        r == flag_present(texts(args@), names_of(names@)),
{
    let mut j: usize = 0;
    while j < names.len()
        invariant
            j <= names.len(),
            forall|k: int| 0 <= k < j ==> !texts(args@).contains(#[trigger] names_of(names@)[k]),
        decreases names.len() - j,
    {
        if has_token(args, names[j]) {
            proof {
                let name = names_of(names@)[j as int];
                let i = choose|i: int| 0 <= i < texts(args@).len() && texts(args@)[i] == name;
                assert(names_of(names@).contains(texts(args@)[i]));
            }
            return true;
        }
        j += 1;
    }
    proof {
        if flag_present(texts(args@), names_of(names@)) {
            let i = choose|i: int|
                0 <= i < texts(args@).len() && names_of(names@).contains(#[trigger] texts(args@)[i]);
            let k = choose|k: int|
                0 <= k < names_of(names@).len() && names_of(names@)[k] == texts(args@)[i];
            assert(texts(args@).contains(names_of(names@)[k]));
        }
    }
    false
}

} // verus!
