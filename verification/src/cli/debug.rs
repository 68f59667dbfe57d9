//! The arguments that steer logging and help.

use vstd::prelude::*;
use crate::cli::engine::{
    arg_settings, new_arg, settings_of, with_action, with_heading, with_help, with_long, with_long_help,
    with_required, with_short, ArgKind, ArgSetting, Setting,
};

verus! {

/// The long description of `verbose`.
pub const VERBOSE_LONG_HELP: &'static str = "If specified, the default log level of INFO is increased to DEBUG (-v) or TRACE (-vv). Errors and Warnings are always logged unless quiet (-q) is used.";

/// The arguments that steer logging and help.
pub open spec fn debug_settings() -> Seq<Map<ArgSetting, Setting>> {
    seq![
        verbose_settings(),
        quiet_settings(),
        help_settings(),
    ]
}

/// The arguments that steer logging and help.
pub fn debug_args() -> (r: [clap::Arg; 3])
    ensures
        settings_of(r@) == debug_settings(),
{
    let args = [
        arg_verbosity(),
        arg_quiet(),
        arg_help(),
    ];
    assert(settings_of(args@) =~= debug_settings());
    args
}

/// The verbosity: `-v`, `--verbose`, counted.
pub open spec fn verbose_settings() -> Map<ArgSetting, Setting> {
    map![
        ArgSetting::Id => Setting::Text("verbose"@),
        ArgSetting::Short => Setting::Letter('v'),
        ArgSetting::Long => Setting::Text("verbose"@),
        ArgSetting::Heading => Setting::Text("Flags"@),
        ArgSetting::Help => Setting::Text("Verbose logging (-v, -vv)"@),
        ArgSetting::LongHelp => Setting::Text(VERBOSE_LONG_HELP@),
        ArgSetting::Required => Setting::Flag(false),
        ArgSetting::Action => Setting::Kind(ArgKind::Counter),
        ArgSetting::HiddenDefault => Setting::Flag(false),
    ]
}

/// The argument whose settings are [`verbose_settings`].
fn arg_verbosity() -> (r: clap::Arg)
    ensures
        arg_settings(r) == verbose_settings(),
{
    let arg = new_arg("verbose");
    let arg = with_short(arg, 'v');
    let arg = with_long(arg, "verbose");
    let arg = with_heading(arg, "Flags");
    let arg = with_help(arg, "Verbose logging (-v, -vv)");
    let arg = with_long_help(arg, VERBOSE_LONG_HELP);
    let arg = with_required(arg, false);
    let arg = with_action(arg, ArgKind::Counter);
    assert(arg_settings(arg) =~= verbose_settings());
    arg
}

/// The switch that silences the log: `-q`, `--quiet`.
pub open spec fn quiet_settings() -> Map<ArgSetting, Setting> {
    map![
        ArgSetting::Id => Setting::Text("quiet"@),
        ArgSetting::Short => Setting::Letter('q'),
        ArgSetting::Long => Setting::Text("quiet"@),
        ArgSetting::Heading => Setting::Text("Flags"@),
        ArgSetting::Help => Setting::Text("Supress all log output (overrules --verbose)"@),
        ArgSetting::Required => Setting::Flag(false),
        ArgSetting::Action => Setting::Kind(ArgKind::Switch),
        ArgSetting::HiddenDefault => Setting::Flag(false),
    ]
}

/// The argument whose settings are [`quiet_settings`].
fn arg_quiet() -> (r: clap::Arg)
    ensures
        arg_settings(r) == quiet_settings(),
{
    let arg = new_arg("quiet");
    let arg = with_short(arg, 'q');
    let arg = with_long(arg, "quiet");
    let arg = with_heading(arg, "Flags");
    let arg = with_help(arg, "Supress all log output (overrules --verbose)");
    let arg = with_required(arg, false);
    let arg = with_action(arg, ArgKind::Switch);
    assert(arg_settings(arg) =~= quiet_settings());
    arg
}

/// The request for help: `--help`.
pub open spec fn help_settings() -> Map<ArgSetting, Setting> {
    map![
        ArgSetting::Id => Setting::Text("help"@),
        ArgSetting::Long => Setting::Text("help"@),
        ArgSetting::Heading => Setting::Text("Flags"@),
        ArgSetting::Help => Setting::Text("Print help info (see more with '--help')"@),
        ArgSetting::Required => Setting::Flag(false),
        ArgSetting::Action => Setting::Kind(ArgKind::Help),
        ArgSetting::HiddenDefault => Setting::Flag(false),
    ]
}

/// The argument whose settings are [`help_settings`].
fn arg_help() -> (r: clap::Arg)
    ensures
        arg_settings(r) == help_settings(),
{
    let arg = new_arg("help");
    let arg = with_long(arg, "help");
    let arg = with_heading(arg, "Flags");
    let arg = with_help(arg, "Print help info (see more with '--help')");
    let arg = with_required(arg, false);
    let arg = with_action(arg, ArgKind::Help);
    assert(arg_settings(arg) =~= help_settings());
    arg
}

} // verus!
