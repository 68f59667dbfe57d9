//! The two values that every tally request opens with.

use vstd::prelude::*;
use crate::cli::engine::{
    arg_settings, new_arg, settings_of, with_action, with_heading, with_help, with_long_help, ArgKind,
    ArgSetting, Setting,
};

verus! {

/// The long description of `number`.
pub const NUMBER_LONG_HELP: &'static str = "e.g. 104 for the FMESH104:n card";

/// The source path and the tally's number, in this order.
pub open spec fn positional_settings() -> Seq<Map<ArgSetting, Setting>> {
    seq![
        meshtal_settings(),
        number_settings(),
    ]
}

/// The source path and the tally's number, in this order.
pub fn positional_args() -> (r: [clap::Arg; 2])
    ensures
        settings_of(r@) == positional_settings(),
{
    let args = [
        arg_meshtal(),
        arg_number(),
    ];
    assert(settings_of(args@) =~= positional_settings());
    args
}

/// The source path: the first positional value.
pub open spec fn meshtal_settings() -> Map<ArgSetting, Setting> {
    map![
        ArgSetting::Id => Setting::Text("meshtal"@),
        ArgSetting::Heading => Setting::Text("Arguments"@),
        ArgSetting::Help => Setting::Text("Path to meshtal file"@),
        ArgSetting::Required => Setting::Flag(false),
        ArgSetting::Action => Setting::Kind(ArgKind::Value),
        ArgSetting::HiddenDefault => Setting::Flag(false),
    ]
}

/// The argument whose settings are [`meshtal_settings`].
fn arg_meshtal() -> (r: clap::Arg)
    ensures
        arg_settings(r) == meshtal_settings(),
{
    let arg = new_arg("meshtal");
    let arg = with_heading(arg, "Arguments");
    let arg = with_help(arg, "Path to meshtal file");
    let arg = with_action(arg, ArgKind::Value);
    assert(arg_settings(arg) =~= meshtal_settings());
    arg
}

/// The number of the tally: the second positional value.
pub open spec fn number_settings() -> Map<ArgSetting, Setting> {
    map![
        ArgSetting::Id => Setting::Text("number"@),
        ArgSetting::Heading => Setting::Text("Arguments"@),
        ArgSetting::Help => Setting::Text("Mesh tally identifier"@),
        ArgSetting::LongHelp => Setting::Text(NUMBER_LONG_HELP@),
        ArgSetting::Required => Setting::Flag(false),
        ArgSetting::Action => Setting::Kind(ArgKind::Value),
        ArgSetting::HiddenDefault => Setting::Flag(false),
    ]
}

/// The argument whose settings are [`number_settings`].
fn arg_number() -> (r: clap::Arg)
    ensures
        arg_settings(r) == number_settings(),
{
    let arg = new_arg("number");
    let arg = with_heading(arg, "Arguments");
    let arg = with_help(arg, "Mesh tally identifier");
    let arg = with_long_help(arg, NUMBER_LONG_HELP);
    let arg = with_action(arg, ArgKind::Value);
    assert(arg_settings(arg) =~= number_settings());
    arg
}

} // verus!
