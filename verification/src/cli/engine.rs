//! The argument-matching engine, `clap`, as far as the library uses it.
//!
//! Nothing in this file is proved. A command, an argument and a set of matches
//! are opaque values of `clap`; each function hands its arguments to one
//! function of `clap` and hands the result back.
//!
//! What an argument and a command hold is named, and each function that
//! builds one says which setting it sets, as the source of `clap` shows it:
//! every one of them stores what it is given in one field and leaves the
//! others alone. What `clap` makes of a command line is named, not described:
//! it is a function of the command and the tokens, and nothing more is
//! claimed of it.

use vstd::prelude::*;
use clap::error::{ContextKind, ContextValue, ErrorKind};
use crate::text::texts;

verus! {

/// `clap::Command`, carried as an opaque value.
#[verifier::external_type_specification]
#[verifier::external_body]
pub struct ExCommand(clap::Command);

/// `clap::Arg`, carried as an opaque value.
#[verifier::external_type_specification]
#[verifier::external_body]
pub struct ExArg(clap::Arg);

/// `clap::ArgMatches`, carried as an opaque value.
#[verifier::external_type_specification]
#[verifier::external_body]
pub struct ExArgMatches(clap::ArgMatches);

/// `clap::builder::Styles`, carried as an opaque value.
#[verifier::external_type_specification]
#[verifier::external_body]
pub struct ExStyles(clap::builder::Styles);

/// `clap::builder::styling::Style`, carried as an opaque value.
#[verifier::external_type_specification]
#[verifier::external_body]
pub struct ExStyle(clap::builder::styling::Style);

/// `clap::error::ErrorKind`, carried as an opaque value.
#[verifier::external_type_specification]
#[verifier::external_body]
pub struct ExErrorKind(clap::error::ErrorKind);

/// A setting of an argument.
#[derive(Debug, Copy, Clone, PartialEq, Eq, Structural)]
pub enum ArgSetting {
    /// The name by which its matches are asked for.
    Id,
    /// The one-letter name.
    Short,
    /// The long name.
    Long,
    /// The heading that the help lists it under.
    Heading,
    /// The short description.
    Help,
    /// The long description.
    LongHelp,
    /// Whether it must be given.
    Required,
    /// What meeting it does.
    Action,
    /// The character that parts the values inside one token.
    Delimiter,
    /// The least number of values, where there is no greatest.
    ValuesFrom,
    /// The name that the help shows for the value.
    ValueName,
    /// Whether the help leaves the default out.
    HiddenDefault,
}

/// The value of a setting.
pub enum Setting {
    /// A name or a piece of the help.
    Text(Seq<char>),
    /// A one-letter name or a delimiter.
    Letter(char),
    /// A switch of the engine.
    Flag(bool),
    /// What meeting an argument does.
    Kind(ArgKind),
    /// A number of values or of columns.
    Count(nat),
    /// A colour.
    Paint(Paint),
}

/// A colour of the terminal.
#[derive(Debug, Copy, Clone, PartialEq, Eq, Structural)]
pub enum Paint {
    Green,
    Cyan,
    Blue,
    Magenta,
}

/// A setting of a style.
#[derive(Debug, Copy, Clone, PartialEq, Eq, Structural)]
pub enum StyleSetting {
    /// The colour of the text.
    Foreground,
    /// Whether the text is bold.
    Bold,
    /// Whether the text is underlined.
    Underline,
}

/// A part of the help that has a style of its own.
#[derive(Debug, Copy, Clone, PartialEq, Eq, Structural)]
pub enum StyleRole {
    /// The headings.
    Header,
    /// The heading of the usage.
    Usage,
    /// What is typed as it stands, such as the name of an option.
    Literal,
    /// What stands for a value.
    Placeholder,
}

/// What a style holds: its settings. `Bold` and `Underline` are always among
/// them; `Foreground` is there once a colour has been set.
pub uninterp spec fn style_settings(style: clap::builder::styling::Style) -> Map<
    StyleSetting,
    Setting,
>;

/// What a set of styles holds for each of the four parts of the help.
pub uninterp spec fn styles_held(styles: clap::builder::Styles) -> Map<
    StyleRole,
    Map<StyleSetting, Setting>,
>;

/// The styles that a command has been given, for each of the four parts of
/// the help; of a command that has been given none nothing is said.
pub uninterp spec fn command_styles(command: clap::Command) -> Map<
    StyleRole,
    Map<StyleSetting, Setting>,
>;

/// The settings of a style of this colour and nothing else.
pub open spec fn painted_style(paint: Paint) -> Map<StyleSetting, Setting> {
    map![
        StyleSetting::Foreground => Setting::Paint(paint),
        StyleSetting::Bold => Setting::Flag(false),
        StyleSetting::Underline => Setting::Flag(false),
    ]
}

/// The settings of a style without a colour.
pub open spec fn plain_style(bold: bool, underline: bool) -> Map<StyleSetting, Setting> {
    map![
        StyleSetting::Bold => Setting::Flag(bold),
        StyleSetting::Underline => Setting::Flag(underline),
    ]
}

/// The styles that `clap` starts from: bold and underlined headings, bold
/// literals, plain placeholders, none of them coloured.
pub open spec fn fresh_styles() -> Map<StyleRole, Map<StyleSetting, Setting>> {
    map![
        StyleRole::Header => plain_style(true, true),
        StyleRole::Usage => plain_style(true, true),
        StyleRole::Literal => plain_style(true, false),
        StyleRole::Placeholder => plain_style(false, false),
    ]
}

/// What an argument holds: its settings. `Id`, `Required` and `HiddenDefault`
/// are always among them; another setting is there once it has been set.
pub uninterp spec fn arg_settings(arg: clap::Arg) -> Map<ArgSetting, Setting>;

/// The settings of an argument that has its id and nothing else.
pub open spec fn fresh_arg(id: Seq<char>) -> Map<ArgSetting, Setting> {
    map![
        ArgSetting::Id => Setting::Text(id),
        ArgSetting::Required => Setting::Flag(false),
        ArgSetting::HiddenDefault => Setting::Flag(false),
    ]
}

/// A setting of a command.
#[derive(Debug, Copy, Clone, PartialEq, Eq, Structural)]
pub enum CommandSetting {
    /// The command's name.
    Name,
    /// The short description.
    About,
    /// The long description.
    LongAbout,
    /// The text behind the help.
    AfterHelp,
    /// The usage line.
    Usage,
    /// Whether a command line without arguments is turned down.
    ArgumentsRequired,
    /// Whether the engine's own help switch is left out.
    HelpFlagDisabled,
    /// The width that the help is wrapped to.
    TermWidth,
    /// Whether the help leaves out the values that an argument takes.
    HiddenValues,
}

/// What a command holds besides its arguments: its settings. `Name`,
/// `ArgumentsRequired`, `HelpFlagDisabled` and `HiddenValues` are always among
/// them; another setting is there once it has been set.
pub uninterp spec fn command_settings(command: clap::Command) -> Map<CommandSetting, Setting>;

/// The arguments that a command holds, each as its settings, in the order in
/// which they were added.
pub uninterp spec fn command_args(command: clap::Command) -> Seq<Map<ArgSetting, Setting>>;

/// The settings of a command that has its name and nothing else.
pub open spec fn fresh_command(name: Seq<char>) -> Map<CommandSetting, Setting> {
    map![
        CommandSetting::Name => Setting::Text(name),
        CommandSetting::ArgumentsRequired => Setting::Flag(false),
        CommandSetting::HelpFlagDisabled => Setting::Flag(false),
        CommandSetting::HiddenValues => Setting::Flag(false),
    ]
}

/// The settings of each argument in a list.
pub open spec fn settings_of(args: Seq<clap::Arg>) -> Seq<Map<ArgSetting, Setting>> {
    Seq::new(args.len(), |i: int| arg_settings(args[i]))
}

/// What happens when an argument is met on the command line.
#[derive(Debug, Copy, Clone, PartialEq, Eq, Structural)]
pub enum ArgKind {
    /// It takes values.
    Value,
    /// It is a switch.
    Switch,
    /// It is counted.
    Counter,
    /// It asks for the short help.
    Help,
}

/// Why the engine turned an argument set down: the kinds of error of `clap`
/// that its grammar can meet, under their names there, and `Other` for the
/// rest.
#[derive(Debug, Copy, Clone, PartialEq, Eq, Structural)]
pub enum Refusal {
    InvalidValue,
    UnknownArgument,
    ValueValidation,
    TooManyValues,
    TooFewValues,
    WrongNumberOfValues,
    ArgumentConflict,
    MissingRequiredArgument,
    DisplayHelp,
    DisplayHelpOnMissingArgument,
    Other,
}

/// An argument set that the engine turned down: the kind of its error, and
/// the argument and the value that the error names, where it names any.
pub(crate) struct Rejection {
    pub(crate) kind: ErrorKind,
    pub(crate) argument: Option<String>,
    pub(crate) value: Option<String>,
}

/// `clap::Arg::new`: a fresh argument, which holds this id and no other
/// setting.
#[verifier::external_body]
pub(crate) fn new_arg(id: &'static str) -> (r: clap::Arg)
    ensures
        arg_settings(r) == fresh_arg(id@),
{
    clap::Arg::new(id)
}

/// `clap::Arg::short`: sets the one-letter name, which `clap` does not let be
/// a hyphen, and nothing else.
#[verifier::external_body]
pub(crate) fn with_short(arg: clap::Arg, name: char) -> (r: clap::Arg)
    requires
        name != '-',
    ensures
        arg_settings(r) == arg_settings(arg).insert(ArgSetting::Short, Setting::Letter(name)),
{
    arg.short(name)
}

/// `clap::Arg::long`: sets the long name, and nothing else.
#[verifier::external_body]
pub(crate) fn with_long(arg: clap::Arg, name: &'static str) -> (r: clap::Arg)
    ensures
        arg_settings(r) == arg_settings(arg).insert(ArgSetting::Long, Setting::Text(name@)),
{
    arg.long(name)
}

/// `clap::Arg::help_heading`: sets the heading that the help lists the
/// argument under, and nothing else.
#[verifier::external_body]
pub(crate) fn with_heading(arg: clap::Arg, heading: &'static str) -> (r: clap::Arg)
    ensures
        arg_settings(r) == arg_settings(arg).insert(ArgSetting::Heading, Setting::Text(heading@)),
{
    arg.help_heading(heading)
}

/// `clap::Arg::help`: sets the short description, and nothing else.
#[verifier::external_body]
pub(crate) fn with_help(arg: clap::Arg, help: &'static str) -> (r: clap::Arg)
    ensures
        arg_settings(r) == arg_settings(arg).insert(ArgSetting::Help, Setting::Text(help@)),
{
    arg.help(help)
}

/// `clap::Arg::long_help`: sets the long description, and nothing else.
#[verifier::external_body]
pub(crate) fn with_long_help(arg: clap::Arg, help: &'static str) -> (r: clap::Arg)
    ensures
        arg_settings(r) == arg_settings(arg).insert(ArgSetting::LongHelp, Setting::Text(help@)),
{
    arg.long_help(help)
}

/// `clap::Arg::required`: sets whether the argument must be given, and
/// nothing else.
#[verifier::external_body]
pub(crate) fn with_required(arg: clap::Arg, yes: bool) -> (r: clap::Arg)
    ensures
        arg_settings(r) == arg_settings(arg).insert(ArgSetting::Required, Setting::Flag(yes)),
{
    arg.required(yes)
}

/// `clap::Arg::action`: sets what meeting the argument does, and nothing
/// else. The kinds stand for the actions `Set`, `SetTrue`, `Count` and
/// `HelpShort` of `clap`, in this order.
#[verifier::external_body]
pub(crate) fn with_action(arg: clap::Arg, kind: ArgKind) -> (r: clap::Arg)
    ensures
        arg_settings(r) == arg_settings(arg).insert(ArgSetting::Action, Setting::Kind(kind)),
{
    arg.action(
        match kind {
            ArgKind::Value => clap::ArgAction::Set,
            ArgKind::Switch => clap::ArgAction::SetTrue,
            ArgKind::Counter => clap::ArgAction::Count,
            ArgKind::Help => clap::ArgAction::HelpShort,
        },
    )
}

/// `clap::Arg::value_delimiter`: sets the character that parts the values
/// inside one token, and nothing else.
#[verifier::external_body]
pub(crate) fn with_delimiter(arg: clap::Arg, delimiter: char) -> (r: clap::Arg)
    ensures
        arg_settings(r) == arg_settings(arg).insert(ArgSetting::Delimiter, Setting::Letter(delimiter)),
{
    arg.value_delimiter(delimiter)
}

/// `clap::Arg::num_args`, with a range that is open above: sets the least
/// number of values, with no greatest, and nothing else.
#[verifier::external_body]
pub(crate) fn with_values_from(arg: clap::Arg, least: usize) -> (r: clap::Arg)
    ensures
        arg_settings(r) == arg_settings(arg).insert(ArgSetting::ValuesFrom, Setting::Count(least as nat)),
{
    arg.num_args(least..)
}

/// `clap::Arg::value_name`: sets the one name that the help shows for the
/// value, and nothing else.
#[verifier::external_body]
pub(crate) fn with_value_name(arg: clap::Arg, name: &'static str) -> (r: clap::Arg)
    ensures
        arg_settings(r) == arg_settings(arg).insert(ArgSetting::ValueName, Setting::Text(name@)),
{
    arg.value_name(name)
}

/// `clap::Arg::hide_default_value`: sets whether the help leaves the default
/// out, and nothing else.
#[verifier::external_body]
pub(crate) fn with_hidden_default(arg: clap::Arg, yes: bool) -> (r: clap::Arg)
    ensures
        arg_settings(r) == arg_settings(arg).insert(ArgSetting::HiddenDefault, Setting::Flag(yes)),
{
    arg.hide_default_value(yes)
}

/// `clap::Command::new`: a fresh command, which holds this name, no other
/// setting and no argument.
#[verifier::external_body]
pub(crate) fn new_command(name: &'static str) -> (r: clap::Command)
    ensures
        command_settings(r) == fresh_command(name@),
        command_args(r).len() == 0,
{
    clap::Command::new(name)
}

/// `clap::Command::about`: sets the short description, and nothing else.
#[verifier::external_body]
pub(crate) fn with_about(command: clap::Command, about: &'static str) -> (r: clap::Command)
    ensures
        command_settings(r) == command_settings(command).insert(
            CommandSetting::About,
            Setting::Text(about@),
        ),
        command_args(r) == command_args(command),
        command_styles(r) == command_styles(command),
{
    command.about(about)
}

/// `clap::Command::long_about`: sets the long description, and nothing else.
#[verifier::external_body]
pub(crate) fn with_long_about(command: clap::Command, about: &'static str) -> (r: clap::Command)
    ensures
        command_settings(r) == command_settings(command).insert(
            CommandSetting::LongAbout,
            Setting::Text(about@),
        ),
        command_args(r) == command_args(command),
        command_styles(r) == command_styles(command),
{
    command.long_about(about)
}

/// `clap::Command::after_help`: sets the text behind the help, and nothing
/// else.
#[verifier::external_body]
pub(crate) fn with_after_help(command: clap::Command, help: &'static str) -> (r: clap::Command)
    ensures
        command_settings(r) == command_settings(command).insert(
            CommandSetting::AfterHelp,
            Setting::Text(help@),
        ),
        command_args(r) == command_args(command),
        command_styles(r) == command_styles(command),
{
    command.after_help(help)
}

/// `clap::Command::override_usage`: sets the usage line, and nothing else.
#[verifier::external_body]
pub(crate) fn with_usage(command: clap::Command, usage: &'static str) -> (r: clap::Command)
    ensures
        command_settings(r) == command_settings(command).insert(
            CommandSetting::Usage,
            Setting::Text(usage@),
        ),
        command_args(r) == command_args(command),
        command_styles(r) == command_styles(command),
{
    command.override_usage(usage)
}

/// `clap::Command::arg_required_else_help`: sets whether a command line
/// without arguments is turned down, and nothing else.
#[verifier::external_body]
pub(crate) fn with_arguments_required(command: clap::Command, yes: bool) -> (r: clap::Command)
    ensures
        command_settings(r) == command_settings(command).insert(
            CommandSetting::ArgumentsRequired,
            Setting::Flag(yes),
        ),
        command_args(r) == command_args(command),
        command_styles(r) == command_styles(command),
{
    command.arg_required_else_help(yes)
}

/// `clap::Command::disable_help_flag`: sets whether the engine's own help
/// switch is left out, and nothing else.
#[verifier::external_body]
pub(crate) fn with_help_flag_disabled(command: clap::Command, yes: bool) -> (r: clap::Command)
    ensures
        command_settings(r) == command_settings(command).insert(
            CommandSetting::HelpFlagDisabled,
            Setting::Flag(yes),
        ),
        command_args(r) == command_args(command),
        command_styles(r) == command_styles(command),
{
    command.disable_help_flag(yes)
}

/// `clap::Command::term_width`: sets the width that the help is wrapped to,
/// and nothing else.
#[verifier::external_body]
pub(crate) fn with_term_width(command: clap::Command, width: usize) -> (r: clap::Command)
    ensures
        command_settings(r) == command_settings(command).insert(
            CommandSetting::TermWidth,
            Setting::Count(width as nat),
        ),
        command_args(r) == command_args(command),
        command_styles(r) == command_styles(command),
{
    command.term_width(width)
}

/// `clap::Command::hide_possible_values`: sets whether the help leaves out the
/// values that an argument takes, and nothing else.
#[verifier::external_body]
pub(crate) fn with_hidden_values(command: clap::Command, yes: bool) -> (r: clap::Command)
    ensures
        command_settings(r) == command_settings(command).insert(
            CommandSetting::HiddenValues,
            Setting::Flag(yes),
        ),
        command_args(r) == command_args(command),
        command_styles(r) == command_styles(command),
{
    command.hide_possible_values(yes)
}

/// `clap::Command::args`: adds the arguments behind those that the command
/// holds, in their order, and leaves the command's settings alone. An
/// argument that has no heading would get the one that the command has in
/// store for such: each argument is to have its own, and then keeps its
/// settings as they are.
#[verifier::external_body]
pub(crate) fn with_args<const N: usize>(command: clap::Command, args: [clap::Arg; N]) -> (r:
    clap::Command)
    requires
        forall|i: int|
            0 <= i < N ==> (#[trigger] arg_settings(args@[i])).contains_key(ArgSetting::Heading),
    ensures
        command_settings(r) == command_settings(command),
        command_args(r) == command_args(command) + settings_of(args@),
        command_styles(r) == command_styles(command),
{
    command.args(args)
}

/// `AnsiColor::on_default` of `anstyle`, which `clap` hands on: a style with
/// this colour for the text and nothing else. Each colour stands for the one
/// of the same name.
#[verifier::external_body]
pub(crate) fn painted(paint: Paint) -> (r: clap::builder::styling::Style)
    ensures
        style_settings(r) == painted_style(paint),
{
    match paint {
        Paint::Green => clap::builder::styling::AnsiColor::Green,
        Paint::Cyan => clap::builder::styling::AnsiColor::Cyan,
        Paint::Blue => clap::builder::styling::AnsiColor::Blue,
        Paint::Magenta => clap::builder::styling::AnsiColor::Magenta,
    }.on_default()
}

/// The `|` of a style and `Effects::BOLD` of `anstyle`: makes the text bold,
/// and nothing else.
#[verifier::external_body]
pub(crate) fn bold(style: clap::builder::styling::Style) -> (r: clap::builder::styling::Style)
    ensures
        style_settings(r) == style_settings(style).insert(StyleSetting::Bold, Setting::Flag(true)),
{
    style | clap::builder::styling::Effects::BOLD
}

/// The `|` of a style and `Effects::UNDERLINE` of `anstyle`: underlines the
/// text, and nothing else.
#[verifier::external_body]
pub(crate) fn underlined(style: clap::builder::styling::Style) -> (r:
    clap::builder::styling::Style)
    ensures
        style_settings(r) == style_settings(style).insert(
            StyleSetting::Underline,
            Setting::Flag(true),
        ),
{
    style | clap::builder::styling::Effects::UNDERLINE
}

/// `clap::builder::Styles::styled`: the styles that `clap` starts from where
/// it is built with colours, as it is here.
#[verifier::external_body]
pub(crate) fn new_styles() -> (r: clap::builder::Styles)
    ensures
        styles_held(r) == fresh_styles(),
{
    clap::builder::Styles::styled()
}

/// `clap::builder::Styles::header`: sets the style of the headings, and
/// nothing else.
#[verifier::external_body]
pub(crate) fn with_header_style(
    styles: clap::builder::Styles,
    style: clap::builder::styling::Style,
) -> (r: clap::builder::Styles)
    ensures
        styles_held(r) == styles_held(styles).insert(StyleRole::Header, style_settings(style)),
{
    styles.header(style)
}

/// `clap::builder::Styles::usage`: sets the style of the usage's heading, and
/// nothing else.
#[verifier::external_body]
pub(crate) fn with_usage_style(
    styles: clap::builder::Styles,
    style: clap::builder::styling::Style,
) -> (r: clap::builder::Styles)
    ensures
        styles_held(r) == styles_held(styles).insert(StyleRole::Usage, style_settings(style)),
{
    styles.usage(style)
}

/// `clap::builder::Styles::literal`: sets the style of what is typed as it
/// stands, and nothing else.
#[verifier::external_body]
pub(crate) fn with_literal_style(
    styles: clap::builder::Styles,
    style: clap::builder::styling::Style,
) -> (r: clap::builder::Styles)
    ensures
        styles_held(r) == styles_held(styles).insert(StyleRole::Literal, style_settings(style)),
{
    styles.literal(style)
}

/// `clap::builder::Styles::placeholder`: sets the style of what stands for a
/// value, and nothing else.
#[verifier::external_body]
pub(crate) fn with_placeholder_style(
    styles: clap::builder::Styles,
    style: clap::builder::styling::Style,
) -> (r: clap::builder::Styles)
    ensures
        styles_held(r) == styles_held(styles).insert(
            StyleRole::Placeholder,
            style_settings(style),
        ),
{
    styles.placeholder(style)
}

/// `clap::Command::styles`: gives the command these styles, and leaves its
/// settings and its arguments alone.
#[verifier::external_body]
pub(crate) fn with_styles(command: clap::Command, styles: clap::builder::Styles) -> (r:
    clap::Command)
    ensures
        command_settings(r) == command_settings(command),
        command_args(r) == command_args(command),
        command_styles(r) == styles_held(styles),
{
    command.styles(styles)
}

/// A refusal of the engine, as plain values: its kind, and the argument and
/// the value that it names, where it names any.
pub struct RefusalView {
    pub kind: Refusal,
    pub argument: Option<Seq<char>>,
    pub value: Option<Seq<char>>,
}

/// The kind of refusal that a kind of error of `clap` stands for: the one of
/// the same name, and `Other` for a kind that [`Refusal`] does not list.
pub uninterp spec fn kind_named(kind: clap::error::ErrorKind) -> Refusal;

/// What `clap` makes of the tokens, the first of which is the program's name,
/// under a command: the matches, or its refusal. It depends on the command
/// and the tokens alone.
pub uninterp spec fn engine_outcome(command: clap::Command, tokens: Seq<Seq<char>>) -> Result<
    clap::ArgMatches,
    RefusalView,
>;

/// The characters of a piece of text that may be absent.
pub open spec fn text_opt(t: Option<String>) -> Option<Seq<char>> {
    match t {
        Some(s) => Some(s@),
        None => None,
    }
}

impl Rejection {
    /// The rejection as plain values.
    pub(crate) open spec fn view(self) -> RefusalView {
        RefusalView {
            kind: kind_named(self.kind),
            argument: text_opt(self.argument),
            value: text_opt(self.value),
        }
    }
}

/// `clap::Command::try_get_matches_from`: matches the tokens, the first of
/// which is the program's name, against the command. The result is what
/// `clap` makes of these tokens under this command: it is named, not
/// described. An error of `clap` comes back as its kind and the two strings
/// that its context holds under `InvalidArg` and `InvalidValue`.
///
/// In a debug build `clap` checks the command when it builds it, and panics
/// on a command whose arguments contradict each other. The command of
/// `cli_init` passes that check, and no other command is let in.
#[verifier::external_body]
pub(crate) fn try_matches(command: clap::Command, tokens: &Vec<String>) -> (r: Result<
    clap::ArgMatches,
    Rejection,
>)
    requires
        crate::cli::is_cli(command),
    ensures
        r matches Ok(matches) ==> engine_outcome(command, texts(tokens@)) is Ok && engine_outcome(
            command,
            texts(tokens@),
        )->Ok_0 == matches,
        r matches Err(rejection) ==> engine_outcome(command, texts(tokens@)) is Err
            && engine_outcome(command, texts(tokens@))->Err_0 == rejection.view(),
{
    let e = match command.try_get_matches_from(tokens) {
        Ok(m) => return Ok(m),
        Err(e) => e,
    };
    let argument = match e.get(ContextKind::InvalidArg) {
        Some(ContextValue::String(s)) => Some(s.clone()),
        _ => None,
    };
    let value = match e.get(ContextKind::InvalidValue) {
        Some(ContextValue::String(s)) => Some(s.clone()),
        _ => None,
    };
    Err(Rejection { kind: e.kind(), argument, value })
}

/// Tells the kinds of error of `clap` apart, each given as the kind of the
/// same name; a kind that is not listed is `Other`.
#[verifier::external_body]
pub(crate) fn refusal_of(kind: ErrorKind) -> (r: Refusal)
    ensures
        r == kind_named(kind),
{
    match kind {
        ErrorKind::InvalidValue => Refusal::InvalidValue,
        ErrorKind::UnknownArgument => Refusal::UnknownArgument,
        ErrorKind::ValueValidation => Refusal::ValueValidation,
        ErrorKind::TooManyValues => Refusal::TooManyValues,
        ErrorKind::TooFewValues => Refusal::TooFewValues,
        ErrorKind::WrongNumberOfValues => Refusal::WrongNumberOfValues,
        ErrorKind::ArgumentConflict => Refusal::ArgumentConflict,
        ErrorKind::MissingRequiredArgument => Refusal::MissingRequiredArgument,
        ErrorKind::DisplayHelp => Refusal::DisplayHelp,
        ErrorKind::DisplayHelpOnMissingArgumentOrSubcommand => Refusal::DisplayHelpOnMissingArgument,
        _ => Refusal::Other,
    }
}

/// What a set of matches holds as text: under the id of each argument that
/// was matched with values of text, those values in the order given.
pub uninterp spec fn texts_matched(matches: clap::ArgMatches) -> Map<Seq<char>, Seq<Seq<char>>>;

/// What a set of matches holds as switches: under the id of each argument
/// that was matched as a switch, whether it is on.
pub uninterp spec fn switches_matched(matches: clap::ArgMatches) -> Map<Seq<char>, bool>;

/// `clap::ArgMatches::try_get_one`, for text: the first of the values that
/// the matches hold for the argument. `None` stands for no value and for an
/// error of the call alike; the call fails where `try_get_many` fails.
#[verifier::external_body]
pub(crate) fn matched_one(matches: &clap::ArgMatches, id: &str) -> (r: Option<String>)
    ensures
        match r {
            Some(value) => texts_matched(*matches).contains_key(id@) && texts_matched(
                *matches,
            )[id@].len() > 0 && value@ == texts_matched(*matches)[id@][0],
            None => !texts_matched(*matches).contains_key(id@) || texts_matched(
                *matches,
            )[id@].len() == 0,
        },
{
    matches.try_get_one::<String>(id).ok().flatten().cloned()
}

/// `clap::ArgMatches::try_get_many`, for text: every value that the matches
/// hold for the argument, in the order given. `None` stands for no argument
/// of that id with values of text and for an error of the call alike.
#[verifier::external_body]
pub(crate) fn matched_many(matches: &clap::ArgMatches, id: &str) -> (r: Option<Vec<String>>)
    ensures
        match r {
            Some(values) => texts_matched(*matches).contains_key(id@) && texts(values@)
                == texts_matched(*matches)[id@],
            None => !texts_matched(*matches).contains_key(id@),
        },
{
    matches.try_get_many::<String>(id).ok().flatten().map(|values| values.cloned().collect())
}

/// `clap::ArgMatches::try_get_one`, for a switch: whether it is on. `None`
/// stands for no switch of that id and for an error of the call alike.
#[verifier::external_body]
pub(crate) fn matched_flag(matches: &clap::ArgMatches, id: &str) -> (r: Option<bool>)
    ensures
        match r {
            Some(on) => switches_matched(*matches).contains_key(id@) && on == switches_matched(
                *matches,
            )[id@],
            None => !switches_matched(*matches).contains_key(id@),
        },
{
    matches.try_get_one::<bool>(id).ok().flatten().copied()
}

} // verus!
