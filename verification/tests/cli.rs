use clap::builder::styling::{AnsiColor, Effects};
use clap::ArgAction;
use mesh2ww::cli::help::{
    after_help_message, cli_long_help, usage_message, HelpWanted, AFTER_HELP, LONG_HELP, USAGE,
};
use mesh2ww::cli::{cli_init, has_token, help_wanted, is_flag_present};
use mesh2ww::logging::{is_quiet, log_setup, verbosity};
use mesh2ww::wrappers::{CliByteOrder, CliCompressor, CliVtkFormat};

fn words(line: &str) -> Vec<String> {
    line.split_whitespace().map(String::from).collect()
}

#[test]
fn command_is_consistent() {
    cli_init().debug_assert();
}

#[test]
fn command_knows_its_arguments() {
    let command = cli_init();
    let ids: Vec<String> = command.get_arguments().map(|a| a.get_id().to_string()).collect();
    assert_eq!(
        ids,
        [
            "meshtal", "number", "power", "error", "total", "scale", "output", "trim", "vtk",
            "format", "resolution", "endian", "compressor", "verbose", "quiet", "help"
        ]
    );
    assert_eq!(command.get_name(), "mesh2ww");
}

#[test]
fn help_mentions_usage_and_options() {
    let mut command = cli_init();
    let long = command.render_long_help().to_string();
    assert!(long.contains("mesh2ww <meshtal> <number> [options] [+]"), "{long}");
    assert!(long.contains("--power"), "{long}");
    assert!(long.contains("Typical examples"), "{long}");
    let short = command.render_help().to_string();
    assert!(short.contains("See --help for detail and examples"), "{short}");
}

#[test]
fn help_texts_are_the_constants() {
    assert_eq!(usage_message(), "mesh2ww <meshtal> <number> [options] [+]");
    assert_eq!(usage_message(), USAGE);
    assert_eq!(after_help_message(), "See --help for detail and examples");
    assert_eq!(after_help_message(), AFTER_HELP);
    assert_eq!(cli_long_help(), LONG_HELP);
    assert!(cli_long_help().starts_with("Conversion of meshtal file meshes to MCNP weight windows"));
    assert!(cli_long_help().ends_with("considered to be 0.0 in this implementation."));
}

#[test]
fn long_help_comes_first() {
    assert_eq!(help_wanted(&words("mesh2ww a 1 -h --help")), HelpWanted::Long);
    assert_eq!(help_wanted(&words("mesh2ww --help")), HelpWanted::Long);
    assert_eq!(help_wanted(&words("mesh2ww a 1 + b 2 -h")), HelpWanted::Short);
    assert_eq!(help_wanted(&words("mesh2ww a 1 -help --h")), HelpWanted::No);
    assert_eq!(help_wanted(&words("mesh2ww +")), HelpWanted::No);
}

#[test]
fn empty_command_line_gets_help_unasked() {
    assert_eq!(help_wanted(&words("mesh2ww")), HelpWanted::Unprompted);
    assert_eq!(help_wanted(&words("")), HelpWanted::Unprompted);
    assert_eq!(help_wanted(&words("-h")), HelpWanted::Short);
    assert_eq!(help_wanted(&words("--help")), HelpWanted::Long);
}

#[test]
fn flags_are_whole_tokens() {
    let args = words("mesh2ww a 1 --vtk + b 2 -q");
    assert!(is_flag_present(&args, &["--vtk"]));
    assert!(is_flag_present(&args, &["-x", "-q"]));
    assert!(!is_flag_present(&args, &["--vt", "--vtk2", "q"]));
    assert!(!is_flag_present(&args, &[]));
    assert!(!is_flag_present(&words(""), &["--vtk"]));
    assert!(has_token(&args, "+"));
    assert!(!has_token(&args, "--quiet"));
}

#[test]
fn quiet_has_two_names() {
    assert!(is_quiet(&words("mesh2ww a 1 -q")));
    assert!(is_quiet(&words("mesh2ww a 1 + b 2 --quiet")));
    assert!(!is_quiet(&words("mesh2ww a 1 -Q --quieter")));
}

#[test]
fn verbosity_counts() {
    assert_eq!(verbosity(&words("mesh2ww a 1")), 0);
    assert_eq!(verbosity(&words("mesh2ww a 1 -v")), 1);
    assert_eq!(verbosity(&words("mesh2ww a 1 -vv")), 2);
    assert_eq!(verbosity(&words("mesh2ww a 1 --verbose")), 1);
    assert_eq!(verbosity(&words("mesh2ww a 1 -v + b 2 -vv --verbose")), 4);
    assert_eq!(verbosity(&words("mesh2ww a 1 -vq -verbose v -qv --v")), 2);
    assert_eq!(verbosity(&words("mesh2ww a 1 -vvv.v")), 4);
}

#[test]
fn log_setup_follows_the_switches() {
    let setup = log_setup(&words("mesh2ww a 1"));
    assert!(!setup.quiet);
    assert_eq!(setup.verbosity, 2);
    assert!(!setup.show_level);
    let setup = log_setup(&words("mesh2ww a 1 -vv -q"));
    assert!(setup.quiet);
    assert_eq!(setup.verbosity, 4);
    assert!(setup.show_level);
}

#[test]
fn options_go_by_their_names() {
    assert_eq!(CliVtkFormat::from_name("xml"), Some(CliVtkFormat::Xml));
    assert_eq!(CliVtkFormat::from_name("legacy-ascii"), Some(CliVtkFormat::LegacyAscii));
    assert_eq!(CliVtkFormat::from_name("legacy-binary"), Some(CliVtkFormat::LegacyBinary));
    assert_eq!(CliVtkFormat::from_name("XML"), None);
    assert_eq!(CliVtkFormat::from_name(""), None);
    assert_eq!(CliByteOrder::from_name("big-endian"), Some(CliByteOrder::BigEndian));
    assert_eq!(CliByteOrder::from_name("little-endian"), Some(CliByteOrder::LittleEndian));
    assert_eq!(CliByteOrder::from_name("big"), None);
    assert_eq!(CliCompressor::from_name("lzma"), Some(CliCompressor::LZMA));
    assert_eq!(CliCompressor::from_name("lz4"), Some(CliCompressor::LZ4));
    assert_eq!(CliCompressor::from_name("zlib"), Some(CliCompressor::ZLib));
    assert_eq!(CliCompressor::from_name("none"), Some(CliCompressor::Uncompressed));
    assert_eq!(CliCompressor::from_name("z-lib"), None);
}

fn argument(id: &str) -> clap::Arg {
    cli_init().get_arguments().find(|a| a.get_id() == id).unwrap().clone()
}

#[test]
fn arguments_go_by_their_names() {
    let names = |id: &str| {
        let arg = argument(id);
        (arg.get_short(), arg.get_long().map(String::from))
    };
    assert_eq!(names("meshtal"), (None, None));
    assert_eq!(names("number"), (None, None));
    assert_eq!(names("power"), (Some('p'), Some(String::from("power"))));
    assert_eq!(names("error"), (Some('e'), Some(String::from("error"))));
    assert_eq!(names("total"), (Some('t'), Some(String::from("total"))));
    assert_eq!(names("scale"), (Some('s'), Some(String::from("scale"))));
    assert_eq!(names("output"), (Some('o'), Some(String::from("output"))));
    assert_eq!(names("trim"), (None, Some(String::from("trim"))));
    assert_eq!(names("vtk"), (None, Some(String::from("vtk"))));
    assert_eq!(names("format"), (Some('f'), Some(String::from("format"))));
    assert_eq!(names("resolution"), (Some('r'), Some(String::from("resolution"))));
    assert_eq!(names("endian"), (None, Some(String::from("endian"))));
    assert_eq!(names("compressor"), (None, Some(String::from("compressor"))));
    assert_eq!(names("verbose"), (Some('v'), Some(String::from("verbose"))));
    assert_eq!(names("quiet"), (Some('q'), Some(String::from("quiet"))));
    assert_eq!(names("help"), (None, Some(String::from("help"))));
}

#[test]
fn arguments_act_as_told() {
    for id in ["meshtal", "number", "power", "error", "scale", "output", "format", "resolution"] {
        assert!(matches!(argument(id).get_action(), ArgAction::Set), "{id}");
    }
    for id in ["endian", "compressor"] {
        assert!(matches!(argument(id).get_action(), ArgAction::Set), "{id}");
    }
    for id in ["total", "trim", "vtk", "quiet"] {
        assert!(matches!(argument(id).get_action(), ArgAction::SetTrue), "{id}");
    }
    assert!(matches!(argument("verbose").get_action(), ArgAction::Count));
    assert!(matches!(argument("help").get_action(), ArgAction::HelpShort));
    for id in ["meshtal", "number", "power", "total", "verbose", "help"] {
        assert!(!argument(id).is_required_set(), "{id}");
    }
}

#[test]
fn factors_take_one_value_or_more() {
    for id in ["power", "error"] {
        let arg = argument(id);
        let range = arg.get_num_args().unwrap();
        assert_eq!(range.min_values(), 1);
        assert_eq!(range.max_values(), usize::MAX);
        assert_eq!(arg.get_value_delimiter(), Some(' '));
        assert!(arg.is_hide_default_value_set());
    }
    assert_eq!(argument("scale").get_value_delimiter(), None);
}

#[test]
fn arguments_are_described() {
    let power = argument("power");
    assert_eq!(power.get_help_heading(), Some("Weight options"));
    assert_eq!(power.get_help().unwrap().to_string(), "Set the softening/de-tuning factor");
    assert!(power.get_long_help().unwrap().to_string().contains("Default 0.70."));
    let names: Vec<String> =
        power.get_value_names().unwrap().iter().map(|n| n.to_string()).collect();
    assert_eq!(names, ["num"]);
    assert_eq!(argument("meshtal").get_help_heading(), Some("Arguments"));
    assert_eq!(argument("output").get_help_heading(), Some("Global file options"));
    assert_eq!(argument("vtk").get_help_heading(), Some("Global VTK options"));
    assert_eq!(argument("quiet").get_help_heading(), Some("Flags"));
}

#[test]
fn command_is_set_up() {
    let mut command = cli_init();
    assert_eq!(
        command.get_about().unwrap().to_string(),
        "Conversion of meshtal file meshes to MCNP weight windows"
    );
    assert_eq!(command.get_long_about().unwrap().to_string(), LONG_HELP);
    assert_eq!(command.get_after_help().unwrap().to_string(), AFTER_HELP);
    assert!(command.is_arg_required_else_help_set());
    assert!(command.is_disable_help_flag_set());
    assert!(command.render_usage().to_string().contains(USAGE));
    let widest = command.render_long_help().to_string().lines().map(str::len).max().unwrap();
    assert!(widest <= 76, "{widest}");
}

#[test]
fn possible_values_are_hidden() {
    let mut command = cli_init();
    command.build();
    for id in ["power", "format", "endian", "compressor", "output"] {
        let arg = command.get_arguments().find(|a| a.get_id() == id).unwrap();
        assert!(arg.is_hide_possible_values_set(), "{id}");
    }
}

#[test]
fn only_the_factors_hide_their_defaults() {
    for id in ["power", "error", "scale", "output", "resolution", "format", "endian", "compressor"]
    {
        assert!(argument(id).is_hide_default_value_set(), "{id}");
    }
    for id in ["meshtal", "number", "total", "trim", "vtk", "verbose", "quiet", "help"] {
        assert!(!argument(id).is_hide_default_value_set(), "{id}");
        assert_eq!(argument(id).get_value_delimiter(), None, "{id}");
    }
    for id in ["meshtal", "number", "trim", "vtk", "endian", "compressor", "help"] {
        assert_eq!(argument(id).get_short(), None, "{id}");
    }
}

#[test]
fn help_is_coloured() {
    let command = cli_init();
    let styles = command.get_styles();
    assert_eq!(*styles.get_header(), AnsiColor::Green.on_default() | Effects::BOLD);
    assert_eq!(
        *styles.get_usage(),
        AnsiColor::Cyan.on_default() | Effects::BOLD | Effects::UNDERLINE
    );
    assert_eq!(*styles.get_literal(), AnsiColor::Blue.on_default() | Effects::BOLD);
    assert_eq!(*styles.get_placeholder(), AnsiColor::Magenta.on_default());
}
