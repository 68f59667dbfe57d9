use mesh2ww::cli::engine::Refusal;
use mesh2ww::cli::cli_init;
use mesh2ww::parser::{
    all_argument_matches, file_config, keep_valid, match_set, read_set, rejection_error, resolve_file,
    resolve_vtk, source_path, split_argument_sets, tally_from, vtk_config, ww_config, ww_outcomes,
    ww_set, ConfigError, RawSet, VtkConfig, WWConfig,
};
use mesh2ww::wrappers::{CliByteOrder, CliCompressor, CliVtkFormat};

fn words(line: &str) -> Vec<String> {
    line.split_whitespace().map(String::from).collect()
}

fn sets_of(line: &str) -> Vec<Vec<String>> {
    split_argument_sets(&String::from("mesh2ww"), &words(line))
}

fn set_of(line: &str) -> Vec<String> {
    let mut set = vec![String::from("mesh2ww")];
    set.extend(words(line));
    set
}

fn bare() -> RawSet {
    RawSet {
        meshtal: Some(String::from("a.msht")),
        number: Some(String::from("14")),
        power: vec![],
        error: vec![],
        total: false,
        scale: None,
        output: None,
        format: None,
        resolution: None,
        endian: None,
        compressor: None,
    }
}

fn invalid(r: Result<WWConfig, ConfigError>) -> (String, String) {
    match r {
        Err(ConfigError::InvalidValue(field, raw)) => (field, raw),
        other => panic!("no invalid value: {other:?}"),
    }
}

#[test]
fn split_parts_on_plus() {
    let sets = sets_of("a.msht 14 + b.msht 24 -p 0.8 -e 0.15");
    assert_eq!(sets.len(), 2);
    assert_eq!(sets[0], ["mesh2ww", "a.msht", "14"]);
    assert_eq!(sets[1], ["mesh2ww", "b.msht", "24", "-p", "0.8", "-e", "0.15"]);
}

#[test]
fn split_without_plus_gives_one_set() {
    let sets = sets_of("a.msht 14 --total");
    assert_eq!(sets, [vec!["mesh2ww", "a.msht", "14", "--total"]]);
}

#[test]
fn split_of_nothing_gives_one_empty_set() {
    let sets = sets_of("");
    assert_eq!(sets, [vec!["mesh2ww"]]);
}

#[test]
fn split_keeps_empty_runs() {
    let sets = sets_of("+ a 1 + + b 2 +");
    assert_eq!(sets.len(), 5);
    assert_eq!(sets[0], ["mesh2ww"]);
    assert_eq!(sets[1], ["mesh2ww", "a", "1"]);
    assert_eq!(sets[2], ["mesh2ww"]);
    assert_eq!(sets[3], ["mesh2ww", "b", "2"]);
    assert_eq!(sets[4], ["mesh2ww"]);
}

#[test]
fn split_matches_only_the_bare_token() {
    let sets = sets_of("a ++ +1 1+1");
    assert_eq!(sets, [vec!["mesh2ww", "a", "++", "+1", "1+1"]]);
}

#[test]
fn split_then_join_gives_the_tokens_back() {
    for line in ["", "+", "a 1", "a 1 + b 2", "+ + +", "a + + b +", "x ++ y"] {
        let tokens = words(line);
        let sets = split_argument_sets(&String::from("prog"), &tokens);
        let mut joined: Vec<String> = Vec::new();
        for (i, set) in sets.iter().enumerate() {
            assert_eq!(set[0], "prog");
            if i > 0 {
                joined.push(String::from("+"));
            }
            joined.extend(set[1..].iter().cloned());
        }
        assert_eq!(joined, tokens, "{line:?}");
    }
}

#[test]
fn unset_factors_take_their_defaults() {
    let c = ww_set(&set_of("a.msht 14"), true).unwrap();
    assert_eq!(c.meshtal, "a.msht");
    assert_eq!(c.number, 14);
    assert_eq!(c.power, ["0.7"]);
    assert_eq!(c.error, ["1.0"]);
    assert_eq!(c.scale, "1.0");
    assert!(!c.total);
    assert_eq!(c.power[0].parse::<f64>(), Ok(0.7));
    assert_eq!(c.error[0].parse::<f64>(), Ok(1.0));
    assert_eq!(c.scale.parse::<f64>(), Ok(1.0));
}

#[test]
fn given_factors_are_kept_as_written() {
    let c = ww_set(&set_of("b.msht 24 -p 0.8 -e 0.15 -s 10 -t"), true).unwrap();
    assert_eq!(c.meshtal, "b.msht");
    assert_eq!(c.number, 24);
    assert_eq!(c.power, ["0.8"]);
    assert_eq!(c.error, ["0.15"]);
    assert_eq!(c.scale, "10");
    assert!(c.total);
}

#[test]
fn long_names_and_equal_signs_are_matched() {
    let c = ww_set(&set_of("b.msht 24 --power=0.8 --error 0.15 --scale=2.0 --total"), true).unwrap();
    assert_eq!(c.power, ["0.8"]);
    assert_eq!(c.error, ["0.15"]);
    assert_eq!(c.scale, "2.0");
    assert!(c.total);
}

#[test]
fn several_factors_are_kept_in_order() {
    let c = ww_set(&set_of("a.msht 104 --power 0.8 0.7 0.65 --error 1.0 0.9 1.0"), true).unwrap();
    assert_eq!(c.power, ["0.8", "0.7", "0.65"]);
    assert_eq!(c.error, ["1.0", "0.9", "1.0"]);
}

#[test]
fn factors_in_one_token_are_parted_at_blanks() {
    let mut set = set_of("a.msht 104 --power");
    set.push(String::from("0.8 0.7"));
    let c = ww_set(&set, true).unwrap();
    assert_eq!(c.power, ["0.8", "0.7"]);
}

#[test]
fn missing_file_is_reported_with_its_path() {
    match ww_set(&set_of("gone.msht 14"), false) {
        Err(ConfigError::FileNotFound(path)) => assert_eq!(path, "gone.msht"),
        other => panic!("{other:?}"),
    }
}

#[test]
fn empty_set_misses_its_source() {
    match ww_set(&set_of(""), true) {
        Err(ConfigError::MissingArgument(name)) => assert_eq!(name, "meshtal"),
        other => panic!("{other:?}"),
    }
}

#[test]
fn set_without_number_misses_it() {
    match ww_set(&set_of("a.msht"), true) {
        Err(ConfigError::MissingArgument(name)) => assert_eq!(name, "number"),
        other => panic!("{other:?}"),
    }
}

#[test]
fn set_of_options_only_misses_its_source() {
    match ww_set(&set_of("--total"), true) {
        Err(ConfigError::MissingArgument(name)) => assert_eq!(name, "meshtal"),
        other => panic!("{other:?}"),
    }
}

#[test]
fn malformed_values_are_reported_as_written() {
    let field = |line: &str| invalid(ww_set(&set_of(line), true));
    assert_eq!(field("a.msht abc"), (String::from("number"), String::from("abc")));
    assert_eq!(field("a.msht 4294967296"), (String::from("number"), String::from("4294967296")));
    assert_eq!(field("a.msht 14 -p 0.8 x.7"), (String::from("power"), String::from("x.7")));
    assert_eq!(field("a.msht 14 -e 1,0"), (String::from("error"), String::from("1,0")));
    assert_eq!(field("a.msht 14 -s ten"), (String::from("scale"), String::from("ten")));
    assert_eq!(field("a.msht 14 -f pdf"), (String::from("format"), String::from("pdf")));
    assert_eq!(field("a.msht 14 -r 256"), (String::from("resolution"), String::from("256")));
    assert_eq!(field("a.msht 14 --endian big"), (String::from("endian"), String::from("big")));
    assert_eq!(
        field("a.msht 14 --compressor gzip"),
        (String::from("compressor"), String::from("gzip"))
    );
}

#[test]
fn malformed_value_comes_before_missing_file() {
    assert_eq!(
        invalid(ww_set(&set_of("a.msht x"), false)),
        (String::from("number"), String::from("x"))
    );
}

#[test]
fn unknown_option_is_unrecognized() {
    match ww_set(&set_of("a.msht 14 --bogus"), true) {
        Err(ConfigError::UnrecognizedArgument(arg)) => assert_eq!(arg, "--bogus"),
        other => panic!("{other:?}"),
    }
}

#[test]
fn third_positional_is_unrecognized() {
    match ww_set(&set_of("a.msht 14 15"), true) {
        Err(ConfigError::UnrecognizedArgument(arg)) => assert_eq!(arg, "15"),
        other => panic!("{other:?}"),
    }
}

#[test]
fn option_without_value_is_invalid() {
    match ww_set(&set_of("a.msht 14 --output"), true) {
        Err(ConfigError::InvalidValue(field, raw)) => {
            assert!(field.contains("--output"), "{field}");
            assert_eq!(raw, "");
        }
        other => panic!("{other:?}"),
    }
}

#[test]
fn engine_refusals_map_to_errors() {
    let some = |s: &str| Some(String::from(s));
    assert!(matches!(
        rejection_error(Refusal::DisplayHelpOnMissingArgument, None, None),
        ConfigError::MissingArgument(name) if name == "meshtal"
    ));
    assert!(matches!(
        rejection_error(Refusal::MissingRequiredArgument, some("<number>"), None),
        ConfigError::MissingArgument(name) if name == "<number>"
    ));
    for kind in [
        Refusal::InvalidValue,
        Refusal::ValueValidation,
        Refusal::TooManyValues,
        Refusal::TooFewValues,
        Refusal::WrongNumberOfValues,
    ] {
        assert!(matches!(
            rejection_error(kind, some("--scale <num>"), some("x")),
            ConfigError::InvalidValue(field, raw) if field == "--scale <num>" && raw == "x"
        ));
    }
    for kind in
        [Refusal::UnknownArgument, Refusal::ArgumentConflict, Refusal::DisplayHelp, Refusal::Other]
    {
        assert!(matches!(
            rejection_error(kind, some("--bogus"), some("x")),
            ConfigError::UnrecognizedArgument(arg) if arg == "--bogus"
        ));
        assert!(matches!(
            rejection_error(kind, None, None),
            ConfigError::UnrecognizedArgument(arg) if arg.is_empty()
        ));
    }
}

#[test]
fn matched_set_holds_what_was_written() {
    let raw = match_set(&set_of("a.msht 014 -p 0.8 0.7 -o out.ww -f xml -r 3 --endian little-endian --compressor lz4")).unwrap();
    assert_eq!(raw.meshtal.as_deref(), Some("a.msht"));
    assert_eq!(raw.number.as_deref(), Some("014"));
    assert_eq!(raw.power, ["0.8", "0.7"]);
    assert!(raw.error.is_empty());
    assert!(!raw.total);
    assert_eq!(raw.scale, None);
    assert_eq!(raw.output.as_deref(), Some("out.ww"));
    assert_eq!(raw.format.as_deref(), Some("xml"));
    assert_eq!(raw.resolution.as_deref(), Some("3"));
    assert_eq!(raw.endian.as_deref(), Some("little-endian"));
    assert_eq!(raw.compressor.as_deref(), Some("lz4"));
}

#[test]
fn source_path_is_the_first_positional() {
    assert_eq!(source_path(&set_of("a.msht 14 -p 0.8")).as_deref(), Some("a.msht"));
    assert_eq!(source_path(&set_of("a.msht nonsense")).as_deref(), Some("a.msht"));
    assert_eq!(source_path(&set_of("")), None);
    assert_eq!(source_path(&set_of("a.msht 14 --bogus")), None);
}

#[test]
fn tally_checks_in_order() {
    let mut raw = bare();
    raw.number = Some(String::from("x"));
    raw.power = vec![String::from("0.5"), String::from("bad"), String::from("worse")];
    raw.scale = Some(String::from("bad"));
    assert_eq!(invalid(tally_from(&raw, true)), (String::from("number"), String::from("x")));
    raw.number = Some(String::from("7"));
    assert_eq!(invalid(tally_from(&raw, true)), (String::from("power"), String::from("bad")));
    raw.power = vec![String::from("0.5")];
    raw.error = vec![String::from("")];
    assert_eq!(invalid(tally_from(&raw, true)), (String::from("error"), String::from("")));
    raw.error = vec![];
    assert_eq!(invalid(tally_from(&raw, true)), (String::from("scale"), String::from("bad")));
    raw.scale = Some(String::from("2e3"));
    raw.compressor = Some(String::from("z-lib"));
    raw.endian = Some(String::from("Big-Endian"));
    assert_eq!(invalid(tally_from(&raw, true)), (String::from("endian"), String::from("Big-Endian")));
    raw.endian = None;
    assert_eq!(invalid(tally_from(&raw, true)), (String::from("compressor"), String::from("z-lib")));
    raw.compressor = Some(String::from("zlib"));
    raw.meshtal = None;
    assert!(matches!(tally_from(&raw, true), Err(ConfigError::MissingArgument(n)) if n == "meshtal"));
    raw.number = None;
    assert!(matches!(tally_from(&raw, true), Err(ConfigError::MissingArgument(n)) if n == "meshtal"));
    raw.meshtal = Some(String::from("m"));
    assert!(matches!(tally_from(&raw, true), Err(ConfigError::MissingArgument(n)) if n == "number"));
    raw.number = Some(String::from("+7"));
    assert!(matches!(tally_from(&raw, false), Err(ConfigError::FileNotFound(p)) if p == "m"));
    let c = tally_from(&raw, true).unwrap();
    assert_eq!(c.number, 7);
    assert_eq!(c.power, ["0.5"]);
    assert_eq!(c.error, ["1.0"]);
    assert_eq!(c.scale, "2e3");
}

#[test]
fn failing_sets_spoil_no_other() {
    let sets = sets_of("a.msht 14 + b.msht x + + c.msht 34 -t + d.msht 44");
    let exists = vec![true, true, true, true, false];
    let outcomes = ww_outcomes(&sets, &exists);
    assert_eq!(outcomes.len(), 5);
    assert!(outcomes[0].is_ok());
    assert!(matches!(&outcomes[1], Err(ConfigError::InvalidValue(f, r)) if f == "number" && r == "x"));
    assert!(matches!(&outcomes[2], Err(ConfigError::MissingArgument(n)) if n == "meshtal"));
    assert!(outcomes[3].is_ok());
    assert!(matches!(&outcomes[4], Err(ConfigError::FileNotFound(p)) if p == "d.msht"));
    let kept = keep_valid(&outcomes);
    assert_eq!(kept.len(), 2);
    assert_eq!(kept[0].meshtal, "a.msht");
    assert_eq!(kept[1].meshtal, "c.msht");
    assert!(kept[1].total);
    let configs = ww_config(&sets, &exists);
    assert_eq!(configs.len(), 2);
    assert_eq!(configs[0].number, 14);
    assert_eq!(configs[1].number, 34);
}

#[test]
fn short_list_of_files_counts_the_rest_as_missing() {
    let sets = sets_of("a.msht 14 + b.msht 24");
    let configs = ww_config(&sets, &vec![true]);
    assert_eq!(configs.len(), 1);
    assert_eq!(configs[0].meshtal, "a.msht");
}

#[test]
fn all_sets_failing_leaves_nothing() {
    let sets = sets_of("a.msht x + --bogus");
    assert!(ww_config(&sets, &vec![true, true]).is_empty());
}

#[test]
fn output_on_second_segment_is_resolved() {
    let file = file_config(&sets_of("a.msht 14 + b.msht 24 --output foo.out + c.msht 34"));
    assert_eq!(file.output, "foo.out");
    assert!(!file.trim);
    let file = file_config(&sets_of("b.msht 24 --output foo.out + a.msht 14 + c.msht 34"));
    assert_eq!(file.output, "foo.out");
    let file = file_config(&sets_of("c.msht 34 + a.msht 14 + b.msht 24 -o foo.out"));
    assert_eq!(file.output, "foo.out");
}

#[test]
fn first_output_wins() {
    let file = file_config(&sets_of("a.msht 14 -o one + b.msht 24 -o two --trim"));
    assert_eq!(file.output, "one");
    assert!(file.trim);
}

#[test]
fn output_defaults_to_wwinp() {
    let file = file_config(&sets_of("a.msht 14 + b.msht 24"));
    assert_eq!(file.output, "wwinp");
    assert!(!file.trim);
}

#[test]
fn bad_tally_still_gives_its_output() {
    let file = file_config(&sets_of("a.msht nonsense -o kept.out + b.msht 24 -o late.out"));
    assert_eq!(file.output, "kept.out");
}

#[test]
fn refused_set_gives_no_output() {
    let file = file_config(&sets_of("a.msht 14 --bogus -o lost.out + b.msht 24 -o kept.out"));
    assert_eq!(file.output, "kept.out");
}

#[test]
fn plot_options_compare_as_a_whole() {
    let expected = VtkConfig {
        vtk: true,
        format: CliVtkFormat::LegacyBinary,
        compressor: CliCompressor::ZLib,
        endian: CliByteOrder::LittleEndian,
        resolution: 3,
    };
    let vtk = vtk_config(&sets_of(
        "a.msht 14 --vtk -f legacy-binary --compressor zlib --endian little-endian -r 3",
    ));
    assert_eq!(vtk, expected);
}

#[test]
fn plot_options_default() {
    let vtk = vtk_config(&sets_of("a.msht 14"));
    assert!(!vtk.vtk);
    assert_eq!(vtk.format, CliVtkFormat::Xml);
    assert_eq!(vtk.compressor, CliCompressor::LZMA);
    assert_eq!(vtk.endian, CliByteOrder::BigEndian);
    assert_eq!(vtk.resolution, 1);
}

#[test]
fn plot_options_take_the_first_given() {
    let vtk = vtk_config(&sets_of(
        "a.msht 14 --endian little-endian + b.msht 24 --vtk -f legacy-ascii --endian big-endian \
         + c.msht 34 -f legacy-binary --compressor none -r 4 + d.msht 44 -r 8 --compressor zlib",
    ));
    assert!(vtk.vtk);
    assert_eq!(vtk.format, CliVtkFormat::LegacyAscii);
    assert_eq!(vtk.compressor, CliCompressor::Uncompressed);
    assert_eq!(vtk.endian, CliByteOrder::LittleEndian);
    assert_eq!(vtk.resolution, 4);
}

#[test]
fn malformed_plot_option_is_passed_over() {
    let vtk = vtk_config(&sets_of("a.msht 14 -f pdf -r 1000 + b.msht 24 -f legacy-binary -r 2"));
    assert_eq!(vtk.format, CliVtkFormat::LegacyBinary);
    assert_eq!(vtk.resolution, 2);
}

#[test]
fn resolution_works_on_what_was_matched() {
    let sets = sets_of("a + b + c");
    let mut second = bare();
    second.output = Some(String::from("second"));
    second.format = Some(String::from("legacy-ascii"));
    let mut third = bare();
    third.output = Some(String::from("third"));
    third.format = Some(String::from("xml"));
    third.resolution = Some(String::from("9"));
    let matched = vec![None, Some(second), Some(third)];
    let file = resolve_file(&sets, &matched);
    assert_eq!(file.output, "second");
    let vtk = resolve_vtk(&sets, &matched);
    assert_eq!(vtk.format, CliVtkFormat::LegacyAscii);
    assert_eq!(vtk.resolution, 9);
    assert_eq!(vtk.compressor, CliCompressor::LZMA);
    assert_eq!(vtk.endian, CliByteOrder::BigEndian);
    assert!(!vtk.vtk);
}

#[test]
fn every_set_is_matched_in_order() {
    let matched = all_argument_matches(&sets_of("a 1 + --bogus + b 2"));
    assert_eq!(matched.len(), 3);
    assert_eq!(matched[0].as_ref().unwrap().meshtal.as_deref(), Some("a"));
    assert!(matched[1].is_none());
    assert_eq!(matched[2].as_ref().unwrap().meshtal.as_deref(), Some("b"));
}

#[test]
fn errors_say_what_went_wrong() {
    assert_eq!(
        ConfigError::FileNotFound(String::from("gone.msht")).message(),
        "Unable to find file \"gone.msht\""
    );
    assert_eq!(
        ConfigError::MissingArgument(String::from("meshtal")).message(),
        "Empty <meshtal> positional argument in set"
    );
    assert_eq!(
        ConfigError::InvalidValue(String::from("number"), String::from("x1")).message(),
        "Invalid value \"x1\" for number"
    );
    assert_eq!(
        ConfigError::UnrecognizedArgument(String::from("--bogus")).message(),
        "Unrecognized argument \"--bogus\""
    );
}

#[test]
fn nothing_behind_the_name_misses_the_source() {
    for set in [vec![], vec![String::from("mesh2ww")]] {
        assert!(matches!(match_set(&set), Err(ConfigError::MissingArgument(n)) if n == "meshtal"));
        assert_eq!(source_path(&set), None);
        assert!(matches!(ww_set(&set, true), Err(ConfigError::MissingArgument(n)) if n == "meshtal"));
    }
}

#[test]
fn matches_are_read_by_the_ids() {
    let matches = cli_init()
        .try_get_matches_from(set_of("m.msht 7 -e 0.5 0.25 -t -s 3 --compressor lz4 -vv"))
        .unwrap();
    let raw = read_set(&matches);
    assert_eq!(raw.meshtal.as_deref(), Some("m.msht"));
    assert_eq!(raw.number.as_deref(), Some("7"));
    assert!(raw.power.is_empty());
    assert_eq!(raw.error, ["0.5", "0.25"]);
    assert!(raw.total);
    assert_eq!(raw.scale.as_deref(), Some("3"));
    assert_eq!(raw.output, None);
    assert_eq!(raw.format, None);
    assert_eq!(raw.resolution, None);
    assert_eq!(raw.endian, None);
    assert_eq!(raw.compressor.as_deref(), Some("lz4"));
    let matches = cli_init().try_get_matches_from(set_of("m.msht")).unwrap();
    let raw = read_set(&matches);
    assert_eq!(raw.meshtal.as_deref(), Some("m.msht"));
    assert_eq!(raw.number, None);
    assert!(!raw.total);
}

#[test]
fn no_file_leaves_no_request() {
    let sets = sets_of("a.msht 14 + b.msht 24 -p 0.8 + + c.msht 34");
    assert!(ww_config(&sets, &vec![false, false, true, false]).is_empty());
    assert!(ww_config(&sets, &vec![]).is_empty());
}
