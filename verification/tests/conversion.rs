use mesh2ww::conversion::{
    collect_weight_windows, conflicting_options, generation_mode, needs_scaling, vtk_extension, vtk_file_name, Action,
    BatchError, Collector, Event, Generation, Outcome,
};
use mesh2ww::parser::{split_argument_sets, vtk_config, ww_config, WWConfig};
use mesh2ww::wrappers::CliVtkFormat;

fn configs_of(line: &str) -> Vec<WWConfig> {
    let tokens: Vec<String> = line.split_whitespace().map(String::from).collect();
    let sets = split_argument_sets(&String::from("mesh2ww"), &tokens);
    let exists = vec![true; sets.len()];
    ww_config(&sets, &exists)
}

fn config(power: &[&str], error: &[&str], total: bool) -> WWConfig {
    WWConfig {
        meshtal: String::from("a.msht"),
        number: 4,
        power: power.iter().map(|s| s.to_string()).collect(),
        error: error.iter().map(|s| s.to_string()).collect(),
        total,
        scale: String::from("1.0"),
    }
}

fn simple(g: Generation) -> (String, String, bool) {
    match g {
        Generation::Simple { power, error, total } => (power, error, total),
        other => panic!("not simple: {other:?}"),
    }
}

fn advanced(g: Generation) -> (Vec<String>, Vec<String>) {
    match g {
        Generation::Advanced { powers, errors } => (powers, errors),
        other => panic!("not advanced: {other:?}"),
    }
}

#[test]
fn single_factors_give_the_simple_mode() {
    let c = config(&["0.8"], &["0.15"], false);
    assert!(!conflicting_options(&c));
    assert_eq!(simple(generation_mode(&c)), (String::from("0.8"), String::from("0.15"), false));
    let c = config(&["0.8"], &["0.15"], true);
    assert!(!conflicting_options(&c));
    assert_eq!(simple(generation_mode(&c)), (String::from("0.8"), String::from("0.15"), true));
}

#[test]
fn several_factors_give_the_advanced_mode() {
    let c = config(&["0.8", "0.7", "0.65"], &["1.0"], false);
    assert!(!conflicting_options(&c));
    let (powers, errors) = advanced(generation_mode(&c));
    assert_eq!(powers, ["0.8", "0.7", "0.65"]);
    assert_eq!(errors, ["1.0"]);
    let c = config(&["0.8"], &["1.0", "0.9"], false);
    let (powers, errors) = advanced(generation_mode(&c));
    assert_eq!(powers, ["0.8"]);
    assert_eq!(errors, ["1.0", "0.9"]);
}

#[test]
fn totals_with_several_factors_fall_back_to_defaults() {
    for c in [
        config(&["0.8", "0.7"], &["0.5"], true),
        config(&["0.8"], &["0.5", "0.4"], true),
        config(&["0.8", "0.7"], &["0.5", "0.4"], true),
    ] {
        assert!(conflicting_options(&c));
        let (power, error, total) = simple(generation_mode(&c));
        assert_eq!(power.parse::<f64>(), Ok(0.7));
        assert_eq!(error.parse::<f64>(), Ok(1.0));
        assert_eq!((power.as_str(), error.as_str(), total), ("0.7", "1.0", false));
    }
}

#[test]
fn three_exponents_reach_the_advanced_mode() {
    let configs = configs_of("a.msht 104 --power 0.8 0.7 0.65");
    assert_eq!(configs.len(), 1);
    let mut collector: Collector<&str> = Collector::new(configs, false);
    assert_eq!(collector.pending(), Action::ReadMesh { tally: 0 });
    assert_eq!(collector.config(0).unwrap().meshtal, "a.msht");
    assert_eq!(collector.config(0).unwrap().number, 104);
    collector.step(Event::MeshLoaded { particle: 1 });
    assert_eq!(collector.pending(), Action::Generate { tally: 0 });
    let (powers, errors) = advanced(generation_mode(collector.config(0).unwrap()));
    assert_eq!(powers, ["0.8", "0.7", "0.65"]);
    assert_eq!(errors, ["1.0"]);
    let values: Vec<f64> = powers.iter().map(|p| p.parse().unwrap()).collect();
    assert_eq!(values, [0.8, 0.7, 0.65]);
    collector.step(Event::Generated("neutron weights"));
    assert_eq!(collector.pending(), Action::Finish);
    let batch = collector.finish().unwrap();
    assert_eq!(batch.weights, ["neutron weights"]);
}

#[test]
fn two_particle_types_are_both_collected() {
    let configs = configs_of("a.msht 14 + b.msht 24 -p 0.8 -e 0.15");
    assert_eq!(configs.len(), 2);
    let mut collector: Collector<String> = Collector::new(configs, false);
    let mut generated = Vec::new();
    loop {
        match collector.pending() {
            Action::ReadMesh { tally } => {
                let particle = if collector.config(tally).unwrap().meshtal == "a.msht" { 1 } else { 2 };
                collector.step(Event::MeshLoaded { particle });
            }
            Action::Generate { tally } => {
                let c = collector.config(tally).unwrap();
                let (power, error, total) = simple(generation_mode(c));
                generated.push((tally, power.clone(), error.clone(), total));
                let w = format!("{}:{}:{}", c.meshtal, power, error);
                collector.step(Event::Generated(w));
            }
            Action::Export { .. } => panic!("no plot was asked for"),
            Action::Finish => break,
        }
    }
    assert_eq!(
        generated,
        [
            (0, String::from("0.7"), String::from("1.0"), false),
            (1, String::from("0.8"), String::from("0.15"), false)
        ]
    );
    assert_eq!(
        collector.outcomes(),
        &[Outcome::Collected { particle: 1 }, Outcome::Collected { particle: 2 }]
    );
    let batch = collector.finish().unwrap();
    assert_eq!(batch.weights, ["a.msht:0.7:1.0", "b.msht:0.8:0.15"]);
    assert_eq!(batch.particles, [1, 2]);
    assert!(!batch.export_failed);
}

#[test]
fn unreadable_mesh_leaves_no_valid_tally() {
    let configs = configs_of("a.msht 999");
    assert_eq!(configs.len(), 1);
    let mut collector: Collector<u32> = Collector::new(configs, true);
    assert_eq!(collector.pending(), Action::ReadMesh { tally: 0 });
    assert_eq!(collector.config(0).unwrap().number, 999);
    collector.step(Event::MeshFailed);
    assert_eq!(collector.pending(), Action::Finish);
    assert_eq!(collector.outcomes(), &[Outcome::ReadFailed]);
    assert!(matches!(collector.finish(), Err(BatchError::NoValidTallies)));
}

#[test]
fn collection_starts_with_the_first_request() {
    let sets = split_argument_sets(
        &String::from("mesh2ww"),
        &["a.msht", "14", "--vtk", "+", "b.msht", "24"].map(String::from).to_vec(),
    );
    let vtk = vtk_config(&sets);
    let mut collector: Collector<u8> =
        collect_weight_windows(ww_config(&sets, &vec![true, true]), &vtk);
    assert_eq!(collector.pending(), Action::ReadMesh { tally: 0 });
    collector.step(Event::MeshLoaded { particle: 1 });
    collector.step(Event::Generated(0));
    assert_eq!(collector.pending(), Action::Export { slot: 0 });
}

#[test]
fn no_request_leaves_no_valid_tally() {
    let collector: Collector<u32> = Collector::new(Vec::new(), false);
    assert_eq!(collector.pending(), Action::Finish);
    assert!(matches!(collector.finish(), Err(BatchError::NoValidTallies)));
}

#[test]
fn second_tally_of_a_particle_type_is_skipped() {
    let configs = configs_of("a.msht 14 + b.msht 24 + c.msht 34 + d.msht 44");
    let mut collector: Collector<&str> = Collector::new(configs, false);
    collector.step(Event::MeshLoaded { particle: 1 });
    collector.step(Event::Generated("first neutron"));
    assert_eq!(collector.pending(), Action::ReadMesh { tally: 1 });
    collector.step(Event::MeshLoaded { particle: 1 });
    assert_eq!(collector.pending(), Action::ReadMesh { tally: 2 });
    assert_eq!(collector.weights(), &["first neutron"]);
    collector.step(Event::MeshLoaded { particle: 2 });
    collector.step(Event::Generated("first photon"));
    collector.step(Event::MeshLoaded { particle: 1 });
    assert_eq!(collector.pending(), Action::Finish);
    assert_eq!(
        collector.outcomes(),
        &[
            Outcome::Collected { particle: 1 },
            Outcome::Duplicate { particle: 1 },
            Outcome::Collected { particle: 2 },
            Outcome::Duplicate { particle: 1 },
        ]
    );
    assert_eq!(collector.particles(), &[1, 2]);
    let batch = collector.finish().unwrap();
    assert_eq!(batch.weights, ["first neutron", "first photon"]);
    assert_eq!(batch.particles, [1, 2]);
}

#[test]
fn failed_generation_frees_the_particle_type() {
    let configs = configs_of("a.msht 14 + b.msht 24");
    let mut collector: Collector<&str> = Collector::new(configs, false);
    collector.step(Event::MeshLoaded { particle: 1 });
    collector.step(Event::GenerationFailed);
    assert_eq!(collector.pending(), Action::ReadMesh { tally: 1 });
    collector.step(Event::MeshLoaded { particle: 1 });
    assert_eq!(collector.pending(), Action::Generate { tally: 1 });
    collector.step(Event::Generated("second try"));
    assert_eq!(
        collector.outcomes(),
        &[Outcome::GenerationFailed { particle: 1 }, Outcome::Collected { particle: 1 }]
    );
    assert_eq!(collector.finish().unwrap().weights, ["second try"]);
}

#[test]
fn requests_are_found_by_their_place() {
    let collector: Collector<u32> = Collector::new(configs_of("a.msht 14 + b.msht 24"), false);
    assert_eq!(collector.config(1).unwrap().meshtal, "b.msht");
    assert!(collector.config(2).is_none());
}

#[test]
fn plots_are_written_after_each_collection() {
    let configs = configs_of("a.msht 14 --vtk + b.msht 24 + c.msht 34");
    let mut collector: Collector<&str> = Collector::new(configs, true);
    collector.step(Event::MeshLoaded { particle: 1 });
    collector.step(Event::Generated("n"));
    assert_eq!(collector.pending(), Action::Export { slot: 0 });
    assert_eq!(collector.weights()[0], "n");
    assert_eq!(collector.particles()[0], 1);
    collector.step(Event::ExportFailed);
    assert_eq!(collector.pending(), Action::ReadMesh { tally: 1 });
    collector.step(Event::MeshLoaded { particle: 1 });
    assert_eq!(collector.pending(), Action::ReadMesh { tally: 2 });
    collector.step(Event::MeshLoaded { particle: 2 });
    collector.step(Event::Generated("p"));
    assert_eq!(collector.pending(), Action::Export { slot: 1 });
    collector.step(Event::Exported);
    assert_eq!(collector.pending(), Action::Finish);
    let batch = collector.finish().unwrap();
    assert_eq!(batch.weights, ["n", "p"]);
    assert_eq!(batch.particles, [1, 2]);
    assert!(batch.export_failed);
}

#[test]
fn written_plots_leave_no_failure() {
    let configs = configs_of("a.msht 14");
    let mut collector: Collector<&str> = Collector::new(configs, true);
    collector.step(Event::MeshLoaded { particle: 5 });
    collector.step(Event::Generated("w"));
    collector.step(Event::Exported);
    let batch = collector.finish().unwrap();
    assert!(!batch.export_failed);
    assert_eq!(batch.particles, [5]);
}

#[test]
fn events_that_are_not_awaited_change_nothing() {
    let configs = configs_of("a.msht 14 + b.msht 24");
    let mut collector: Collector<&str> = Collector::new(configs, true);
    collector.step(Event::Generated("early"));
    collector.step(Event::Exported);
    collector.step(Event::ExportFailed);
    collector.step(Event::GenerationFailed);
    assert_eq!(collector.pending(), Action::ReadMesh { tally: 0 });
    assert!(collector.weights().is_empty());
    assert!(collector.outcomes().is_empty());
    collector.step(Event::MeshLoaded { particle: 3 });
    collector.step(Event::MeshLoaded { particle: 4 });
    collector.step(Event::MeshFailed);
    collector.step(Event::Exported);
    assert_eq!(collector.pending(), Action::Generate { tally: 0 });
    collector.step(Event::Generated("kept"));
    collector.step(Event::Generated("late"));
    collector.step(Event::MeshFailed);
    assert_eq!(collector.pending(), Action::Export { slot: 0 });
    collector.step(Event::Exported);
    collector.step(Event::MeshFailed);
    assert_eq!(collector.pending(), Action::Finish);
    collector.step(Event::MeshLoaded { particle: 9 });
    collector.step(Event::Generated("after the end"));
    assert_eq!(collector.pending(), Action::Finish);
    let batch = collector.finish().unwrap();
    assert_eq!(batch.weights, ["kept"]);
    assert_eq!(batch.particles, [3]);
    assert!(!batch.export_failed);
}

#[test]
fn extension_follows_format_and_mesh() {
    assert_eq!(vtk_extension(CliVtkFormat::Xml, 1), "vtr");
    assert_eq!(vtk_extension(CliVtkFormat::Xml, 2), "vtu");
    assert_eq!(vtk_extension(CliVtkFormat::Xml, 3), "vtk");
    assert_eq!(vtk_extension(CliVtkFormat::Xml, 0), "vtk");
    assert_eq!(vtk_extension(CliVtkFormat::LegacyAscii, 1), "vtk");
    assert_eq!(vtk_extension(CliVtkFormat::LegacyBinary, 2), "vtk");
}

#[test]
fn plot_file_is_named_by_the_particle() {
    assert_eq!(vtk_file_name("Neutron", CliVtkFormat::Xml, 1), "ww_neutron.vtr");
    assert_eq!(vtk_file_name("Photon", CliVtkFormat::Xml, 2), "ww_photon.vtu");
    assert_eq!(vtk_file_name("HeavyIon", CliVtkFormat::LegacyAscii, 1), "ww_heavyion.vtk");
    assert_eq!(vtk_file_name("Unknown", CliVtkFormat::Xml, 3), "ww_unknown.vtk");
}

#[test]
fn factor_of_one_is_not_applied() {
    let mut c = config(&["0.7"], &["1.0"], false);
    assert!(!needs_scaling(&c));
    for (scale, expected) in [("1", false), ("10e-1", false), ("2.0", true), ("0.5", true), ("-1", true)] {
        c.scale = String::from(scale);
        assert_eq!(needs_scaling(&c), expected, "{scale}");
    }
    let configs = configs_of("a.msht 14 + b.msht 24 -s 1.00 + c.msht 34 --scale 10 + d.msht 44 -s 1e1");
    let asked: Vec<bool> = configs.iter().map(needs_scaling).collect();
    assert_eq!(asked, [false, false, true, true]);
}
