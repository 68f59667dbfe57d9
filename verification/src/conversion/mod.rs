//! Collecting one weight window per particle type.
//!
//! The collector decides; its driver reads meshes, generates weights and writes
//! plots. The driver asks the collector what to do next, does it, and reports
//! what came of it. A weight window is opaque here: the collector keeps it
//! under the particle type of the mesh it was generated from.

pub mod collector;
pub mod laws;

use vstd::prelude::*;
use vstd::string::*;
use crate::parser::{
    config_views, VtkConfig, WWConfig, WWConfigView, DEFAULT_ERROR, DEFAULT_POWER, DEFAULT_SCALE,
};
use crate::text::{copy_texts, texts};
use crate::unit::{is_one, is_one_text, lemma_one_point_zero};
use crate::wrappers::CliVtkFormat;

pub use collector::{Action, Batch, BatchError, Collector, CollectorView, Event, Outcome, Stage};

verus! {

/// Starts collecting the weight windows of the given requests, in their
/// order. A plot is written for each collected weight window where the
/// plotting options ask for plots.
pub fn collect_weight_windows<W>(ww_config_sets: Vec<WWConfig>, vtk_config: &VtkConfig) -> (r:
    Collector<W>)
    ensures
        r@ == CollectorView::<W>::start(config_views(ww_config_sets@), vtk_config.vtk),
        r@.wf(),
{
    Collector::new(ww_config_sets, vtk_config.vtk)
}

/// How the weights of one tally are generated.
#[derive(Debug)]
pub enum Generation {
    /// One exponent and one cutoff for every group.
    Simple { power: String, error: String, total: bool },
    /// One exponent and one cutoff per group, in the order of the groups.
    Advanced { powers: Vec<String>, errors: Vec<String> },
}

/// The model of a [`Generation`].
pub enum GenerationView {
    Simple { power: Seq<char>, error: Seq<char>, total: bool },
    Advanced { powers: Seq<Seq<char>>, errors: Seq<Seq<char>> },
}

impl View for Generation {
    type V = GenerationView;

    open spec fn view(&self) -> GenerationView {
        match self {
            Generation::Simple { power, error, total } => GenerationView::Simple {
                power: power@,
                error: error@,
                total: *total,
            },
            Generation::Advanced { powers, errors } => GenerationView::Advanced {
                powers: texts(powers@),
                errors: texts(errors@),
            },
        }
    }
}

/// Whether a request asks for factors per group and for totals only, which
/// cannot both be had.
pub open spec fn conflicting(c: WWConfigView) -> bool {
    c.total && !(c.power.len() == 1 && c.error.len() == 1)
}

/// The generation mode of a request. One exponent and one cutoff give the
/// simple mode. More of either give the advanced mode, unless totals only are
/// asked for: then the simple mode runs on the default factors, over all
/// groups.
pub open spec fn mode_of(c: WWConfigView) -> GenerationView {
    if c.power.len() == 1 && c.error.len() == 1 {
        GenerationView::Simple { power: c.power[0], error: c.error[0], total: c.total }
    } else if c.total {
        GenerationView::Simple { power: DEFAULT_POWER@, error: DEFAULT_ERROR@, total: false }
    } else {
        GenerationView::Advanced { powers: c.power, errors: c.error }
    }
}

/// Whether the request's options conflict, so that its own factors are set
/// aside.
pub fn conflicting_options(cli: &WWConfig) -> (r: bool)
    ensures
        r == conflicting(cli@),
{
    cli.total && !(cli.power.len() == 1 && cli.error.len() == 1)
}

/// Selects the generation mode of a request.
pub fn generation_mode(cli: &WWConfig) -> (r: Generation)
    ensures
        r@ == mode_of(cli@),
{
    if cli.power.len() == 1 && cli.error.len() == 1 {
        Generation::Simple {
            power: cli.power[0].clone(),
            error: cli.error[0].clone(),
            total: cli.total,
        }
    } else if cli.total {
        Generation::Simple {
            power: String::from_str(DEFAULT_POWER),
            error: String::from_str(DEFAULT_ERROR),
            total: false,
        }
    } else {
        Generation::Advanced { powers: copy_texts(&cli.power), errors: copy_texts(&cli.error) }
    }
}

/// Whether the weights of a request are multiplied by its scale factor once
/// they are generated: they are, unless the factor is one.
pub open spec fn scaled(c: WWConfigView) -> bool {
    !is_one(c.scale)
}

/// Tells whether the generated weights are to be multiplied by the request's
/// scale factor.
pub fn needs_scaling(cli: &WWConfig) -> (r: bool)
    ensures
        r == scaled(cli@),
{
    !is_one_text(cli.scale.as_str())
}

/// A request that gives no scale factor is not scaled.
pub proof fn lemma_default_is_not_scaled(c: WWConfigView)
    requires
        c.scale == DEFAULT_SCALE@,
    ensures
        !scaled(c),
{
    lemma_one_point_zero();
}

/// With totals only and more than one exponent or cutoff, the default factors
/// are used in the simple mode, whatever the request's own factors are.
pub proof fn lemma_conflict_falls_back(c: WWConfigView)
    requires
        c.total,
        c.power.len() > 1 || c.error.len() > 1,
    ensures
        conflicting(c),
        mode_of(c) == (GenerationView::Simple {
            power: DEFAULT_POWER@,
            error: DEFAULT_ERROR@,
            total: false,
        }),
        !(mode_of(c) is Advanced),
{
}

/// The extension of a plot's file name. A mesh of geometry 1 is rectangular
/// and one of geometry 2 cylindrical; only the XML format tells them apart.
pub open spec fn extension_of(format: CliVtkFormat, geometry: u8) -> Seq<char> {
    match format {
        CliVtkFormat::Xml => if geometry == 1 {
            "vtr"@
        } else if geometry == 2 {
            "vtu"@
        } else {
            "vtk"@
        },
        _ => "vtk"@,
    }
}

/// The extension of a plot's file name.
pub fn vtk_extension(format: CliVtkFormat, geometry: u8) -> (r: &'static str)
    ensures
        r@ == extension_of(format, geometry),
{
    match format {
        CliVtkFormat::Xml => if geometry == 1 {
            "vtr"
        } else if geometry == 2 {
            "vtu"
        } else {
            "vtk"
        },
        _ => "vtk",
    }
}

/// A piece of text in lower case, as `str::to_lowercase` of the standard
/// library gives it.
pub uninterp spec fn lowercased(s: Seq<char>) -> Seq<char>;

/// `str::to_lowercase` of the standard library. The result is named, not
/// described: it is the text in lower case by the rules of Unicode, which
/// depends on the text alone.
#[verifier::external_body]
fn lowercase(s: &str) -> (r: String)
    ensures
        r@ == lowercased(s@),
{
    s.to_lowercase()
}

/// The name of a plot's file: `ww_`, the particle's name, a point and the
/// extension, all in lower case.
pub open spec fn vtk_name_of(particle: Seq<char>, format: CliVtkFormat, geometry: u8) -> Seq<
    char,
> {
    lowercased("ww_"@ + particle + "."@ + extension_of(format, geometry))
}

/// The name of the file that the plot of a weight window is written to.
/// `particle` is the particle type's name.
pub fn vtk_file_name(particle: &str, format: CliVtkFormat, geometry: u8) -> (r: String)
    ensures
        r@ == vtk_name_of(particle@, format, geometry),
{
    let mut name = String::from_str("ww_");
    name.append(particle);
    name.append(".");
    name.append(vtk_extension(format, geometry));
    lowercase(name.as_str())
}

} // verus!
