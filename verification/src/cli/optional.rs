//! The options of a tally request, and the global options that any request
//! may carry.

use vstd::prelude::*;
use crate::cli::engine::{
    arg_settings, new_arg, settings_of, with_action, with_delimiter, with_heading, with_help,
    with_hidden_default, with_long, with_long_help, with_required, with_short, with_value_name,
    with_values_from, ArgKind, ArgSetting, Setting,
};

verus! {

/// The long description of `power`.
pub const POWER_LONG_HELP: &'static str = "Set the softening/de-tuning factor\n\nDefault 0.70. The softening/de-tuning factor is applied to the weights as ww => ww^(<num>).\n\nFor advanced use, multiple values are provided. These will apply to each energy/time group individually (see examples above).";

/// The long description of `error`.
pub const ERROR_LONG_HELP: &'static str = "Maximum rel. error, use analogue above\n\nDefault 1.0 (100%). Relative errors above the provided value are set to zero, and will continue to use analogue transport until better statistics are available.\n\nFor advanced use, multiple values are provided. These will apply to each energy/time group individually (see examples above).";

/// The long description of `total`.
pub const TOTAL_LONG_HELP: &'static str = "Weights from 'Total' groups only\n\nOften it can be desirable to simply generate the weight window mesh from the 'Total' groups rather than every explicit energy/time group.\n\nThis probably the recommended use case for any finely binned groups, as nobody should really be trying to optimise for every energy in a 175-group mesh anyway.";

/// The long description of `scale`.
pub const SCALE_LONG_HELP: &'static str = "Multiply all weights by a constant\n\nAll weights calculated from the mesh are typically normalised to the total flux. These may be rescaled by the value provided. e.g. --scale 10 will multiply every weight by 10.0";

/// The long description of `output`.
pub const OUTPUT_LONG_HELP: &'static str = "Defaults to \"wwinp\". Ouptut formatted to WWOUT file specification from the MCNP user manuals.";

/// The long description of `trim`.
pub const TRIM_LONG_HELP: &'static str = "For multiple particle types, it is unclear (without MCNP source access) how the header is read. Experience says you need to pad the header with zeros for all the unused particle types, ordered by particle id. If this is not the case, then --trim exists to get rid of the padding.";

/// The long description of `vtk`.
pub const VTK_LONG_HELP: &'static str = "Flag to specify that visual toolkit plot formats should be generated for each weight window set.";

/// The long description of `resolution`.
pub const RESOLUTION_LONG_HELP: &'static str = "WARNING: Every vertex is defined explicitly, so large values will significantly increase memory usage and file size.\n\nInteger value for increasing angular resolution of cylindrical meshes. Cylinders are approximated to straight edge segments so it can be useful to round this off by splitting voxels into multiple smaller segments.\n\ne.g. 4 theta bins gives 4 edges and therefore looks square. Using `--resolution 3` generates 12 edges instead and looks more rounded.";

/// The long description of `format`.
pub const FORMAT_LONG_HELP: &'static str = "Available visual toolkit file formats:
    > xml (default)
    > legacy-ascii
    > legacy-binary";

/// The long description of `endian`.
pub const ENDIAN_LONG_HELP: &'static str = "Visit only reads big endian, most sytems are little endian. Defaults to big endian for convenience.
    > big-endian (default)
    > little-endian";

/// The long description of `compressor`.
pub const COMPRESSOR_LONG_HELP: &'static str = "Generally just use LZMA but other options are available.
    > lzma (default)
    > lz4
    > zlib
    > none";

/// The options, in the order in which the help lists them.
pub open spec fn optional_settings() -> Seq<Map<ArgSetting, Setting>> {
    seq![
        power_settings(),
        error_settings(),
        total_settings(),
        scale_settings(),
        output_settings(),
        trim_settings(),
        vtk_settings(),
        format_settings(),
        resolution_settings(),
        endian_settings(),
        compressor_settings(),
    ]
}

/// The options, in the order in which the help lists them.
pub fn optional_args() -> (r: [clap::Arg; 11])
    ensures
        settings_of(r@) == optional_settings(),
{
    let args = [
        arg_power(),
        arg_error(),
        arg_total(),
        arg_scale(),
        arg_output(),
        arg_padding(),
        arg_vtk(),
        arg_format(),
        arg_resolution(),
        arg_endian(),
        arg_compressor(),
    ];
    assert(settings_of(args@) =~= optional_settings());
    args
}

/// The de-tuning exponents: `-p`, `--power`, one value or more.
pub open spec fn power_settings() -> Map<ArgSetting, Setting> {
    map![
        ArgSetting::Id => Setting::Text("power"@),
        ArgSetting::Short => Setting::Letter('p'),
        ArgSetting::Long => Setting::Text("power"@),
        ArgSetting::Heading => Setting::Text("Weight options"@),
        ArgSetting::Help => Setting::Text("Set the softening/de-tuning factor"@),
        ArgSetting::LongHelp => Setting::Text(POWER_LONG_HELP@),
        ArgSetting::Required => Setting::Flag(false),
        ArgSetting::Action => Setting::Kind(ArgKind::Value),
        ArgSetting::Delimiter => Setting::Letter(' '),
        ArgSetting::ValuesFrom => Setting::Count(1),
        ArgSetting::ValueName => Setting::Text("num"@),
        ArgSetting::HiddenDefault => Setting::Flag(true),
    ]
}

/// The argument whose settings are [`power_settings`].
fn arg_power() -> (r: clap::Arg)
    ensures
        arg_settings(r) == power_settings(),
{
    let arg = new_arg("power");
    let arg = with_short(arg, 'p');
    let arg = with_long(arg, "power");
    let arg = with_heading(arg, "Weight options");
    let arg = with_help(arg, "Set the softening/de-tuning factor");
    let arg = with_long_help(arg, POWER_LONG_HELP);
    let arg = with_required(arg, false);
    let arg = with_action(arg, ArgKind::Value);
    let arg = with_delimiter(arg, ' ');
    let arg = with_values_from(arg, 1);
    let arg = with_value_name(arg, "num");
    let arg = with_hidden_default(arg, true);
    assert(arg_settings(arg) =~= power_settings());
    arg
}

/// The relative-error cutoffs: `-e`, `--error`, one value or more.
pub open spec fn error_settings() -> Map<ArgSetting, Setting> {
    map![
        ArgSetting::Id => Setting::Text("error"@),
        ArgSetting::Short => Setting::Letter('e'),
        ArgSetting::Long => Setting::Text("error"@),
        ArgSetting::Heading => Setting::Text("Weight options"@),
        ArgSetting::Help => Setting::Text("Maximum rel. error, use analogue above"@),
        ArgSetting::LongHelp => Setting::Text(ERROR_LONG_HELP@),
        ArgSetting::Required => Setting::Flag(false),
        ArgSetting::Action => Setting::Kind(ArgKind::Value),
        ArgSetting::Delimiter => Setting::Letter(' '),
        ArgSetting::ValuesFrom => Setting::Count(1),
        ArgSetting::ValueName => Setting::Text("num"@),
        ArgSetting::HiddenDefault => Setting::Flag(true),
    ]
}

/// The argument whose settings are [`error_settings`].
fn arg_error() -> (r: clap::Arg)
    ensures
        arg_settings(r) == error_settings(),
{
    let arg = new_arg("error");
    let arg = with_short(arg, 'e');
    let arg = with_long(arg, "error");
    let arg = with_heading(arg, "Weight options");
    let arg = with_help(arg, "Maximum rel. error, use analogue above");
    let arg = with_long_help(arg, ERROR_LONG_HELP);
    let arg = with_required(arg, false);
    let arg = with_action(arg, ArgKind::Value);
    let arg = with_delimiter(arg, ' ');
    let arg = with_values_from(arg, 1);
    let arg = with_value_name(arg, "num");
    let arg = with_hidden_default(arg, true);
    assert(arg_settings(arg) =~= error_settings());
    arg
}

/// The switch for totals only: `-t`, `--total`.
pub open spec fn total_settings() -> Map<ArgSetting, Setting> {
    map![
        ArgSetting::Id => Setting::Text("total"@),
        ArgSetting::Short => Setting::Letter('t'),
        ArgSetting::Long => Setting::Text("total"@),
        ArgSetting::Heading => Setting::Text("Weight options"@),
        ArgSetting::Help => Setting::Text("Weights from 'Total' groups only"@),
        ArgSetting::LongHelp => Setting::Text(TOTAL_LONG_HELP@),
        ArgSetting::Required => Setting::Flag(false),
        ArgSetting::Action => Setting::Kind(ArgKind::Switch),
        ArgSetting::HiddenDefault => Setting::Flag(false),
    ]
}

/// The argument whose settings are [`total_settings`].
fn arg_total() -> (r: clap::Arg)
    ensures
        arg_settings(r) == total_settings(),
{
    let arg = new_arg("total");
    let arg = with_short(arg, 't');
    let arg = with_long(arg, "total");
    let arg = with_heading(arg, "Weight options");
    let arg = with_help(arg, "Weights from 'Total' groups only");
    let arg = with_long_help(arg, TOTAL_LONG_HELP);
    let arg = with_required(arg, false);
    let arg = with_action(arg, ArgKind::Switch);
    assert(arg_settings(arg) =~= total_settings());
    arg
}

/// The scale factor: `-s`, `--scale`, one value.
pub open spec fn scale_settings() -> Map<ArgSetting, Setting> {
    map![
        ArgSetting::Id => Setting::Text("scale"@),
        ArgSetting::Short => Setting::Letter('s'),
        ArgSetting::Long => Setting::Text("scale"@),
        ArgSetting::Heading => Setting::Text("Weight options"@),
        ArgSetting::Help => Setting::Text("Multiply all weights by a constant"@),
        ArgSetting::LongHelp => Setting::Text(SCALE_LONG_HELP@),
        ArgSetting::Required => Setting::Flag(false),
        ArgSetting::Action => Setting::Kind(ArgKind::Value),
        ArgSetting::ValueName => Setting::Text("num"@),
        ArgSetting::HiddenDefault => Setting::Flag(true),
    ]
}

/// The argument whose settings are [`scale_settings`].
fn arg_scale() -> (r: clap::Arg)
    ensures
        arg_settings(r) == scale_settings(),
{
    let arg = new_arg("scale");
    let arg = with_short(arg, 's');
    let arg = with_long(arg, "scale");
    let arg = with_heading(arg, "Weight options");
    let arg = with_help(arg, "Multiply all weights by a constant");
    let arg = with_long_help(arg, SCALE_LONG_HELP);
    let arg = with_required(arg, false);
    let arg = with_action(arg, ArgKind::Value);
    let arg = with_value_name(arg, "num");
    let arg = with_hidden_default(arg, true);
    assert(arg_settings(arg) =~= scale_settings());
    arg
}

/// The output path: `-o`, `--output`, one value.
pub open spec fn output_settings() -> Map<ArgSetting, Setting> {
    map![
        ArgSetting::Id => Setting::Text("output"@),
        ArgSetting::Short => Setting::Letter('o'),
        ArgSetting::Long => Setting::Text("output"@),
        ArgSetting::Heading => Setting::Text("Global file options"@),
        ArgSetting::Help => Setting::Text("Name of output file ('wwinp' default)"@),
        ArgSetting::LongHelp => Setting::Text(OUTPUT_LONG_HELP@),
        ArgSetting::Required => Setting::Flag(false),
        ArgSetting::Action => Setting::Kind(ArgKind::Value),
        ArgSetting::ValueName => Setting::Text("path"@),
        ArgSetting::HiddenDefault => Setting::Flag(true),
    ]
}

/// The argument whose settings are [`output_settings`].
fn arg_output() -> (r: clap::Arg)
    ensures
        arg_settings(r) == output_settings(),
{
    let arg = new_arg("output");
    let arg = with_short(arg, 'o');
    let arg = with_long(arg, "output");
    let arg = with_heading(arg, "Global file options");
    let arg = with_help(arg, "Name of output file ('wwinp' default)");
    let arg = with_long_help(arg, OUTPUT_LONG_HELP);
    let arg = with_required(arg, false);
    let arg = with_action(arg, ArgKind::Value);
    let arg = with_value_name(arg, "path");
    let arg = with_hidden_default(arg, true);
    assert(arg_settings(arg) =~= output_settings());
    arg
}

/// The switch that trims unused particle types: `--trim`.
pub open spec fn trim_settings() -> Map<ArgSetting, Setting> {
    map![
        ArgSetting::Id => Setting::Text("trim"@),
        ArgSetting::Long => Setting::Text("trim"@),
        ArgSetting::Heading => Setting::Text("Global file options"@),
        ArgSetting::Help => Setting::Text("Exclude unused particles from wwinp header"@),
        ArgSetting::LongHelp => Setting::Text(TRIM_LONG_HELP@),
        ArgSetting::Required => Setting::Flag(false),
        ArgSetting::Action => Setting::Kind(ArgKind::Switch),
        ArgSetting::HiddenDefault => Setting::Flag(false),
    ]
}

/// The argument whose settings are [`trim_settings`].
fn arg_padding() -> (r: clap::Arg)
    ensures
        arg_settings(r) == trim_settings(),
{
    let arg = new_arg("trim");
    let arg = with_long(arg, "trim");
    let arg = with_heading(arg, "Global file options");
    let arg = with_help(arg, "Exclude unused particles from wwinp header");
    let arg = with_long_help(arg, TRIM_LONG_HELP);
    let arg = with_required(arg, false);
    let arg = with_action(arg, ArgKind::Switch);
    assert(arg_settings(arg) =~= trim_settings());
    arg
}

/// The switch that asks for plots: `--vtk`.
pub open spec fn vtk_settings() -> Map<ArgSetting, Setting> {
    map![
        ArgSetting::Id => Setting::Text("vtk"@),
        ArgSetting::Long => Setting::Text("vtk"@),
        ArgSetting::Heading => Setting::Text("Global VTK options"@),
        ArgSetting::Help => Setting::Text("Write VTK files for plotting"@),
        ArgSetting::LongHelp => Setting::Text(VTK_LONG_HELP@),
        ArgSetting::Required => Setting::Flag(false),
        ArgSetting::Action => Setting::Kind(ArgKind::Switch),
        ArgSetting::HiddenDefault => Setting::Flag(false),
    ]
}

/// The argument whose settings are [`vtk_settings`].
fn arg_vtk() -> (r: clap::Arg)
    ensures
        arg_settings(r) == vtk_settings(),
{
    let arg = new_arg("vtk");
    let arg = with_long(arg, "vtk");
    let arg = with_heading(arg, "Global VTK options");
    let arg = with_help(arg, "Write VTK files for plotting");
    let arg = with_long_help(arg, VTK_LONG_HELP);
    let arg = with_required(arg, false);
    let arg = with_action(arg, ArgKind::Switch);
    assert(arg_settings(arg) =~= vtk_settings());
    arg
}

/// The resolution of cylindrical plots: `-r`, `--resolution`, one value.
pub open spec fn resolution_settings() -> Map<ArgSetting, Setting> {
    map![
        ArgSetting::Id => Setting::Text("resolution"@),
        ArgSetting::Short => Setting::Letter('r'),
        ArgSetting::Long => Setting::Text("resolution"@),
        ArgSetting::Heading => Setting::Text("Global VTK options"@),
        ArgSetting::Help => Setting::Text("Cylindrical mesh resolution"@),
        ArgSetting::LongHelp => Setting::Text(RESOLUTION_LONG_HELP@),
        ArgSetting::Required => Setting::Flag(false),
        ArgSetting::Action => Setting::Kind(ArgKind::Value),
        ArgSetting::ValueName => Setting::Text("cst"@),
        ArgSetting::HiddenDefault => Setting::Flag(true),
    ]
}

/// The argument whose settings are [`resolution_settings`].
fn arg_resolution() -> (r: clap::Arg)
    ensures
        arg_settings(r) == resolution_settings(),
{
    let arg = new_arg("resolution");
    let arg = with_short(arg, 'r');
    let arg = with_long(arg, "resolution");
    let arg = with_heading(arg, "Global VTK options");
    let arg = with_help(arg, "Cylindrical mesh resolution");
    let arg = with_long_help(arg, RESOLUTION_LONG_HELP);
    let arg = with_required(arg, false);
    let arg = with_action(arg, ArgKind::Value);
    let arg = with_value_name(arg, "cst");
    let arg = with_hidden_default(arg, true);
    assert(arg_settings(arg) =~= resolution_settings());
    arg
}

/// The format of the plots: `-f`, `--format`, one value.
pub open spec fn format_settings() -> Map<ArgSetting, Setting> {
    map![
        ArgSetting::Id => Setting::Text("format"@),
        ArgSetting::Short => Setting::Letter('f'),
        ArgSetting::Long => Setting::Text("format"@),
        ArgSetting::Heading => Setting::Text("Global VTK options"@),
        ArgSetting::Help => Setting::Text("Set the VTK file format"@),
        ArgSetting::LongHelp => Setting::Text(FORMAT_LONG_HELP@),
        ArgSetting::Required => Setting::Flag(false),
        ArgSetting::Action => Setting::Kind(ArgKind::Value),
        ArgSetting::ValueName => Setting::Text("fmt"@),
        ArgSetting::HiddenDefault => Setting::Flag(true),
    ]
}

/// The argument whose settings are [`format_settings`].
fn arg_format() -> (r: clap::Arg)
    ensures
        arg_settings(r) == format_settings(),
{
    let arg = new_arg("format");
    let arg = with_short(arg, 'f');
    let arg = with_long(arg, "format");
    let arg = with_heading(arg, "Global VTK options");
    let arg = with_help(arg, "Set the VTK file format");
    let arg = with_long_help(arg, FORMAT_LONG_HELP);
    let arg = with_required(arg, false);
    let arg = with_action(arg, ArgKind::Value);
    let arg = with_value_name(arg, "fmt");
    let arg = with_hidden_default(arg, true);
    assert(arg_settings(arg) =~= format_settings());
    arg
}

/// The byte order of the plots: `--endian`, one value.
pub open spec fn endian_settings() -> Map<ArgSetting, Setting> {
    map![
        ArgSetting::Id => Setting::Text("endian"@),
        ArgSetting::Long => Setting::Text("endian"@),
        ArgSetting::Heading => Setting::Text("Global VTK options"@),
        ArgSetting::Help => Setting::Text("Byte ordering/endian"@),
        ArgSetting::LongHelp => Setting::Text(ENDIAN_LONG_HELP@),
        ArgSetting::Required => Setting::Flag(false),
        ArgSetting::Action => Setting::Kind(ArgKind::Value),
        ArgSetting::ValueName => Setting::Text("end"@),
        ArgSetting::HiddenDefault => Setting::Flag(true),
    ]
}

/// The argument whose settings are [`endian_settings`].
fn arg_endian() -> (r: clap::Arg)
    ensures
        arg_settings(r) == endian_settings(),
{
    let arg = new_arg("endian");
    let arg = with_long(arg, "endian");
    let arg = with_heading(arg, "Global VTK options");
    let arg = with_help(arg, "Byte ordering/endian");
    let arg = with_long_help(arg, ENDIAN_LONG_HELP);
    let arg = with_required(arg, false);
    let arg = with_action(arg, ArgKind::Value);
    let arg = with_value_name(arg, "end");
    let arg = with_hidden_default(arg, true);
    assert(arg_settings(arg) =~= endian_settings());
    arg
}

/// The compression of the plots: `--compressor`, one value.
pub open spec fn compressor_settings() -> Map<ArgSetting, Setting> {
    map![
        ArgSetting::Id => Setting::Text("compressor"@),
        ArgSetting::Long => Setting::Text("compressor"@),
        ArgSetting::Heading => Setting::Text("Global VTK options"@),
        ArgSetting::Help => Setting::Text("Compression method for XML"@),
        ArgSetting::LongHelp => Setting::Text(COMPRESSOR_LONG_HELP@),
        ArgSetting::Required => Setting::Flag(false),
        ArgSetting::Action => Setting::Kind(ArgKind::Value),
        ArgSetting::ValueName => Setting::Text("cmp"@),
        ArgSetting::HiddenDefault => Setting::Flag(true),
    ]
}

/// The argument whose settings are [`compressor_settings`].
fn arg_compressor() -> (r: clap::Arg)
    ensures
        arg_settings(r) == compressor_settings(),
{
    let arg = new_arg("compressor");
    let arg = with_long(arg, "compressor");
    let arg = with_heading(arg, "Global VTK options");
    let arg = with_help(arg, "Compression method for XML");
    let arg = with_long_help(arg, COMPRESSOR_LONG_HELP);
    let arg = with_required(arg, false);
    let arg = with_action(arg, ArgKind::Value);
    let arg = with_value_name(arg, "cmp");
    let arg = with_hidden_default(arg, true);
    assert(arg_settings(arg) =~= compressor_settings());
    arg
}

} // verus!
