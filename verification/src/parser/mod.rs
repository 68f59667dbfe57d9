//! From argument sets to validated configurations.
//!
//! One command line holds several tally requests, parted by `+`. Each part is
//! matched on its own and checked field by field, so that a fault in one field
//! spoils neither the other parts nor the global options of its own part.

pub mod resolve;
pub mod split;
pub mod tally;

use vstd::prelude::*;
use vstd::string::*;
use crate::numeral::is_decimal;
use crate::text::texts;
use crate::wrappers::{CliByteOrder, CliCompressor, CliVtkFormat};

pub use resolve::{
    all_argument_matches, any_set_holds, file_config, resolve_file, resolve_vtk, vtk_config,
};
pub use split::split_argument_sets;
pub use tally::{
    copy_config, find_fault, keep_valid, match_set, read_set, rejection_error, source_path,
    tally_from, ww_config, ww_outcomes, ww_set,
};

verus! {

/// The de-tuning exponent used where none is given.
pub const DEFAULT_POWER: &'static str = "0.7";

/// The relative-error cutoff used where none is given.
pub const DEFAULT_ERROR: &'static str = "1.0";

/// The scale factor used where none is given.
pub const DEFAULT_SCALE: &'static str = "1.0";

/// The output path used where none is given.
pub const DEFAULT_OUTPUT: &'static str = "wwinp";

/// One validated tally request. Decimal numbers are kept as they were written.
#[derive(Debug, Clone)]
pub struct WWConfig {
    /// Path to the mesh-tally file.
    pub meshtal: String,
    /// Number of the tally within the file.
    pub number: u32,
    /// De-tuning exponents: one for all groups, or one per group.
    pub power: Vec<String>,
    /// Relative-error cutoffs: one for all groups, or one per group.
    pub error: Vec<String>,
    /// Whether only the groups of totals are used.
    pub total: bool,
    /// Factor by which the generated weights are multiplied.
    pub scale: String,
}

/// Global plotting options.
#[derive(Debug, Copy, Clone, PartialEq, Eq, Structural)]
pub struct VtkConfig {
    /// Whether plots are written at all.
    pub vtk: bool,
    /// File format of the plots.
    pub format: CliVtkFormat,
    /// Compression of XML plots.
    pub compressor: CliCompressor,
    /// Byte order of binary data.
    pub endian: CliByteOrder,
    /// Angular resolution of cylindrical meshes.
    pub resolution: u8,
}

/// Global output options.
#[derive(Debug, Clone)]
pub struct FileConfig {
    /// Whether unused particle types are left out of the output's header.
    pub trim: bool,
    /// Path of the output file.
    pub output: String,
}

/// Why an argument set yields no tally request.
#[derive(Debug, Clone)]
pub enum ConfigError {
    /// A required positional value is absent; holds its name.
    MissingArgument(String),
    /// A value is malformed; holds the field's name and the value as written.
    InvalidValue(String, String),
    /// The set holds something that the grammar does not know; holds the
    /// argument at fault where it is known.
    UnrecognizedArgument(String),
    /// No file stands at the source path; holds the path.
    FileNotFound(String),
}

/// What was matched in one argument set, every value as it was written.
#[derive(Debug, Clone)]
pub struct RawSet {
    pub meshtal: Option<String>,
    pub number: Option<String>,
    pub power: Vec<String>,
    pub error: Vec<String>,
    pub total: bool,
    pub scale: Option<String>,
    pub output: Option<String>,
    pub format: Option<String>,
    pub resolution: Option<String>,
    pub endian: Option<String>,
    pub compressor: Option<String>,
}

/// The model of a [`WWConfig`].
pub struct WWConfigView {
    pub meshtal: Seq<char>,
    pub number: u32,
    pub power: Seq<Seq<char>>,
    pub error: Seq<Seq<char>>,
    pub total: bool,
    pub scale: Seq<char>,
}

/// The model of a [`FileConfig`].
pub struct FileConfigView {
    pub trim: bool,
    pub output: Seq<char>,
}

/// The model of a [`ConfigError`].
pub enum ConfigErrorView {
    MissingArgument(Seq<char>),
    InvalidValue(Seq<char>, Seq<char>),
    UnrecognizedArgument(Seq<char>),
    FileNotFound(Seq<char>),
}

/// The model of a [`RawSet`].
pub struct RawSetView {
    pub meshtal: Option<Seq<char>>,
    pub number: Option<Seq<char>>,
    pub power: Seq<Seq<char>>,
    pub error: Seq<Seq<char>>,
    pub total: bool,
    pub scale: Option<Seq<char>>,
    pub output: Option<Seq<char>>,
    pub format: Option<Seq<char>>,
    pub resolution: Option<Seq<char>>,
    pub endian: Option<Seq<char>>,
    pub compressor: Option<Seq<char>>,
}

/// The characters of a piece of text that may be absent.
pub open spec fn text_of(t: Option<String>) -> Option<Seq<char>> {
    match t {
        Some(s) => Some(s@),
        None => None,
    }
}

impl View for WWConfig {
    type V = WWConfigView;

    open spec fn view(&self) -> WWConfigView {
        WWConfigView {
            meshtal: self.meshtal@,
            number: self.number,
            power: texts(self.power@),
            error: texts(self.error@),
            total: self.total,
            scale: self.scale@,
        }
    }
}

impl View for FileConfig {
    type V = FileConfigView;

    open spec fn view(&self) -> FileConfigView {
        FileConfigView { trim: self.trim, output: self.output@ }
    }
}

impl View for ConfigError {
    type V = ConfigErrorView;

    open spec fn view(&self) -> ConfigErrorView {
        match self {
            ConfigError::MissingArgument(name) => ConfigErrorView::MissingArgument(name@),
            ConfigError::InvalidValue(field, raw) => ConfigErrorView::InvalidValue(field@, raw@),
            ConfigError::UnrecognizedArgument(arg) => ConfigErrorView::UnrecognizedArgument(arg@),
            ConfigError::FileNotFound(path) => ConfigErrorView::FileNotFound(path@),
        }
    }
}

/// What an error says to the user.
pub open spec fn message_of(e: ConfigErrorView) -> Seq<char> {
    match e {
        ConfigErrorView::MissingArgument(name) => "Empty <"@ + name
            + "> positional argument in set"@,
        ConfigErrorView::InvalidValue(field, raw) => "Invalid value \""@ + raw + "\" for "@
            + field,
        ConfigErrorView::UnrecognizedArgument(arg) => "Unrecognized argument \""@ + arg + "\""@,
        ConfigErrorView::FileNotFound(path) => "Unable to find file \""@ + path + "\""@,
    }
}

impl ConfigError {
    /// What the error says to the user.
    pub fn message(&self) -> (r: String)
        ensures
            r@ == message_of(self@),
    {
        match self {
            ConfigError::MissingArgument(name) => {
                let mut text = String::from_str("Empty <");
                text.append(name.as_str());
                text.append("> positional argument in set");
                text
            },
            ConfigError::InvalidValue(field, raw) => {
                let mut text = String::from_str("Invalid value \"");
                text.append(raw.as_str());
                text.append("\" for ");
                text.append(field.as_str());
                text
            },
            ConfigError::UnrecognizedArgument(arg) => {
                let mut text = String::from_str("Unrecognized argument \"");
                text.append(arg.as_str());
                text.append("\"");
                text
            },
            ConfigError::FileNotFound(path) => {
                let mut text = String::from_str("Unable to find file \"");
                text.append(path.as_str());
                text.append("\"");
                text
            },
        }
    }
}

impl View for RawSet {
    type V = RawSetView;

    open spec fn view(&self) -> RawSetView {
        RawSetView {
            meshtal: text_of(self.meshtal),
            number: text_of(self.number),
            power: texts(self.power@),
            error: texts(self.error@),
            total: self.total,
            scale: text_of(self.scale),
            output: text_of(self.output),
            format: text_of(self.format),
            resolution: text_of(self.resolution),
            endian: text_of(self.endian),
            compressor: text_of(self.compressor),
        }
    }
}

/// The models of a list of requests.
pub open spec fn config_views(configs: Seq<WWConfig>) -> Seq<WWConfigView> {
    Seq::new(configs.len(), |i: int| configs[i]@)
}

impl WWConfigView {
    /// Both lists of factors hold something, and every decimal number in the
    /// request is well written.
    pub open spec fn wf(self) -> bool {
        &&& self.power.len() >= 1
        &&& self.error.len() >= 1
        &&& forall|i: int| 0 <= i < self.power.len() ==> is_decimal(#[trigger] self.power[i])
        &&& forall|i: int| 0 <= i < self.error.len() ==> is_decimal(#[trigger] self.error[i])
        &&& is_decimal(self.scale)
    }
}

} // verus!
