//! Plain enumerations for the plotting options, each with the names it goes by
//! on the command line.

use vstd::prelude::*;
use crate::text::same_text;

verus! {

/// File format of a plot export.
#[allow(clippy::upper_case_acronyms)]
#[derive(Debug, Copy, Clone, PartialEq, Eq, PartialOrd, Ord, Structural)]
pub enum CliVtkFormat {
    Xml,
    LegacyAscii,
    LegacyBinary,
}

impl CliVtkFormat {
    /// The format that a command-line value names, if any.
    pub open spec fn named(name: Seq<char>) -> Option<CliVtkFormat> {
        if name == "xml"@ {
            Some(CliVtkFormat::Xml)
        } else if name == "legacy-ascii"@ {
            Some(CliVtkFormat::LegacyAscii)
        } else if name == "legacy-binary"@ {
            Some(CliVtkFormat::LegacyBinary)
        } else {
            None
        }
    }

    /// Reads a command-line value; the match is exact and case sensitive.
    pub fn from_name(name: &str) -> (r: Option<CliVtkFormat>)
        ensures
            r == Self::named(name@),
    {
        if same_text(name, "xml") {
            Some(CliVtkFormat::Xml)
        } else if same_text(name, "legacy-ascii") {
            Some(CliVtkFormat::LegacyAscii)
        } else if same_text(name, "legacy-binary") {
            Some(CliVtkFormat::LegacyBinary)
        } else {
            None
        }
    }
}

/// Byte order of binary plot data.
#[derive(Debug, Copy, Clone, PartialEq, Eq, PartialOrd, Ord, Structural)]
pub enum CliByteOrder {
    BigEndian,
    LittleEndian,
}

impl CliByteOrder {
    /// The byte order that a command-line value names, if any.
    pub open spec fn named(name: Seq<char>) -> Option<CliByteOrder> {
        if name == "big-endian"@ {
            Some(CliByteOrder::BigEndian)
        } else if name == "little-endian"@ {
            Some(CliByteOrder::LittleEndian)
        } else {
            None
        }
    }

    /// Reads a command-line value; the match is exact and case sensitive.
    pub fn from_name(name: &str) -> (r: Option<CliByteOrder>)
        ensures
            r == Self::named(name@),
    {
        if same_text(name, "big-endian") {
            Some(CliByteOrder::BigEndian)
        } else if same_text(name, "little-endian") {
            Some(CliByteOrder::LittleEndian)
        } else {
            None
        }
    }
}

/// Compression of XML plot data.
#[allow(clippy::upper_case_acronyms)]
#[derive(Debug, Copy, Clone, PartialEq, Eq, PartialOrd, Ord, Structural)]
pub enum CliCompressor {
    LZ4,
    ZLib,
    LZMA,
    Uncompressed,
}

impl CliCompressor {
    /// The compressor that a command-line value names, if any.
    pub open spec fn named(name: Seq<char>) -> Option<CliCompressor> {
        if name == "lzma"@ {
            Some(CliCompressor::LZMA)
        } else if name == "lz4"@ {
            Some(CliCompressor::LZ4)
        } else if name == "zlib"@ {
            Some(CliCompressor::ZLib)
        } else if name == "none"@ {
            Some(CliCompressor::Uncompressed)
        } else {
            None
        }
    }

    /// Reads a command-line value; the match is exact and case sensitive.
    pub fn from_name(name: &str) -> (r: Option<CliCompressor>)
        ensures
            r == Self::named(name@),
    {
        if same_text(name, "lzma") {
            Some(CliCompressor::LZMA)
        } else if same_text(name, "lz4") {
            Some(CliCompressor::LZ4)
        } else if same_text(name, "zlib") {
            Some(CliCompressor::ZLib)
        } else if same_text(name, "none") {
            Some(CliCompressor::Uncompressed)
        } else {
            None
        }
    }
}

} // verus!
