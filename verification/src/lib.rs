//! Multi-tally configuration and orchestration for converting mesh tallies
//! into global weight windows.
//!
//! One command line asks for several conversions, parted by `+`:
//!
//! ```text
//! mesh2ww a.msht 14 + b.msht 24 -p 0.8 -e 0.15 --output wwinp.both
//! ```
//!
//! The library splits such a line into argument sets ([`parser::split`]),
//! reads each set into a tally request or into the reason why it is none
//! ([`parser::tally`]), resolves the options that hold for the whole run
//! ([`parser::resolve`]), and decides, tally by tally, what is read, generated,
//! plotted and kept ([`conversion`]). It reads no file and computes no weight:
//! a driver does that and reports back.
//!
//! Decimal numbers are carried as text. The library checks that they are well
//! written ([`numeral`]) and can tell whether one of them is the number one
//! ([`unit`]); their values are left to the code that computes with them.
//!
//! Arguments are matched by `clap`. The library says which command it hands
//! to `clap`, setting by setting ([`cli`]). What `clap` makes of the tokens
//! under that command is named, not described; every result of the library
//! is stated exactly over that name.

pub mod cli;
pub mod conversion;
pub mod logging;
pub mod numeral;
pub mod parser;
pub mod text;
pub mod unit;
pub mod wrappers;
