//! The global options of a command line: for each, the first value given.

use vstd::prelude::*;
use vstd::string::*;
use crate::cli::has_token;
use crate::numeral::{bounded_value, read_u8};
use crate::cli::is_cli;
use crate::parser::tally::{all_cli, match_set, match_view, matched_by};
use crate::parser::{
    text_of, ConfigErrorView, FileConfig, FileConfigView, RawSet, RawSetView, VtkConfig,
    DEFAULT_OUTPUT,
};
use crate::text::{set_texts, texts};
use crate::wrappers::{CliByteOrder, CliCompressor, CliVtkFormat};

verus! {

/// The first value that is given, in order: a fold from the left that keeps
/// what it has.
pub open spec fn first_given<T>(options: Seq<Option<T>>) -> Option<T>
    decreases options.len(),
{
    if options.len() == 0 {
        None
    } else {
        match first_given(options.drop_last()) {
            Some(v) => Some(v),
            None => options.last(),
        }
    }
}

/// The first value that is given is the one before which none is given.
pub proof fn lemma_first_given<T>(options: Seq<Option<T>>)
    ensures
        first_given(options) is None <==> forall|i: int|
            0 <= i < options.len() ==> (#[trigger] options[i]) is None,
        first_given(options) is Some ==> exists|k: int|
            0 <= k < options.len() && #[trigger] options[k] == first_given(options) && forall|
                j: int,
            |
                0 <= j < k ==> (#[trigger] options[j]) is None,
    decreases options.len(),
{
    if options.len() > 0 {
        let head = options.drop_last();
        lemma_first_given(head);
        assert forall|i: int| 0 <= i < head.len() implies head[i] == options[i] by {}
        if first_given(head) is Some {
            let k = choose|k: int|
                0 <= k < head.len() && #[trigger] head[k] == first_given(head) && forall|j: int|
                    0 <= j < k ==> (#[trigger] head[j]) is None;
            assert(options[k] == first_given(options));
            assert forall|j: int| 0 <= j < k implies (#[trigger] options[j]) is None by {
                assert(head[j] is None);
            }
        } else {
            assert forall|i: int| 0 <= i < head.len() implies (#[trigger] options[i]) is None by {
                assert(head[i] is None);
            }
            if options.last() is Some {
                let k = options.len() - 1;
                assert(options[k] == first_given(options));
            }
        }
    }
}

/// Where one set alone gives a value, that value is the first given, wherever
/// the set stands among the others.
pub proof fn lemma_only_given_wins<T>(options: Seq<Option<T>>, k: int)
    requires
        0 <= k < options.len(),
        options[k] is Some,
        forall|j: int| 0 <= j < options.len() && j != k ==> (#[trigger] options[j]) is None,
    ensures
        first_given(options) == options[k],
{
    lemma_first_given(options);
    assert(first_given(options) is Some);
    let i = choose|i: int|
        0 <= i < options.len() && #[trigger] options[i] == first_given(options) && forall|j: int|
            0 <= j < i ==> (#[trigger] options[j]) is None;
    assert(i == k);
}

/// The model of a set that the engine may have turned down.
pub open spec fn raw_view(matched: Option<RawSet>) -> Option<RawSetView> {
    match matched {
        Some(raw) => Some(raw@),
        None => None,
    }
}

/// The models of a list of sets.
pub open spec fn raw_views(matched: Seq<Option<RawSet>>) -> Seq<Option<RawSetView>> {
    Seq::new(matched.len(), |i: int| raw_view(matched[i]))
}

/// The output path that a set gives.
pub open spec fn given_output(matched: Option<RawSetView>) -> Option<Seq<char>> {
    match matched {
        Some(raw) => raw.output,
        None => None,
    }
}

/// The plot format that a set gives, if it is well written.
pub open spec fn given_format(matched: Option<RawSetView>) -> Option<CliVtkFormat> {
    match matched {
        Some(raw) => match raw.format {
            Some(name) => CliVtkFormat::named(name),
            None => None,
        },
        None => None,
    }
}

/// The compressor that a set gives, if it is well written.
pub open spec fn given_compressor(matched: Option<RawSetView>) -> Option<CliCompressor> {
    match matched {
        Some(raw) => match raw.compressor {
            Some(name) => CliCompressor::named(name),
            None => None,
        },
        None => None,
    }
}

/// The byte order that a set gives, if it is well written.
pub open spec fn given_endian(matched: Option<RawSetView>) -> Option<CliByteOrder> {
    match matched {
        Some(raw) => match raw.endian {
            Some(name) => CliByteOrder::named(name),
            None => None,
        },
        None => None,
    }
}

/// The resolution that a set gives, if it is well written.
pub open spec fn given_resolution(matched: Option<RawSetView>) -> Option<u8> {
    match matched {
        Some(raw) => match raw.resolution {
            Some(text) => match bounded_value(text, u8::MAX as int) {
                Some(v) => Some(v as u8),
                None => None,
            },
            None => None,
        },
        None => None,
    }
}

/// What each set gives for one option, in the order of the sets.
pub open spec fn given_all<T>(
    matched: Seq<Option<RawSetView>>,
    given: spec_fn(Option<RawSetView>) -> Option<T>,
) -> Seq<Option<T>> {
    Seq::new(matched.len(), |i: int| given(matched[i]))
}

/// Whether one of the sets holds the token.
pub open spec fn any_holds(sets: Seq<Seq<Seq<char>>>, name: Seq<char>) -> bool {
    exists|i: int| 0 <= i < sets.len() && (#[trigger] sets[i]).contains(name)
}

/// The global output options of a command line: for each, the first value
/// given by a set that the engine matched, else the default. The switch is on
/// where any set holds it.
pub open spec fn file_of(
    sets: Seq<Seq<Seq<char>>>,
    matched: Seq<Option<RawSetView>>,
) -> FileConfigView {
    FileConfigView {
        trim: any_holds(sets, "--trim"@),
        output: match first_given(given_all(matched, |m| given_output(m))) {
            Some(path) => path,
            None => DEFAULT_OUTPUT@,
        },
    }
}

/// The global plotting options of a command line: for each, the first value
/// given and well written in a set that the engine matched, else the default.
/// The switch is on where any set holds it.
pub open spec fn vtk_of(sets: Seq<Seq<Seq<char>>>, matched: Seq<Option<RawSetView>>) -> VtkConfig {
    VtkConfig {
        vtk: any_holds(sets, "--vtk"@),
        format: match first_given(given_all(matched, |m| given_format(m))) {
            Some(format) => format,
            None => CliVtkFormat::Xml,
        },
        compressor: match first_given(given_all(matched, |m| given_compressor(m))) {
            Some(compressor) => compressor,
            None => CliCompressor::LZMA,
        },
        endian: match first_given(given_all(matched, |m| given_endian(m))) {
            Some(endian) => endian,
            None => CliByteOrder::BigEndian,
        },
        resolution: match first_given(given_all(matched, |m| given_resolution(m))) {
            Some(resolution) => resolution,
            None => 1,
        },
    }
}

/// Whether one of the sets holds the token.
pub fn any_set_holds(sets: &Vec<Vec<String>>, name: &str) -> (r: bool)
    ensures
        r == any_holds(set_texts(sets@), name@),
{
    let mut i: usize = 0;
    while i < sets.len()
        invariant
            i <= sets.len(),
            forall|k: int| 0 <= k < i ==> !(#[trigger] set_texts(sets@)[k]).contains(name@),
        decreases sets.len() - i,
    {
        if has_token(&sets[i], name) {
            assert(set_texts(sets@)[i as int].contains(name@));
            return true;
        }
        i += 1;
    }
    false
}

/// One more set behind the others: what the sets give is what the others
/// gave, then what the last one gives.
proof fn lemma_given_next<T>(
    matched: Seq<Option<RawSetView>>,
    given: spec_fn(Option<RawSetView>) -> Option<T>,
    i: int,
)
    requires
        0 <= i < matched.len(),
    ensures
        first_given(given_all(matched.subrange(0, i + 1), given)) == match first_given(
            given_all(matched.subrange(0, i), given),
        ) {
            Some(v) => Some(v),
            None => given(matched[i]),
        },
{
    let next = given_all(matched.subrange(0, i + 1), given);
    assert(next.drop_last() =~= given_all(matched.subrange(0, i), given));
    assert(next.last() == given(matched[i]));
}

/// Resolves the global output options from the sets and from what the engine
/// matched in each of them.
pub fn resolve_file(sets: &Vec<Vec<String>>, matched: &Vec<Option<RawSet>>) -> (r: FileConfig)
    ensures
        r@ == file_of(set_texts(sets@), raw_views(matched@)),
{
    let ghost views = raw_views(matched@);
    let mut output: Option<String> = None;
    let mut i: usize = 0;
    assert(given_all(views.subrange(0, 0), |m| given_output(m)) =~= Seq::empty());
    while i < matched.len()
        invariant
            i <= matched.len(),
            views == raw_views(matched@),
            text_of(output) == first_given(
                given_all(views.subrange(0, i as int), |m| given_output(m)),
            ),
        decreases matched.len() - i,
    {
        proof {
            lemma_given_next(views, |m| given_output(m), i as int);
        }
        if output.is_none() {
            if let Some(raw) = &matched[i] {
                if let Some(path) = &raw.output {
                    output = Some(path.clone());
                }
            }
        }
        i += 1;
    }
    assert(views.subrange(0, matched@.len() as int) =~= views);
    FileConfig {
        trim: any_set_holds(sets, "--trim"),
        output: match output {
            Some(path) => path,
            None => String::from_str(DEFAULT_OUTPUT),
        },
    }
}

fn format_given(matched: &Option<RawSet>) -> (r: Option<CliVtkFormat>)
    ensures
        r == given_format(raw_view(*matched)),
{
    match matched {
        Some(raw) => match &raw.format {
            Some(name) => CliVtkFormat::from_name(name.as_str()),
            None => None,
        },
        None => None,
    }
}

fn compressor_given(matched: &Option<RawSet>) -> (r: Option<CliCompressor>)
    ensures
        r == given_compressor(raw_view(*matched)),
{
    match matched {
        Some(raw) => match &raw.compressor {
            Some(name) => CliCompressor::from_name(name.as_str()),
            None => None,
        },
        None => None,
    }
}

fn endian_given(matched: &Option<RawSet>) -> (r: Option<CliByteOrder>)
    ensures
        r == given_endian(raw_view(*matched)),
{
    match matched {
        Some(raw) => match &raw.endian {
            Some(name) => CliByteOrder::from_name(name.as_str()),
            None => None,
        },
        None => None,
    }
}

fn resolution_given(matched: &Option<RawSet>) -> (r: Option<u8>)
    ensures
        r == given_resolution(raw_view(*matched)),
{
    match matched {
        Some(raw) => match &raw.resolution {
            Some(text) => read_u8(text.as_str()),
            None => None,
        },
        None => None,
    }
}

/// Resolves the global plotting options from the sets and from what the
/// engine matched in each of them.
pub fn resolve_vtk(sets: &Vec<Vec<String>>, matched: &Vec<Option<RawSet>>) -> (r: VtkConfig)
    ensures
        r == vtk_of(set_texts(sets@), raw_views(matched@)),
{
    let ghost views = raw_views(matched@);
    let mut format: Option<CliVtkFormat> = None;
    let mut compressor: Option<CliCompressor> = None;
    let mut endian: Option<CliByteOrder> = None;
    let mut resolution: Option<u8> = None;
    let mut i: usize = 0;
    proof {
        assert(given_all(views.subrange(0, 0), |m| given_format(m)) =~= Seq::empty());
        assert(given_all(views.subrange(0, 0), |m| given_compressor(m)) =~= Seq::empty());
        assert(given_all(views.subrange(0, 0), |m| given_endian(m)) =~= Seq::empty());
        assert(given_all(views.subrange(0, 0), |m| given_resolution(m)) =~= Seq::empty());
    }
    while i < matched.len()
        invariant
            i <= matched.len(),
            views == raw_views(matched@),
            format == first_given(given_all(views.subrange(0, i as int), |m| given_format(m))),
            compressor == first_given(
                given_all(views.subrange(0, i as int), |m| given_compressor(m)),
            ),
            endian == first_given(given_all(views.subrange(0, i as int), |m| given_endian(m))),
            resolution == first_given(
                given_all(views.subrange(0, i as int), |m| given_resolution(m)),
            ),
        decreases matched.len() - i,
    {
        proof {
            lemma_given_next(views, |m| given_format(m), i as int);
            lemma_given_next(views, |m| given_compressor(m), i as int);
            lemma_given_next(views, |m| given_endian(m), i as int);
            lemma_given_next(views, |m| given_resolution(m), i as int);
        }
        if format.is_none() {
            format = format_given(&matched[i]);
        }
        if compressor.is_none() {
            compressor = compressor_given(&matched[i]);
        }
        if endian.is_none() {
            endian = endian_given(&matched[i]);
        }
        if resolution.is_none() {
            resolution = resolution_given(&matched[i]);
        }
        i += 1;
    }
    assert(views.subrange(0, matched@.len() as int) =~= views);
    VtkConfig {
        vtk: any_set_holds(sets, "--vtk"),
        format: match format {
            Some(format) => format,
            None => CliVtkFormat::Xml,
        },
        compressor: match compressor {
            Some(compressor) => compressor,
            None => CliCompressor::LZMA,
        },
        endian: match endian {
            Some(endian) => endian,
            None => CliByteOrder::BigEndian,
        },
        resolution: match resolution {
            Some(resolution) => resolution,
            None => 1,
        },
    }
}

/// What a set gives to the global options: what was matched in it, and
/// nothing where it was turned down.
pub open spec fn matched_part(matched: Result<RawSetView, ConfigErrorView>) -> Option<RawSetView> {
    match matched {
        Ok(raw) => Some(raw),
        Err(_) => None,
    }
}

/// What every set gives to the global options, each under its command, in
/// order.
pub open spec fn given_by(commands: Seq<clap::Command>, sets: Seq<Seq<Seq<char>>>) -> Seq<
    Option<RawSetView>,
> {
    Seq::new(sets.len(), |i: int| matched_part(matched_by(commands[i], sets[i])))
}

/// Matches every argument set, in order: item `i` is what [`match_set`] gives
/// for set `i`, and nothing where the set is turned down.
pub fn all_argument_matches(sets: &Vec<Vec<String>>) -> (r: Vec<Option<RawSet>>)
    ensures
        exists|commands: Seq<clap::Command>| #[trigger]
            all_cli(commands, set_texts(sets@)) && raw_views(r@) == given_by(
                commands,
                set_texts(sets@),
            ),
        r@.len() == sets@.len(),
{
    let mut matched: Vec<Option<RawSet>> = Vec::new();
    let ghost mut commands: Seq<clap::Command> = Seq::empty();
    let mut i: usize = 0;
    while i < sets.len()
        invariant
            i <= sets.len(),
            matched@.len() == i,
            commands.len() == i,
            forall|k: int| 0 <= k < i ==> is_cli(#[trigger] commands[k]),
            forall|k: int|
                0 <= k < i ==> raw_view(#[trigger] matched@[k]) == matched_part(
                    matched_by(commands[k], set_texts(sets@)[k]),
                ),
        decreases sets.len() - i,
    {
        let found = match_set(&sets[i]);
        proof {
            let handed = choose|command: clap::Command| #[trigger]
                is_cli(command) && match_view(found) == matched_by(
                    command,
                    texts(sets@[i as int]@),
                );
            commands = commands.push(handed);
        }
        matched.push(
            match found {
                Ok(raw) => Some(raw),
                Err(_) => None,
            },
        );
        i += 1;
    }
    proof {
        assert(all_cli(commands, set_texts(sets@)));
        assert(raw_views(matched@) =~= given_by(commands, set_texts(sets@)));
    }
    matched
}

/// The global plotting options of a command line, given as its argument sets:
/// what [`vtk_of`] makes of the sets and of what the engine matches in each
/// of them under the command of `cli_init`.
pub fn vtk_config(sets: &Vec<Vec<String>>) -> (r: VtkConfig)
    ensures
        exists|commands: Seq<clap::Command>| #[trigger]
            all_cli(commands, set_texts(sets@)) && r == vtk_of(
                set_texts(sets@),
                given_by(commands, set_texts(sets@)),
            ),
        r.vtk == any_holds(set_texts(sets@), "--vtk"@),
{
    let matched = all_argument_matches(sets);
    let ghost commands = choose|commands: Seq<clap::Command>| #[trigger]
        all_cli(commands, set_texts(sets@)) && raw_views(matched@) == given_by(
            commands,
            set_texts(sets@),
        );
    let r = resolve_vtk(sets, &matched);
    assert(all_cli(commands, set_texts(sets@)) && r == vtk_of(
        set_texts(sets@),
        given_by(commands, set_texts(sets@)),
    ));
    r
}

/// The global output options of a command line, given as its argument sets:
/// what [`file_of`] makes of the sets and of what the engine matches in each
/// of them under the command of `cli_init`.
pub fn file_config(sets: &Vec<Vec<String>>) -> (r: FileConfig)
    ensures
        exists|commands: Seq<clap::Command>| #[trigger]
            all_cli(commands, set_texts(sets@)) && r@ == file_of(
                set_texts(sets@),
                given_by(commands, set_texts(sets@)),
            ),
        r@.trim == any_holds(set_texts(sets@), "--trim"@),
{
    let matched = all_argument_matches(sets);
    let ghost commands = choose|commands: Seq<clap::Command>| #[trigger]
        all_cli(commands, set_texts(sets@)) && raw_views(matched@) == given_by(
            commands,
            set_texts(sets@),
        );
    let r = resolve_file(sets, &matched);
    assert(all_cli(commands, set_texts(sets@)) && r@ == file_of(
        set_texts(sets@),
        given_by(commands, set_texts(sets@)),
    ));
    r
}

/// Where one set alone gives an output path, that path is the resolved one,
/// wherever the set stands among the others.
pub proof fn lemma_only_output_wins(
    sets: Seq<Seq<Seq<char>>>,
    matched: Seq<Option<RawSetView>>,
    k: int,
    path: Seq<char>,
)
    requires
        0 <= k < matched.len(),
        given_output(matched[k]) == Some(path),
        forall|j: int| 0 <= j < matched.len() && j != k ==> given_output(#[trigger] matched[j]) is None,
    ensures
        file_of(sets, matched).output == path,
{
    let options = given_all(matched, |m| given_output(m));
    assert forall|j: int| 0 <= j < options.len() && j != k implies (#[trigger] options[j]) is None by {
        assert(given_output(matched[j]) is None);
    }
    lemma_only_given_wins(options, k);
}

} // verus!
