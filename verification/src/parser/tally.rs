//! From one argument set to one tally request.

use vstd::prelude::*;
use vstd::string::*;
use crate::cli::engine::{
    engine_outcome, matched_flag, matched_many, matched_one, refusal_of, switches_matched,
    texts_matched, try_matches, Refusal,
};
use crate::cli::{cli_init, is_cli};
use crate::numeral::{
    bounded_value, digit_run, is_decimal, is_decimal_text, read_u32, read_u8, unsigned_part,
};
use crate::parser::{
    config_views, text_of, ConfigError, ConfigErrorView, RawSet, RawSetView, WWConfig, WWConfigView,
    DEFAULT_ERROR, DEFAULT_POWER, DEFAULT_SCALE,
};
use crate::text::{copy_texts, set_texts, texts};
use crate::wrappers::{CliByteOrder, CliCompressor, CliVtkFormat};

verus! {

/// The place of the first item at or behind `from` that is no decimal number;
/// the length of the list if there is none.
pub open spec fn first_undecimal(v: Seq<Seq<char>>, from: int) -> int
    decreases v.len() - from,
{
    if 0 <= from < v.len() && is_decimal(v[from]) {
        first_undecimal(v, from + 1)
    } else {
        from
    }
}

/// The first malformed value of a set, in the order number, power, error,
/// scale, format, resolution, endian, compressor.
pub open spec fn first_fault(raw: RawSetView) -> Option<ConfigErrorView> {
    let power_at = first_undecimal(raw.power, 0);
    let error_at = first_undecimal(raw.error, 0);
    if raw.number is Some && bounded_value(raw.number->0, u32::MAX as int) is None {
        Some(ConfigErrorView::InvalidValue("number"@, raw.number->0))
    } else if power_at < raw.power.len() {
        Some(ConfigErrorView::InvalidValue("power"@, raw.power[power_at]))
    } else if error_at < raw.error.len() {
        Some(ConfigErrorView::InvalidValue("error"@, raw.error[error_at]))
    } else if raw.scale is Some && !is_decimal(raw.scale->0) {
        Some(ConfigErrorView::InvalidValue("scale"@, raw.scale->0))
    } else if raw.format is Some && CliVtkFormat::named(raw.format->0) is None {
        Some(ConfigErrorView::InvalidValue("format"@, raw.format->0))
    } else if raw.resolution is Some && bounded_value(raw.resolution->0, u8::MAX as int) is None {
        Some(ConfigErrorView::InvalidValue("resolution"@, raw.resolution->0))
    } else if raw.endian is Some && CliByteOrder::named(raw.endian->0) is None {
        Some(ConfigErrorView::InvalidValue("endian"@, raw.endian->0))
    } else if raw.compressor is Some && CliCompressor::named(raw.compressor->0) is None {
        Some(ConfigErrorView::InvalidValue("compressor"@, raw.compressor->0))
    } else {
        None
    }
}

/// A list of factors, or the single default where none was given.
pub open spec fn factors_or(given: Seq<Seq<char>>, default: Seq<char>) -> Seq<Seq<char>> {
    if given.len() == 0 {
        seq![default]
    } else {
        given
    }
}

/// The tally request that a matched set stands for. `exists` tells whether a
/// file stands at its source path.
///
/// A malformed value comes first, then a missing positional, then a missing
/// file. Factors that were not given take their defaults.
pub open spec fn tally_of(raw: RawSetView, exists: bool) -> Result<
    WWConfigView,
    ConfigErrorView,
> {
    if first_fault(raw) is Some {
        Err(first_fault(raw)->0)
    } else if raw.meshtal is None {
        Err(ConfigErrorView::MissingArgument("meshtal"@))
    } else if raw.number is None {
        Err(ConfigErrorView::MissingArgument("number"@))
    } else if !exists {
        Err(ConfigErrorView::FileNotFound(raw.meshtal->0))
    } else {
        Ok(
            WWConfigView {
                meshtal: raw.meshtal->0,
                number: bounded_value(raw.number->0, u32::MAX as int)->0 as u32,
                power: factors_or(raw.power, DEFAULT_POWER@),
                error: factors_or(raw.error, DEFAULT_ERROR@),
                total: raw.total,
                scale: match raw.scale {
                    Some(s) => s,
                    None => DEFAULT_SCALE@,
                },
            },
        )
    }
}

/// The model of the outcome of reading one set.
pub open spec fn outcome_view(r: Result<WWConfig, ConfigError>) -> Result<
    WWConfigView,
    ConfigErrorView,
> {
    match r {
        Ok(c) => Ok(c@),
        Err(e) => Err(e@),
    }
}

fn invalid(field: &str, raw: &String) -> (e: ConfigError)
    ensures
        e@ == ConfigErrorView::InvalidValue(field@, raw@),
{
    ConfigError::InvalidValue(String::from_str(field), raw.clone())
}

fn undecimal_from(v: &Vec<String>) -> (r: usize)
    ensures
        r == first_undecimal(texts(v@), 0),
        r <= v.len(),
{
    let mut i: usize = 0;
    while i < v.len() && is_decimal_text(v[i].as_str())
        invariant
            i <= v.len(),
            first_undecimal(texts(v@), 0) == first_undecimal(texts(v@), i as int),
        decreases v.len() - i,
    {
        i += 1;
    }
    i
}

/// The first malformed value of a set, if it has one.
pub fn find_fault(raw: &RawSet) -> (r: Option<ConfigError>)
    ensures
        match first_fault(raw@) {
            Some(e) => r is Some && r->0@ == e,
            None => r is None,
        },
{
    if let Some(number) = &raw.number {
        if read_u32(number.as_str()).is_none() {
            return Some(invalid("number", number));
        }
    }
    let power_at = undecimal_from(&raw.power);
    if power_at < raw.power.len() {
        return Some(invalid("power", &raw.power[power_at]));
    }
    let error_at = undecimal_from(&raw.error);
    if error_at < raw.error.len() {
        return Some(invalid("error", &raw.error[error_at]));
    }
    if let Some(scale) = &raw.scale {
        if !is_decimal_text(scale.as_str()) {
            return Some(invalid("scale", scale));
        }
    }
    if let Some(format) = &raw.format {
        if CliVtkFormat::from_name(format.as_str()).is_none() {
            return Some(invalid("format", format));
        }
    }
    if let Some(resolution) = &raw.resolution {
        if read_u8(resolution.as_str()).is_none() {
            return Some(invalid("resolution", resolution));
        }
    }
    if let Some(endian) = &raw.endian {
        if CliByteOrder::from_name(endian.as_str()).is_none() {
            return Some(invalid("endian", endian));
        }
    }
    if let Some(compressor) = &raw.compressor {
        if CliCompressor::from_name(compressor.as_str()).is_none() {
            return Some(invalid("compressor", compressor));
        }
    }
    None
}

fn factors_from(given: &Vec<String>, default: &str) -> (r: Vec<String>)
    ensures
        texts(r@) == factors_or(texts(given@), default@),
{
    if given.len() == 0 {
        let mut out: Vec<String> = Vec::new();
        out.push(String::from_str(default));
        assert(texts(out@) =~= seq![default@]);
        out
    } else {
        copy_texts(given)
    }
}

/// Checks a matched set and builds its tally request. `exists` tells whether a
/// file stands at the set's source path; it is not looked at where the set
/// names no path.
pub fn tally_from(raw: &RawSet, exists: bool) -> (r: Result<WWConfig, ConfigError>)
    ensures
        outcome_view(r) == tally_of(raw@, exists),
        r is Ok ==> r->Ok_0@.wf(),
{
    if let Some(fault) = find_fault(raw) {
        return Err(fault);
    }
    let meshtal = match &raw.meshtal {
        Some(path) => path.clone(),
        None => {
            return Err(ConfigError::MissingArgument(String::from_str("meshtal")));
        },
    };
    let number = match &raw.number {
        Some(text) => match read_u32(text.as_str()) {
            Some(n) => n,
            None => {
                return Err(invalid("number", text));
            },
        },
        None => {
            return Err(ConfigError::MissingArgument(String::from_str("number")));
        },
    };
    if !exists {
        return Err(ConfigError::FileNotFound(meshtal));
    }
    let scale = match &raw.scale {
        Some(text) => text.clone(),
        None => String::from_str(DEFAULT_SCALE),
    };
    let config = WWConfig {
        meshtal,
        number,
        power: factors_from(&raw.power, DEFAULT_POWER),
        error: factors_from(&raw.error, DEFAULT_ERROR),
        total: raw.total,
        scale,
    };
    proof {
        lemma_defaults_are_decimal();
        lemma_no_undecimal(raw@.power, 0);
        lemma_no_undecimal(raw@.error, 0);
    }
    Ok(config)
}

/// A set that gives no exponent and no cutoff asks for the defaults: where it
/// yields a request, the request's factors are the one default each.
pub proof fn lemma_unset_factors_default(raw: RawSetView, exists: bool)
    requires
        raw.power.len() == 0,
        raw.error.len() == 0,
        tally_of(raw, exists) is Ok,
    ensures
        tally_of(raw, exists)->Ok_0.power == seq![DEFAULT_POWER@],
        tally_of(raw, exists)->Ok_0.error == seq![DEFAULT_ERROR@],
        DEFAULT_POWER@ == "0.7"@,
        DEFAULT_ERROR@ == "1.0"@,
{
}

/// The default factors are well written.
pub proof fn lemma_defaults_are_decimal()
    ensures
        is_decimal(DEFAULT_POWER@),
        is_decimal(DEFAULT_ERROR@),
        is_decimal(DEFAULT_SCALE@),
{
    reveal_strlit("0.7");
    reveal_strlit("1.0");
    reveal_with_fuel(digit_run, 4);
    let p = "0.7"@;
    let e = "1.0"@;
    assert(unsigned_part(p) == p);
    assert(unsigned_part(e) == e);
    assert(digit_run(p, 0) == 1);
    assert(digit_run(p, 2) == 3);
    assert(digit_run(e, 0) == 1);
    assert(digit_run(e, 2) == 3);
}

/// Where no item at or behind `from` is malformed, each of them is a decimal
/// number.
pub proof fn lemma_no_undecimal(v: Seq<Seq<char>>, from: int)
    requires
        0 <= from <= v.len(),
    ensures
        from <= first_undecimal(v, from) <= v.len(),
        forall|i: int| from <= i < first_undecimal(v, from) ==> is_decimal(#[trigger] v[i]),
        first_undecimal(v, from) < v.len() ==> !is_decimal(v[first_undecimal(v, from)]),
    decreases v.len() - from,
{
    if from < v.len() && is_decimal(v[from]) {
        lemma_no_undecimal(v, from + 1);
    }
}

/// The error that stands for an argument set which the engine turned down.
/// `argument` and `value` are what the engine named, if it named any.
pub open spec fn refusal_error(
    kind: Refusal,
    argument: Option<Seq<char>>,
    value: Option<Seq<char>>,
) -> ConfigErrorView {
    let named = match argument {
        Some(a) => a,
        None => Seq::empty(),
    };
    let written = match value {
        Some(v) => v,
        None => Seq::empty(),
    };
    match kind {
        Refusal::DisplayHelpOnMissingArgument => ConfigErrorView::MissingArgument("meshtal"@),
        Refusal::MissingRequiredArgument => ConfigErrorView::MissingArgument(named),
        Refusal::InvalidValue
        | Refusal::ValueValidation
        | Refusal::TooManyValues
        | Refusal::TooFewValues
        | Refusal::WrongNumberOfValues => ConfigErrorView::InvalidValue(named, written),
        Refusal::UnknownArgument
        | Refusal::ArgumentConflict
        | Refusal::DisplayHelp
        | Refusal::Other => ConfigErrorView::UnrecognizedArgument(named),
    }
}

fn text_or_empty(text: Option<String>) -> (r: String)
    ensures
        r@ == match text {
            Some(t) => t@,
            None => Seq::<char>::empty(),
        },
{
    match text {
        Some(t) => t,
        None => String::new(),
    }
}

/// Turns a refusal of the engine into the error of the set.
pub fn rejection_error(kind: Refusal, argument: Option<String>, value: Option<String>) -> (e:
    ConfigError)
    ensures
        e@ == refusal_error(kind, text_of(argument), text_of(value)),
{
    match kind {
        Refusal::DisplayHelpOnMissingArgument => ConfigError::MissingArgument(
            String::from_str("meshtal"),
        ),
        Refusal::MissingRequiredArgument => ConfigError::MissingArgument(text_or_empty(argument)),
        Refusal::InvalidValue
        | Refusal::ValueValidation
        | Refusal::TooManyValues
        | Refusal::TooFewValues
        | Refusal::WrongNumberOfValues => ConfigError::InvalidValue(
            text_or_empty(argument),
            text_or_empty(value),
        ),
        Refusal::UnknownArgument
        | Refusal::ArgumentConflict
        | Refusal::DisplayHelp
        | Refusal::Other => ConfigError::UnrecognizedArgument(text_or_empty(argument)),
    }
}

/// The first value that is held for an argument, if any is.
pub open spec fn one_of(held: Map<Seq<char>, Seq<Seq<char>>>, id: Seq<char>) -> Option<Seq<char>> {
    if held.contains_key(id) && held[id].len() > 0 {
        Some(held[id][0])
    } else {
        None
    }
}

/// The values that are held for an argument; none where it was not matched.
pub open spec fn many_of(held: Map<Seq<char>, Seq<Seq<char>>>, id: Seq<char>) -> Seq<Seq<char>> {
    if held.contains_key(id) {
        held[id]
    } else {
        Seq::empty()
    }
}

/// The set that matches stand for: each value under the id of its argument,
/// and the switch for totals on where the matches hold it as on.
pub open spec fn raw_of(
    held: Map<Seq<char>, Seq<Seq<char>>>,
    switches: Map<Seq<char>, bool>,
) -> RawSetView {
    RawSetView {
        meshtal: one_of(held, "meshtal"@),
        number: one_of(held, "number"@),
        power: many_of(held, "power"@),
        error: many_of(held, "error"@),
        total: switches.contains_key("total"@) && switches["total"@],
        scale: one_of(held, "scale"@),
        output: one_of(held, "output"@),
        format: one_of(held, "format"@),
        resolution: one_of(held, "resolution"@),
        endian: one_of(held, "endian"@),
        compressor: one_of(held, "compressor"@),
    }
}

fn one_from(matches: &clap::ArgMatches, id: &str) -> (r: Option<String>)
    ensures
        text_of(r) == one_of(texts_matched(*matches), id@),
{
    matched_one(matches, id)
}

fn many_from(matches: &clap::ArgMatches, id: &str) -> (r: Vec<String>)
    ensures
        texts(r@) == many_of(texts_matched(*matches), id@),
{
    match matched_many(matches, id) {
        Some(values) => values,
        None => {
            let none: Vec<String> = Vec::new();
            assert(texts(none@) =~= Seq::<Seq<char>>::empty());
            none
        },
    }
}

/// Reads the values of one argument set out of what the engine matched.
pub fn read_set(matches: &clap::ArgMatches) -> (r: RawSet)
    ensures
        r@ == raw_of(texts_matched(*matches), switches_matched(*matches)),
{
    RawSet {
        meshtal: one_from(matches, "meshtal"),
        number: one_from(matches, "number"),
        power: many_from(matches, "power"),
        error: many_from(matches, "error"),
        total: match matched_flag(matches, "total") {
            Some(on) => on,
            None => false,
        },
        scale: one_from(matches, "scale"),
        output: one_from(matches, "output"),
        format: one_from(matches, "format"),
        resolution: one_from(matches, "resolution"),
        endian: one_from(matches, "endian"),
        compressor: one_from(matches, "compressor"),
    }
}

/// The model of what was matched in a set, or of why nothing was.
pub open spec fn match_view(r: Result<RawSet, ConfigError>) -> Result<RawSetView, ConfigErrorView> {
    match r {
        Ok(raw) => Ok(raw@),
        Err(e) => Err(e@),
    }
}

/// What matching a set of tokens under a command comes to. A set that holds
/// nothing behind the program's name misses its source path; the engine is
/// not asked. Of any other set the engine decides: what it matches is read
/// as [`raw_of`] says, and what it turns down becomes the error that
/// [`refusal_error`] gives.
pub open spec fn matched_by(command: clap::Command, tokens: Seq<Seq<char>>) -> Result<
    RawSetView,
    ConfigErrorView,
> {
    if tokens.len() <= 1 {
        Err(ConfigErrorView::MissingArgument("meshtal"@))
    } else {
        match engine_outcome(command, tokens) {
            Ok(matches) => Ok(raw_of(texts_matched(matches), switches_matched(matches))),
            Err(refusal) => Err(refusal_error(refusal.kind, refusal.argument, refusal.value)),
        }
    }
}

/// What reading a matched set comes to: the set's tally request, or the
/// reason why the set was not matched.
pub open spec fn read_outcome(matched: Result<RawSetView, ConfigErrorView>, exists: bool) -> Result<
    WWConfigView,
    ConfigErrorView,
> {
    match matched {
        Ok(raw) => tally_of(raw, exists),
        Err(e) => Err(e),
    }
}

/// The source path of a matched set, if it has one.
pub open spec fn path_of(matched: Result<RawSetView, ConfigErrorView>) -> Option<Seq<char>> {
    match matched {
        Ok(raw) => raw.meshtal,
        Err(_) => None,
    }
}

/// No set is turned down for a missing file: matching looks at no file.
pub proof fn lemma_no_match_misses_a_file(command: clap::Command, tokens: Seq<Seq<char>>)
    ensures
        matched_by(command, tokens) is Err ==> !(matched_by(command, tokens)->Err_0 is FileNotFound),
{
}

/// Matches one argument set against the command line's grammar. The engine
/// is handed the command of [`cli_init`] and the set's tokens, and the result
/// is what [`matched_by`] makes of what the engine gives for them.
pub fn match_set(arguments: &Vec<String>) -> (r: Result<RawSet, ConfigError>)
    ensures
        exists|command: clap::Command| #[trigger]
            is_cli(command) && match_view(r) == matched_by(command, texts(arguments@)),
        r matches Err(e) ==> !(e@ is FileNotFound),
{
    let command = cli_init();
    let ghost handed = command;
    if arguments.len() <= 1 {
        let e = ConfigError::MissingArgument(String::from_str("meshtal"));
        assert(is_cli(handed) && Err::<RawSetView, ConfigErrorView>(e@) == matched_by(
            handed,
            texts(arguments@),
        ));
        return Err(e);
    }
    let r = match try_matches(command, arguments) {
        Ok(matches) => Ok(read_set(&matches)),
        Err(rejection) => Err(
            rejection_error(refusal_of(rejection.kind), rejection.argument, rejection.value),
        ),
    };
    assert(is_cli(handed) && match_view(r) == matched_by(handed, texts(arguments@)));
    r
}

/// The source path that an argument set names, if the engine matched one:
/// the path of the set as [`match_set`] gives it.
pub fn source_path(arguments: &Vec<String>) -> (r: Option<String>)
    ensures
        exists|command: clap::Command| #[trigger]
            is_cli(command) && text_of(r) == path_of(matched_by(command, texts(arguments@))),
        texts(arguments@).len() <= 1 ==> r is None,
{
    let matched = match_set(arguments);
    let ghost handed = choose|command: clap::Command| #[trigger]
        is_cli(command) && match_view(matched) == matched_by(command, texts(arguments@));
    let path = match matched {
        Ok(raw) => raw.meshtal,
        Err(_) => None,
    };
    assert(is_cli(handed) && text_of(path) == path_of(matched_by(handed, texts(arguments@))));
    path
}

/// Reads one argument set into a tally request. `exists` tells whether a file
/// stands at the path that [`source_path`] gives for the set.
///
/// The outcome is what [`tally_from`] makes of what [`match_set`] gives for
/// the set. So a request that comes back is well formed, and none comes back
/// where the file is missing.
pub fn ww_set(arguments: &Vec<String>, exists: bool) -> (r: Result<WWConfig, ConfigError>)
    ensures
        exists|command: clap::Command| #[trigger]
            is_cli(command) && outcome_view(r) == read_outcome(
                matched_by(command, texts(arguments@)),
                exists,
            ),
        r matches Ok(c) ==> c@.wf() && exists,
        r matches Err(e) ==> (e@ is FileNotFound ==> !exists),
{
    let matched = match_set(arguments);
    let ghost handed = choose|command: clap::Command| #[trigger]
        is_cli(command) && match_view(matched) == matched_by(command, texts(arguments@));
    let outcome = match matched {
        Ok(raw) => tally_from(&raw, exists),
        Err(e) => Err(e),
    };
    assert(is_cli(handed) && outcome_view(outcome) == read_outcome(
        matched_by(handed, texts(arguments@)),
        exists,
    ));
    outcome
}

/// The requests among the outcomes, in order.
pub open spec fn valid_of(outcomes: Seq<Result<WWConfigView, ConfigErrorView>>) -> Seq<
    WWConfigView,
>
    decreases outcomes.len(),
{
    if outcomes.len() == 0 {
        Seq::empty()
    } else {
        match outcomes.last() {
            Ok(c) => valid_of(outcomes.drop_last()).push(c),
            Err(_) => valid_of(outcomes.drop_last()),
        }
    }
}

/// The models of a list of outcomes.
pub open spec fn outcome_views(outcomes: Seq<Result<WWConfig, ConfigError>>) -> Seq<
    Result<WWConfigView, ConfigErrorView>,
> {
    Seq::new(outcomes.len(), |i: int| outcome_view(outcomes[i]))
}

/// A copy of a request.
pub fn copy_config(c: &WWConfig) -> (r: WWConfig)
    ensures
        r@ == c@,
{
    WWConfig {
        meshtal: c.meshtal.clone(),
        number: c.number,
        power: copy_texts(&c.power),
        error: copy_texts(&c.error),
        total: c.total,
        scale: c.scale.clone(),
    }
}

/// Keeps the requests and drops the failures, in order.
pub fn keep_valid(outcomes: &Vec<Result<WWConfig, ConfigError>>) -> (r: Vec<WWConfig>)
    ensures
        config_views(r@) == valid_of(outcome_views(outcomes@)),
{
    let mut kept: Vec<WWConfig> = Vec::new();
    let mut i: usize = 0;
    assert(outcome_views(outcomes@).subrange(0, 0) =~= Seq::empty());
    assert(config_views(kept@) =~= Seq::empty());
    while i < outcomes.len()
        invariant
            i <= outcomes.len(),
            config_views(kept@) == valid_of(outcome_views(outcomes@).subrange(0, i as int)),
        decreases outcomes.len() - i,
    {
        let ghost head = outcome_views(outcomes@).subrange(0, i as int);
        let ghost next = outcome_views(outcomes@).subrange(0, i + 1);
        assert(next.drop_last() =~= head);
        assert(next.last() == outcome_view(outcomes@[i as int]));
        if let Ok(c) = &outcomes[i] {
            let ghost was = config_views(kept@);
            kept.push(copy_config(c));
            assert(config_views(kept@) =~= was.push(c@));
        }
        i += 1;
    }
    assert(outcome_views(outcomes@).subrange(0, outcomes@.len() as int) =~= outcome_views(
        outcomes@,
    ));
    kept
}

/// Whether a file counts as standing at the source path of set `i`.
pub open spec fn counts_as_there(exists: Seq<bool>, i: int) -> bool {
    0 <= i < exists.len() && exists[i]
}

/// Whether each of the commands is the command line's, one for each set.
pub open spec fn all_cli(commands: Seq<clap::Command>, sets: Seq<Seq<Seq<char>>>) -> bool {
    &&& commands.len() == sets.len()
    &&& forall|i: int| 0 <= i < commands.len() ==> is_cli(#[trigger] commands[i])
}

/// What matching every set comes to, each under its command, in order.
pub open spec fn matched_all(commands: Seq<clap::Command>, sets: Seq<Seq<Seq<char>>>) -> Seq<
    Result<RawSetView, ConfigErrorView>,
> {
    Seq::new(sets.len(), |i: int| matched_by(commands[i], sets[i]))
}

/// What reading every matched set comes to, in order.
pub open spec fn read_outcomes(
    matched: Seq<Result<RawSetView, ConfigErrorView>>,
    exists: Seq<bool>,
) -> Seq<Result<WWConfigView, ConfigErrorView>> {
    Seq::new(matched.len(), |i: int| read_outcome(matched[i], counts_as_there(exists, i)))
}

/// Reads every argument set, one outcome for each, in order. `exists[i]`
/// tells whether a file stands at the path that [`source_path`] gives for set
/// `i`; where the list is too short, the file counts as missing.
///
/// Outcome `i` is what [`ww_set`] gives for set `i`: what [`tally_from`]
/// makes of what the engine matches in that set under the command of
/// `cli_init`. So a request is well formed and its file is there, and a file
/// is reported as missing only where it counts as missing.
pub fn ww_outcomes(sets: &Vec<Vec<String>>, exists: &Vec<bool>) -> (r: Vec<
    Result<WWConfig, ConfigError>,
>)
    ensures
        exists|commands: Seq<clap::Command>| #[trigger]
            all_cli(commands, set_texts(sets@)) && outcome_views(r@) == read_outcomes(
                matched_all(commands, set_texts(sets@)),
                exists@,
            ),
        r@.len() == sets@.len(),
        forall|i: int|
            0 <= i < r@.len() && (#[trigger] r@[i]) is Ok ==> r@[i]->Ok_0@.wf() && counts_as_there(
                exists@,
                i,
            ),
        forall|i: int|
            0 <= i < r@.len() && (#[trigger] r@[i]) is Err && r@[i]->Err_0@ is FileNotFound
                ==> !counts_as_there(exists@, i),
{
    let mut outcomes: Vec<Result<WWConfig, ConfigError>> = Vec::new();
    let ghost mut commands: Seq<clap::Command> = Seq::empty();
    let mut i: usize = 0;
    while i < sets.len()
        invariant
            i <= sets.len(),
            outcomes@.len() == i,
            commands.len() == i,
            forall|k: int| 0 <= k < i ==> is_cli(#[trigger] commands[k]),
            forall|k: int|
                0 <= k < i ==> outcome_view(#[trigger] outcomes@[k]) == read_outcome(
                    matched_by(commands[k], set_texts(sets@)[k]),
                    counts_as_there(exists@, k),
                ),
            forall|k: int|
                0 <= k < outcomes@.len() && (#[trigger] outcomes@[k]) is Ok
                    ==> outcomes@[k]->Ok_0@.wf() && counts_as_there(exists@, k),
            forall|k: int|
                0 <= k < outcomes@.len() && (#[trigger] outcomes@[k]) is Err
                    && outcomes@[k]->Err_0@ is FileNotFound ==> !counts_as_there(exists@, k),
        decreases sets.len() - i,
    {
        let there = i < exists.len() && exists[i];
        let outcome = ww_set(&sets[i], there);
        proof {
            let handed = choose|command: clap::Command| #[trigger]
                is_cli(command) && outcome_view(outcome) == read_outcome(
                    matched_by(command, texts(sets@[i as int]@)),
                    there,
                );
            commands = commands.push(handed);
        }
        outcomes.push(outcome);
        i += 1;
    }
    proof {
        assert(all_cli(commands, set_texts(sets@)));
        assert(outcome_views(outcomes@) =~= read_outcomes(
            matched_all(commands, set_texts(sets@)),
            exists@,
        ));
    }
    outcomes
}

/// What stays of valid outcomes is valid, and there is no more of it than
/// there were outcomes.
pub proof fn lemma_valid_of(outcomes: Seq<Result<WWConfigView, ConfigErrorView>>)
    requires
        forall|i: int|
            0 <= i < outcomes.len() && (#[trigger] outcomes[i]) is Ok ==> outcomes[i]->Ok_0.wf(),
    ensures
        valid_of(outcomes).len() <= outcomes.len(),
        forall|k: int| 0 <= k < valid_of(outcomes).len() ==> (#[trigger] valid_of(outcomes)[k]).wf(),
    decreases outcomes.len(),
{
    if outcomes.len() > 0 {
        let head = outcomes.drop_last();
        assert forall|i: int| 0 <= i < head.len() && (#[trigger] head[i]) is Ok implies head[i]->Ok_0.wf() by {
            assert(head[i] == outcomes[i]);
        }
        lemma_valid_of(head);
        assert(outcomes.last() == outcomes[outcomes.len() - 1]);
    }
}

/// Reads every argument set and keeps the tally requests that are valid, in
/// order. A set that fails is left out and spoils no other.
///
/// The requests are those that [`tally_from`] makes of what the engine
/// matches in each set under the command of `cli_init`, and no others.
pub fn ww_config(sets: &Vec<Vec<String>>, exists: &Vec<bool>) -> (r: Vec<WWConfig>)
    ensures
        exists|commands: Seq<clap::Command>| #[trigger]
            all_cli(commands, set_texts(sets@)) && config_views(r@) == valid_of(
                read_outcomes(matched_all(commands, set_texts(sets@)), exists@),
            ),
        r@.len() <= sets@.len(),
        forall|k: int| 0 <= k < r@.len() ==> (#[trigger] r@[k])@.wf(),
{
    let outcomes = ww_outcomes(sets, exists);
    let kept = keep_valid(&outcomes);
    proof {
        let commands = choose|commands: Seq<clap::Command>| #[trigger]
            all_cli(commands, set_texts(sets@)) && outcome_views(outcomes@) == read_outcomes(
                matched_all(commands, set_texts(sets@)),
                exists@,
            );
        assert(all_cli(commands, set_texts(sets@)) && config_views(kept@) == valid_of(
            read_outcomes(matched_all(commands, set_texts(sets@)), exists@),
        ));
        assert forall|i: int|
            0 <= i < outcome_views(outcomes@).len() && (#[trigger] outcome_views(
                outcomes@,
            )[i]) is Ok implies outcome_views(outcomes@)[i]->Ok_0.wf() by {
            assert(outcomes@[i] is Ok);
        }
        lemma_valid_of(outcome_views(outcomes@));
        assert forall|k: int| 0 <= k < kept@.len() implies (#[trigger] kept@[k])@.wf() by {
            assert(config_views(kept@)[k] == kept@[k]@);
        }
        assert(config_views(kept@).len() == kept@.len());
    }
    kept
}

/// Outcomes that are all failures leave no request.
pub proof fn lemma_valid_of_failures(outcomes: Seq<Result<WWConfigView, ConfigErrorView>>)
    requires
        forall|i: int| 0 <= i < outcomes.len() ==> (#[trigger] outcomes[i]) is Err,
    ensures
        valid_of(outcomes).len() == 0,
    decreases outcomes.len(),
{
    if outcomes.len() > 0 {
        let head = outcomes.drop_last();
        assert forall|i: int| 0 <= i < head.len() implies (#[trigger] head[i]) is Err by {
            assert(head[i] == outcomes[i]);
        }
        lemma_valid_of_failures(head);
        assert(outcomes[outcomes.len() - 1] is Err);
    }
}

/// Whatever the engine matches, a set yields no request where its file is
/// missing or where it holds nothing behind the program's name: where that is
/// so of every set, no request is left.
pub proof fn lemma_no_request_without_source(
    commands: Seq<clap::Command>,
    sets: Seq<Seq<Seq<char>>>,
    exists: Seq<bool>,
)
    requires
        forall|i: int|
            0 <= i < sets.len() ==> !counts_as_there(exists, i) || (#[trigger] sets[i]).len() <= 1,
    ensures
        valid_of(read_outcomes(matched_all(commands, sets), exists)).len() == 0,
{
    let outcomes = read_outcomes(matched_all(commands, sets), exists);
    assert forall|i: int| 0 <= i < outcomes.len() implies (#[trigger] outcomes[i]) is Err by {
        assert(!counts_as_there(exists, i) || sets[i].len() <= 1);
    }
    lemma_valid_of_failures(outcomes);
}

} // verus!
