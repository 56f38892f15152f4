//! Reading a `heif-enc` command line against the declared grammar.
//!
//! A command line is a sequence of tokens, the program name already removed.
//! A token of at least two characters that starts with `-` is an option
//! occurrence; everything else is the positional input path. An option token
//! may carry its value inline after the first `=`, as in `--quality=50` or
//! `-q=50`; otherwise an option that takes a value consumes the following
//! token, whatever it looks like. Flags take no value, and the verbosity
//! flag accumulates a count over repeated occurrences, saturating at 255.
//! Bounded integer options reject, at parse time, values outside their
//! inclusive range.

use vstd::prelude::*;
use vstd::string::StrSliceExecFns;
use vstd::pervasive::unreached;
use vstd::string::StringExecFns;

use crate::schema::{init_model, model_of, Args, ArgsModel};
use crate::strutil::{
    dec_val, eq_pos, find_eq, is_dec, lemma_eq_pos_bounds, scan_value, str_eq,
};

verus! {

/// Why a command line was rejected. Every variant carries the offending
/// option or token verbatim; range violations carry the declared bounds.
#[derive(Clone, Debug, PartialEq, Eq)]
pub enum ParseError {
    InvalidNumber { option: String, value: String },
    OutOfRange { option: String, value: String, min: u64, max: u64 },
    MissingValue { option: String },
    UnexpectedValue { option: String, value: String },
    UnknownOption { token: String },
    UnexpectedArgument { token: String },
    MissingRequired { name: String },
}

/// The mathematical image of a `ParseError`.
pub ghost enum ErrModel {
    InvalidNumber { option: Seq<char>, value: Seq<char> },
    OutOfRange { option: Seq<char>, value: Seq<char>, min: u64, max: u64 },
    MissingValue { option: Seq<char> },
    UnexpectedValue { option: Seq<char>, value: Seq<char> },
    UnknownOption { token: Seq<char> },
    UnexpectedArgument { token: Seq<char> },
    MissingRequired { name: Seq<char> },
}

pub open spec fn err_model(e: ParseError) -> ErrModel {
    match e {
        ParseError::InvalidNumber { option, value } => ErrModel::InvalidNumber {
            option: option@,
            value: value@,
        },
        ParseError::OutOfRange { option, value, min, max } => ErrModel::OutOfRange {
            option: option@,
            value: value@,
            min,
            max,
        },
        ParseError::MissingValue { option } => ErrModel::MissingValue { option: option@ },
        ParseError::UnexpectedValue { option, value } => ErrModel::UnexpectedValue {
            option: option@,
            value: value@,
        },
        ParseError::UnknownOption { token } => ErrModel::UnknownOption { token: token@ },
        ParseError::UnexpectedArgument { token } => ErrModel::UnexpectedArgument { token: token@ },
        ParseError::MissingRequired { name } => ErrModel::MissingRequired { name: name@ },
    }
}

/// The tokens of a command line, as character sequences.
pub open spec fn token_views(ts: Seq<String>) -> Seq<Seq<char>> {
    ts.map_values(|t: String| t@)
}

/// An option occurrence: at least two characters, the first a dash. A lone
/// dash, like any other token, is the positional input path.
pub open spec fn is_option_token(t: Seq<char>) -> bool {
    t.len() >= 2 && t[0] == '-'
}

/// The option part of a token: everything before the first `=`, or the whole
/// token when it has none.
pub open spec fn head_of(t: Seq<char>) -> Seq<char> {
    match eq_pos(t, 0) {
        Some(p) => t.subrange(0, p),
        None => t,
    }
}

/// The inline value of a token: everything after the first `=`, if any.
pub open spec fn inline_of(t: Seq<char>) -> Option<Seq<char>> {
    match eq_pos(t, 0) {
        Some(p) => Some(t.subrange(p + 1, t.len() as int)),
        None => None,
    }
}

/// The outcome of reading one option occurrence: the updated state together
/// with whether the following token was consumed as the value, or an error.
pub ghost enum Step {
    Consume { st: ArgsModel, two: bool },
    Fail { err: ErrModel },
}

/// A flag takes no value: an inline value is an error, otherwise the updated
/// state stands.
pub open spec fn flag_step(st2: ArgsModel, head: Seq<char>, inline: Option<Seq<char>>) -> Step {
    match inline {
        Some(v) => Step::Fail { err: ErrModel::UnexpectedValue { option: head, value: v } },
        None => Step::Consume { st: st2, two: false },
    }
}

/// The value of an option that takes one: the inline value if present, else
/// the following token, else an error.
pub open spec fn value_of(
    head: Seq<char>,
    inline: Option<Seq<char>>,
    next: Option<Seq<char>>,
) -> Result<(Seq<char>, bool), ErrModel> {
    match inline {
        Some(v) => Ok((v, false)),
        None => match next {
            Some(n) => Ok((n, true)),
            None => Err(ErrModel::MissingValue { option: head }),
        },
    }
}

/// A bounded integer value: a non-empty run of digits whose value is at most
/// `max`; anything else is rejected, naming the option, the value and the
/// bounds.
pub open spec fn int_checked(head: Seq<char>, v: Seq<char>, max: u64) -> Result<u8, ErrModel> {
    if !is_dec(v) {
        Err(ErrModel::InvalidNumber { option: head, value: v })
    } else if dec_val(v) > max {
        Err(ErrModel::OutOfRange { option: head, value: v, min: 0, max })
    } else {
        Ok(dec_val(v) as u8)
    }
}

/// The value of a bounded integer option, checked against its range.
pub open spec fn checked_int_value(
    head: Seq<char>,
    inline: Option<Seq<char>>,
    next: Option<Seq<char>>,
    max: u64,
) -> Result<(u8, bool), ErrModel> {
    match value_of(head, inline, next) {
        Ok((v, two)) => match int_checked(head, v, max) {
            Ok(n) => Ok((n, two)),
            Err(e) => Err(e),
        },
        Err(e) => Err(e),
    }
}

/// One more occurrence of the verbosity flag, saturating at 255.
pub open spec fn sat_inc(v: u8) -> u8 {
    if v < 255 {
        (v + 1) as u8
    } else {
        255u8
    }
}

/// Which declared option a token's head names.
#[derive(Clone, Copy, PartialEq, Eq, Structural, Debug)]
pub enum OptId {
    Help,
    Quality,
    Lossless,
    Thumb,
    NoAlpha,
    NoThumbAlpha,
    Verbose,
    Params,
    BitDepth,
    EncoderParam,
    Avif,
    ListEncoders,
    Encoder,
    PluginDirectory,
    EvenSize,
    MatrixCoefficients,
    ColourPrimaries,
    TransferCharacteristic,
    FullRangeFlag,
    EnableTwoColrBoxes,
    PremultipliedAlpha,
    EnableMetadataCompression,
    Benchmark,
    Output,
    Unknown,
}

/// Which declared option the head of a token names, if any.
pub open spec fn classify(head: Seq<char>) -> OptId {
    if head == "-h"@ || head == "--help"@ {
        OptId::Help
    } else if head == "-q"@ || head == "--quality"@ {
        OptId::Quality
    } else if head == "-L"@ || head == "--lossless"@ {
        OptId::Lossless
    } else if head == "-t"@ || head == "--thumb"@ {
        OptId::Thumb
    } else if head == "--no-alpha"@ {
        OptId::NoAlpha
    } else if head == "--no-thumb-alpha"@ {
        OptId::NoThumbAlpha
    } else if head == "-v"@ || head == "--verbose"@ {
        OptId::Verbose
    } else if head == "-P"@ || head == "--params"@ {
        OptId::Params
    } else if head == "-b"@ || head == "--bit_depth"@ {
        OptId::BitDepth
    } else if head == "-p"@ {
        OptId::EncoderParam
    } else if head == "-A"@ || head == "--avif"@ {
        OptId::Avif
    } else if head == "--list-encoders"@ {
        OptId::ListEncoders
    } else if head == "-e"@ || head == "--encoder"@ {
        OptId::Encoder
    } else if head == "--plugin-directory"@ {
        OptId::PluginDirectory
    } else if head == "-E"@ || head == "--even-size"@ {
        OptId::EvenSize
    } else if head == "--matrix_coefficients"@ {
        OptId::MatrixCoefficients
    } else if head == "--colour_primaries"@ {
        OptId::ColourPrimaries
    } else if head == "--transfer_characteristic"@ {
        OptId::TransferCharacteristic
    } else if head == "--full_range_flag"@ {
        OptId::FullRangeFlag
    } else if head == "--enable-two-colr-boxes"@ {
        OptId::EnableTwoColrBoxes
    } else if head == "--premultiplied-alpha"@ {
        OptId::PremultipliedAlpha
    } else if head == "--enable-metadata-compression"@ {
        OptId::EnableMetadataCompression
    } else if head == "--benchmark"@ {
        OptId::Benchmark
    } else if head == "-o"@ || head == "--output"@ {
        OptId::Output
    } else {
        OptId::Unknown
    }
}

/// Reads one option occurrence `t` with `next` as the following token, if
/// any, against the declared option table.
pub open spec fn step_option(t: Seq<char>, next: Option<Seq<char>>, st: ArgsModel) -> Step {
    let head = head_of(t);
    let inline = inline_of(t);
    match classify(head) {
        OptId::Help => flag_step(ArgsModel { help: true, ..st }, head, inline),
        OptId::Quality => match checked_int_value(head, inline, next, 100) {
            Ok((n, two)) => Step::Consume { st: ArgsModel { quality: n, ..st }, two },
            Err(e) => Step::Fail { err: e },
        },
        OptId::Lossless => flag_step(ArgsModel { lossless: true, ..st }, head, inline),
        OptId::Thumb => flag_step(ArgsModel { thumb: true, ..st }, head, inline),
        OptId::NoAlpha => flag_step(ArgsModel { no_alpha: true, ..st }, head, inline),
        OptId::NoThumbAlpha => flag_step(ArgsModel { no_thumb_alpha: true, ..st }, head, inline),
        OptId::Verbose => flag_step(ArgsModel { verbose: sat_inc(st.verbose), ..st }, head, inline),
        OptId::Params => flag_step(ArgsModel { params: true, ..st }, head, inline),
        OptId::BitDepth => match checked_int_value(head, inline, next, 16) {
            Ok((n, two)) => Step::Consume { st: ArgsModel { bit_depth: n, ..st }, two },
            Err(e) => Step::Fail { err: e },
        },
        OptId::EncoderParam => match value_of(head, inline, next) {
            Ok((v, two)) => Step::Consume { st: ArgsModel { encoder_param: v, ..st }, two },
            Err(e) => Step::Fail { err: e },
        },
        OptId::Avif => flag_step(ArgsModel { avif: true, ..st }, head, inline),
        OptId::ListEncoders => flag_step(ArgsModel { list_encoders: true, ..st }, head, inline),
        OptId::Encoder => match checked_int_value(head, inline, next, 255) {
            Ok((n, two)) => Step::Consume { st: ArgsModel { encoder: n, ..st }, two },
            Err(e) => Step::Fail { err: e },
        },
        OptId::PluginDirectory => match value_of(head, inline, next) {
            Ok((v, two)) => Step::Consume { st: ArgsModel { plugin_directory: v, ..st }, two },
            Err(e) => Step::Fail { err: e },
        },
        OptId::EvenSize => flag_step(ArgsModel { even_size: true, ..st }, head, inline),
        OptId::MatrixCoefficients => match checked_int_value(head, inline, next, 255) {
            Ok((n, two)) => Step::Consume { st: ArgsModel { matrix_coefficients: n, ..st }, two },
            Err(e) => Step::Fail { err: e },
        },
        OptId::ColourPrimaries => match value_of(head, inline, next) {
            Ok((v, two)) => Step::Consume { st: ArgsModel { colour_primaries: v, ..st }, two },
            Err(e) => Step::Fail { err: e },
        },
        OptId::TransferCharacteristic => match value_of(head, inline, next) {
            Ok((v, two)) => Step::Consume { st: ArgsModel { transfer_characteristic: v, ..st }, two },
            Err(e) => Step::Fail { err: e },
        },
        OptId::FullRangeFlag => match value_of(head, inline, next) {
            Ok((v, two)) => Step::Consume { st: ArgsModel { full_range_flag: v, ..st }, two },
            Err(e) => Step::Fail { err: e },
        },
        OptId::EnableTwoColrBoxes => flag_step(ArgsModel { enable_two_colr_boxes: true, ..st }, head, inline),
        OptId::PremultipliedAlpha => match value_of(head, inline, next) {
            Ok((v, two)) => Step::Consume { st: ArgsModel { premultiplied_alpha: v, ..st }, two },
            Err(e) => Step::Fail { err: e },
        },
        OptId::EnableMetadataCompression => flag_step(ArgsModel { enable_metadata_compression: true, ..st }, head, inline),
        OptId::Benchmark => flag_step(ArgsModel { benchmark: true, ..st }, head, inline),
        OptId::Output => match value_of(head, inline, next) {
            Ok((v, two)) => Step::Consume { st: ArgsModel { output: Some(v), ..st }, two },
            Err(e) => Step::Fail { err: e },
        },
        OptId::Unknown => Step::Fail { err: ErrModel::UnknownOption { token: t } },
    }
}

/// Reads the tokens from position `i` on, starting from state `st`: the
/// meaning of a whole command line is `spec_parse(toks, 0, init_model())`.
/// Parsing succeeds exactly when every option occurrence is declared, every
/// value is admissible, and the required input path appears exactly once.
pub open spec fn spec_parse(toks: Seq<Seq<char>>, i: int, st: ArgsModel) -> Result<
    ArgsModel,
    ErrModel,
>
    decreases toks.len() - i,
{
    if i < 0 || i >= toks.len() {
        if st.input is Some {
            Ok(st)
        } else {
            Err(ErrModel::MissingRequired { name: "INPUT_FILE"@ })
        }
    } else {
        let t = toks[i];
        if !is_option_token(t) {
            if st.input is Some {
                Err(ErrModel::UnexpectedArgument { token: t })
            } else {
                spec_parse(toks, i + 1, ArgsModel { input: Some(t), ..st })
            }
        } else {
            let next = if i + 1 < toks.len() {
                Some(toks[i + 1])
            } else {
                None
            };
            match step_option(t, next, st) {
                Step::Fail { err } => Err(err),
                Step::Consume { st: st2, two } => spec_parse(
                    toks,
                    if two && i + 2 <= toks.len() {
                        i + 2
                    } else {
                        i + 1
                    },
                    st2,
                ),
            }
        }
    }
}

/// The executable result agrees with the mathematical one.
pub open spec fn parse_result_matches(
    r: Result<Args, ParseError>,
    m: Result<ArgsModel, ErrModel>,
) -> bool {
    match r {
        Ok(a) => m == Ok::<ArgsModel, ErrModel>(model_of(a, true)),
        Err(e) => m == Err::<ArgsModel, ErrModel>(err_model(e)),
    }
}

/// The view of an optional owned token.
pub open spec fn opt_view(o: Option<String>) -> Option<Seq<char>> {
    match o {
        Some(s) => Some(s@),
        None => None,
    }
}

/// The token after position `i`, if any.
pub open spec fn next_view(ts: Seq<String>, i: int) -> Option<Seq<char>> {
    if i + 1 < ts.len() {
        Some(ts[i + 1]@)
    } else {
        None
    }
}

fn is_option_tok(t: &str) -> (r: bool)
    ensures
        r == is_option_token(t@),
{
    let n = t.unicode_len();
    if n < 2 {
        false
    } else {
        t.get_char(0) == '-'
    }
}

fn split_eq(t: &String) -> (r: (String, Option<String>))
    ensures
        r.0@ == head_of(t@),
        opt_view(r.1) == inline_of(t@),
{
    let s = t.as_str();
    match find_eq(s) {
        Some(p) => {
            proof {
                lemma_eq_pos_bounds(t@, 0, p as int);
            }
            let n = s.unicode_len();
            let h = s.substring_char(0, p).to_owned();
            let v = s.substring_char(p + 1, n).to_owned();
            (h, Some(v))
        },
        None => (t.clone(), None),
    }
}

/// Which declared option the head of a token names, executably.
#[verifier::rlimit(100)]
fn classify_head(head: &str) -> (r: OptId)
    ensures
        r == classify(head@),
{
    if str_eq(head, "-h") || str_eq(head, "--help") {
        OptId::Help
    } else if str_eq(head, "-q") || str_eq(head, "--quality") {
        OptId::Quality
    } else if str_eq(head, "-L") || str_eq(head, "--lossless") {
        OptId::Lossless
    } else if str_eq(head, "-t") || str_eq(head, "--thumb") {
        OptId::Thumb
    } else if str_eq(head, "--no-alpha") {
        OptId::NoAlpha
    } else if str_eq(head, "--no-thumb-alpha") {
        OptId::NoThumbAlpha
    } else if str_eq(head, "-v") || str_eq(head, "--verbose") {
        OptId::Verbose
    } else if str_eq(head, "-P") || str_eq(head, "--params") {
        OptId::Params
    } else if str_eq(head, "-b") || str_eq(head, "--bit_depth") {
        OptId::BitDepth
    } else if str_eq(head, "-p") {
        OptId::EncoderParam
    } else if str_eq(head, "-A") || str_eq(head, "--avif") {
        OptId::Avif
    } else if str_eq(head, "--list-encoders") {
        OptId::ListEncoders
    } else if str_eq(head, "-e") || str_eq(head, "--encoder") {
        OptId::Encoder
    } else if str_eq(head, "--plugin-directory") {
        OptId::PluginDirectory
    } else if str_eq(head, "-E") || str_eq(head, "--even-size") {
        OptId::EvenSize
    } else if str_eq(head, "--matrix_coefficients") {
        OptId::MatrixCoefficients
    } else if str_eq(head, "--colour_primaries") {
        OptId::ColourPrimaries
    } else if str_eq(head, "--transfer_characteristic") {
        OptId::TransferCharacteristic
    } else if str_eq(head, "--full_range_flag") {
        OptId::FullRangeFlag
    } else if str_eq(head, "--enable-two-colr-boxes") {
        OptId::EnableTwoColrBoxes
    } else if str_eq(head, "--premultiplied-alpha") {
        OptId::PremultipliedAlpha
    } else if str_eq(head, "--enable-metadata-compression") {
        OptId::EnableMetadataCompression
    } else if str_eq(head, "--benchmark") {
        OptId::Benchmark
    } else if str_eq(head, "-o") || str_eq(head, "--output") {
        OptId::Output
    } else {
        OptId::Unknown
    }
}

fn take_value(head: &String, inline: Option<String>, args: &Vec<String>, i: usize) -> (r: Result<
    (String, bool),
    ParseError,
>)
    requires
        i < args@.len(),
    ensures
        match r {
            Ok(p) => value_of(head@, opt_view(inline), next_view(args@, i as int)) == Ok::<
                (Seq<char>, bool),
                ErrModel,
            >((p.0@, p.1)),
            Err(e) => value_of(head@, opt_view(inline), next_view(args@, i as int)) == Err::<
                (Seq<char>, bool),
                ErrModel,
            >(err_model(e)),
        },
{
    let n = args.len();
    match inline {
        Some(v) => Ok((v, false)),
        None => {
            if i + 1 < n {
                Ok((args[i + 1].clone(), true))
            } else {
                Err(ParseError::MissingValue { option: head.clone() })
            }
        },
    }
}

fn take_int(head: &String, inline: Option<String>, args: &Vec<String>, i: usize, max: u64) -> (r:
    Result<(u8, bool), ParseError>)
    requires
        i < args@.len(),
        max <= 255,
    ensures
        match r {
            Ok(p) => checked_int_value(head@, opt_view(inline), next_view(args@, i as int), max)
                == Ok::<(u8, bool), ErrModel>((p.0, p.1)),
            Err(e) => checked_int_value(head@, opt_view(inline), next_view(args@, i as int), max)
                == Err::<(u8, bool), ErrModel>(err_model(e)),
        },
{
    match take_value(head, inline, args, i) {
        Err(e) => Err(e),
        Ok((v, two)) => match scan_value(v.as_str()) {
            None => Err(ParseError::InvalidNumber { option: head.clone(), value: v }),
            Some(x) => {
                if x > max {
                    Err(ParseError::OutOfRange { option: head.clone(), value: v, min: 0, max })
                } else {
                    Ok((x as u8, two))
                }
            },
        },
    }
}

/// The outcome of reading one option occurrence, executably.
enum TakenStep {
    Consume { st: Args, two: bool },
    Fail { err: ParseError },
}

/// Reads one occurrence of a flag, which takes no value.
#[verifier::rlimit(100)]
fn read_flag(
    id: OptId,
    t: &String,
    head: String,
    inline: Option<String>,
    args: &Vec<String>,
    i: usize,
    st: Args,
    seen_input: bool,
) -> (r: TakenStep)
    requires
        i < args@.len(),
        head@ == head_of(t@),
        opt_view(inline) == inline_of(t@),
        classify(head_of(t@)) == id,
        id is Help || id is Lossless || id is Thumb || id is NoAlpha || id is NoThumbAlpha || id is Verbose || id is Params || id is Avif || id is ListEncoders || id is EvenSize || id is EnableTwoColrBoxes || id is EnableMetadataCompression || id is Benchmark,
    ensures
        match r {
            TakenStep::Consume { st: st2, two } => {
                &&& step_option(t@, next_view(args@, i as int), model_of(st, seen_input))
                    == Step::Consume { st: model_of(st2, seen_input), two }
                &&& (two ==> i + 1 < args@.len())
            },
            TakenStep::Fail { err } => step_option(
                t@,
                next_view(args@, i as int),
                model_of(st, seen_input),
            ) == Step::Fail { err: err_model(err) },
        },
{
    match id {
        OptId::Help => match inline {
            Some(v) => TakenStep::Fail {
                err: ParseError::UnexpectedValue { option: head, value: v },
            },
            None => {
                let mut st2 = st;
                st2.help = true;
                TakenStep::Consume { st: st2, two: false }
            },
        },
        OptId::Lossless => match inline {
            Some(v) => TakenStep::Fail {
                err: ParseError::UnexpectedValue { option: head, value: v },
            },
            None => {
                let mut st2 = st;
                st2.lossless = true;
                TakenStep::Consume { st: st2, two: false }
            },
        },
        OptId::Thumb => match inline {
            Some(v) => TakenStep::Fail {
                err: ParseError::UnexpectedValue { option: head, value: v },
            },
            None => {
                let mut st2 = st;
                st2.thumb = true;
                TakenStep::Consume { st: st2, two: false }
            },
        },
        OptId::NoAlpha => match inline {
            Some(v) => TakenStep::Fail {
                err: ParseError::UnexpectedValue { option: head, value: v },
            },
            None => {
                let mut st2 = st;
                st2.no_alpha = true;
                TakenStep::Consume { st: st2, two: false }
            },
        },
        OptId::NoThumbAlpha => match inline {
            Some(v) => TakenStep::Fail {
                err: ParseError::UnexpectedValue { option: head, value: v },
            },
            None => {
                let mut st2 = st;
                st2.no_thumb_alpha = true;
                TakenStep::Consume { st: st2, two: false }
            },
        },
        OptId::Verbose => match inline {
            Some(v) => TakenStep::Fail {
                err: ParseError::UnexpectedValue { option: head, value: v },
            },
            None => {
                let mut st2 = st;
                st2.verbose = if st2.verbose < 255 {
                    st2.verbose + 1
                } else {
                    255
                };
                TakenStep::Consume { st: st2, two: false }
            },
        },
        OptId::Params => match inline {
            Some(v) => TakenStep::Fail {
                err: ParseError::UnexpectedValue { option: head, value: v },
            },
            None => {
                let mut st2 = st;
                st2.params = true;
                TakenStep::Consume { st: st2, two: false }
            },
        },
        _ => read_flag_more(id, t, head, inline, args, i, st, seen_input),
    }
}

/// Reads one occurrence of a flag from the later part of the option table.
#[verifier::rlimit(100)]
fn read_flag_more(
    id: OptId,
    t: &String,
    head: String,
    inline: Option<String>,
    args: &Vec<String>,
    i: usize,
    st: Args,
    seen_input: bool,
) -> (r: TakenStep)
    requires
        i < args@.len(),
        head@ == head_of(t@),
        opt_view(inline) == inline_of(t@),
        classify(head_of(t@)) == id,
        id is Avif || id is ListEncoders || id is EvenSize || id is EnableTwoColrBoxes || id is EnableMetadataCompression || id is Benchmark,
    ensures
        match r {
            TakenStep::Consume { st: st2, two } => {
                &&& step_option(t@, next_view(args@, i as int), model_of(st, seen_input))
                    == Step::Consume { st: model_of(st2, seen_input), two }
                &&& (two ==> i + 1 < args@.len())
            },
            TakenStep::Fail { err } => step_option(
                t@,
                next_view(args@, i as int),
                model_of(st, seen_input),
            ) == Step::Fail { err: err_model(err) },
        },
{
    match id {
        OptId::Avif => match inline {
            Some(v) => TakenStep::Fail {
                err: ParseError::UnexpectedValue { option: head, value: v },
            },
            None => {
                let mut st2 = st;
                st2.avif = true;
                TakenStep::Consume { st: st2, two: false }
            },
        },
        OptId::ListEncoders => match inline {
            Some(v) => TakenStep::Fail {
                err: ParseError::UnexpectedValue { option: head, value: v },
            },
            None => {
                let mut st2 = st;
                st2.list_encoders = true;
                TakenStep::Consume { st: st2, two: false }
            },
        },
        OptId::EvenSize => match inline {
            Some(v) => TakenStep::Fail {
                err: ParseError::UnexpectedValue { option: head, value: v },
            },
            None => {
                let mut st2 = st;
                st2.even_size = true;
                TakenStep::Consume { st: st2, two: false }
            },
        },
        OptId::EnableTwoColrBoxes => match inline {
            Some(v) => TakenStep::Fail {
                err: ParseError::UnexpectedValue { option: head, value: v },
            },
            None => {
                let mut st2 = st;
                st2.enable_two_colr_boxes = true;
                TakenStep::Consume { st: st2, two: false }
            },
        },
        OptId::EnableMetadataCompression => match inline {
            Some(v) => TakenStep::Fail {
                err: ParseError::UnexpectedValue { option: head, value: v },
            },
            None => {
                let mut st2 = st;
                st2.enable_metadata_compression = true;
                TakenStep::Consume { st: st2, two: false }
            },
        },
        OptId::Benchmark => match inline {
            Some(v) => TakenStep::Fail {
                err: ParseError::UnexpectedValue { option: head, value: v },
            },
            None => {
                let mut st2 = st;
                st2.benchmark = true;
                TakenStep::Consume { st: st2, two: false }
            },
        },
        _ => unreached(),
    }
}

/// Reads one occurrence of an option that takes a value.
#[verifier::rlimit(100)]
fn read_valued(
    id: OptId,
    t: &String,
    head: String,
    inline: Option<String>,
    args: &Vec<String>,
    i: usize,
    st: Args,
    seen_input: bool,
) -> (r: TakenStep)
    requires
        i < args@.len(),
        head@ == head_of(t@),
        opt_view(inline) == inline_of(t@),
        classify(head_of(t@)) == id,
        id is Quality || id is BitDepth || id is EncoderParam || id is Encoder || id is PluginDirectory || id is MatrixCoefficients || id is ColourPrimaries || id is TransferCharacteristic || id is FullRangeFlag || id is PremultipliedAlpha || id is Output,
    ensures
        match r {
            TakenStep::Consume { st: st2, two } => {
                &&& step_option(t@, next_view(args@, i as int), model_of(st, seen_input))
                    == Step::Consume { st: model_of(st2, seen_input), two }
                &&& (two ==> i + 1 < args@.len())
            },
            TakenStep::Fail { err } => step_option(
                t@,
                next_view(args@, i as int),
                model_of(st, seen_input),
            ) == Step::Fail { err: err_model(err) },
        },
{
    match id {
        OptId::Quality => match take_int(&head, inline, args, i, 100) {
            Ok((n, two)) => {
                let mut st2 = st;
                st2.quality = n;
                TakenStep::Consume { st: st2, two }
            },
            Err(e) => TakenStep::Fail { err: e },
        },
        OptId::BitDepth => match take_int(&head, inline, args, i, 16) {
            Ok((n, two)) => {
                let mut st2 = st;
                st2.bit_depth = n;
                TakenStep::Consume { st: st2, two }
            },
            Err(e) => TakenStep::Fail { err: e },
        },
        OptId::EncoderParam => match take_value(&head, inline, args, i) {
            Ok((v, two)) => {
                let mut st2 = st;
                st2.encoder_param = v;
                TakenStep::Consume { st: st2, two }
            },
            Err(e) => TakenStep::Fail { err: e },
        },
        OptId::Encoder => match take_int(&head, inline, args, i, 255) {
            Ok((n, two)) => {
                let mut st2 = st;
                st2.encoder = n;
                TakenStep::Consume { st: st2, two }
            },
            Err(e) => TakenStep::Fail { err: e },
        },
        OptId::PluginDirectory => match take_value(&head, inline, args, i) {
            Ok((v, two)) => {
                let mut st2 = st;
                st2.plugin_directory = v;
                TakenStep::Consume { st: st2, two }
            },
            Err(e) => TakenStep::Fail { err: e },
        },
        OptId::MatrixCoefficients => match take_int(&head, inline, args, i, 255) {
            Ok((n, two)) => {
                let mut st2 = st;
                st2.matrix_coefficients = n;
                TakenStep::Consume { st: st2, two }
            },
            Err(e) => TakenStep::Fail { err: e },
        },
        OptId::ColourPrimaries => match take_value(&head, inline, args, i) {
            Ok((v, two)) => {
                let mut st2 = st;
                st2.colour_primaries = v;
                TakenStep::Consume { st: st2, two }
            },
            Err(e) => TakenStep::Fail { err: e },
        },
        OptId::TransferCharacteristic => match take_value(&head, inline, args, i) {
            Ok((v, two)) => {
                let mut st2 = st;
                st2.transfer_characteristic = v;
                TakenStep::Consume { st: st2, two }
            },
            Err(e) => TakenStep::Fail { err: e },
        },
        OptId::FullRangeFlag => match take_value(&head, inline, args, i) {
            Ok((v, two)) => {
                let mut st2 = st;
                st2.full_range_flag = v;
                TakenStep::Consume { st: st2, two }
            },
            Err(e) => TakenStep::Fail { err: e },
        },
        OptId::PremultipliedAlpha => match take_value(&head, inline, args, i) {
            Ok((v, two)) => {
                let mut st2 = st;
                st2.premultiplied_alpha = v;
                TakenStep::Consume { st: st2, two }
            },
            Err(e) => TakenStep::Fail { err: e },
        },
        OptId::Output => match take_value(&head, inline, args, i) {
            Ok((v, two)) => {
                let mut st2 = st;
                st2.output = Some(v);
                TakenStep::Consume { st: st2, two }
            },
            Err(e) => TakenStep::Fail { err: e },
        },
        _ => unreached(),
    }
}

/// Reads the option occurrence at position `i` against the declared option
/// table, mirroring `step_option`.
#[verifier::rlimit(100)]
fn read_option(t: &String, args: &Vec<String>, i: usize, st: Args, seen_input: bool) -> (r:
    TakenStep)
    requires
        i < args@.len(),
        t@ == token_views(args@)[i as int],
    ensures
        match r {
            TakenStep::Consume { st: st2, two } => {
                &&& step_option(t@, next_view(args@, i as int), model_of(st, seen_input))
                    == Step::Consume { st: model_of(st2, seen_input), two }
                &&& (two ==> i + 1 < args@.len())
            },
            TakenStep::Fail { err } => step_option(
                t@,
                next_view(args@, i as int),
                model_of(st, seen_input),
            ) == Step::Fail { err: err_model(err) },
        },
{
    let (head, inline) = split_eq(t);
    let id = classify_head(head.as_str());
    match id {
        OptId::Help | OptId::Lossless | OptId::Thumb | OptId::NoAlpha | OptId::NoThumbAlpha | OptId::Verbose | OptId::Params | OptId::Avif | OptId::ListEncoders | OptId::EvenSize | OptId::EnableTwoColrBoxes | OptId::EnableMetadataCompression | OptId::Benchmark => read_flag(
            id,
            t,
            head,
            inline,
            args,
            i,
            st,
            seen_input,
        ),
        OptId::Quality | OptId::BitDepth | OptId::EncoderParam | OptId::Encoder | OptId::PluginDirectory | OptId::MatrixCoefficients | OptId::ColourPrimaries | OptId::TransferCharacteristic | OptId::FullRangeFlag | OptId::PremultipliedAlpha | OptId::Output => read_valued(
            id,
            t,
            head,
            inline,
            args,
            i,
            st,
            seen_input,
        ),
        OptId::Unknown => TakenStep::Fail { err: ParseError::UnknownOption { token: t.clone() } },
    }
}

/// Reads the tokens from position `i` on, starting from the partial result
/// `st`; `seen_input` says whether the positional input path has already
/// been taken.
#[verifier::rlimit(100)]
fn parse_from(args: &Vec<String>, i: usize, st: Args, seen_input: bool) -> (r: Result<
    Args,
    ParseError,
>)
    requires
        i <= args@.len(),
    ensures
        parse_result_matches(r, spec_parse(token_views(args@), i as int, model_of(st, seen_input))),
    decreases args@.len() - i,
{
    if i >= args.len() {
        if seen_input {
            Ok(st)
        } else {
            Err(ParseError::MissingRequired { name: "INPUT_FILE".to_owned() })
        }
    } else {
        let t = &args[i];
        proof {
            assert(token_views(args@)[i as int] == t@);
        }
        if !is_option_tok(t.as_str()) {
            if seen_input {
                Err(ParseError::UnexpectedArgument { token: t.clone() })
            } else {
                let mut st2 = st;
                st2.input = t.clone();
                parse_from(args, i + 1, st2, true)
            }
        } else {
            proof {
                assert(next_view(args@, i as int) == (if i + 1 < token_views(args@).len() {
                    Some(token_views(args@)[i as int + 1])
                } else {
                    None::<Seq<char>>
                }));
            }
            match read_option(t, args, i, st, seen_input) {
                TakenStep::Fail { err } => Err(err),
                TakenStep::Consume { st: st2, two } => {
                    if two {
                        parse_from(args, i + 2, st2, seen_input)
                    } else {
                        parse_from(args, i + 1, st2, seen_input)
                    }
                },
            }
        }
    }
}

/// Reads a whole command line, the program name already removed, into an
/// `Args` value, or reports the first offense. The result is exactly the
/// mathematical reading of the tokens from the default state.
pub fn parse_args(args: &Vec<String>) -> (r: Result<Args, ParseError>)
    ensures
        parse_result_matches(r, spec_parse(token_views(args@), 0, init_model())),
{
    let st = Args::default();
    parse_from(args, 0, st, false)
}

/// Ground facts about the option tokens the law lemmas mention.
proof fn lemma_classify_facts()
    ensures
        classify("--quality"@) == OptId::Quality,
        classify("--bit_depth"@) == OptId::BitDepth,
        classify("-v"@) == OptId::Verbose,
        eq_pos("--quality"@, 0) == None::<int>,
        eq_pos("--bit_depth"@, 0) == None::<int>,
        eq_pos("-v"@, 0) == None::<int>,
        is_option_token("--quality"@),
        is_option_token("--bit_depth"@),
        is_option_token("-v"@),
{
    reveal_strlit("-h");
    reveal_strlit("--help");
    reveal_strlit("-q");
    reveal_strlit("--quality");
    reveal_strlit("-L");
    reveal_strlit("--lossless");
    reveal_strlit("-t");
    reveal_strlit("--thumb");
    reveal_strlit("--no-alpha");
    reveal_strlit("--no-thumb-alpha");
    reveal_strlit("-v");
    reveal_strlit("--verbose");
    reveal_strlit("-P");
    reveal_strlit("--params");
    reveal_strlit("-b");
    reveal_strlit("--bit_depth");
    assert("-h"@.len() == 2);
    assert("--help"@.len() == 6);
    assert("-q"@.len() == 2);
    assert("--quality"@.len() == 9);
    assert("-L"@.len() == 2);
    assert("--lossless"@.len() == 10);
    assert("-t"@.len() == 2);
    assert("--thumb"@.len() == 7);
    assert("--no-alpha"@.len() == 10);
    assert("--no-thumb-alpha"@.len() == 16);
    assert("-v"@.len() == 2);
    assert("--verbose"@.len() == 9);
    assert("-P"@.len() == 2);
    assert("--params"@.len() == 8);
    assert("-b"@.len() == 2);
    assert("--bit_depth"@.len() == 11);
    assert("-v"@[1] != "-h"@[1]);
    assert("-v"@[1] != "-q"@[1]);
    assert("-v"@[1] != "-L"@[1]);
    assert("-v"@[1] != "-t"@[1]);
    assert("--quality"@[0] == '-');
    assert("--bit_depth"@[0] == '-');
    assert("-v"@[0] == '-');
    reveal_with_fuel(eq_pos, 13);
    assert(eq_pos("--quality"@, 0) == None::<int>);
    assert(eq_pos("--bit_depth"@, 0) == None::<int>);
    assert(eq_pos("-v"@, 0) == None::<int>);
}

/// Every decimal value within the declared quality range parses to exactly
/// that value; every decimal value above it is rejected with a range error
/// carrying the declared bounds.
pub proof fn lemma_quality_range(v: Seq<char>, inp: Seq<char>)
    requires
        is_dec(v),
        !is_option_token(inp),
    ensures
        dec_val(v) <= 100 ==> spec_parse(seq!["--quality"@, v, inp], 0, init_model()) == Ok::<
            ArgsModel,
            ErrModel,
        >(ArgsModel { quality: dec_val(v) as u8, input: Some(inp), ..init_model() }),
        dec_val(v) > 100 ==> spec_parse(seq!["--quality"@, v, inp], 0, init_model()) == Err::<
            ArgsModel,
            ErrModel,
        >(ErrModel::OutOfRange { option: "--quality"@, value: v, min: 0, max: 100 }),
{
    lemma_classify_facts();
    reveal_with_fuel(spec_parse, 4);
    let toks = seq!["--quality"@, v, inp];
    assert(toks.len() == 3);
    assert(toks[0] == "--quality"@);
    assert(toks[1] == v);
    assert(toks[2] == inp);
}

/// Every decimal value within the declared bit-depth range parses to exactly
/// that value; every decimal value above it is rejected with a range error
/// carrying the declared bounds.
pub proof fn lemma_bit_depth_range(v: Seq<char>, inp: Seq<char>)
    requires
        is_dec(v),
        !is_option_token(inp),
    ensures
        dec_val(v) <= 16 ==> spec_parse(seq!["--bit_depth"@, v, inp], 0, init_model()) == Ok::<
            ArgsModel,
            ErrModel,
        >(ArgsModel { bit_depth: dec_val(v) as u8, input: Some(inp), ..init_model() }),
        dec_val(v) > 16 ==> spec_parse(seq!["--bit_depth"@, v, inp], 0, init_model()) == Err::<
            ArgsModel,
            ErrModel,
        >(ErrModel::OutOfRange { option: "--bit_depth"@, value: v, min: 0, max: 16 }),
{
    lemma_classify_facts();
    reveal_with_fuel(spec_parse, 4);
    let toks = seq!["--bit_depth"@, v, inp];
    assert(toks.len() == 3);
    assert(toks[0] == "--bit_depth"@);
    assert(toks[1] == v);
    assert(toks[2] == inp);
}

/// An empty command line is rejected for want of the required input path;
/// a single non-option token parses, and is stored verbatim as the input
/// path with every option at its default.
pub proof fn lemma_input_required(inp: Seq<char>)
    requires
        !is_option_token(inp),
    ensures
        spec_parse(Seq::<Seq<char>>::empty(), 0, init_model()) == Err::<ArgsModel, ErrModel>(
            ErrModel::MissingRequired { name: "INPUT_FILE"@ },
        ),
        spec_parse(seq![inp], 0, init_model()) == Ok::<ArgsModel, ErrModel>(
            ArgsModel { input: Some(inp), ..init_model() },
        ),
{
    reveal_with_fuel(spec_parse, 3);
    let toks = seq![inp];
    assert(toks.len() == 1);
    assert(toks[0] == inp);
}

/// The verbosity flag accumulates a count rather than a boolean: supplied
/// twice, it parses to a count of two.
pub proof fn lemma_verbose_accumulates(inp: Seq<char>)
    requires
        !is_option_token(inp),
    ensures
        spec_parse(seq!["-v"@, "-v"@, inp], 0, init_model()) == Ok::<ArgsModel, ErrModel>(
            ArgsModel { verbose: 2, input: Some(inp), ..init_model() },
        ),
{
    lemma_classify_facts();
    reveal_with_fuel(spec_parse, 5);
    let toks = seq!["-v"@, "-v"@, inp];
    assert(toks.len() == 3);
    assert(toks[0] == "-v"@);
    assert(toks[1] == "-v"@);
    assert(toks[2] == inp);
}

} // verus!
