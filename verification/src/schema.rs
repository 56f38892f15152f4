//! The declared command-line surface of the `heif-enc` encoder: the
//! descriptor of the command with every flag and option it accepts, and the
//! `Args` value such a command line parses to.

use vstd::prelude::*;

verus! {

/// How many values an option consumes: none (a flag), exactly one, or none
/// while counting repeated occurrences.
#[derive(Clone, Copy, PartialEq, Eq, Structural, Debug)]
pub enum Arity {
    Flag,
    Single,
    Counted,
}

/// What an option's value means. Bounded integers are validated at parse
/// time against the inclusive range; path domains are completion hints only
/// and no existence check is made at parse time.
#[derive(Clone, Copy, PartialEq, Eq, Structural, Debug)]
pub enum ValueDomain {
    NoValue,
    FreeString,
    IntRange { min: u64, max: u64 },
    FilePath,
    DirPath,
}

/// One declared flag, option or positional argument.
pub struct OptionSpec {
    pub short: Option<char>,
    pub long: Option<String>,
    pub value_name: Option<String>,
    pub positional: bool,
    pub required: bool,
    pub arity: Arity,
    pub domain: ValueDomain,
    pub deprecated: bool,
    pub help: String,
}

/// A named command together with its declared options, in declaration order.
pub struct CommandDescriptor {
    pub name: String,
    pub options: Vec<OptionSpec>,
}

/// The mathematical image of one declared option.
pub ghost struct OptModel {
    pub short: Option<char>,
    pub long: Option<Seq<char>>,
    pub value_name: Option<Seq<char>>,
    pub positional: bool,
    pub required: bool,
    pub arity: Arity,
    pub domain: ValueDomain,
    pub deprecated: bool,
    pub help: Seq<char>,
}

pub open spec fn opt_model(o: OptionSpec) -> OptModel {
    OptModel {
        short: o.short,
        long: match o.long {
            Option::Some(s) => Option::Some(s@),
            Option::None => Option::None,
        },
        value_name: match o.value_name {
            Option::Some(s) => Option::Some(s@),
            Option::None => Option::None,
        },
        positional: o.positional,
        required: o.required,
        arity: o.arity,
        domain: o.domain,
        deprecated: o.deprecated,
        help: o.help@,
    }
}

impl CommandDescriptor {
    /// The declared options as mathematical values.
    pub open spec fn models(&self) -> Seq<OptModel> {
        self.options@.map_values(|o: OptionSpec| opt_model(o))
    }
}

/// No two options of the command claim the same short name, and no two claim
/// the same long name.
pub open spec fn wf_options(os: Seq<OptModel>) -> bool {
    forall|i: int, j: int|
        #![trigger os[i], os[j]]
        0 <= i < j < os.len() ==> {
            &&& (os[i].short is Some ==> os[i].short != os[j].short)
            &&& (os[i].long is Some ==> os[i].long != os[j].long)
        }
}

/// The declared options of `heif-enc`, in declaration order.
pub open spec fn heif_enc_options() -> Seq<OptModel> {
    seq![
        OptModel {
            short: Some('h'),
            long: Some("help"@),
            value_name: None,
            positional: false,
            required: false,
            arity: Arity::Flag,
            domain: ValueDomain::NoValue,
            deprecated: false,
            help: "show help"@,
        },
        OptModel {
            short: Some('q'),
            long: Some("quality"@),
            value_name: None,
            positional: false,
            required: false,
            arity: Arity::Single,
            domain: ValueDomain::IntRange { min: 0, max: 100 },
            deprecated: false,
            help: "set output quality (0-100) for lossy compression"@,
        },
        OptModel {
            short: Some('L'),
            long: Some("lossless"@),
            value_name: None,
            positional: false,
            required: false,
            arity: Arity::Flag,
            domain: ValueDomain::NoValue,
            deprecated: false,
            help: "generate lossless output (-q has no effect)"@,
        },
        OptModel {
            short: Some('t'),
            long: Some("thumb"@),
            value_name: None,
            positional: false,
            required: false,
            arity: Arity::Flag,
            domain: ValueDomain::NoValue,
            deprecated: false,
            help: "generate thumbnail with maximum size (default: off)"@,
        },
        OptModel {
            short: None,
            long: Some("no-alpha"@),
            value_name: None,
            positional: false,
            required: false,
            arity: Arity::Flag,
            domain: ValueDomain::NoValue,
            deprecated: false,
            help: "do not save alpha channel"@,
        },
        OptModel {
            short: None,
            long: Some("no-thumb-alpha"@),
            value_name: None,
            positional: false,
            required: false,
            arity: Arity::Flag,
            domain: ValueDomain::NoValue,
            deprecated: false,
            help: "do not save alpha channel in thumbnail image"@,
        },
        OptModel {
            short: Some('v'),
            long: Some("verbose"@),
            value_name: None,
            positional: false,
            required: false,
            arity: Arity::Counted,
            domain: ValueDomain::NoValue,
            deprecated: false,
            help: "enable logging output (more -v will increase logging level)"@,
        },
        OptModel {
            short: Some('P'),
            long: Some("params"@),
            value_name: None,
            positional: false,
            required: false,
            arity: Arity::Flag,
            domain: ValueDomain::NoValue,
            deprecated: false,
            help: "show all encoder parameters"@,
        },
        OptModel {
            short: Some('b'),
            long: Some("bit_depth"@),
            value_name: None,
            positional: false,
            required: false,
            arity: Arity::Single,
            domain: ValueDomain::IntRange { min: 0, max: 16 },
            deprecated: false,
            help: ""@,
        },
        OptModel {
            short: Some('p'),
            long: None,
            value_name: None,
            positional: false,
            required: false,
            arity: Arity::Single,
            domain: ValueDomain::FreeString,
            deprecated: false,
            help: "set encoder parameter (NAME=VALUE)"@,
        },
        OptModel {
            short: Some('A'),
            long: Some("avif"@),
            value_name: None,
            positional: false,
            required: false,
            arity: Arity::Flag,
            domain: ValueDomain::NoValue,
            deprecated: false,
            help: "encode as AVIF"@,
        },
        OptModel {
            short: None,
            long: Some("list-encoders"@),
            value_name: None,
            positional: false,
            required: false,
            arity: Arity::Flag,
            domain: ValueDomain::NoValue,
            deprecated: false,
            help: "list all available encoders for the selected output format"@,
        },
        OptModel {
            short: Some('e'),
            long: Some("encoder"@),
            value_name: Some("ID"@),
            positional: false,
            required: false,
            arity: Arity::Single,
            domain: ValueDomain::IntRange { min: 0, max: 255 },
            deprecated: false,
            help: "select encoder to use (the IDs can be listed with --list-encoders)"@,
        },
        OptModel {
            short: None,
            long: Some("plugin-directory"@),
            value_name: Some("DIR"@),
            positional: false,
            required: false,
            arity: Arity::Single,
            domain: ValueDomain::DirPath,
            deprecated: false,
            help: "load all codec plugins in the directory"@,
        },
        OptModel {
            short: Some('E'),
            long: Some("even-size"@),
            value_name: None,
            positional: false,
            required: false,
            arity: Arity::Flag,
            domain: ValueDomain::NoValue,
            deprecated: true,
            help: "[deprecated] crop images to even width and height (odd sizes are not decoded correctly by some software)"@,
        },
        OptModel {
            short: None,
            long: Some("matrix_coefficients"@),
            value_name: None,
            positional: false,
            required: false,
            arity: Arity::Single,
            domain: ValueDomain::IntRange { min: 0, max: 255 },
            deprecated: false,
            help: "nclx profile: color conversion matrix coefficients, default=6 (see h.273)"@,
        },
        OptModel {
            short: None,
            long: Some("colour_primaries"@),
            value_name: None,
            positional: false,
            required: false,
            arity: Arity::Single,
            domain: ValueDomain::FreeString,
            deprecated: false,
            help: "nclx profile: color primaries (see h.273)"@,
        },
        OptModel {
            short: None,
            long: Some("transfer_characteristic"@),
            value_name: None,
            positional: false,
            required: false,
            arity: Arity::Single,
            domain: ValueDomain::FreeString,
            deprecated: false,
            help: "nclx profile: transfer characteristics (see h.273)"@,
        },
        OptModel {
            short: None,
            long: Some("full_range_flag"@),
            value_name: None,
            positional: false,
            required: false,
            arity: Arity::Single,
            domain: ValueDomain::FreeString,
            deprecated: false,
            help: "nclx profile: full range flag, default: 1"@,
        },
        OptModel {
            short: None,
            long: Some("enable-two-colr-boxes"@),
            value_name: None,
            positional: false,
            required: false,
            arity: Arity::Flag,
            domain: ValueDomain::NoValue,
            deprecated: false,
            help: "will write both an ICC and an nclx color profile if both are present"@,
        },
        OptModel {
            short: None,
            long: Some("premultiplied-alpha"@),
            value_name: None,
            positional: false,
            required: false,
            arity: Arity::Single,
            domain: ValueDomain::FreeString,
            deprecated: false,
            help: "input image has premultiplied alpha"@,
        },
        OptModel {
            short: None,
            long: Some("enable-metadata-compression"@),
            value_name: None,
            positional: false,
            required: false,
            arity: Arity::Flag,
            domain: ValueDomain::NoValue,
            deprecated: false,
            help: "enable XMP metadata compression (experimental)"@,
        },
        OptModel {
            short: None,
            long: Some("benchmark"@),
            value_name: None,
            positional: false,
            required: false,
            arity: Arity::Flag,
            domain: ValueDomain::NoValue,
            deprecated: false,
            help: "measure encoding time, PSNR, and output file size"@,
        },
        OptModel {
            short: Some('o'),
            long: Some("output"@),
            value_name: Some("FILE"@),
            positional: false,
            required: false,
            arity: Arity::Single,
            domain: ValueDomain::FilePath,
            deprecated: false,
            help: "output filename (optional)"@,
        },
        OptModel {
            short: None,
            long: None,
            value_name: Some("INPUT_FILE"@),
            positional: true,
            required: true,
            arity: Arity::Single,
            domain: ValueDomain::FilePath,
            deprecated: false,
            help: "What file do you want to process?"@,
        },
    ]
}

/// Within the declared command, every short name and every long name is
/// claimed by at most one option.
#[verifier::rlimit(100)]
pub proof fn lemma_heif_enc_options_unique()
    ensures
        wf_options(heif_enc_options()),
{
    reveal_strlit("help");
    reveal_strlit("quality");
    reveal_strlit("lossless");
    reveal_strlit("thumb");
    reveal_strlit("no-alpha");
    reveal_strlit("no-thumb-alpha");
    reveal_strlit("verbose");
    reveal_strlit("params");
    reveal_strlit("bit_depth");
    reveal_strlit("avif");
    reveal_strlit("list-encoders");
    reveal_strlit("encoder");
    reveal_strlit("plugin-directory");
    reveal_strlit("even-size");
    reveal_strlit("matrix_coefficients");
    reveal_strlit("colour_primaries");
    reveal_strlit("transfer_characteristic");
    reveal_strlit("full_range_flag");
    reveal_strlit("enable-two-colr-boxes");
    reveal_strlit("premultiplied-alpha");
    reveal_strlit("enable-metadata-compression");
    reveal_strlit("benchmark");
    reveal_strlit("output");
    assert("help"@.len() == 4);
    assert("quality"@.len() == 7);
    assert("lossless"@.len() == 8);
    assert("thumb"@.len() == 5);
    assert("no-alpha"@.len() == 8);
    assert("no-thumb-alpha"@.len() == 14);
    assert("verbose"@.len() == 7);
    assert("params"@.len() == 6);
    assert("bit_depth"@.len() == 9);
    assert("avif"@.len() == 4);
    assert("list-encoders"@.len() == 13);
    assert("encoder"@.len() == 7);
    assert("plugin-directory"@.len() == 16);
    assert("even-size"@.len() == 9);
    assert("matrix_coefficients"@.len() == 19);
    assert("colour_primaries"@.len() == 16);
    assert("transfer_characteristic"@.len() == 23);
    assert("full_range_flag"@.len() == 15);
    assert("enable-two-colr-boxes"@.len() == 21);
    assert("premultiplied-alpha"@.len() == 19);
    assert("enable-metadata-compression"@.len() == 27);
    assert("benchmark"@.len() == 9);
    assert("output"@.len() == 6);
    assert("help"@[0] != "avif"@[0]);
    assert("quality"@[0] != "verbose"@[0]);
    assert("quality"@[0] != "encoder"@[0]);
    assert("verbose"@[0] != "encoder"@[0]);
    assert("lossless"@[0] != "no-alpha"@[0]);
    assert("no-thumb-alpha"@[0] != "full_range_flag"@[0]);
    assert("params"@[0] != "output"@[0]);
    assert("bit_depth"@[0] != "even-size"@[0]);
    assert("bit_depth"@[1] != "benchmark"@[1]);
    assert("even-size"@[0] != "benchmark"@[0]);
    assert("plugin-directory"@[0] != "colour_primaries"@[0]);
    assert("matrix_coefficients"@[0] != "premultiplied-alpha"@[0]);
}

/// The full command-line surface of the `heif-enc` encoder, as one
/// declarative descriptor. The construction is pure: it takes no runtime
/// input, and the result is exactly the declared option table, whose short
/// and long names are pairwise distinct.
#[verifier::rlimit(100)]
pub fn heif_enc_command() -> (c: CommandDescriptor)
    ensures
        c.name@ == "heif-enc"@,
        c.models() == heif_enc_options(),
        wf_options(c.models()),
{
    let mut options: Vec<OptionSpec> = Vec::new();
    options.push(OptionSpec {
        short: Some('h'),
        long: Some("help".to_owned()),
        value_name: None,
        positional: false,
        required: false,
        arity: Arity::Flag,
        domain: ValueDomain::NoValue,
        deprecated: false,
        help: "show help".to_owned(),
    });
    options.push(OptionSpec {
        short: Some('q'),
        long: Some("quality".to_owned()),
        value_name: None,
        positional: false,
        required: false,
        arity: Arity::Single,
        domain: ValueDomain::IntRange { min: 0, max: 100 },
        deprecated: false,
        help: "set output quality (0-100) for lossy compression".to_owned(),
    });
    options.push(OptionSpec {
        short: Some('L'),
        long: Some("lossless".to_owned()),
        value_name: None,
        positional: false,
        required: false,
        arity: Arity::Flag,
        domain: ValueDomain::NoValue,
        deprecated: false,
        help: "generate lossless output (-q has no effect)".to_owned(),
    });
    options.push(OptionSpec {
        short: Some('t'),
        long: Some("thumb".to_owned()),
        value_name: None,
        positional: false,
        required: false,
        arity: Arity::Flag,
        domain: ValueDomain::NoValue,
        deprecated: false,
        help: "generate thumbnail with maximum size (default: off)".to_owned(),
    });
    options.push(OptionSpec {
        short: None,
        long: Some("no-alpha".to_owned()),
        value_name: None,
        positional: false,
        required: false,
        arity: Arity::Flag,
        domain: ValueDomain::NoValue,
        deprecated: false,
        help: "do not save alpha channel".to_owned(),
    });
    options.push(OptionSpec {
        short: None,
        long: Some("no-thumb-alpha".to_owned()),
        value_name: None,
        positional: false,
        required: false,
        arity: Arity::Flag,
        domain: ValueDomain::NoValue,
        deprecated: false,
        help: "do not save alpha channel in thumbnail image".to_owned(),
    });
    options.push(OptionSpec {
        short: Some('v'),
        long: Some("verbose".to_owned()),
        value_name: None,
        positional: false,
        required: false,
        arity: Arity::Counted,
        domain: ValueDomain::NoValue,
        deprecated: false,
        help: "enable logging output (more -v will increase logging level)".to_owned(),
    });
    options.push(OptionSpec {
        short: Some('P'),
        long: Some("params".to_owned()),
        value_name: None,
        positional: false,
        required: false,
        arity: Arity::Flag,
        domain: ValueDomain::NoValue,
        deprecated: false,
        help: "show all encoder parameters".to_owned(),
    });
    options.push(OptionSpec {
        short: Some('b'),
        long: Some("bit_depth".to_owned()),
        value_name: None,
        positional: false,
        required: false,
        arity: Arity::Single,
        domain: ValueDomain::IntRange { min: 0, max: 16 },
        deprecated: false,
        help: "".to_owned(),
    });
    options.push(OptionSpec {
        short: Some('p'),
        long: None,
        value_name: None,
        positional: false,
        required: false,
        arity: Arity::Single,
        domain: ValueDomain::FreeString,
        deprecated: false,
        help: "set encoder parameter (NAME=VALUE)".to_owned(),
    });
    options.push(OptionSpec {
        short: Some('A'),
        long: Some("avif".to_owned()),
        value_name: None,
        positional: false,
        required: false,
        arity: Arity::Flag,
        domain: ValueDomain::NoValue,
        deprecated: false,
        help: "encode as AVIF".to_owned(),
    });
    options.push(OptionSpec {
        short: None,
        long: Some("list-encoders".to_owned()),
        value_name: None,
        positional: false,
        required: false,
        arity: Arity::Flag,
        domain: ValueDomain::NoValue,
        deprecated: false,
        help: "list all available encoders for the selected output format".to_owned(),
    });
    options.push(OptionSpec {
        short: Some('e'),
        long: Some("encoder".to_owned()),
        value_name: Some("ID".to_owned()),
        positional: false,
        required: false,
        arity: Arity::Single,
        domain: ValueDomain::IntRange { min: 0, max: 255 },
        deprecated: false,
        help: "select encoder to use (the IDs can be listed with --list-encoders)".to_owned(),
    });
    options.push(OptionSpec {
        short: None,
        long: Some("plugin-directory".to_owned()),
        value_name: Some("DIR".to_owned()),
        positional: false,
        required: false,
        arity: Arity::Single,
        domain: ValueDomain::DirPath,
        deprecated: false,
        help: "load all codec plugins in the directory".to_owned(),
    });
    options.push(OptionSpec {
        short: Some('E'),
        long: Some("even-size".to_owned()),
        value_name: None,
        positional: false,
        required: false,
        arity: Arity::Flag,
        domain: ValueDomain::NoValue,
        deprecated: true,
        help: "[deprecated] crop images to even width and height (odd sizes are not decoded correctly by some software)".to_owned(),
    });
    options.push(OptionSpec {
        short: None,
        long: Some("matrix_coefficients".to_owned()),
        value_name: None,
        positional: false,
        required: false,
        arity: Arity::Single,
        domain: ValueDomain::IntRange { min: 0, max: 255 },
        deprecated: false,
        help: "nclx profile: color conversion matrix coefficients, default=6 (see h.273)".to_owned(),
    });
    options.push(OptionSpec {
        short: None,
        long: Some("colour_primaries".to_owned()),
        value_name: None,
        positional: false,
        required: false,
        arity: Arity::Single,
        domain: ValueDomain::FreeString,
        deprecated: false,
        help: "nclx profile: color primaries (see h.273)".to_owned(),
    });
    options.push(OptionSpec {
        short: None,
        long: Some("transfer_characteristic".to_owned()),
        value_name: None,
        positional: false,
        required: false,
        arity: Arity::Single,
        domain: ValueDomain::FreeString,
        deprecated: false,
        help: "nclx profile: transfer characteristics (see h.273)".to_owned(),
    });
    options.push(OptionSpec {
        short: None,
        long: Some("full_range_flag".to_owned()),
        value_name: None,
        positional: false,
        required: false,
        arity: Arity::Single,
        domain: ValueDomain::FreeString,
        deprecated: false,
        help: "nclx profile: full range flag, default: 1".to_owned(),
    });
    options.push(OptionSpec {
        short: None,
        long: Some("enable-two-colr-boxes".to_owned()),
        value_name: None,
        positional: false,
        required: false,
        arity: Arity::Flag,
        domain: ValueDomain::NoValue,
        deprecated: false,
        help: "will write both an ICC and an nclx color profile if both are present".to_owned(),
    });
    options.push(OptionSpec {
        short: None,
        long: Some("premultiplied-alpha".to_owned()),
        value_name: None,
        positional: false,
        required: false,
        arity: Arity::Single,
        domain: ValueDomain::FreeString,
        deprecated: false,
        help: "input image has premultiplied alpha".to_owned(),
    });
    options.push(OptionSpec {
        short: None,
        long: Some("enable-metadata-compression".to_owned()),
        value_name: None,
        positional: false,
        required: false,
        arity: Arity::Flag,
        domain: ValueDomain::NoValue,
        deprecated: false,
        help: "enable XMP metadata compression (experimental)".to_owned(),
    });
    options.push(OptionSpec {
        short: None,
        long: Some("benchmark".to_owned()),
        value_name: None,
        positional: false,
        required: false,
        arity: Arity::Flag,
        domain: ValueDomain::NoValue,
        deprecated: false,
        help: "measure encoding time, PSNR, and output file size".to_owned(),
    });
    options.push(OptionSpec {
        short: Some('o'),
        long: Some("output".to_owned()),
        value_name: Some("FILE".to_owned()),
        positional: false,
        required: false,
        arity: Arity::Single,
        domain: ValueDomain::FilePath,
        deprecated: false,
        help: "output filename (optional)".to_owned(),
    });
    options.push(OptionSpec {
        short: None,
        long: None,
        value_name: Some("INPUT_FILE".to_owned()),
        positional: true,
        required: true,
        arity: Arity::Single,
        domain: ValueDomain::FilePath,
        deprecated: false,
        help: "What file do you want to process?".to_owned(),
    });
    let c = CommandDescriptor { name: "heif-enc".to_owned(), options };
    proof {
        assert(c.models() =~= heif_enc_options());
        lemma_heif_enc_options_unique();
    }
    c
}

/// The values parsed from one `heif-enc` command line. Options that were not
/// supplied keep their defaults: `false` for flags, zero for counters and
/// bounded integers, the empty string for free strings and paths, and `None`
/// for the optional output path.
#[derive(Clone, Debug, PartialEq, Eq)]
pub struct Args {
    pub help: bool,
    pub quality: u8,
    pub lossless: bool,
    pub thumb: bool,
    pub no_alpha: bool,
    pub no_thumb_alpha: bool,
    pub verbose: u8,
    pub params: bool,
    pub bit_depth: u8,
    pub encoder_param: String,
    pub avif: bool,
    pub list_encoders: bool,
    pub encoder: u8,
    pub plugin_directory: String,
    pub even_size: bool,
    pub matrix_coefficients: u8,
    pub colour_primaries: String,
    pub transfer_characteristic: String,
    pub full_range_flag: String,
    pub enable_two_colr_boxes: bool,
    pub premultiplied_alpha: String,
    pub enable_metadata_compression: bool,
    pub benchmark: bool,
    pub output: Option<String>,
    pub input: String,
}

/// The mathematical image of an `Args` value while a command line is being
/// read: strings as character sequences, and the required input path still
/// absent until it has been seen.
pub ghost struct ArgsModel {
    pub help: bool,
    pub quality: u8,
    pub lossless: bool,
    pub thumb: bool,
    pub no_alpha: bool,
    pub no_thumb_alpha: bool,
    pub verbose: u8,
    pub params: bool,
    pub bit_depth: u8,
    pub encoder_param: Seq<char>,
    pub avif: bool,
    pub list_encoders: bool,
    pub encoder: u8,
    pub plugin_directory: Seq<char>,
    pub even_size: bool,
    pub matrix_coefficients: u8,
    pub colour_primaries: Seq<char>,
    pub transfer_characteristic: Seq<char>,
    pub full_range_flag: Seq<char>,
    pub enable_two_colr_boxes: bool,
    pub premultiplied_alpha: Seq<char>,
    pub enable_metadata_compression: bool,
    pub benchmark: bool,
    pub output: Option<Seq<char>>,
    pub input: Option<Seq<char>>,
}

/// The model of `a`; `seen_input` says whether the required input path has
/// been supplied yet, since an `Args` value holds a string there either way.
pub open spec fn model_of(a: Args, seen_input: bool) -> ArgsModel {
    ArgsModel {
        help: a.help,
        quality: a.quality,
        lossless: a.lossless,
        thumb: a.thumb,
        no_alpha: a.no_alpha,
        no_thumb_alpha: a.no_thumb_alpha,
        verbose: a.verbose,
        params: a.params,
        bit_depth: a.bit_depth,
        encoder_param: a.encoder_param@,
        avif: a.avif,
        list_encoders: a.list_encoders,
        encoder: a.encoder,
        plugin_directory: a.plugin_directory@,
        even_size: a.even_size,
        matrix_coefficients: a.matrix_coefficients,
        colour_primaries: a.colour_primaries@,
        transfer_characteristic: a.transfer_characteristic@,
        full_range_flag: a.full_range_flag@,
        enable_two_colr_boxes: a.enable_two_colr_boxes,
        premultiplied_alpha: a.premultiplied_alpha@,
        enable_metadata_compression: a.enable_metadata_compression,
        benchmark: a.benchmark,
        output: match a.output {
            Option::Some(s) => Option::Some(s@),
            Option::None => Option::None,
        },
        input: if seen_input {
            Option::Some(a.input@)
        } else {
            Option::None
        },
    }
}

/// The model every parse starts from: all defaults, nothing seen yet.
pub open spec fn init_model() -> ArgsModel {
    ArgsModel {
        help: false,
        quality: 0,
        lossless: false,
        thumb: false,
        no_alpha: false,
        no_thumb_alpha: false,
        verbose: 0,
        params: false,
        bit_depth: 0,
        encoder_param: Seq::<char>::empty(),
        avif: false,
        list_encoders: false,
        encoder: 0,
        plugin_directory: Seq::<char>::empty(),
        even_size: false,
        matrix_coefficients: 0,
        colour_primaries: Seq::<char>::empty(),
        transfer_characteristic: Seq::<char>::empty(),
        full_range_flag: Seq::<char>::empty(),
        enable_two_colr_boxes: false,
        premultiplied_alpha: Seq::<char>::empty(),
        enable_metadata_compression: false,
        benchmark: false,
        output: Option::None,
        input: Option::None,
    }
}

impl Default for Args {
    /// All defaults, with the input path still empty.
    fn default() -> (a: Args)
        ensures
            model_of(a, false) == init_model(),
            a.input@ == Seq::<char>::empty(),
    {
        Args {
            help: false,
            quality: 0,
            lossless: false,
            thumb: false,
            no_alpha: false,
            no_thumb_alpha: false,
            verbose: 0,
            params: false,
            bit_depth: 0,
            encoder_param: String::new(),
            avif: false,
            list_encoders: false,
            encoder: 0,
            plugin_directory: String::new(),
            even_size: false,
            matrix_coefficients: 0,
            colour_primaries: String::new(),
            transfer_characteristic: String::new(),
            full_range_flag: String::new(),
            enable_two_colr_boxes: false,
            premultiplied_alpha: String::new(),
            enable_metadata_compression: false,
            benchmark: false,
            output: None,
            input: String::new(),
        }
    }
}

} // verus!
