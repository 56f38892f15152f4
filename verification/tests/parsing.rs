use heif_enc_cli::parse::{parse_args, ParseError};
use heif_enc_cli::schema::{heif_enc_command, Arity, ValueDomain};

fn line(tokens: &[&str]) -> Vec<String> {
    tokens.iter().map(|t| t.to_string()).collect()
}

#[test]
fn quality_in_range_parses_exactly() {
    for v in [0u8, 1, 50, 99, 100] {
        let args = parse_args(&line(&["--quality", &v.to_string(), "in.png"])).unwrap();
        assert_eq!(args.quality, v);
        assert_eq!(args.input, "in.png");
    }
}

#[test]
fn quality_short_form_parses() {
    let args = parse_args(&line(&["-q", "42", "in.png"])).unwrap();
    assert_eq!(args.quality, 42);
}

#[test]
fn quality_out_of_range_is_rejected() {
    let err = parse_args(&line(&["--quality", "101", "in.png"])).unwrap_err();
    assert_eq!(
        err,
        ParseError::OutOfRange {
            option: "--quality".to_string(),
            value: "101".to_string(),
            min: 0,
            max: 100,
        }
    );
}

#[test]
fn quality_inline_value_out_of_range_names_bounds() {
    let err = parse_args(&line(&["-q=150", "in.png"])).unwrap_err();
    assert_eq!(
        err,
        ParseError::OutOfRange {
            option: "-q".to_string(),
            value: "150".to_string(),
            min: 0,
            max: 100,
        }
    );
}

#[test]
fn bit_depth_in_range_parses_exactly() {
    for v in [0u8, 8, 10, 16] {
        let args = parse_args(&line(&["--bit_depth", &v.to_string(), "in.png"])).unwrap();
        assert_eq!(args.bit_depth, v);
    }
}

#[test]
fn bit_depth_out_of_range_is_rejected() {
    let err = parse_args(&line(&["-b", "17", "in.png"])).unwrap_err();
    assert_eq!(
        err,
        ParseError::OutOfRange {
            option: "-b".to_string(),
            value: "17".to_string(),
            min: 0,
            max: 16,
        }
    );
}

#[test]
fn non_numeric_value_is_rejected() {
    let err = parse_args(&line(&["--quality", "abc", "in.png"])).unwrap_err();
    assert_eq!(
        err,
        ParseError::InvalidNumber { option: "--quality".to_string(), value: "abc".to_string() }
    );
}

#[test]
fn missing_input_is_rejected() {
    let err = parse_args(&line(&[])).unwrap_err();
    assert_eq!(err, ParseError::MissingRequired { name: "INPUT_FILE".to_string() });
}

#[test]
fn single_path_parses_verbatim_with_defaults() {
    let args = parse_args(&line(&["photos/picture one.heic"])).unwrap();
    assert_eq!(args.input, "photos/picture one.heic");
    assert_eq!(args.quality, 0);
    assert_eq!(args.bit_depth, 0);
    assert_eq!(args.verbose, 0);
    assert!(!args.lossless);
    assert!(!args.help);
    assert_eq!(args.output, None);
    assert_eq!(args.encoder_param, "");
}

#[test]
fn verbose_accumulates_count() {
    let args = parse_args(&line(&["-v", "-v", "in.png"])).unwrap();
    assert_eq!(args.verbose, 2);
    let args = parse_args(&line(&["-v", "in.png"])).unwrap();
    assert_eq!(args.verbose, 1);
}

#[test]
fn flags_and_values_combine() {
    let args = parse_args(&line(&[
        "--lossless",
        "-t",
        "--no-alpha",
        "-p",
        "x265:crf=20",
        "--colour_primaries",
        "9",
        "-o",
        "out.heif",
        "in.png",
    ]))
    .unwrap();
    assert!(args.lossless);
    assert!(args.thumb);
    assert!(args.no_alpha);
    assert_eq!(args.encoder_param, "x265:crf=20");
    assert_eq!(args.colour_primaries, "9");
    assert_eq!(args.output, Some("out.heif".to_string()));
    assert_eq!(args.input, "in.png");
}

#[test]
fn inline_long_value_parses() {
    let args = parse_args(&line(&["--quality=37", "--plugin-directory=/opt/plugins", "in.png"]))
        .unwrap();
    assert_eq!(args.quality, 37);
    assert_eq!(args.plugin_directory, "/opt/plugins");
}

#[test]
fn flag_with_inline_value_is_rejected() {
    let err = parse_args(&line(&["--lossless=1", "in.png"])).unwrap_err();
    assert_eq!(
        err,
        ParseError::UnexpectedValue { option: "--lossless".to_string(), value: "1".to_string() }
    );
}

#[test]
fn missing_value_is_rejected() {
    let err = parse_args(&line(&["in.png", "-o"])).unwrap_err();
    assert_eq!(err, ParseError::MissingValue { option: "-o".to_string() });
}

#[test]
fn unknown_option_is_rejected() {
    let err = parse_args(&line(&["--nope", "in.png"])).unwrap_err();
    assert_eq!(err, ParseError::UnknownOption { token: "--nope".to_string() });
}

#[test]
fn second_positional_is_rejected() {
    let err = parse_args(&line(&["a.png", "b.png"])).unwrap_err();
    assert_eq!(err, ParseError::UnexpectedArgument { token: "b.png".to_string() });
}

#[test]
fn declared_schema_matches_documented_surface() {
    let c = heif_enc_command();
    assert_eq!(c.name, "heif-enc");
    assert_eq!(c.options.len(), 25);
    let quality = &c.options[1];
    assert_eq!(quality.short, Some('q'));
    assert_eq!(quality.long, Some("quality".to_string()));
    assert_eq!(quality.domain, ValueDomain::IntRange { min: 0, max: 100 });
    let bit_depth = &c.options[8];
    assert_eq!(bit_depth.long, Some("bit_depth".to_string()));
    assert_eq!(bit_depth.domain, ValueDomain::IntRange { min: 0, max: 16 });
    let verbose = &c.options[6];
    assert_eq!(verbose.arity, Arity::Counted);
    let even_size = &c.options[14];
    assert!(even_size.deprecated);
    let input = &c.options[24];
    assert!(input.positional);
    assert!(input.required);
    assert!(c.options.iter().filter(|o| o.required).count() == 1);
}
