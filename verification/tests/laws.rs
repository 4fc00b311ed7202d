//! The library's laws and options on concrete inputs.

use formatter_kotlin::{build_language, format_with, FormatError, FormatOptions, DEFAULT_INDENT};

const SAMPLES: [&str; 5] = [
    "",
    "val x=1",
    "fun add(a:Int,b:Int):Int{return a+b}\n",
    "class Counter(private var n:Int=0){\nfun inc(){n++}\nfun value():Int=n\n}\n",
    "enum class Color{RED,GREEN,BLUE}\n",
];

#[test]
fn default_options_are_four_spaces_with_checks() {
    let opts = FormatOptions::default();
    assert_eq!(opts.indent, "    ");
    assert_eq!(opts.indent, DEFAULT_INDENT);
    assert!(!opts.skip_idempotence);
    assert!(!opts.tolerate_parsing_errors);
}

#[test]
fn format_is_format_with_default_options() {
    for input in SAMPLES {
        let a = formatter_kotlin::format(input).expect("format");
        let b = format_with(input, &FormatOptions::default()).expect("format_with");
        assert_eq!(a, b);
    }
}

#[test]
fn formatting_twice_changes_nothing() {
    for input in SAMPLES {
        let once = formatter_kotlin::format(input).expect("format");
        let twice = formatter_kotlin::format(&once).expect("format again");
        assert_eq!(once, twice);
    }
}

#[test]
fn idempotence_check_does_not_change_output() {
    for input in SAMPLES {
        let checked = formatter_kotlin::format(input).expect("format");
        let opts = FormatOptions {
            indent: DEFAULT_INDENT.to_owned(),
            skip_idempotence: true,
            tolerate_parsing_errors: false,
        };
        let unchecked = format_with(input, &opts).expect("format without check");
        assert_eq!(checked, unchecked);
    }
}

#[test]
fn output_ends_with_a_line_break() {
    for input in SAMPLES {
        let out = formatter_kotlin::format(input).expect("format");
        assert!(out.ends_with('\n'));
        assert!(!out.is_empty());
    }
}

#[test]
fn formatting_rewrites_the_input() {
    let out = formatter_kotlin::format("val x=1").expect("format");
    assert_eq!(out, "val x = 1\n");
}

#[test]
fn custom_indent_is_used() {
    let opts = FormatOptions {
        indent: "  ".to_owned(),
        skip_idempotence: false,
        tolerate_parsing_errors: false,
    };
    let out = format_with("fun add(a:Int,b:Int):Int{return a+b}\n", &opts).expect("format");
    assert_eq!(out, "fun add(a: Int, b: Int): Int {\n  return a + b\n}\n");
}

#[test]
fn tab_indent_is_used() {
    let opts = FormatOptions {
        indent: "\t".to_owned(),
        skip_idempotence: true,
        tolerate_parsing_errors: false,
    };
    let out = format_with("object O{fun go(){run()}}\n", &opts).expect("format");
    assert_eq!(out, "object O {\n\tfun go() {\n\t\trun()\n\t}\n}\n");
}

#[test]
fn parse_error_is_a_formatter_error() {
    let result = formatter_kotlin::format("}}}} fun ( {{{ class");
    assert!(matches!(result, Err(FormatError::Formatter(_))));
}

#[test]
fn parse_error_without_check_is_a_formatter_error() {
    let opts = FormatOptions {
        indent: DEFAULT_INDENT.to_owned(),
        skip_idempotence: true,
        tolerate_parsing_errors: false,
    };
    let result = format_with("fun (", &opts);
    assert!(matches!(result, Err(FormatError::Formatter(_))));
}

#[test]
fn tolerated_parse_error_still_formats() {
    let opts = FormatOptions {
        indent: DEFAULT_INDENT.to_owned(),
        skip_idempotence: true,
        tolerate_parsing_errors: true,
    };
    let out = format_with("val x = 1\nfun (", &opts).expect("tolerant format");
    assert!(out.ends_with('\n'));
}

#[test]
fn language_builds_with_any_indent() {
    assert!(build_language("\t".to_owned()).is_ok());
    assert!(build_language(String::new()).is_ok());
}

#[test]
fn written_bytes_become_their_text() {
    let out = formatter_kotlin::output_to_text(Ok("val π = 3\n".as_bytes().to_vec()));
    assert_eq!(out.expect("valid UTF-8"), "val π = 3\n");
}

#[test]
fn invalid_utf8_output_is_a_utf8_error() {
    let out = formatter_kotlin::output_to_text(Ok(vec![0x76, 0xff, 0x0a]));
    assert!(matches!(out, Err(FormatError::Utf8(_))));
}

#[test]
fn formatter_message_is_kept() {
    let out = formatter_kotlin::output_to_text(Err("parse failed".to_owned()));
    match out {
        Err(FormatError::Formatter(m)) => assert_eq!(m, "parse failed"),
        other => panic!("unexpected result: {other:?}"),
    }
}

#[test]
fn tolerance_changes_nothing_on_valid_input() {
    for input in SAMPLES {
        for skip in [false, true] {
            let strict = FormatOptions {
                indent: DEFAULT_INDENT.to_owned(),
                skip_idempotence: skip,
                tolerate_parsing_errors: false,
            };
            let tolerant = FormatOptions {
                indent: DEFAULT_INDENT.to_owned(),
                skip_idempotence: skip,
                tolerate_parsing_errors: true,
            };
            let a = format_with(input, &strict).expect("strict format");
            let b = format_with(input, &tolerant).expect("tolerant format");
            assert_eq!(a, b);
        }
    }
}

#[test]
fn error_messages_name_their_kind() {
    assert_eq!(
        FormatError::Language("bad query".to_owned()).message(),
        "failed to build Kotlin language definition: bad query"
    );
    assert_eq!(FormatError::Formatter("parse".to_owned()).message(), "formatting failed: parse");
    let utf8 = String::from_utf8(vec![0xff]).unwrap_err();
    let detail = utf8.to_string();
    let err: FormatError = utf8.into();
    assert!(matches!(err, FormatError::Utf8(_)));
    assert_eq!(err.message(), format!("formatted output was not valid UTF-8: {detail}"));
}

#[test]
fn parse_error_message_says_formatting_failed() {
    let err = formatter_kotlin::format("}}}} fun ( {{{ class").unwrap_err();
    assert!(err.message().starts_with("formatting failed: "));
}
