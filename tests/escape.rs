use slog_syslog::escape::Rfc5424LikeValueEscaper;
use std::iter;

fn case(input: &str, expected_output: &str) {
    let mut e = Rfc5424LikeValueEscaper(String::new());
    e.write_str(input).unwrap();
    assert_eq!(e.0, expected_output);
}

fn check_all_cases() {
    // Test that each character is properly escaped.
    for c in &['\\', '"', ']'] {
        let ec = format!("\\{}", c);

        {
            let input = format!("{}", c);
            case(&*input, &*ec);
        }

        for at_start_count in 0..=2 {
            for at_mid_count in 0..=2 {
                for at_end_count in 0..=2 {
                    let mut input = String::new();
                    let mut expected_output = String::new();

                    input.extend(iter::repeat(c).take(at_start_count));
                    expected_output.extend(iter::repeat(&*ec).take(at_start_count));

                    input.push_str("foo");
                    expected_output.push_str("foo");

                    input.extend(iter::repeat(c).take(at_mid_count));
                    expected_output.extend(iter::repeat(&*ec).take(at_mid_count));

                    input.push_str("bar");
                    expected_output.push_str("bar");

                    input.extend(iter::repeat(c).take(at_end_count));
                    expected_output.extend(iter::repeat(&*ec).take(at_end_count));

                    case(&*input, &*expected_output);
                }
            }
        }
    }

    case("", "");
    case("foo", "foo");
    case("[foo]", "[foo\\]");
    case("\\\"]", "\\\\\\\"\\]"); // \"] => \\\"\]
}

#[test]
fn adapter_test_rfc_5424_like_value_escaper() {
    check_all_cases();
}

#[test]
fn format_test_rfc_5424_like_value_escaper() {
    check_all_cases();
}

#[test]
fn escaper_appends_to_existing_text() {
    let mut e = Rfc5424LikeValueEscaper(String::from("x="));
    e.write_str("a\"b").unwrap();
    e.write_char(']').unwrap();
    e.write_char('z').unwrap();
    assert_eq!(e.0, "x=a\\\"b\\]z");
}

#[test]
fn escaper_keeps_control_and_non_ascii_characters() {
    case("tab\there\nnewline é ✓ [", "tab\there\nnewline é ✓ [");
}

fn unescape(t: &str) -> String {
    let mut out = String::new();
    let mut chars = t.chars();
    while let Some(c) = chars.next() {
        if c == '\\' {
            if let Some(d) = chars.next() {
                out.push(d);
                continue;
            }
        }
        out.push(c);
    }
    out
}

#[test]
fn escaping_round_trips() {
    for s in &["", "plain", "\\", "a\\\"b]c", "]]]", "\\\\", "end\\", "x\"y"] {
        let mut e = Rfc5424LikeValueEscaper(String::new());
        e.write_str(s).unwrap();
        assert_eq!(unescape(&e.0), *s);
    }
}
