use sumcol::field::Delimiter;
use sumcol::line::{contribution, process_line, Contribution};
use sumcol::render::render_integer;

/// The total of `input` as the program prints it, and the hex hints given.
fn run(input: &str, field: usize, hex: bool, pattern: &str) -> (String, usize) {
    let delim = Delimiter::new(pattern).unwrap();
    let mut int_total: i128 = 0;
    let mut float_total: Option<f64> = None;
    let mut hints = 0;
    for line in input.lines() {
        let Some(rep) = process_line(line, field, hex, &delim) else {
            continue;
        };
        let parsed = rep.text.parse::<f64>();
        match contribution(rep.reading, parsed.is_ok()) {
            Contribution::Integer(n) => match float_total.as_mut() {
                Some(f) => *f += n as f64,
                None => int_total += n,
            },
            Contribution::Float => {
                let x = parsed.unwrap();
                float_total = Some(float_total.unwrap_or(int_total as f64) + x);
            }
            Contribution::Nothing { advise_hex } => {
                if advise_hex {
                    hints += 1;
                }
            }
        }
    }
    let out = match float_total {
        Some(f) => format!("{f}"),
        None => render_integer(int_total, hex),
    };
    (out, hints)
}

#[test]
fn no_args_sum() {
    let input = "\n    1\n    2\n    3\n    ";
    assert!(run(input, 0, false, r"\s+").0.contains("6"));
}

#[test]
fn simple_column_sum() {
    let input = "\n    hello 2 foo\n    hello 2 foo\n    hello 2 foo\n    ";
    assert!(run(input, 2, false, r"\s+").0.contains("6"));
}

#[test]
fn sum_implicit_hex() {
    let input = "\n    hello 2 foo\n    hello 0xa foo\n    hello 0xB foo\n    ";
    assert!(run(input, 2, false, r"\s+").0.contains("23"));
}

#[test]
fn sum_explicit_hex() {
    let input = "\n    hello 2 foo\n    hello a foo\n    hello 0xa foo\n    hello 0xB foo\n    ";
    assert!(run(input, 2, true, r"\s+").0.contains("0x21"));
}

#[test]
fn sum_delimiter() {
    let input = "\n    hello:2:foo\n    hello:2:foo\n    hello:2:foo\n    ";
    assert!(run(input, 2, false, ":").0.contains("6"));
}

#[test]
fn sum_first_delimiter() {
    let input = "\n    :2:foo\n    :2:foo\n    :2:foo\n    ";
    assert!(run(input, 2, false, ":").0.contains("6"));
}

#[test]
fn sum_mixed_column() {
    let input = "\n    hello 2 foo\n    hello OOPS foo\n    hello 2 foo\n    ";
    assert!(run(input, 2, false, r"\s+").0.contains("4"));
}

#[test]
fn sum_mixed_column_looks_like_number() {
    let input = "\n    hello 2 foo\n    hello a foo\n    hello 2 foo\n    ";
    let (out, hints) = run(input, 2, false, r"\s+");
    assert!(out.contains("4"));
    assert_eq!(hints, 1);
}

#[test]
fn sum_float() {
    let input = "\n    hello 2 blah\n    hello 1.0 foo\n    hello 2.2 oo\n    blah 3e0 mumble\n    ";
    assert!(run(input, 2, false, r"\s+").0.contains("8.2"));
    // In hex mode 3e0 reads as 0x3e0 (decimal 992).
    assert!(run(input, 2, true, r"\s+").0.contains("997.2"));
}

#[test]
fn sum_float_0xhex() {
    let input = "\n    hello 2 blah\n    hello 0xA blah\n    hello 1.0 foo\n    hello 2.2 oo\n    ";
    assert!(run(input, 2, false, r"\s+").0.contains("15.2"));
}

#[test]
fn sum_float_hex_flag() {
    let input = "\n    hello 2 blah\n    hello A blah\n    hello 1.0 foo\n    hello 2.2 oo\n    ";
    // Without hex mode the A is ignored.
    assert!(run(input, 2, false, r"\s+").0.contains("5.2"));
    // In hex mode it reads as 0xA.
    assert!(run(input, 2, true, r"\s+").0.contains("15.2"));
}

#[test]
fn exact_totals() {
    assert_eq!(run("1\n2\n3", 0, false, r"\s+").0, "6");
    assert_eq!(run("hello 2 foo\nhello 0xa foo\nhello 0xB foo", 2, false, r"\s+").0, "23");
    assert_eq!(
        run("hello 2 foo\nhello a foo\nhello 0xa foo\nhello 0xB foo", 2, true, r"\s+").0,
        "0x21"
    );
    assert_eq!(run("hello 2 foo\nhello OOPS foo\nhello 2 foo", 2, false, r"\s+").0, "4");
    assert_eq!(run("x 1,000 y\nx 2 y", 2, false, r"\s+").0, "1002");
    assert_eq!(run("a b\nc d", 5, false, r"\s+").0, "0");
}
