use lau_construct_cli::text::{decimal_string, split_lines};

#[test]
fn split_lines_matches_str_lines() {
    let samples = [
        "",
        "a",
        "a\n",
        "a\nb",
        "a\nb\n",
        "\n",
        "\n\n",
        "a\r\nb\r\n",
        "a\rb",
        "end\r",
        "x\n\ny",
        "ünï\ncødé\r\n",
    ];
    for s in samples {
        let expected: Vec<String> = s.lines().map(|l| l.to_string()).collect();
        assert_eq!(split_lines(s), expected, "input {:?}", s);
    }
}

#[test]
fn decimal_matches_display() {
    for n in [0u64, 1, 9, 10, 42, 99, 100, 1_000_000, u64::MAX] {
        assert_eq!(decimal_string(n), n.to_string());
    }
}
