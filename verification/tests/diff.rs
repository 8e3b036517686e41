use agx::helpers::diff::{
    num_digits, Diff, DiffHunk, DiffLine, DiffOperation, InlineChange,
};

#[test]
fn creating_simple_diff_works() {
    // GIVEN
    let diff = Diff::new(
        "
line 1
line 2
line 3
",
        "
line 1 (changed)
new line
line 2
(prefix) line 3 ( changed)
",
    )
    .expect("diff should've been created");

    // WHEN
    // THEN
    let expected = vec![
        "1   1   | ",
        "2       |-line 1",
        "    2   |+line 1⸢ (changed)⸣",
        "    3   |+⸢new line⸣",
        "3   4   | line 2",
        "4       |-line 3",
        "    5   |+⸢(prefix) ⸣line 3⸢ ( changed)⸣",
    ]
    .join("\n");
    assert_eq!(diff.get_output(false), expected);
}

#[test]
fn creating_diff_with_multiple_hunks_works() {
    // GIVEN
    let diff = Diff::new(
        "
line 1
line 2
line 3
line 4
line 5
line 6
line 7
line 8
line 9
",
        "
line 1 (changed)
line 2
line 3
line 4
line 5
line 6
line 7
line 8
(prefix) line 9 (changed)
",
    )
    .expect("diff should've been created");

    // WHEN
    // THEN
    let expected = vec![
        "1   1   | ",
        "2       |-line 1",
        "    2   |+line 1⸢ (changed)⸣",
        "3   3   | line 2",
        "4   4   | line 3",
        "5   5   | line 4",
        "--------------------------------------------------------------------------------",
        "7   7   | line 6",
        "8   8   | line 7",
        "9   9   | line 8",
        "10      |-line 9",
        "    10  |+⸢(prefix) ⸣line 9⸢ (changed)⸣",
    ]
    .join("\n");
    assert_eq!(diff.get_output(false), expected);
}

#[test]
fn diff_adjusts_padding_for_line_numbers_accordinly() {
    // GIVEN
    let mut lines = (1..=10001).map(|n| format!("line {n}")).collect::<Vec<_>>();
    let old = lines.join("\n");

    lines[8] = "line 9 (modified)".to_string();
    lines[9] = "line 10 (modified)".to_string();

    lines[998] = "line 999 (modified)".to_string();
    lines[999] = "line 1000 (modified)".to_string();

    lines[9998] = "line 9999 (modified)".to_string();
    lines[9999] = "line 10000 (modified)".to_string();

    let new = lines.join("\n");
    let diff = Diff::new(&old, &new).expect("diff should've been created");

    // WHEN
    // THEN
    let expected = vec![
        "6      6      | line 6",
        "7      7      | line 7",
        "8      8      | line 8",
        "9             |-line 9",
        "10            |-line 10",
        "       9      |+line 9⸢ (modified)⸣",
        "       10     |+line 10⸢ (modified)⸣",
        "11     11     | line 11",
        "12     12     | line 12",
        "13     13     | line 13",
        "--------------------------------------------------------------------------------",
        "996    996    | line 996",
        "997    997    | line 997",
        "998    998    | line 998",
        "999           |-line 999",
        "1000          |-line 1000",
        "       999    |+line 999⸢ (modified)⸣",
        "       1000   |+line 1000⸢ (modified)⸣",
        "1001   1001   | line 1001",
        "1002   1002   | line 1002",
        "1003   1003   | line 1003",
        "--------------------------------------------------------------------------------",
        "9996   9996   | line 9996",
        "9997   9997   | line 9997",
        "9998   9998   | line 9998",
        "9999          |-line 9999",
        "10000         |-line 10000",
        "       9999   |+line 9999⸢ (modified)⸣",
        "       10000  |+line 10000⸢ (modified)⸣",
        "10001  10001  | line 10001",
    ]
    .join("\n");
    assert_eq!(diff.get_output(false), expected);
}

#[test]
fn creating_a_diff_with_no_changes_works() {
    // GIVEN
    let diff = Diff::new("text", "text");

    // WHEN
    // THEN
    assert!(diff.is_none());
}

#[test]
fn a_diff_without_hunks_is_no_diff() {
    assert!(Diff::from_hunks(Vec::new()).is_none());
    let diff = Diff::from_hunks(vec![DiffHunk { lines: Vec::new() }])
        .expect("one hunk is a diff");
    assert_eq!(diff.hunks.len(), 1);
    assert_eq!(diff.get_output(false), "");
    assert_eq!(diff.get_terminal_output(), "");
}

#[test]
fn an_empty_diff_is_shown_as_nothing() {
    let diff = Diff { hunks: Vec::new() };
    assert_eq!(diff.get_output(false), "");
    assert_eq!(diff.get_output(true), "");
    assert_eq!(diff.get_terminal_output(), "");
    assert_eq!(diff.line_num_padding(), 4);
}

#[test]
fn signs_tell_the_kinds_apart() {
    assert_eq!(DiffOperation::Delete.sign(), "-");
    assert_eq!(DiffOperation::Insert.sign(), "+");
    assert_eq!(DiffOperation::Equal.sign(), " ");
}

#[test]
fn digits_are_counted() {
    assert_eq!(num_digits(0), 1);
    assert_eq!(num_digits(9), 1);
    assert_eq!(num_digits(10), 2);
    assert_eq!(num_digits(99), 2);
    assert_eq!(num_digits(100), 3);
    assert_eq!(num_digits(10000), 5);
    assert_eq!(num_digits(usize::MAX), usize::MAX.to_string().len());
}

fn line(kind: DiffOperation, old: Option<usize>, new: Option<usize>, text: &str) -> DiffLine {
    DiffLine::new(kind, old, new, vec![InlineChange::new(text.to_string(), false)])
}

#[test]
fn padding_follows_the_largest_line_number() {
    let small = Diff {
        hunks: vec![DiffHunk { lines: vec![line(DiffOperation::Equal, Some(8), Some(9), "x\n")] }],
    };
    assert_eq!(small.line_num_padding(), 4);
    let two_digits = Diff {
        hunks: vec![DiffHunk { lines: vec![line(DiffOperation::Equal, Some(99), Some(12), "x\n")] }],
    };
    assert_eq!(two_digits.line_num_padding(), 4);
    let three_digits = Diff {
        hunks: vec![
            DiffHunk { lines: vec![line(DiffOperation::Delete, Some(100), None, "x\n")] },
            DiffHunk { lines: vec![line(DiffOperation::Insert, None, Some(7), "y\n")] },
        ],
    };
    assert_eq!(three_digits.line_num_padding(), 5);
    assert_eq!(
        three_digits.get_output(false),
        format!("101       |-x\n{}\n     8    |+y", "-".repeat(80))
    );
}

#[test]
fn the_largest_possible_line_number_is_shown() {
    let diff = Diff {
        hunks: vec![DiffHunk {
            lines: vec![line(DiffOperation::Equal, Some(usize::MAX), Some(0), "x")],
        }],
    };
    let shown = (usize::MAX as u128 + 1).to_string();
    let width = usize::MAX.to_string().len() + 2;
    assert_eq!(diff.line_num_padding(), width);
    assert_eq!(
        diff.get_output(false),
        format!("{:<w$}{:<w$}| x", shown, 1, w = width)
    );
}

#[test]
fn emphasized_pieces_are_marked_and_line_feeds_dropped() {
    let diff = Diff {
        hunks: vec![DiffHunk {
            lines: vec![DiffLine::new(
                DiffOperation::Insert,
                None,
                Some(0),
                vec![
                    InlineChange::new("a".to_string(), false),
                    InlineChange::new("b\n\n".to_string(), true),
                    InlineChange::new("\n".to_string(), false),
                ],
            )],
        }],
    };
    assert_eq!(diff.get_output(false), "    1   |+a⸢b⸣");
}

#[test]
fn terminal_output_without_colours_is_the_bare_text() {
    console::set_colors_enabled(false);
    let diff = Diff::new("a\nb\n", "a\nc\n").expect("diff should've been created");
    assert_eq!(
        diff.get_terminal_output(),
        "1   1   | a\n2       |-b\n    2   |+c"
    );
}

#[test]
fn terminal_output_with_colours_frames_every_piece() {
    console::set_colors_enabled(true);
    let diff = Diff {
        hunks: vec![DiffHunk {
            lines: vec![
                line(DiffOperation::Equal, Some(0), Some(0), "a\n"),
                DiffLine::new(
                    DiffOperation::Delete,
                    Some(1),
                    None,
                    vec![
                        InlineChange::new("b".to_string(), false),
                        InlineChange::new("c\n".to_string(), true),
                    ],
                ),
                DiffLine::new(
                    DiffOperation::Insert,
                    None,
                    Some(1),
                    vec![InlineChange::new("d\n".to_string(), false)],
                ),
                DiffLine::new(
                    DiffOperation::Equal,
                    Some(2),
                    Some(2),
                    vec![InlineChange::new("e\n".to_string(), true)],
                ),
            ],
        }],
    };
    let dim = |s: &str| format!("\x1b[2m{}\x1b[0m", s);
    let expected = vec![
        format!("{}{}| a", dim("1   "), dim("1   ")),
        format!(
            "{}{}|\x1b[31m\x1b[1m-\x1b[0m\x1b[31mb\x1b[0m\x1b[31m\x1b[40m\x1b[4mc\x1b[0m",
            dim("2   "),
            dim("    ")
        ),
        format!(
            "{}{}|\x1b[32m\x1b[1m+\x1b[0m\x1b[32md\x1b[0m",
            dim("    "),
            dim("2   ")
        ),
        format!("{}{}| \x1b[40m\x1b[4me\x1b[0m", dim("3   "), dim("3   ")),
    ]
    .join("\n");
    assert_eq!(diff.get_terminal_output(), expected);
    console::set_colors_enabled(false);
}

#[test]
fn there_is_a_diff_exactly_where_the_texts_differ() {
    let long: String = (1..=300).map(|n| format!("line {n}\n")).collect();
    let same = vec!["", "text", "a\nb\n", "\n\n\n", " ", long.as_str()];
    for text in &same {
        assert!(Diff::new(text, text).is_none(), "{:?}", text);
    }
    let longer = format!("{long}x");
    let different = vec![
        ("", "a"),
        ("a", ""),
        ("a", "a\n"),
        ("a\n", "a\r\n"),
        ("a\nb\n", "b\na\n"),
        ("a b", "a  b"),
        ("", "\n"),
        (long.as_str(), longer.as_str()),
    ];
    for (old, new) in different {
        let diff = Diff::new(old, new).expect("texts that differ have a diff");
        assert!(!diff.hunks.is_empty(), "{:?} {:?}", old, new);
        assert!(diff.hunks.iter().all(|h| !h.lines.is_empty()));
    }
    assert_eq!(agx::helpers::diff::CONTEXT_LINES, 3);
}

fn lines_of(text: &str) -> Vec<&str> {
    text.split_inclusive('\n').collect()
}

#[test]
fn every_line_of_a_diff_is_a_line_of_the_texts() {
    let long_old: String = (1..=300).map(|n| format!("line {n}\n")).collect();
    let long_new = long_old.replace("line 150\n", "line 150 (changed)\nnew\n");
    let cases = vec![
        ("a\nb\nc\n", "a\nB\nc\n"),
        ("", "only new\n"),
        ("only old", ""),
        ("one two three\nx\n", "one 2 three\nx\ny"),
        ("same\nalpha beta gamma delta\n", "same\nalpha beta gamma epsilon\n"),
        ("a\n\n\nb", "a\n\nb\n"),
        (long_old.as_str(), long_new.as_str()),
    ];
    for (old, new) in cases {
        let diff = Diff::new(old, new).expect("texts that differ have a diff");
        let old_lines = lines_of(old);
        let new_lines = lines_of(new);
        for hunk in &diff.hunks {
            assert!(!hunk.lines.is_empty());
            for line in &hunk.lines {
                let whole: String = line.inline_changes.iter().map(|c| c.value.as_str()).collect();
                match line.kind {
                    DiffOperation::Delete => {
                        assert_eq!(line.new_line_num, None);
                        let n = line.old_line_num.expect("a deleted line has an old number");
                        assert_eq!(whole, old_lines[n]);
                    }
                    DiffOperation::Insert => {
                        assert_eq!(line.old_line_num, None);
                        let n = line.new_line_num.expect("an inserted line has a new number");
                        assert_eq!(whole, new_lines[n]);
                    }
                    DiffOperation::Equal => {
                        let o = line.old_line_num.expect("a line that stayed has an old number");
                        let n = line.new_line_num.expect("a line that stayed has a new number");
                        assert_eq!(whole, old_lines[o]);
                        assert_eq!(whole, new_lines[n]);
                    }
                }
            }
        }
    }
}

#[test]
fn the_lines_of_a_diff_do_not_depend_on_the_run() {
    let old = "fn main() {\n    println!(\"hello\");\n}\n";
    let new = "fn main() {\n    println!(\"hello, world\");\n    return;\n}\n";
    let outline = |d: &Diff| -> Vec<Vec<(DiffOperation, Option<usize>, Option<usize>, String)>> {
        d.hunks
            .iter()
            .map(|h| {
                h.lines
                    .iter()
                    .map(|l| {
                        (
                            l.kind,
                            l.old_line_num,
                            l.new_line_num,
                            l.inline_changes.iter().map(|c| c.value.as_str()).collect(),
                        )
                    })
                    .collect()
            })
            .collect()
    };
    let first = Diff::new(old, new).expect("diff");
    let second = Diff::new(old, new).expect("diff");
    assert_eq!(outline(&first), outline(&second));
    assert_eq!(
        outline(&first),
        vec![vec![
            (DiffOperation::Equal, Some(0), Some(0), "fn main() {\n".to_string()),
            (DiffOperation::Delete, Some(1), None, "    println!(\"hello\");\n".to_string()),
            (
                DiffOperation::Insert,
                None,
                Some(1),
                "    println!(\"hello, world\");\n".to_string()
            ),
            (DiffOperation::Insert, None, Some(2), "    return;\n".to_string()),
            (DiffOperation::Equal, Some(2), Some(3), "}\n".to_string()),
        ]]
    );
}
