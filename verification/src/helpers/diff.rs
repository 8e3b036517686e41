//! Line diffs of two texts, and how they are shown.
//!
//! The diff itself comes from the crate `similar`; what is computed here is
//! the layout: the columns of line numbers, the signs, the marks round what
//! changed inside a line, and the rule between hunks.

use crate::text;
use vstd::prelude::*;

verus! {

/// A diff: the hunks in which two texts differ, in order.
#[derive(Debug)]
pub struct Diff {
    pub hunks: Vec<DiffHunk>,
}

/// A run of neighbouring lines, changed ones and the unchanged ones round
/// them.
#[derive(Debug)]
pub struct DiffHunk {
    pub lines: Vec<DiffLine>,
}

/// One line of a diff. The line numbers count from zero; a line that only
/// one of the two texts has carries one number.
#[derive(Debug)]
pub struct DiffLine {
    pub kind: DiffOperation,
    pub old_line_num: Option<usize>,
    pub new_line_num: Option<usize>,
    pub inline_changes: Vec<InlineChange>,
}

/// A piece of a line; `emphasized` where it differs from the line it is held
/// against.
#[derive(Debug)]
pub struct InlineChange {
    pub value: String,
    pub emphasized: bool,
}

/// What happened to a line.
#[derive(Clone, Copy, Debug, PartialEq, Eq, Structural)]
pub enum DiffOperation {
    Insert,
    Delete,
    Equal,
}

/// The colour of a changed line.
#[derive(Clone, Copy, Debug, PartialEq, Eq, Structural)]
pub enum Tint {
    Red,
    Green,
}

/// Ten to the power `k`.
pub open spec fn pow10(k: nat) -> nat
    decreases k,
{
    if k == 0 {
        1
    } else {
        10 * pow10((k - 1) as nat)
    }
}

/// A number below ten to the `k` has at most `k` digits.
pub proof fn lemma_decimal_len(n: nat, k: nat)
    requires
        k >= 1,
        n < pow10(k),
    ensures
        text::decimal(n).len() <= k,
    decreases k,
{
    if n >= 10 {
        assert(pow10(1) == 10) by {
            reveal_with_fuel(pow10, 2);
        }
        assert(k >= 2);
        lemma_decimal_len(n / 10, (k - 1) as nat);
    }
}

/// A number that fits 64 bits has at most 20 digits.
pub proof fn lemma_decimal_len_u64(n: nat)
    requires
        n <= u64::MAX,
    ensures
        1 <= text::decimal(n).len() <= 20,
{
    assert(pow10(20) == 100000000000000000000nat) by {
        reveal_with_fuel(pow10, 21);
    }
    lemma_decimal_len(n, 20);
}

/// The number of decimal digits of `n`.
pub fn num_digits(n: usize) -> (d: usize)
    ensures
        d == text::decimal(n as nat).len(),
        1 <= d <= 20,
    decreases n,
{
    proof {
        lemma_decimal_len_u64(n as nat);
    }
    if n < 10 {
        1
    } else {
        num_digits(n / 10) + 1
    }
}

/// The number that a line carries in a column; zero where it carries none.
pub open spec fn line_num(n: Option<usize>) -> nat {
    match n {
        Some(n) => n as nat,
        None => 0,
    }
}

/// The largest line number among `lines`; zero where there is none.
pub open spec fn largest_in_lines(lines: Seq<DiffLine>) -> nat
    decreases lines.len(),
{
    if lines.len() == 0 {
        0
    } else {
        let rest = largest_in_lines(lines.drop_last());
        let last = lines.last().largest_num();
        if rest >= last {
            rest
        } else {
            last
        }
    }
}

/// The largest line number among the lines of `hunks`; zero where there is
/// none.
pub open spec fn largest_in_hunks(hunks: Seq<DiffHunk>) -> nat
    decreases hunks.len(),
{
    if hunks.len() == 0 {
        0
    } else {
        let rest = largest_in_hunks(hunks.drop_last());
        let last = largest_in_lines(hunks.last().lines@);
        if rest >= last {
            rest
        } else {
            last
        }
    }
}

/// The width of a column for line numbers up to `largest`: two more than
/// the number has digits, and at least four.
pub open spec fn padding_for(largest: nat) -> nat {
    let wanted = text::decimal(largest).len() + 2;
    if wanted >= 4 {
        wanted
    } else {
        4
    }
}

/// A column of line numbers: the number, counted from one and filled up with
/// spaces on the right, or spaces alone where the line has no number there.
pub open spec fn column(n: Option<usize>, padding: nat) -> Seq<char> {
    match n {
        Some(n) => text::pad_right(text::decimal((n + 1) as nat), padding, ' '),
        None => text::repeat(' ', padding),
    }
}

/// The pieces of a line in a row, as they are shown without colour.
pub open spec fn plain_spans(spans: Seq<InlineChange>) -> Seq<char>
    decreases spans.len(),
{
    if spans.len() == 0 {
        Seq::<char>::empty()
    } else {
        plain_spans(spans.drop_last()) + spans.last().plain()
    }
}

/// The lines of a hunk, as they are shown without colour.
pub open spec fn plain_hunk(lines: Seq<DiffLine>, padding: nat) -> Seq<Seq<char>> {
    lines.map_values(|l: DiffLine| l.plain(padding))
}

/// The number of unchanged lines that a hunk shows on either side of a
/// change.
pub const CONTEXT_LINES: usize = 3;

/// The rule between two hunks: eighty hyphens.
pub open spec fn rule() -> Seq<char> {
    text::repeat('-', 80)
}

/// The lines of a diff, as they are shown without colour: those of each
/// hunk, with the rule between two hunks.
pub open spec fn plain_lines(hunks: Seq<DiffHunk>, padding: nat) -> Seq<Seq<char>>
    decreases hunks.len(),
{
    if hunks.len() == 0 {
        Seq::empty()
    } else if hunks.len() == 1 {
        plain_hunk(hunks[0].lines@, padding)
    } else {
        plain_lines(hunks.drop_last(), padding).push(rule()) + plain_hunk(
            hunks.last().lines@,
            padding,
        )
    }
}

impl DiffOperation {
    /// What [`DiffOperation::sign`] returns.
    pub open spec fn sign_text(self) -> Seq<char> {
        match self {
            DiffOperation::Delete => "-"@,
            DiffOperation::Insert => "+"@,
            DiffOperation::Equal => " "@,
        }
    }

    /// The sign in front of a line: `-` for a deleted line, `+` for an
    /// inserted one, a space for one that stayed.
    pub fn sign(&self) -> (s: &'static str)
        ensures
            s@ == self.sign_text(),
    {
        match self {
            DiffOperation::Delete => "-",
            DiffOperation::Insert => "+",
            DiffOperation::Equal => " ",
        }
    }

    /// The colour of a line of this kind; none for one that stayed.
    pub fn tint(&self) -> (t: Option<Tint>)
        ensures
            t == match *self {
                DiffOperation::Delete => Some(Tint::Red),
                DiffOperation::Insert => Some(Tint::Green),
                DiffOperation::Equal => None::<Tint>,
            },
    {
        match self {
            DiffOperation::Delete => Some(Tint::Red),
            DiffOperation::Insert => Some(Tint::Green),
            DiffOperation::Equal => None,
        }
    }
}

impl InlineChange {
    /// Whether `out` is the piece as a terminal shows it on a line of colour
    /// `tint`: the piece without the line feeds at its end, in the colour
    /// of the line, and underlined on a black ground where it is
    /// emphasized. Each style frames the text or leaves it bare (see
    /// [`painted`]); a piece without colour and emphasis is always bare.
    pub open spec fn coloured(self, tint: Option<Tint>, out: Seq<char>) -> bool {
        let v = text::strip_newlines(self.value@);
        match tint {
            Some(t) => if self.emphasized {
                painted(out, v, tint_code(t) + emphasis_code())
            } else {
                painted(out, v, tint_code(t))
            },
            None => if self.emphasized {
                painted(out, v, emphasis_code())
            } else {
                out == v
            },
        }
    }

    /// The piece as it is shown without colour: without the line feeds at
    /// its end, and between corner marks where it is emphasized.
    pub open spec fn plain(self) -> Seq<char> {
        let v = text::strip_newlines(self.value@);
        if self.emphasized {
            "⸢"@ + v + "⸣"@
        } else {
            v
        }
    }
}

impl DiffLine {
    /// The larger of the line's two numbers.
    pub open spec fn largest_num(self) -> nat {
        if line_num(self.old_line_num) >= line_num(self.new_line_num) {
            line_num(self.old_line_num)
        } else {
            line_num(self.new_line_num)
        }
    }

    /// What the line holds apart from the marks inside it: its kind, its
    /// two numbers and its whole text.
    pub open spec fn outline(self) -> (DiffOperation, Option<usize>, Option<usize>, Seq<char>) {
        (self.kind, self.old_line_num, self.new_line_num, whole_text(self.inline_changes@))
    }

    /// Whether the line carries the numbers that go with its kind: a deleted
    /// line a number in the old text only, an inserted line a number in the
    /// new text only, a line that stayed both.
    pub open spec fn numbered(self) -> bool {
        match self.kind {
            DiffOperation::Delete => self.old_line_num is Some && self.new_line_num is None,
            DiffOperation::Insert => self.old_line_num is None && self.new_line_num is Some,
            DiffOperation::Equal => self.old_line_num is Some && self.new_line_num is Some,
        }
    }

    /// The colour of the line.
    pub open spec fn tint(self) -> Option<Tint> {
        match self.kind {
            DiffOperation::Delete => Some(Tint::Red),
            DiffOperation::Insert => Some(Tint::Green),
            DiffOperation::Equal => None,
        }
    }

    /// Whether `parts` are the pieces of the line as a terminal shows them:
    /// the columns of line numbers dim, the sign bold and in the colour of
    /// the line, or bare where the line has no colour, and the pieces of the
    /// text in the colour of the line.
    pub open spec fn shows(self, padding: nat, parts: LineParts) -> bool {
        &&& painted(parts.old_column, column(self.old_line_num, padding), dim_code())
        &&& painted(parts.new_column, column(self.new_line_num, padding), dim_code())
        &&& match self.tint() {
            Some(t) => painted(parts.sign, self.kind.sign_text(), tint_code(t) + bold_code()),
            None => parts.sign == self.kind.sign_text(),
        }
        &&& coloured_spans(self.inline_changes@, self.tint(), parts.spans)
    }

    /// Whether `out` is the line as a terminal shows it.
    pub open spec fn coloured(self, padding: nat, out: Seq<char>) -> bool {
        exists|parts: LineParts| #[trigger] self.shows(padding, parts) && out == parts.joined()
    }

    /// The line as it is shown without colour: the two columns of line
    /// numbers, a bar, the sign, and the pieces.
    pub open spec fn plain(self, padding: nat) -> Seq<char> {
        column(self.old_line_num, padding) + column(self.new_line_num, padding) + "|"@
            + self.kind.sign_text() + plain_spans(self.inline_changes@)
    }
}

/// A column of line numbers.
fn column_chars(n: Option<usize>, padding: usize) -> (out: Vec<char>)
    ensures
        out@ == column(n, padding as nat),
{
    match n {
        Some(n) => {
            let digits = text::decimal_chars(n as u128 + 1);
            text::padded_right(&digits, padding, ' ')
        },
        None => {
            let nothing: Vec<char> = Vec::new();
            let out = text::padded_right(&nothing, padding, ' ');
            assert(out@ =~= text::repeat(' ', padding as nat));
            out
        },
    }
}

/// The code that ends every style.
pub open spec fn style_reset() -> Seq<char> {
    "\x1b[0m"@
}

/// The code that starts a colour.
pub open spec fn tint_code(tint: Tint) -> Seq<char> {
    match tint {
        Tint::Red => "\x1b[31m"@,
        Tint::Green => "\x1b[32m"@,
    }
}

/// Whether `out` is `text` as a terminal shows it in the style that `code`
/// starts: the text between the code and the reset where colours are in
/// use, the text alone where they are not.
pub open spec fn painted(out: Seq<char>, text: Seq<char>, code: Seq<char>) -> bool {
    out == text || out == code + text + style_reset()
}

/// The code that starts dim text.
pub open spec fn dim_code() -> Seq<char> {
    "\x1b[2m"@
}

/// The code that starts bold text.
pub open spec fn bold_code() -> Seq<char> {
    "\x1b[1m"@
}

/// The codes that start underlined text on a black ground.
pub open spec fn emphasis_code() -> Seq<char> {
    "\x1b[40m"@ + "\x1b[4m"@
}

/// The pieces that a line is put together from when it is shown on a
/// terminal: the two columns of line numbers, the sign, and the pieces of
/// the line's text, each as the terminal styling handed it back.
pub struct LineParts {
    pub old_column: Seq<char>,
    pub new_column: Seq<char>,
    pub sign: Seq<char>,
    pub spans: Seq<Seq<char>>,
}

impl LineParts {
    /// The line: the columns, a bar, the sign, and the pieces.
    pub open spec fn joined(self) -> Seq<char> {
        self.old_column + self.new_column + "|"@ + self.sign + text::flatten(self.spans)
    }
}

/// Whether `shown` are the pieces `spans` as a terminal shows them on a line
/// of colour `tint`, one for one.
pub open spec fn coloured_spans(
    spans: Seq<InlineChange>,
    tint: Option<Tint>,
    shown: Seq<Seq<char>>,
) -> bool {
    &&& shown.len() == spans.len()
    &&& forall|i: int| 0 <= i < spans.len() ==> (#[trigger] spans[i]).coloured(tint, shown[i])
}

/// Whether `shown` are the lines of a hunk as a terminal shows them, one for
/// one.
pub open spec fn coloured_hunk(lines: Seq<DiffLine>, padding: nat, shown: Seq<Seq<char>>) -> bool {
    &&& shown.len() == lines.len()
    &&& forall|i: int| 0 <= i < lines.len() ==> (#[trigger] lines[i]).coloured(padding, shown[i])
}

/// Whether `shown` are the lines of a diff as a terminal shows them: those
/// of each hunk, with the rule between two hunks.
pub open spec fn coloured_lines(hunks: Seq<DiffHunk>, padding: nat, shown: Seq<Seq<char>>) -> bool
    decreases hunks.len(),
{
    if hunks.len() == 0 {
        shown.len() == 0
    } else if hunks.len() == 1 {
        coloured_hunk(hunks[0].lines@, padding, shown)
    } else {
        let n = hunks.last().lines@.len();
        &&& shown.len() >= n + 1
        &&& coloured_lines(hunks.drop_last(), padding, shown.take(shown.len() - n - 1))
        &&& shown[shown.len() - n - 1] == rule()
        &&& coloured_hunk(hunks.last().lines@, padding, shown.skip(shown.len() - n))
    }
}

/// The line diff of `old` and `new` as the crate `similar` makes it, with
/// `context` lines of context round each change: for each hunk its lines,
/// and for each line its kind, its number in the old text, its number in the
/// new text, and its whole text.
pub uninterp spec fn line_hunks(old: Seq<char>, new: Seq<char>, context: nat) -> Seq<
    Seq<(DiffOperation, Option<usize>, Option<usize>, Seq<char>)>,
>;

/// The values of the pieces of a line in a row: the whole text of the line.
pub open spec fn whole_text(spans: Seq<InlineChange>) -> Seq<char>
    decreases spans.len(),
{
    if spans.len() == 0 {
        Seq::<char>::empty()
    } else {
        whole_text(spans.drop_last()) + spans.last().value@
    }
}

/// What `hunks` hold line by line, apart from the marks inside the lines:
/// for each hunk its lines, and for each line its kind, its two numbers and
/// its whole text.
pub open spec fn outline(hunks: Seq<DiffHunk>) -> Seq<
    Seq<(DiffOperation, Option<usize>, Option<usize>, Seq<char>)>,
> {
    hunks.map_values(|h: DiffHunk| h.lines@.map_values(|l: DiffLine| l.outline()))
}

/// Whether every hunk has a line, and every line carries the numbers that
/// go with its kind (see [`DiffLine::numbered`]).
pub open spec fn filled(hunks: Seq<DiffHunk>) -> bool {
    forall|i: int|
        0 <= i < hunks.len() ==> (#[trigger] hunks[i]).lines@.len() > 0 && forall|j: int|
            0 <= j < hunks[i].lines@.len() ==> (#[trigger] hunks[i].lines@[j]).numbered()
}

/// Whether `out` is the diff of `old` and `new` as a terminal shows it: some
/// diff with at least one hunk that holds, line by line, what the line diff
/// of the two texts holds (see [`line_hunks`] and [`Diff::shown_in_colour`]).
/// The marks inside the lines are left open.
pub open spec fn shows_diff_of(out: Seq<char>, old: Seq<char>, new: Seq<char>) -> bool {
    exists|d: Diff|
        d.hunks@.len() > 0 && outline(d.hunks@) == line_hunks(old, new, CONTEXT_LINES as nat)
            && #[trigger] d.shown_in_colour(out)
}

/// `console::style(text).dim()`, written out. The crate frames the text with
/// the code for dim and the reset where it finds colours enabled for the
/// standard output, and hands the text back as it is where it does not;
/// which of the two holds the contract leaves open.
#[verifier::external_body]
fn dimmed(text: &str) -> (out: String)
    ensures
        painted(out@, text@, dim_code()),
{
    console::style(text).dim().to_string()
}

/// `console::style(text).fg(colour).bold()`, written out: the text framed by
/// the colour's code, the code for bold and the reset, or the text alone.
#[verifier::external_body]
fn bold_tinted(text: &str, tint: Tint) -> (out: String)
    ensures
        painted(out@, text@, tint_code(tint) + bold_code()),
{
    let colour = match tint {
        Tint::Red => console::Color::Red,
        Tint::Green => console::Color::Green,
    };
    console::style(text).fg(colour).bold().to_string()
}

/// `console::style(text).fg(colour)`, written out: the text framed by the
/// colour's code and the reset, or the text alone.
#[verifier::external_body]
fn tinted(text: &str, tint: Tint) -> (out: String)
    ensures
        painted(out@, text@, tint_code(tint)),
{
    let colour = match tint {
        Tint::Red => console::Color::Red,
        Tint::Green => console::Color::Green,
    };
    console::style(text).fg(colour).to_string()
}

/// `console::style(text).fg(colour).underlined().on_black()`, written out:
/// the text framed by the colour's code, the code for a black ground, the
/// code for underlining and the reset, or the text alone.
#[verifier::external_body]
fn underlined_tinted(text: &str, tint: Tint) -> (out: String)
    ensures
        painted(out@, text@, tint_code(tint) + emphasis_code()),
{
    let colour = match tint {
        Tint::Red => console::Color::Red,
        Tint::Green => console::Color::Green,
    };
    console::style(text).fg(colour).underlined().on_black().to_string()
}

/// `console::style(text).underlined().on_black()`, written out: the text
/// framed by the code for a black ground, the code for underlining and the
/// reset, or the text alone.
#[verifier::external_body]
fn underlined(text: &str) -> (out: String)
    ensures
        painted(out@, text@, emphasis_code()),
{
    console::style(text).underlined().on_black().to_string()
}

/// The tag that `similar` puts on a change.
#[verifier::external_type_specification]
#[verifier::external_body]
pub struct ExChangeTag(similar::ChangeTag);

/// What a tag of `similar` says happened to a line: the variant of the same
/// name.
#[verifier::external_body]
fn operation_of(tag: similar::ChangeTag) -> (kind: DiffOperation) {
    match tag {
        similar::ChangeTag::Delete => DiffOperation::Delete,
        similar::ChangeTag::Insert => DiffOperation::Insert,
        similar::ChangeTag::Equal => DiffOperation::Equal,
    }
}

/// The hunks in which `old` and `new` differ, line by line, with `context`
/// lines of context round each change: `similar::TextDiff::from_lines`,
/// grouped by `grouped_ops(context)`, each operation spread out by
/// `iter_inline_changes`.
///
/// What is claimed of the crate:
/// - The line diff runs without a limit of time, and the grouping hands back
///   no group exactly where every operation of the diff says that the texts
///   agree: so there are no hunks exactly where the two texts are the same.
/// - The lines of the hunks, with the kind, the two numbers and the whole
///   text of each, depend on the two texts and on `context` alone; the
///   contract gives them a name.
/// - A group holds an operation that changes something, so every hunk has a
///   line. A deleted line has a number in the old text only, an inserted
///   line in the new text only, a line that stayed in both.
///
/// The marks inside a line are not promised: `iter_inline_changes` gives up
/// on them when it runs out of time, and hands the line back whole. The
/// grouping doubles `context`, which must not overflow.
#[verifier::external_body]
fn changed_hunks(old: &str, new: &str, context: usize) -> (hunks: Vec<DiffHunk>)
    requires
        2 * context <= usize::MAX,
    ensures
        hunks@.len() == 0 <==> old@ == new@,
        outline(hunks@) == line_hunks(old@, new@, context as nat),
        filled(hunks@),
{
    let diff = similar::TextDiff::from_lines(old, new);
    let mut hunks = Vec::new();
    for group in diff.grouped_ops(context) {
        let mut lines = Vec::new();
        for c in group.iter().flat_map(|op| diff.iter_inline_changes(op)) {
            let spans = c.iter_strings_lossy().map(|(e, v)| InlineChange::new(v.to_string(), e));
            let kind = operation_of(c.tag());
            lines.push(DiffLine::new(kind, c.old_index(), c.new_index(), spans.collect()));
        }
        hunks.push(DiffHunk { lines });
    }
    hunks
}

impl InlineChange {
    /// A piece of a line.
    pub fn new(value: String, emphasized: bool) -> (piece: InlineChange)
        ensures
            piece.value == value,
            piece.emphasized == emphasized,
    {
        InlineChange { value, emphasized }
    }

    /// The piece as it is shown, with colour or without.
    fn render(&self, tint: Option<Tint>, color: bool) -> (out: Vec<char>)
        ensures
            !color ==> out@ == self.plain(),
            color ==> self.coloured(tint, out@),
    {
        let value = text::without_newlines(&text::to_chars(self.value.as_str()));
        if !color {
            if self.emphasized {
                let mut out = text::to_chars("⸢");
                text::extend(&mut out, &value);
                text::extend(&mut out, &text::to_chars("⸣"));
                out
            } else {
                value
            }
        } else {
            let value = text::from_chars(&value);
            let shown = if self.emphasized {
                match tint {
                    Some(t) => underlined_tinted(value.as_str(), t),
                    None => underlined(value.as_str()),
                }
            } else {
                match tint {
                    Some(t) => tinted(value.as_str(), t),
                    None => value,
                }
            };
            text::to_chars(shown.as_str())
        }
    }
}

impl DiffLine {
    /// A line of a diff.
    pub fn new(
        kind: DiffOperation,
        old_line_num: Option<usize>,
        new_line_num: Option<usize>,
        inline_changes: Vec<InlineChange>,
    ) -> (line: DiffLine)
        ensures
            line.kind == kind,
            line.old_line_num == old_line_num,
            line.new_line_num == new_line_num,
            line.inline_changes == inline_changes,
    {
        DiffLine { kind, old_line_num, new_line_num, inline_changes }
    }

    /// The larger of the line's two numbers.
    fn largest(&self) -> (n: usize)
        ensures
            n == self.largest_num(),
    {
        let old = match self.old_line_num {
            Some(n) => n,
            None => 0,
        };
        let new = match self.new_line_num {
            Some(n) => n,
            None => 0,
        };
        if old >= new {
            old
        } else {
            new
        }
    }

    /// The line as it is shown, with colour or without.
    fn render(&self, padding: usize, color: bool) -> (out: Vec<char>)
        ensures
            !color ==> out@ == self.plain(padding as nat),
            color ==> self.coloured(padding as nat, out@),
    {
        let old_column = column_chars(self.old_line_num, padding);
        let new_column = column_chars(self.new_line_num, padding);
        let tint = self.kind.tint();
        let mut out: Vec<char> = Vec::new();
        let ghost mut parts = LineParts {
            old_column: old_column@,
            new_column: new_column@,
            sign: self.kind.sign_text(),
            spans: Seq::empty(),
        };
        if color {
            let old_shown = dimmed(text::from_chars(&old_column).as_str());
            let new_shown = dimmed(text::from_chars(&new_column).as_str());
            text::extend(&mut out, &text::to_chars(old_shown.as_str()));
            text::extend(&mut out, &text::to_chars(new_shown.as_str()));
            text::extend(&mut out, &text::to_chars("|"));
            let sign = match tint {
                Some(t) => bold_tinted(self.kind.sign(), t),
                None => text::owned(self.kind.sign()),
            };
            text::extend(&mut out, &text::to_chars(sign.as_str()));
            proof {
                parts = LineParts {
                    old_column: old_shown@,
                    new_column: new_shown@,
                    sign: sign@,
                    spans: Seq::empty(),
                };
            }
        } else {
            text::extend(&mut out, &old_column);
            text::extend(&mut out, &new_column);
            text::extend(&mut out, &text::to_chars("|"));
            text::extend(&mut out, &text::to_chars(self.kind.sign()));
        }
        let ghost head = out@;
        let mut i: usize = 0;
        assert(self.inline_changes@.take(0) == Seq::<InlineChange>::empty());
        assert(head + Seq::<char>::empty() == head);
        while i < self.inline_changes.len()
            invariant
                i <= self.inline_changes.len(),
                tint == self.tint(),
                !color ==> out@ == head + plain_spans(self.inline_changes@.take(i as int)),
                color ==> out@ == head + text::flatten(parts.spans),
                color ==> coloured_spans(self.inline_changes@.take(i as int), tint, parts.spans),
                head == parts.old_column + parts.new_column + "|"@ + parts.sign,
                color ==> painted(
                    parts.old_column,
                    column(self.old_line_num, padding as nat),
                    dim_code(),
                ),
                color ==> painted(
                    parts.new_column,
                    column(self.new_line_num, padding as nat),
                    dim_code(),
                ),
                color ==> match self.tint() {
                    Some(t) => painted(
                        parts.sign,
                        self.kind.sign_text(),
                        tint_code(t) + bold_code(),
                    ),
                    None => parts.sign == self.kind.sign_text(),
                },
            decreases self.inline_changes.len() - i,
        {
            let ghost before = self.inline_changes@.take(i as int);
            let ghost next = self.inline_changes@.take(i + 1);
            assert(next.drop_last() == before);
            assert(next.last() == self.inline_changes@[i as int]);
            let piece = self.inline_changes[i].render(tint, color);
            assert(head + plain_spans(before) + self.inline_changes@[i as int].plain() == head + (
            plain_spans(before) + self.inline_changes@[i as int].plain()));
            proof {
                let ghost shown = parts.spans;
                assert(shown.push(piece@).drop_last() == shown);
                assert(head + text::flatten(shown) + piece@ == head + (text::flatten(shown)
                    + piece@));
                if color {
                    assert forall|k: int| 0 <= k < next.len() implies (#[trigger] next[k]).coloured(
                        tint,
                        shown.push(piece@)[k],
                    ) by {
                        if k < before.len() {
                            assert(next[k] == before[k]);
                        }
                    }
                }
                parts = LineParts {
                    old_column: parts.old_column,
                    new_column: parts.new_column,
                    sign: parts.sign,
                    spans: shown.push(piece@),
                };
            }
            text::extend(&mut out, &piece);
            i += 1;
        }
        assert(self.inline_changes@.take(self.inline_changes.len() as int)
            == self.inline_changes@);
        proof {
            if color {
                assert(self.shows(padding as nat, parts));
                assert(out@ == parts.joined());
            }
        }
        out
    }
}

impl DiffHunk {
    /// The largest line number in the hunk.
    fn largest(&self) -> (n: usize)
        ensures
            n == largest_in_lines(self.lines@),
    {
        let mut n: usize = 0;
        let mut i: usize = 0;
        assert(self.lines@.take(0) == Seq::<DiffLine>::empty());
        while i < self.lines.len()
            invariant
                i <= self.lines.len(),
                n == largest_in_lines(self.lines@.take(i as int)),
            decreases self.lines.len() - i,
        {
            assert(self.lines@.take(i + 1).drop_last() == self.lines@.take(i as int));
            let m = self.lines[i].largest();
            if m > n {
                n = m;
            }
            i += 1;
        }
        assert(self.lines@.take(self.lines.len() as int) == self.lines@);
        n
    }
}

impl Diff {
    /// The width of the columns of line numbers.
    pub open spec fn padding(self) -> nat {
        padding_for(largest_in_hunks(self.hunks@))
    }

    /// The diff as it is shown without colour: its lines, each ended by a
    /// line feed but the last.
    pub open spec fn plain_output(self) -> Seq<char> {
        text::join(plain_lines(self.hunks@, self.padding()), seq!['\n'])
    }

    /// Whether `out` is the diff as a terminal shows it: its lines, each
    /// ended by a line feed but the last, every piece of every line styled
    /// by the terminal styling, which frames it with its codes or leaves it
    /// bare.
    pub open spec fn shown_in_colour(self, out: Seq<char>) -> bool {
        exists|lines: Seq<Seq<char>>| #[trigger]
            coloured_lines(self.hunks@, self.padding(), lines) && out == text::join(
                lines,
                seq!['\n'],
            )
    }

    /// The diff that holds `hunks`; none where there are no hunks.
    pub fn from_hunks(hunks: Vec<DiffHunk>) -> (diff: Option<Diff>)
        ensures
            hunks@.len() == 0 ==> diff is None,
            hunks@.len() > 0 ==> (diff matches Some(d) && d.hunks == hunks),
    {
        if hunks.len() == 0 {
            None
        } else {
            Some(Diff { hunks })
        }
    }

    /// The diff of `old` and `new`, line by line, with three lines of
    /// context round each change. There is a diff exactly where the two
    /// texts differ. It has at least one hunk, and its hunks hold, line by
    /// line, what the line diff of the crate `similar` holds: the kind, the
    /// two numbers and the whole text of each line. Every hunk has a line,
    /// and every line the numbers that go with its kind. Only the marks
    /// inside the lines are left open.
    pub fn new(old: &str, new: &str) -> (diff: Option<Diff>)
        ensures
            old@ == new@ ==> diff is None,
            old@ != new@ ==> (diff matches Some(d) && d.hunks@.len() > 0 && outline(d.hunks@)
                == line_hunks(old@, new@, CONTEXT_LINES as nat) && filled(d.hunks@)),
    {
        Diff::from_hunks(changed_hunks(old, new, CONTEXT_LINES))
    }

    /// The width of the columns of line numbers: two more than the largest
    /// line number of the diff has digits, and at least four.
    pub fn line_num_padding(&self) -> (width: usize)
        ensures
            width == self.padding(),
            4 <= width <= 22,
    {
        let mut largest: usize = 0;
        let mut i: usize = 0;
        assert(self.hunks@.take(0) == Seq::<DiffHunk>::empty());
        while i < self.hunks.len()
            invariant
                i <= self.hunks.len(),
                largest == largest_in_hunks(self.hunks@.take(i as int)),
            decreases self.hunks.len() - i,
        {
            assert(self.hunks@.take(i + 1).drop_last() == self.hunks@.take(i as int));
            let m = self.hunks[i].largest();
            if m > largest {
                largest = m;
            }
            i += 1;
        }
        assert(self.hunks@.take(self.hunks.len() as int) == self.hunks@);
        let wanted = num_digits(largest) + 2;
        if wanted >= 4 {
            wanted
        } else {
            4
        }
    }

    /// The diff as a terminal shows it, in colour where the terminal takes
    /// colour. An empty diff shows as nothing.
    pub fn get_terminal_output(&self) -> (out: String)
        ensures
            self.shown_in_colour(out@),
            self.hunks@.len() == 0 ==> out@.len() == 0,
    {
        self.get_output(true)
    }

    /// The diff as text. Without colour the text is fixed: see
    /// [`Diff::plain_output`]. With colour each piece is handed to the
    /// terminal styling, which decides by the terminal whether it adds its
    /// codes: see [`Diff::shown_in_colour`].
    pub fn get_output(&self, color: bool) -> (out: String)
        ensures
            !color ==> out@ == self.plain_output(),
            color ==> self.shown_in_colour(out@),
            self.hunks@.len() == 0 ==> out@.len() == 0,
    {
        if self.hunks.len() == 0 {
            proof {
                let none = Seq::<Seq<char>>::empty();
                assert(coloured_lines(self.hunks@, self.padding(), none));
                assert(text::join(none, seq!['\n']) =~= Seq::<char>::empty());
            }
            return String::new();
        }
        let padding = self.line_num_padding();
        let mut lines: Vec<Vec<char>> = Vec::new();
        let mut h: usize = 0;
        assert(self.hunks@.take(0) == Seq::<DiffHunk>::empty());
        while h < self.hunks.len()
            invariant
                h <= self.hunks.len(),
                padding == self.padding(),
                !color ==> text::rows(lines@) == plain_lines(
                    self.hunks@.take(h as int),
                    padding as nat,
                ),
                color ==> coloured_lines(
                    self.hunks@.take(h as int),
                    padding as nat,
                    text::rows(lines@),
                ),
            decreases self.hunks.len() - h,
        {
            let ghost done = self.hunks@.take(h as int);
            let ghost next = self.hunks@.take(h + 1);
            let ghost earlier = text::rows(lines@);
            assert(next.drop_last() == done);
            assert(next.last() == self.hunks@[h as int]);
            if h > 0 {
                let nothing: Vec<char> = Vec::new();
                let dashes = text::padded_right(&nothing, 80, '-');
                assert(dashes@ =~= rule());
                let ghost before = lines@;
                lines.push(dashes);
                assert(text::rows(lines@) == text::rows(before).push(rule()));
            }
            let ghost head = text::rows(lines@);
            let hunk = &self.hunks[h];
            let mut l: usize = 0;
            assert(plain_hunk(hunk.lines@.take(0), padding as nat) == Seq::<Seq<char>>::empty());
            assert(head + Seq::<Seq<char>>::empty() == head);
            assert(text::rows(lines@).skip(head.len() as int) =~= Seq::<Seq<char>>::empty());
            while l < hunk.lines.len()
                invariant
                    l <= hunk.lines.len(),
                    !color ==> text::rows(lines@) == head + plain_hunk(
                        hunk.lines@.take(l as int),
                        padding as nat,
                    ),
                    text::rows(lines@).len() == head.len() + l,
                    text::rows(lines@).take(head.len() as int) == head,
                    color ==> coloured_hunk(
                        hunk.lines@.take(l as int),
                        padding as nat,
                        text::rows(lines@).skip(head.len() as int),
                    ),
                decreases hunk.lines.len() - l,
            {
                let line = hunk.lines[l].render(padding, color);
                let ghost before = lines@;
                let ghost shown_before = text::rows(before).skip(head.len() as int);
                lines.push(line);
                assert(text::rows(lines@) == text::rows(before).push(line@));
                assert(hunk.lines@.take(l + 1) == hunk.lines@.take(l as int).push(
                    hunk.lines@[l as int],
                ));
                assert(plain_hunk(hunk.lines@.take(l + 1), padding as nat) == plain_hunk(
                    hunk.lines@.take(l as int),
                    padding as nat,
                ).push(hunk.lines@[l as int].plain(padding as nat)));
                proof {
                    let shown = text::rows(lines@).skip(head.len() as int);
                    assert(shown =~= shown_before.push(line@));
                    assert(text::rows(lines@).take(head.len() as int) =~= text::rows(before).take(
                        head.len() as int,
                    ));
                    if color {
                        let so_far = hunk.lines@.take(l + 1);
                        assert forall|k: int| 0 <= k < so_far.len() implies (
                        #[trigger] so_far[k]).coloured(padding as nat, shown[k]) by {
                            if k < l {
                                assert(so_far[k] == hunk.lines@.take(l as int)[k]);
                                assert(shown[k] == shown_before[k]);
                            }
                        }
                    }
                }
                l += 1;
            }
            assert(hunk.lines@.take(hunk.lines.len() as int) == hunk.lines@);
            proof {
                let all = text::rows(lines@);
                let n = hunk.lines@.len();
                if h == 0 {
                    assert(next.len() == 1);
                    assert(next[0] == self.hunks@[0]);
                    assert(head == Seq::<Seq<char>>::empty());
                    assert(all.skip(0) =~= all);
                    if !color {
                        assert(head + plain_hunk(hunk.lines@, padding as nat) == plain_hunk(
                            hunk.lines@,
                            padding as nat,
                        ));
                    }
                } else if color {
                    assert(next.len() > 1);
                    assert(head =~= earlier.push(rule()));
                    assert(all.len() - n - 1 == earlier.len());
                    assert(all.take(all.len() - n - 1) =~= earlier) by {
                        assert(all.take(head.len() as int).take(earlier.len() as int) =~= all.take(
                            earlier.len() as int,
                        ));
                    }
                    assert(all[all.len() - n - 1] == rule()) by {
                        assert(all.take(head.len() as int)[earlier.len() as int] == all[earlier.len() as int]);
                    }
                    assert(all.skip(all.len() - n) =~= all.skip(head.len() as int));
                }
            }
            h += 1;
        }
        assert(self.hunks@.take(self.hunks.len() as int) == self.hunks@);
        let mut newline: Vec<char> = Vec::new();
        newline.push('\n');
        assert(newline@ == seq!['\n']);
        let out = text::joined(&lines, &newline);
        text::from_chars(&out)
    }
}

} // verus!
