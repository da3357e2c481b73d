//! The three boxes of the report for a terminal: the secret, its strength,
//! and its crack times.

use crate::analysis::{SecurityAnalysis, SecurityAnalysisView};
use crate::color::{bold_code, color_code, embolden, free_of_escapes, shows};
use crate::table::{columns_of, layout_of, regular, render, rendered_table, Cell};
use term_table::TableStyle;
use vstd::prelude::*;
use vstd::string::StringExecFns;

verus! {

/// The rows of the password box: a heading, then the secret.
pub open spec fn password_rows(heading: Seq<char>, password: Seq<char>) -> Seq<
    Seq<(Seq<char>, nat)>,
> {
    seq![seq![(heading, 1nat)], seq![(password, 1nat)]]
}

/// The rows of the strength box: a title over both columns, then the level
/// and the guesses figure, each behind its heading.
pub open spec fn analysis_rows(
    strength_heading: Seq<char>,
    strength: Seq<char>,
    guesses_heading: Seq<char>,
    guesses: Seq<char>,
) -> Seq<Seq<(Seq<char>, nat)>> {
    seq![
        seq![("Security Analysis"@, 2nat)],
        seq![(strength_heading, 1nat), (strength, 1nat)],
        seq![(guesses_heading, 1nat), (guesses, 1nat)],
    ]
}

/// The rows of the crack-times box: a title over both columns, then one row
/// per attacker, slowest first, each time behind its heading.
pub open spec fn crack_times_rows(headings: Seq<Seq<char>>, times: Seq<Seq<char>>) -> Seq<
    Seq<(Seq<char>, nat)>,
>
    recommends
        headings.len() == 4,
        times.len() == 4,
{
    seq![
        seq![("Security Analysis"@, 2nat)],
        seq![(headings[0], 1nat), (times[0], 1nat)],
        seq![(headings[1], 1nat), (times[1], 1nat)],
        seq![(headings[2], 1nat), (times[2], 1nat)],
        seq![(headings[3], 1nat), (times[3], 1nat)],
    ]
}

/// The headings of the four attackers, slowest first.
pub open spec fn attacker_headings() -> Seq<Seq<char>> {
    seq![
        "100 attempts/hour"@,
        "10 attempts/second"@,
        "10^4 attempts/second"@,
        "10^10 attempts/second"@,
    ]
}

/// `text` is the password box of `analysis`: the drawing of its rows, whose
/// heading is in bold where the process writes control sequences.
pub open spec fn is_password_box(
    text: Seq<char>,
    analysis: SecurityAnalysisView,
    style: TableStyle,
    max_width: usize,
) -> bool {
    exists|heading: Seq<char>|
        {
            &&& shows(heading, bold_code(), "Generated Password"@)
            &&& text == #[trigger] rendered_table(
                password_rows(heading, analysis.password),
                style,
                max_width,
            )
        }
}

/// `text` is the strength box of `analysis`: the drawing of its rows, with
/// bold headings and the level in its colour where the process writes
/// control sequences.
pub open spec fn is_analysis_box(
    text: Seq<char>,
    analysis: SecurityAnalysisView,
    style: TableStyle,
    max_width: usize,
) -> bool {
    exists|strength_heading: Seq<char>, strength: Seq<char>, guesses_heading: Seq<char>|
        {
            &&& shows(strength_heading, bold_code(), "Strength"@)
            &&& shows(strength, color_code(analysis.strength.highlight()), analysis.strength.label())
            &&& shows(guesses_heading, bold_code(), "Guesses"@)
            &&& text == #[trigger] rendered_table(
                analysis_rows(strength_heading, strength, guesses_heading, analysis.guesses),
                style,
                max_width,
            )
        }
}

/// `text` is the crack-times box of `analysis`: the drawing of its rows, with
/// bold headings where the process writes control sequences and the times as
/// the report holds them.
pub open spec fn is_crack_times_box(
    text: Seq<char>,
    analysis: SecurityAnalysisView,
    style: TableStyle,
    max_width: usize,
) -> bool {
    exists|headings: Seq<Seq<char>>|
        {
            &&& headings.len() == 4
            &&& forall|i: int|
                0 <= i < 4 ==> shows(#[trigger] headings[i], bold_code(), attacker_headings()[i])
            &&& text == #[trigger] rendered_table(
                crack_times_rows(headings, analysis.crack_times.in_order()),
                style,
                max_width,
            )
        }
}

/// `text` is the whole report on `analysis`: the password box, the strength
/// box and the crack-times box, each followed by a line break.
pub open spec fn is_report(
    text: Seq<char>,
    analysis: SecurityAnalysisView,
    style: TableStyle,
    max_width: usize,
) -> bool {
    exists|password_box: Seq<char>, analysis_box: Seq<char>, crack_times_box: Seq<char>|
        {
            &&& #[trigger] is_password_box(password_box, analysis, style, max_width)
            &&& #[trigger] is_analysis_box(analysis_box, analysis, style, max_width)
            &&& #[trigger] is_crack_times_box(crack_times_box, analysis, style, max_width)
            &&& text == password_box + seq!['\n'] + analysis_box + seq!['\n'] + crack_times_box
                + seq!['\n']
        }
}

/// None of the headings holds an escape character.
proof fn lemma_headings_free_of_escapes()
    ensures
        free_of_escapes("Generated Password"@),
        free_of_escapes("Strength"@),
        free_of_escapes("Guesses"@),
        forall|i: int| 0 <= i < 4 ==> free_of_escapes(#[trigger] attacker_headings()[i]),
{
    reveal_strlit("Generated Password");
    reveal_strlit("Strength");
    reveal_strlit("Guesses");
    reveal_strlit("100 attempts/hour");
    reveal_strlit("10 attempts/second");
    reveal_strlit("10^4 attempts/second");
    reveal_strlit("10^10 attempts/second");
}

/// A row of one cell that covers `col_span` columns.
fn single(text: String, col_span: usize) -> (row: Vec<Cell>)
    ensures
        row@.len() == 1,
        row@[0]@ == (text@, col_span as nat),
{
    let mut row: Vec<Cell> = Vec::new();
    row.push(Cell { text, col_span });
    row
}

/// A row of a heading in bold and a value, one column each.
fn headed(heading: &str, value: String) -> (row: Vec<Cell>)
    requires
        free_of_escapes(heading@),
    ensures
        row@.len() == 2,
        shows(row@[0]@.0, bold_code(), heading@),
        row@[0]@.1 == 1,
        row@[1]@ == (value@, 1nat),
{
    let mut row: Vec<Cell> = Vec::new();
    row.push(Cell { text: embolden(heading), col_span: 1 });
    row.push(Cell { text: value, col_span: 1 });
    row
}

impl SecurityAnalysis {
    /// Draws the password box: the heading `Generated Password` over the
    /// secret.
    pub fn display_password_table(&self, table_style: TableStyle, max_width: usize) -> (text:
        String)
        ensures
            is_password_box(text@, self@, table_style, max_width),
    {
        proof {
            lemma_headings_free_of_escapes();
        }
        let mut rows: Vec<Vec<Cell>> = Vec::new();
        rows.push(single(embolden("Generated Password"), 1));
        rows.push(single(self.password.clone(), 1));
        proof {
            let heading = rows@[0]@[0].text@;
            reveal_with_fuel(columns_of, 3);
            assert(layout_of(rows@) =~~= password_rows(heading, self@.password));
            assert(regular(layout_of(rows@)));
        }
        render(&rows, table_style, max_width)
    }

    /// Draws the strength box: the title `Security Analysis`, the level in
    /// its colour behind `Strength`, and the guesses figure behind `Guesses`.
    pub fn display_analysis_table(&self, table_style: TableStyle, max_width: usize) -> (text:
        String)
        ensures
            is_analysis_box(text@, self@, table_style, max_width),
    {
        proof {
            lemma_headings_free_of_escapes();
        }
        let mut rows: Vec<Vec<Cell>> = Vec::new();
        rows.push(single(String::from_str("Security Analysis"), 2));
        rows.push(headed("Strength", self.strength.to_colored_string()));
        rows.push(headed("Guesses", self.guesses.clone()));
        proof {
            reveal_with_fuel(columns_of, 3);
            assert(layout_of(rows@) =~~= analysis_rows(
                rows@[1]@[0].text@,
                rows@[1]@[1].text@,
                rows@[2]@[0].text@,
                self@.guesses,
            ));
            assert(regular(layout_of(rows@)));
        }
        render(&rows, table_style, max_width)
    }

    /// Draws the crack-times box: the title `Security Analysis`, then the
    /// time that each of the four attackers needs, slowest attacker first.
    pub fn display_crack_times_table(&self, table_style: TableStyle, max_width: usize) -> (text:
        String)
        ensures
            is_crack_times_box(text@, self@, table_style, max_width),
    {
        proof {
            lemma_headings_free_of_escapes();
            assert(free_of_escapes(attacker_headings()[0]));
            assert(free_of_escapes(attacker_headings()[1]));
            assert(free_of_escapes(attacker_headings()[2]));
            assert(free_of_escapes(attacker_headings()[3]));
        }
        let times = &self.crack_times;
        let mut rows: Vec<Vec<Cell>> = Vec::new();
        rows.push(single(String::from_str("Security Analysis"), 2));
        rows.push(headed("100 attempts/hour", times.online_throttling_100_per_hour.clone()));
        rows.push(headed("10 attempts/second", times.online_no_throttling_10_per_second.clone()));
        rows.push(
            headed("10^4 attempts/second", times.offline_slow_hashing_1e4_per_second.clone()),
        );
        rows.push(
            headed("10^10 attempts/second", times.offline_fast_hashing_1e10_per_second.clone()),
        );
        proof {
            let headings = seq![
                rows@[1]@[0].text@,
                rows@[2]@[0].text@,
                rows@[3]@[0].text@,
                rows@[4]@[0].text@,
            ];
            reveal_with_fuel(columns_of, 3);
            assert(layout_of(rows@) =~~= crack_times_rows(headings, self@.crack_times.in_order()));
            assert(regular(layout_of(rows@)));
        }
        render(&rows, table_style, max_width)
    }

    /// Draws the whole report: the password box, the strength box and the
    /// crack-times box, each followed by a line break.
    pub fn display_report(&self, table_style: TableStyle, max_width: usize) -> (text: String)
        ensures
            is_report(text@, self@, table_style, max_width),
    {
        let password_box = self.display_password_table(table_style, max_width);
        let analysis_box = self.display_analysis_table(table_style, max_width);
        let crack_times_box = self.display_crack_times_table(table_style, max_width);
        proof {
            reveal_strlit("\n");
            assert("\n"@ =~= seq!['\n']);
        }
        let mut text = password_box;
        text.append("\n");
        text.append(analysis_box.as_str());
        text.append("\n");
        text.append(crack_times_box.as_str());
        text.append("\n");
        text
    }
}

} // verus!
