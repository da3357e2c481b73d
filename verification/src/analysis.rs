//! The report on a secret: what the estimator says of it, classified and
//! bundled, and the same as keys and values.

use crate::strength::{level_of_score, PasswordStrength};
use crate::validate::all_digits;
use vstd::prelude::*;
use vstd::string::{StrSliceExecFns, StringExecFns};
use zxcvbn::{Entropy, ZxcvbnError};

verus! {

#[verifier::external_type_specification]
#[verifier::external_body]
pub struct ExEntropy(Entropy);

/// How long a secret withstands each of four attackers, in the words of the
/// estimator.
pub struct CrackTimes {
    /// An online attack throttled to 100 guesses an hour.
    pub online_throttling_100_per_hour: String,
    /// An online attack at 10 guesses a second.
    pub online_no_throttling_10_per_second: String,
    /// An offline attack on a slow hash, at 10,000 guesses a second.
    pub offline_slow_hashing_1e4_per_second: String,
    /// An offline attack on a fast hash, at 10,000,000,000 guesses a second.
    pub offline_fast_hashing_1e10_per_second: String,
}

/// The texts of a [`CrackTimes`].
pub struct CrackTimesView {
    pub online_throttling_100_per_hour: Seq<char>,
    pub online_no_throttling_10_per_second: Seq<char>,
    pub offline_slow_hashing_1e4_per_second: Seq<char>,
    pub offline_fast_hashing_1e10_per_second: Seq<char>,
}

impl View for CrackTimes {
    type V = CrackTimesView;

    open spec fn view(&self) -> CrackTimesView {
        CrackTimesView {
            online_throttling_100_per_hour: self.online_throttling_100_per_hour@,
            online_no_throttling_10_per_second: self.online_no_throttling_10_per_second@,
            offline_slow_hashing_1e4_per_second: self.offline_slow_hashing_1e4_per_second@,
            offline_fast_hashing_1e10_per_second: self.offline_fast_hashing_1e10_per_second@,
        }
    }
}

/// What the estimator says of one secret.
pub struct EntropyEstimate {
    /// The strength score; the estimator keeps it within `0..=4`.
    pub score: u8,
    /// The base-10 logarithm of the number of guesses, rounded to a whole
    /// number and written in decimal digits.
    pub guesses_log10: String,
    /// The four crack times.
    pub crack_times: CrackTimes,
}

/// Why a secret could not be analysed.
#[derive(Clone, Copy, Debug, PartialEq, Eq, Structural)]
pub enum AnalysisError {
    /// The estimator does not evaluate an empty secret.
    BlankPassword,
    /// The secret has more characters than are handed to the estimator.
    TooLong,
    /// The estimator could not measure its own running time.
    DurationOutOfRange,
    /// The estimator gave a score outside `0..=4`.
    InvalidScore(u8),
}

/// The report on one secret: its strength level, the number of guesses as a
/// power of ten, and the four crack times.
pub struct SecurityAnalysis {
    pub password: String,
    pub strength: PasswordStrength,
    pub guesses: String,
    pub crack_times: CrackTimes,
}

/// The contents of a [`SecurityAnalysis`].
pub struct SecurityAnalysisView {
    pub password: Seq<char>,
    pub strength: PasswordStrength,
    pub guesses: Seq<char>,
    pub crack_times: CrackTimesView,
}

impl View for SecurityAnalysis {
    type V = SecurityAnalysisView;

    open spec fn view(&self) -> SecurityAnalysisView {
        SecurityAnalysisView {
            password: self.password@,
            strength: self.strength,
            guesses: self.guesses@,
            crack_times: self.crack_times@,
        }
    }
}

/// A report as keys and values, for a structured rendering: the label of the
/// strength level, the guesses figure, and the crack times by the names of
/// their attackers.
pub struct StructuredAnalysis {
    pub strength: String,
    pub guesses: String,
    pub crack_times: Vec<(String, String)>,
}

/// The contents of a [`StructuredAnalysis`].
pub struct StructuredAnalysisView {
    pub strength: Seq<char>,
    pub guesses: Seq<char>,
    pub crack_times: Seq<(Seq<char>, Seq<char>)>,
}

impl View for StructuredAnalysis {
    type V = StructuredAnalysisView;

    open spec fn view(&self) -> StructuredAnalysisView {
        StructuredAnalysisView {
            strength: self.strength@,
            guesses: self.guesses@,
            crack_times: Seq::new(
                self.crack_times@.len(),
                |i: int| (self.crack_times@[i].0@, self.crack_times@[i].1@),
            ),
        }
    }
}

/// The names of the four attackers in a structured rendering, slowest first.
pub open spec fn attacker_keys() -> Seq<Seq<char>> {
    seq!["100/h"@, "10/s"@, "10^4/s"@, "10^10/s"@]
}

impl CrackTimesView {
    /// The four crack times, slowest attacker first.
    pub open spec fn in_order(self) -> Seq<Seq<char>> {
        seq![
            self.online_throttling_100_per_hour,
            self.online_no_throttling_10_per_second,
            self.offline_slow_hashing_1e4_per_second,
            self.offline_fast_hashing_1e10_per_second,
        ]
    }
}

/// The structured form of a report.
pub open spec fn structured_form(analysis: SecurityAnalysisView) -> StructuredAnalysisView {
    StructuredAnalysisView {
        strength: analysis.strength.label(),
        guesses: analysis.guesses,
        crack_times: Seq::new(
            4,
            |i: int| (attacker_keys()[i], analysis.crack_times.in_order()[i]),
        ),
    }
}

/// The guesses figure for a rounded logarithm: `10^` and the digits.
pub open spec fn power_of_ten(exponent: Seq<char>) -> Seq<char> {
    seq!['1', '0', '^'] + exponent
}

/// A guesses figure: `10^` before an exponent of one or more decimal digits.
pub open spec fn is_power_of_ten(figure: Seq<char>) -> bool {
    exists|exponent: Seq<char>|
        exponent.len() > 0 && all_digits(exponent) && figure == #[trigger] power_of_ten(exponent)
}

/// The number of characters up to which a secret is handed to the estimator:
/// 20 where `usize` has 64 bits, 12 where it has 32. The estimator works out
/// the factorial of up to as many matches as the secret has characters in
/// `usize`, and powers and products in `u64`, without a check; up to this
/// length none of them can overflow.
pub open spec fn analysed_chars() -> nat {
    if usize::MAX > 0xFFFF_FFFF {
        20
    } else {
        12
    }
}

/// The number of characters up to which a secret is analysed on this
/// machine.
pub fn max_analysed_chars() -> (limit: usize)
    ensures
        limit == analysed_chars(),
{
    if usize::MAX > 0xFFFF_FFFF {
        20
    } else {
        12
    }
}

/// The report that an estimate with a score in `0..=4` gives for a secret.
pub open spec fn report_of(
    password: Seq<char>,
    score: u8,
    guesses_log10: Seq<char>,
    crack_times: CrackTimesView,
) -> SecurityAnalysisView
    recommends
        score <= 4,
{
    SecurityAnalysisView {
        password,
        strength: level_of_score(score as int).unwrap(),
        guesses: power_of_ten(guesses_log10),
        crack_times,
    }
}

/// Calls `zxcvbn::zxcvbn` on the secret, with no user inputs, and tells its
/// two errors apart. Believed of it: an empty secret is refused as blank, and
/// no other secret is; the only other error is that of the clock.
///
/// Longer secrets are left out, because the crate's arithmetic is unchecked
/// in places and overflows on some of them: the factorial of the number of
/// matches, which is at most the number of characters, in `usize`; the
/// keyboard's average degree, 4 or 5, to the power of the turns of a run of
/// keys; and the rank of a dictionary word, at most 30,000, times its
/// variations of case and of substituted characters, each at most two to the
/// number of characters. Within `analysed_chars` all of these fit.
///
/// The crate reads the system clock before and after its work and subtracts
/// the first reading from the second: a clock that is set back in between
/// makes that subtraction panic, which no input causes and no condition on
/// the secret can exclude. The estimate itself depends on the current year,
/// so nothing is said of it.
#[verifier::external_body]
fn estimate_entropy(password: &str) -> (estimate: Result<Entropy, AnalysisError>)
    requires
        password@.len() <= analysed_chars(),
    ensures
        password@.len() == 0 ==> estimate matches Err(AnalysisError::BlankPassword),
        password@.len() > 0 ==> estimate is Ok || estimate matches Err(
            AnalysisError::DurationOutOfRange
        ),
{
    match zxcvbn::zxcvbn(password, &[]) {
        Ok(entropy) => Ok(entropy),
        Err(ZxcvbnError::BlankPassword) => Err(AnalysisError::BlankPassword),
        Err(ZxcvbnError::DurationOutOfRange) => Err(AnalysisError::DurationOutOfRange),
    }
}

/// `Entropy::score` of `zxcvbn`: the crate computes the score from the number
/// of guesses by four thresholds, so it is one of 0, 1, 2, 3, 4.
pub assume_specification[ Entropy::score ](entropy: &Entropy) -> (score: u8)
    ensures
        score <= 4,
;

/// Formats `Entropy::guesses_log10` of `zxcvbn` with no decimal places, as
/// std's formatter rounds it. Believed of it: the text is one or more
/// decimal digits. The crate takes the logarithm of a number of guesses that
/// is at least one, so it is finite and not negative, and with no decimal
/// places the formatter writes the whole number alone. Which digits they
/// are is not claimed.
#[verifier::external_body]
fn rounded_guesses_log10(entropy: &Entropy) -> (text: String)
    ensures
        text@.len() > 0,
        all_digits(text@),
{
    format!("{:.0}", entropy.guesses_log10())
}

/// Takes `Entropy::crack_times` of `zxcvbn` and formats the estimate for each
/// of the four attackers as the crate displays it. Nothing is claimed of the
/// texts.
#[verifier::external_body]
fn crack_times_of(entropy: &Entropy) -> CrackTimes {
    let times = entropy.crack_times();
    CrackTimes {
        online_throttling_100_per_hour: times.online_throttling_100_per_hour().to_string(),
        online_no_throttling_10_per_second: times.online_no_throttling_10_per_second().to_string(),
        offline_slow_hashing_1e4_per_second: times.offline_slow_hashing_1e4_per_second().to_string(),
        offline_fast_hashing_1e10_per_second: times.offline_fast_hashing_1e10_per_second().to_string(),
    }
}

impl SecurityAnalysis {
    /// Bundles an estimate into the report on `password`. The score is
    /// classified, the rounded logarithm becomes a power of ten, and the crack
    /// times pass through unchanged. An estimate whose score lies outside
    /// `0..=4` is refused, with the score in the error.
    pub fn from_estimate(password: &str, estimate: EntropyEstimate) -> (report: Result<
        SecurityAnalysis,
        AnalysisError,
    >)
        ensures
            estimate.score <= 4 ==> report is Ok && report->Ok_0@ == report_of(
                password@,
                estimate.score,
                estimate.guesses_log10@,
                estimate.crack_times@,
            ),
            estimate.score > 4 ==> (report matches Err(AnalysisError::InvalidScore(score))
                && score == estimate.score),
    {
        let strength = match PasswordStrength::from_score(estimate.score) {
            Ok(strength) => strength,
            Err(e) => {
                return Err(AnalysisError::InvalidScore(e.score));
            },
        };
        let guesses = String::from_str("10^").concat(estimate.guesses_log10.as_str());
        proof {
            reveal_strlit("10^");
            assert("10^"@ =~= seq!['1', '0', '^']);
        }
        Ok(
            SecurityAnalysis {
                password: password.to_owned(),
                strength,
                guesses,
                crack_times: estimate.crack_times,
            },
        )
    }

    /// The report as keys and values: the strength under its label, the
    /// guesses figure as the report holds it, and each crack time under the
    /// name of its attacker, slowest attacker first.
    pub fn serialize(&self) -> (fields: StructuredAnalysis)
        ensures
            fields@ == structured_form(self@),
    {
        let times = &self.crack_times;
        let mut crack_times: Vec<(String, String)> = Vec::new();
        crack_times.push((String::from_str("100/h"), times.online_throttling_100_per_hour.clone()));
        crack_times.push(
            (String::from_str("10/s"), times.online_no_throttling_10_per_second.clone()),
        );
        crack_times.push(
            (String::from_str("10^4/s"), times.offline_slow_hashing_1e4_per_second.clone()),
        );
        crack_times.push(
            (String::from_str("10^10/s"), times.offline_fast_hashing_1e10_per_second.clone()),
        );
        let fields = StructuredAnalysis {
            strength: self.strength.to_string(),
            guesses: self.guesses.clone(),
            crack_times,
        };
        assert(fields@.crack_times =~= structured_form(self@).crack_times);
        fields
    }

    /// Asks the estimator about `password` and reports what it says. An empty
    /// secret is refused as blank, and one of more than `analysed_chars`
    /// characters as too long, without asking the estimator. For any other
    /// secret the estimator decides: either its clock fails, or there is a
    /// report on this secret, with a power of ten as its guesses figure.
    pub fn new(password: &str) -> (report: Result<SecurityAnalysis, AnalysisError>)
        ensures
            password@.len() == 0 ==> report matches Err(AnalysisError::BlankPassword),
            password@.len() > analysed_chars() ==> report matches Err(AnalysisError::TooLong),
            0 < password@.len() <= analysed_chars() ==> match report {
                Ok(analysis) => analysis@.password == password@ && is_power_of_ten(
                    analysis@.guesses,
                ),
                Err(e) => e == AnalysisError::DurationOutOfRange,
            },
    {
        if password.unicode_len() > max_analysed_chars() {
            return Err(AnalysisError::TooLong);
        }
        let entropy = match estimate_entropy(password) {
            Ok(entropy) => entropy,
            Err(e) => {
                return Err(e);
            },
        };
        let estimate = EntropyEstimate {
            score: entropy.score(),
            guesses_log10: rounded_guesses_log10(&entropy),
            crack_times: crack_times_of(&entropy),
        };
        let ghost digits = estimate.guesses_log10@;
        let report = SecurityAnalysis::from_estimate(password, estimate);
        assert(report->Ok_0@.guesses == power_of_ten(digits));
        report
    }
}

/// The four attackers go by four different names, so that a map from names
/// to times holds all four.
pub proof fn lemma_attacker_keys_distinct()
    ensures
        attacker_keys().no_duplicates(),
{
    reveal_strlit("100/h");
    reveal_strlit("10/s");
    reveal_strlit("10^4/s");
    reveal_strlit("10^10/s");
    let keys = attacker_keys();
    assert(keys[0].len() == 5 && keys[1].len() == 4 && keys[2].len() == 6 && keys[3].len() == 7);
}

/// The structured form of the report on an estimate reads back as what the
/// estimate said: the label of the level that the score stands for, the
/// guesses figure of the rounded logarithm, and each crack time, word for
/// word, under the name of its attacker.
pub proof fn lemma_structured_form_reads_back(
    password: Seq<char>,
    score: u8,
    guesses_log10: Seq<char>,
    crack_times: CrackTimesView,
)
    requires
        score <= 4,
    ensures
        ({
            let report = report_of(password, score, guesses_log10, crack_times);
            let fields = structured_form(report);
            &&& fields.strength == report.strength.label()
            &&& report.strength.rank() == score
            &&& fields.guesses == report.guesses
            &&& fields.guesses == power_of_ten(guesses_log10)
            &&& fields.crack_times.len() == 4
            &&& forall|i: int|
                0 <= i < 4 ==> #[trigger] fields.crack_times[i] == (
                    attacker_keys()[i],
                    crack_times.in_order()[i],
                )
        }),
{
}

} // verus!
