//! The five strength levels and the classification of scores.

use crate::color::{color_code, free_of_escapes, paint, shows, Color};
use std::cmp::Ordering;
use vstd::prelude::*;
use vstd::std_specs::cmp::{PartialOrdSpec, PartialOrdSpecImpl};

verus! {

/// The five levels of resistance to guessing, weakest first.
#[derive(Clone, Copy, Debug, PartialEq, Eq, Structural, Ord, Hash)]
pub enum PasswordStrength {
    VeryWeak,
    Weak,
    Reasonable,
    Strong,
    VeryStrong,
}

/// The rejection of a strength score that lies outside `0..=4`.
#[derive(Clone, Copy, Debug, PartialEq, Eq, Structural)]
pub struct InvalidScore {
    /// The score that was rejected.
    pub score: u8,
}

/// The level that a score stands for; scores above 4 stand for none.
pub open spec fn level_of_score(score: int) -> Option<PasswordStrength> {
    if score == 0 {
        Some(PasswordStrength::VeryWeak)
    } else if score == 1 {
        Some(PasswordStrength::Weak)
    } else if score == 2 {
        Some(PasswordStrength::Reasonable)
    } else if score == 3 {
        Some(PasswordStrength::Strong)
    } else if score == 4 {
        Some(PasswordStrength::VeryStrong)
    } else {
        None
    }
}

impl PasswordStrength {
    /// The position of the level in the taxonomy, 0 for the weakest.
    pub open spec fn rank(self) -> int {
        match self {
            PasswordStrength::VeryWeak => 0,
            PasswordStrength::Weak => 1,
            PasswordStrength::Reasonable => 2,
            PasswordStrength::Strong => 3,
            PasswordStrength::VeryStrong => 4,
        }
    }

    /// The text under which the level is reported.
    pub open spec fn label(self) -> Seq<char> {
        match self {
            PasswordStrength::VeryWeak => "very week"@,
            PasswordStrength::Weak => "week"@,
            PasswordStrength::Reasonable => "reasonable"@,
            PasswordStrength::Strong => "strong"@,
            PasswordStrength::VeryStrong => "very strong"@,
        }
    }

    /// The colour in which the level is shown: red shades for the weak levels,
    /// yellow in the middle, green shades for the strong ones.
    pub open spec fn highlight(self) -> Color {
        match self {
            PasswordStrength::VeryWeak => Color::Red,
            PasswordStrength::Weak => Color::BrightRed,
            PasswordStrength::Reasonable => Color::Yellow,
            PasswordStrength::Strong => Color::BrightGreen,
            PasswordStrength::VeryStrong => Color::Green,
        }
    }

    /// Classifies a score of the estimator. Every score in `0..=4` has its
    /// level; any other score is rejected and handed back in the error.
    pub fn from_score(score: u8) -> (level: Result<PasswordStrength, InvalidScore>)
        ensures
            match level {
                Ok(strength) => level_of_score(score as int) == Some(strength),
                Err(e) => level_of_score(score as int) is None && e.score == score,
            },
    {
        match score {
            0 => Ok(PasswordStrength::VeryWeak),
            1 => Ok(PasswordStrength::Weak),
            2 => Ok(PasswordStrength::Reasonable),
            3 => Ok(PasswordStrength::Strong),
            4 => Ok(PasswordStrength::VeryStrong),
            _ => Err(InvalidScore { score }),
        }
    }

    /// The level of a score that is known to lie in `0..=4`. Other scores
    /// are a fault of the caller and are left out.
    pub fn from(score: u8) -> (level: PasswordStrength)
        requires
            score <= 4,
        ensures
            level_of_score(score as int) == Some(level),
            level.rank() == score,
    {
        PasswordStrength::from_score(score).expect("invalid score")
    }

    /// The score that this level classifies.
    pub fn score(&self) -> (score: u8)
        ensures
            score == self.rank(),
    {
        match self {
            PasswordStrength::VeryWeak => 0,
            PasswordStrength::Weak => 1,
            PasswordStrength::Reasonable => 2,
            PasswordStrength::Strong => 3,
            PasswordStrength::VeryStrong => 4,
        }
    }

    /// The label of the level as an owned string.
    pub fn to_string(&self) -> (text: String)
        ensures
            text@ == self.label(),
    {
        let label: &str = match self {
            PasswordStrength::VeryWeak => "very week",
            PasswordStrength::Weak => "week",
            PasswordStrength::Reasonable => "reasonable",
            PasswordStrength::Strong => "strong",
            PasswordStrength::VeryStrong => "very strong",
        };
        label.to_owned()
    }
}

impl PasswordStrength {
    /// The colour in which the level is shown.
    pub fn color(&self) -> (color: Color)
        ensures
            color == self.highlight(),
    {
        match self {
            PasswordStrength::VeryWeak => Color::Red,
            PasswordStrength::Weak => Color::BrightRed,
            PasswordStrength::Reasonable => Color::Yellow,
            PasswordStrength::Strong => Color::BrightGreen,
            PasswordStrength::VeryStrong => Color::Green,
        }
    }

    /// The label of the level for a terminal: in the colour of the level
    /// where the process writes colours, bare where it does not.
    pub fn to_colored_string(&self) -> (shown: String)
        ensures
            shows(shown@, color_code(self.highlight()), self.label()),
    {
        let label = self.to_string();
        proof {
            lemma_labels_free_of_escapes(*self);
        }
        paint(label.as_str(), self.color())
    }
}

/// No label holds an escape character.
pub proof fn lemma_labels_free_of_escapes(level: PasswordStrength)
    ensures
        free_of_escapes(level.label()),
{
    reveal_strlit("very week");
    reveal_strlit("week");
    reveal_strlit("reasonable");
    reveal_strlit("strong");
    reveal_strlit("very strong");
}

impl PartialOrd for PasswordStrength {
    fn partial_cmp(&self, other: &Self) -> (order: Option<Ordering>) {
        let left: u8 = self.score();
        let right: u8 = other.score();
        if left < right {
            Some(Ordering::Less)
        } else if left == right {
            Some(Ordering::Equal)
        } else {
            Some(Ordering::Greater)
        }
    }
}

impl PartialOrdSpecImpl for PasswordStrength {
    open spec fn obeys_partial_cmp_spec() -> bool {
        true
    }

    open spec fn partial_cmp_spec(&self, other: &Self) -> Option<Ordering> {
        if self.rank() < other.rank() {
            Some(Ordering::Less)
        } else if self.rank() == other.rank() {
            Some(Ordering::Equal)
        } else {
            Some(Ordering::Greater)
        }
    }
}

/// Classification is total on `0..=4` and nowhere else, and it gives each
/// score the level of that rank.
pub proof fn lemma_classification_total(score: int)
    ensures
        level_of_score(score) is Some <==> 0 <= score <= 4,
        level_of_score(score) matches Some(level) ==> level.rank() == score,
        level_of_score(0) == Some(PasswordStrength::VeryWeak),
        level_of_score(4) == Some(PasswordStrength::VeryStrong),
{
}

/// The whole of the classification: the scores 0, 1, 2, 3, 4 stand for the
/// five levels from very weak to very strong, each level below the next in
/// the order that `<` decides, and no other score stands for a level.
pub proof fn lemma_classification_chain()
    ensures
        level_of_score(0) == Some(PasswordStrength::VeryWeak),
        level_of_score(1) == Some(PasswordStrength::Weak),
        level_of_score(2) == Some(PasswordStrength::Reasonable),
        level_of_score(3) == Some(PasswordStrength::Strong),
        level_of_score(4) == Some(PasswordStrength::VeryStrong),
        forall|score: int|
            0 <= score < 4 ==> PartialOrdSpec::partial_cmp_spec(
                &(#[trigger] level_of_score(score)).unwrap(),
                &level_of_score(score + 1).unwrap(),
            ) == Some(Ordering::Less),
        forall|score: int| score < 0 || score > 4 ==> (#[trigger] level_of_score(score)) is None,
{
}

/// Classification preserves order: of two scores in `0..=4` the smaller one
/// has the weaker level, in the order that `<` decides on levels.
pub proof fn lemma_classification_preserves_order(low: int, high: int)
    requires
        0 <= low <= 4,
        0 <= high <= 4,
    ensures
        low < high <==> level_of_score(low).unwrap().rank() < level_of_score(high).unwrap().rank(),
        low < high <==> PartialOrdSpec::partial_cmp_spec(
            &level_of_score(low).unwrap(),
            &level_of_score(high).unwrap(),
        ) == Some(Ordering::Less),
{
}

} // verus!
