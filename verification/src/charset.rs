//! The three classes of characters that secrets are drawn from.

use vstd::prelude::*;

verus! {

/// The digits, in the order in which a draw selects them.
pub const NUMBER_CHARS: [char; 10] = ['0', '1', '2', '3', '4', '5', '6', '7', '8', '9'];

/// The letters: the lower case alphabet, then the upper case one.
pub const LETTER_CHARS: [char; 52] = [
    'a', 'b', 'c', 'd', 'e', 'f', 'g', 'h', 'i', 'j', 'k', 'l', 'm', 'n', 'o', 'p', 'q', 'r', 's',
    't', 'u', 'v', 'w', 'x', 'y', 'z', 'A', 'B', 'C', 'D', 'E', 'F', 'G', 'H', 'I', 'J', 'K', 'L',
    'M', 'N', 'O', 'P', 'Q', 'R', 'S', 'T', 'U', 'V', 'W', 'X', 'Y', 'Z',
];

/// The symbols: the ones above the digits of a keyboard.
pub const SYMBOL_CHARS: [char; 10] = ['!', '@', '#', '$', '%', '^', '&', '*', '(', ')'];

/// A Latin letter of either case.
pub open spec fn is_letter(c: char) -> bool {
    ('a' <= c <= 'z') || ('A' <= c <= 'Z')
}

/// A decimal digit.
pub open spec fn is_number(c: char) -> bool {
    '0' <= c <= '9'
}

/// One of the ten symbols.
pub open spec fn is_symbol(c: char) -> bool {
    c == '!' || c == '@' || c == '#' || c == '$' || c == '%' || c == '^' || c == '&' || c == '*'
        || c == '(' || c == ')'
}

/// The three classes of characters that a secret is drawn from.
#[derive(Clone, Copy, Debug, PartialEq, Eq, Structural)]
pub enum CharClass {
    Letters,
    Numbers,
    Symbols,
}

impl CharClass {
    /// The characters of the class, in the order in which a draw selects them.
    pub open spec fn chars(self) -> Seq<char> {
        match self {
            CharClass::Letters => LETTER_CHARS@,
            CharClass::Numbers => NUMBER_CHARS@,
            CharClass::Symbols => SYMBOL_CHARS@,
        }
    }

    /// Whether `c` belongs to the class.
    pub open spec fn has(self, c: char) -> bool {
        match self {
            CharClass::Letters => is_letter(c),
            CharClass::Numbers => is_number(c),
            CharClass::Symbols => is_symbol(c),
        }
    }

    /// The number of characters in the class.
    pub fn len(&self) -> (n: usize)
        ensures
            n == self.chars().len(),
            n > 0,
    {
        match self {
            CharClass::Letters => LETTER_CHARS.len(),
            CharClass::Numbers => NUMBER_CHARS.len(),
            CharClass::Symbols => SYMBOL_CHARS.len(),
        }
    }

    /// The character that the draw `index` selects from the class.
    pub fn char_at(&self, index: usize) -> (c: char)
        requires
            index < self.chars().len(),
        ensures
            c == self.chars()[index as int],
            self.has(c),
    {
        proof {
            lemma_class_members(*self);
            assert(self.chars().contains(self.chars()[index as int]));
        }
        match self {
            CharClass::Letters => LETTER_CHARS[index],
            CharClass::Numbers => NUMBER_CHARS[index],
            CharClass::Symbols => SYMBOL_CHARS[index],
        }
    }
}

/// A class holds exactly the characters that its predicate admits, each of
/// them once.
pub proof fn lemma_class_members(class: CharClass)
    ensures
        forall|c: char| class.chars().contains(c) <==> class.has(c),
        class.chars().no_duplicates(),
        class.chars().len() > 0,
{
    match class {
        CharClass::Letters => {
            assert forall|c: char| is_letter(c) implies LETTER_CHARS@.contains(c) by {
                let i = if c <= 'z' && 'a' <= c {
                    c as int - 'a' as int
                } else {
                    c as int - 'A' as int + 26
                };
                assert(LETTER_CHARS@[i] == c);
            }
        },
        CharClass::Numbers => {
            assert forall|c: char| is_number(c) implies NUMBER_CHARS@.contains(c) by {
                let i = c as int - '0' as int;
                assert(NUMBER_CHARS@[i] == c);
            }
        },
        CharClass::Symbols => {
            assert(SYMBOL_CHARS@[0] == '!');
            assert(SYMBOL_CHARS@[1] == '@');
            assert(SYMBOL_CHARS@[2] == '#');
            assert(SYMBOL_CHARS@[3] == '$');
            assert(SYMBOL_CHARS@[4] == '%');
            assert(SYMBOL_CHARS@[5] == '^');
            assert(SYMBOL_CHARS@[6] == '&');
            assert(SYMBOL_CHARS@[7] == '*');
            assert(SYMBOL_CHARS@[8] == '(');
            assert(SYMBOL_CHARS@[9] == ')');
        },
    }
}

/// No character belongs to two classes.
pub proof fn lemma_classes_disjoint(c: char)
    ensures
        !(is_letter(c) && is_number(c)),
        !(is_letter(c) && is_symbol(c)),
        !(is_number(c) && is_symbol(c)),
{
}

} // verus!
