//! The two generators: passwords drawn from weighted classes of characters,
//! and PINs drawn from the digits.

use crate::charset::{is_letter, is_number, is_symbol, CharClass};
use crate::random::{
    generator_of_seed, seeded_range_draw, seeded_uniform_draw, seeded_weighted_draw,
    total_weight, weights_of, RandomSource, WeightedChoice,
};
use rand::rngs::StdRng;
use vstd::prelude::*;

verus! {

/// `String::push` of std: the character is appended at the end.
pub assume_specification[ String::push ](text: &mut String, ch: char)
    ensures
        final(text)@ == old(text)@.push(ch),
;

/// The classes that a password is drawn from: letters always, then the
/// numbers and the symbols where they are asked for, in this order.
pub open spec fn active_classes(numbers: bool, symbols: bool) -> Seq<CharClass> {
    if numbers && symbols {
        seq![CharClass::Letters, CharClass::Numbers, CharClass::Symbols]
    } else if numbers {
        seq![CharClass::Letters, CharClass::Numbers]
    } else if symbols {
        seq![CharClass::Letters, CharClass::Symbols]
    } else {
        seq![CharClass::Letters]
    }
}

/// The weight of each active class, in the order of the classes: seven parts
/// letters to two of numbers and one of symbols; eight to two where only one
/// of the two is asked for; letters alone otherwise.
pub open spec fn class_weights(numbers: bool, symbols: bool) -> Seq<u32> {
    if numbers && symbols {
        seq![7u32, 2u32, 1u32]
    } else if numbers || symbols {
        seq![8u32, 2u32]
    } else {
        seq![10u32]
    }
}

/// Whether a password with these options may hold `c`: it is a letter, or a
/// number or a symbol where those are asked for.
pub open spec fn allowed(c: char, numbers: bool, symbols: bool) -> bool {
    is_letter(c) || (numbers && is_number(c)) || (symbols && is_symbol(c))
}

/// Each active class has its weight, no weight is zero, and the weights add
/// up to ten.
pub proof fn lemma_weights_match_classes(numbers: bool, symbols: bool)
    ensures
        class_weights(numbers, symbols).len() == active_classes(numbers, symbols).len(),
        forall|i: int|
            0 <= i < class_weights(numbers, symbols).len() ==> class_weights(numbers, symbols)[i]
                > 0,
        total_weight(class_weights(numbers, symbols)) == 10,
{
    reveal_with_fuel(total_weight, 4);
    let weights = class_weights(numbers, symbols);
    if weights.len() == 3 {
        assert(weights.drop_last() =~= seq![7u32, 2u32]);
        assert(weights.drop_last().drop_last() =~= seq![7u32]);
    } else if weights.len() == 2 {
        assert(weights.drop_last() =~= seq![8u32]);
    }
}

/// A character belongs to an active class exactly if the options allow it.
pub proof fn lemma_active_classes_allow(c: char, numbers: bool, symbols: bool)
    ensures
        allowed(c, numbers, symbols) <==> exists|i: int|
            0 <= i < active_classes(numbers, symbols).len() && (#[trigger] active_classes(
                numbers,
                symbols,
            )[i]).has(c),
{
    let classes = active_classes(numbers, symbols);
    if allowed(c, numbers, symbols) {
        if is_letter(c) {
            assert(classes[0].has(c));
        } else if numbers && is_number(c) {
            assert(classes[1].has(c));
        } else {
            assert(classes[classes.len() - 1].has(c));
        }
    }
}

/// With neither numbers nor symbols asked for, only letters are allowed.
pub proof fn lemma_letters_only(c: char)
    ensures
        allowed(c, false, false) <==> is_letter(c),
{
}

/// What is not asked for is not allowed: without numbers no digit, without
/// symbols no symbol.
pub proof fn lemma_disabled_classes_excluded(c: char, numbers: bool, symbols: bool)
    requires
        allowed(c, numbers, symbols),
    ensures
        !numbers ==> !is_number(c),
        !symbols ==> !is_symbol(c),
{
}

/// The PIN of `numbers` digits that a seeded generator in this state gives,
/// and the generator after it. Each digit takes one draw from the range of
/// the ten digits and is the digit at the index drawn; the draws follow one
/// another, first digit first.
pub open spec fn seeded_pin(rng: StdRng, numbers: nat) -> (Seq<char>, StdRng)
    decreases numbers,
{
    if numbers == 0 {
        (Seq::empty(), rng)
    } else {
        let earlier = seeded_pin(rng, (numbers - 1) as nat);
        let draw = seeded_range_draw(earlier.1, 10);
        (earlier.0.push(CharClass::Numbers.chars()[draw.0 as int]), draw.1)
    }
}

/// The password of `characters` characters that a seeded generator in this
/// state gives for the options, and the generator after it. Each character
/// takes two draws: a pick among the active classes by their weights, then a
/// uniform draw of an index into the class picked. The draws follow one
/// another, first character first.
pub open spec fn seeded_password(rng: StdRng, characters: nat, numbers: bool, symbols: bool) -> (
    Seq<char>,
    StdRng,
)
    decreases characters,
{
    if characters == 0 {
        (Seq::empty(), rng)
    } else {
        let earlier = seeded_password(rng, (characters - 1) as nat, numbers, symbols);
        let pick = seeded_weighted_draw(earlier.1, class_weights(numbers, symbols));
        let class = active_classes(numbers, symbols)[pick.0 as int];
        let draw = seeded_uniform_draw(pick.1, class.chars().len() as usize);
        (earlier.0.push(class.chars()[draw.0 as int]), draw.1)
    }
}

/// A seeded PIN has the length asked for.
pub proof fn lemma_seeded_pin_length(rng: StdRng, numbers: nat)
    ensures
        seeded_pin(rng, numbers).0.len() == numbers,
    decreases numbers,
{
    if numbers > 0 {
        lemma_seeded_pin_length(rng, (numbers - 1) as nat);
    }
}

/// A seeded password has the length asked for.
pub proof fn lemma_seeded_password_length(
    rng: StdRng,
    characters: nat,
    numbers: bool,
    symbols: bool,
)
    ensures
        seeded_password(rng, characters, numbers, symbols).0.len() == characters,
    decreases characters,
{
    if characters > 0 {
        lemma_seeded_password_length(rng, (characters - 1) as nat, numbers, symbols);
    }
}

/// The first digits of a PIN do not depend on how many more are asked for:
/// from one generator, the shorter PIN is the start of the longer one.
pub proof fn lemma_seeded_pin_prefix(rng: StdRng, shorter: nat, longer: nat)
    requires
        shorter <= longer,
    ensures
        seeded_pin(rng, shorter).0 == seeded_pin(rng, longer).0.take(shorter as int),
    decreases longer,
{
    lemma_seeded_pin_length(rng, longer);
    if shorter == longer {
        assert(seeded_pin(rng, longer).0.take(longer as int) =~= seeded_pin(rng, longer).0);
    } else {
        let earlier = seeded_pin(rng, (longer - 1) as nat);
        lemma_seeded_pin_prefix(rng, shorter, (longer - 1) as nat);
        lemma_seeded_pin_length(rng, (longer - 1) as nat);
        assert(seeded_pin(rng, longer).0.take(shorter as int) =~= earlier.0.take(shorter as int));
    }
}

/// The first characters of a password do not depend on how many more are
/// asked for: from one generator and with the same options, the shorter
/// password is the start of the longer one.
pub proof fn lemma_seeded_password_prefix(
    rng: StdRng,
    shorter: nat,
    longer: nat,
    numbers: bool,
    symbols: bool,
)
    requires
        shorter <= longer,
    ensures
        seeded_password(rng, shorter, numbers, symbols).0 == seeded_password(
            rng,
            longer,
            numbers,
            symbols,
        ).0.take(shorter as int),
    decreases longer,
{
    let whole = seeded_password(rng, longer, numbers, symbols).0;
    lemma_seeded_password_length(rng, longer, numbers, symbols);
    if shorter == longer {
        assert(whole.take(longer as int) =~= whole);
    } else {
        let earlier = seeded_password(rng, (longer - 1) as nat, numbers, symbols);
        lemma_seeded_password_prefix(rng, shorter, (longer - 1) as nat, numbers, symbols);
        lemma_seeded_password_length(rng, (longer - 1) as nat, numbers, symbols);
        assert(whole.take(shorter as int) =~= earlier.0.take(shorter as int));
    }
}

/// PINs drawn one after another continue the same run of draws: a PIN of
/// `first` digits and then one of `second` digits from the generator that the
/// first call left are together the PIN of `first + second` digits, and leave
/// the same generator.
pub proof fn lemma_seeded_pin_continues(rng: StdRng, first: nat, second: nat)
    ensures
        seeded_pin(rng, first + second).0 == seeded_pin(rng, first).0 + seeded_pin(
            seeded_pin(rng, first).1,
            second,
        ).0,
        seeded_pin(rng, first + second).1 == seeded_pin(seeded_pin(rng, first).1, second).1,
    decreases second,
{
    let left = seeded_pin(rng, first);
    if second == 0 {
        assert(left.0 + Seq::<char>::empty() =~= left.0);
    } else {
        lemma_seeded_pin_continues(rng, first, (second - 1) as nat);
        let earlier = seeded_pin(left.1, (second - 1) as nat);
        let draw = seeded_range_draw(earlier.1, 10);
        let digit = CharClass::Numbers.chars()[draw.0 as int];
        assert((left.0 + earlier.0).push(digit) =~= left.0 + earlier.0.push(digit));
    }
}

/// Seeded generation repeats: two sources made of equal seeds give, for equal
/// lengths and options, equal PINs and equal passwords, and equal generators
/// afterwards, so that whatever is generated next is equal again.
pub proof fn lemma_equal_seeds_equal_secrets(
    seed: u64,
    other_seed: u64,
    length: nat,
    numbers: bool,
    symbols: bool,
)
    requires
        seed == other_seed,
    ensures
        RandomSource::Seeded(generator_of_seed(seed)) == RandomSource::Seeded(
            generator_of_seed(other_seed),
        ),
        seeded_pin(generator_of_seed(seed), length) == seeded_pin(
            generator_of_seed(other_seed),
            length,
        ),
        seeded_password(generator_of_seed(seed), length, numbers, symbols) == seeded_password(
            generator_of_seed(other_seed),
            length,
            numbers,
            symbols,
        ),
{
}

/// The active classes for the options.
pub fn available_sets(numbers: bool, symbols: bool) -> (sets: Vec<CharClass>)
    ensures
        sets@ == active_classes(numbers, symbols),
{
    let mut sets: Vec<CharClass> = Vec::new();
    sets.push(CharClass::Letters);
    if numbers {
        sets.push(CharClass::Numbers);
    }
    if symbols {
        sets.push(CharClass::Symbols);
    }
    sets
}

/// The weights of the active classes for the options.
pub fn weights_for(numbers: bool, symbols: bool) -> (weights: Vec<u32>)
    ensures
        weights@ == class_weights(numbers, symbols),
{
    let mut weights: Vec<u32> = Vec::new();
    if numbers && symbols {
        weights.push(7);
        weights.push(2);
        weights.push(1);
    } else if numbers || symbols {
        weights.push(8);
        weights.push(2);
    } else {
        weights.push(10);
    }
    weights
}

/// Draws a PIN of `numbers` digits: each digit is one draw from the range of
/// the ten digits. No length is refused here; zero gives the empty string
/// and leaves the source as it was, and limits on the length are the
/// caller's to set. With a seeded source the PIN and the source afterwards
/// are the ones that its generator determines; with the system source every
/// digit is some digit.
pub fn pin_password(rng: &mut RandomSource, numbers: u32) -> (pin: String)
    ensures
        pin@.len() == numbers,
        forall|i: int| 0 <= i < pin@.len() ==> '0' <= #[trigger] pin@[i] <= '9',
        numbers == 0 ==> *final(rng) == *old(rng),
        match *old(rng) {
            RandomSource::Seeded(generator) => pin@ == seeded_pin(generator, numbers as nat).0
                && *final(rng) == RandomSource::Seeded(seeded_pin(generator, numbers as nat).1),
            RandomSource::System(_) => *final(rng) is System,
        },
{
    let digits = CharClass::Numbers;
    let mut pin = String::new();
    let mut drawn: u32 = 0;
    while drawn < numbers
        invariant
            drawn <= numbers,
            digits == CharClass::Numbers,
            pin@.len() == drawn,
            forall|i: int| 0 <= i < pin@.len() ==> '0' <= #[trigger] pin@[i] <= '9',
            drawn == 0 ==> *rng == *old(rng),
            match *old(rng) {
                RandomSource::Seeded(generator) => pin@ == seeded_pin(generator, drawn as nat).0
                    && *rng == RandomSource::Seeded(seeded_pin(generator, drawn as nat).1),
                RandomSource::System(_) => *rng is System,
            },
        decreases numbers - drawn,
    {
        let index = rng.range_index(digits.len());
        pin.push(digits.char_at(index));
        drawn = drawn + 1;
    }
    pin
}

/// Draws a password of `characters` characters. Each character takes two
/// draws: one of a class among the active ones, by their weights, and one of
/// a character within that class, all alike. Letters are always active,
/// numbers and symbols where they are asked for. Nothing is checked after
/// the draws, so a class that is asked for may happen not to occur. No length
/// is refused here; zero gives the empty string and leaves the source as it
/// was, and limits on the length are the caller's to set. With a seeded
/// source the password and the source afterwards are the ones that its
/// generator determines, the picks going by the weights of the options; with
/// the system source every character is some allowed character.
pub fn random_password(
    rng: &mut RandomSource,
    characters: u32,
    numbers: bool,
    symbols: bool,
) -> (password: String)
    ensures
        password@.len() == characters,
        forall|i: int|
            0 <= i < password@.len() ==> allowed(#[trigger] password@[i], numbers, symbols),
        characters == 0 ==> *final(rng) == *old(rng),
        match *old(rng) {
            RandomSource::Seeded(generator) => password@ == seeded_password(
                generator,
                characters as nat,
                numbers,
                symbols,
            ).0 && *final(rng) == RandomSource::Seeded(
                seeded_password(generator, characters as nat, numbers, symbols).1,
            ),
            RandomSource::System(_) => *final(rng) is System,
        },
{
    let available_sets = available_sets(numbers, symbols);
    let weights = weights_for(numbers, symbols);
    proof {
        lemma_weights_match_classes(numbers, symbols);
    }
    let dist_set = WeightedChoice::new(&weights).expect("weights should be valid");
    let mut password = String::new();
    let mut drawn: u32 = 0;
    while drawn < characters
        invariant
            drawn <= characters,
            available_sets@ == active_classes(numbers, symbols),
            weights_of(dist_set) == class_weights(numbers, symbols),
            weights_of(dist_set).len() == available_sets@.len(),
            drawn == 0 ==> *rng == *old(rng),
            match *old(rng) {
                RandomSource::Seeded(generator) => password@ == seeded_password(
                    generator,
                    drawn as nat,
                    numbers,
                    symbols,
                ).0 && *rng == RandomSource::Seeded(
                    seeded_password(generator, drawn as nat, numbers, symbols).1,
                ),
                RandomSource::System(_) => *rng is System,
            },
            password@.len() == drawn,
            forall|i: int|
                0 <= i < password@.len() ==> allowed(#[trigger] password@[i], numbers, symbols),
        decreases characters - drawn,
    {
        let selected_set = available_sets[rng.weighted_index(&dist_set)];
        let index = rng.uniform_index(selected_set.len());
        let c = selected_set.char_at(index);
        proof {
            lemma_active_classes_allow(c, numbers, symbols);
        }
        password.push(c);
        drawn = drawn + 1;
    }
    password
}

} // verus!
