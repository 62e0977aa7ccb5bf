//! The password generator and its settings.

use vstd::prelude::*;
use vstd::string::StringExecFns;
use rand::SeedableRng;
use rand::rngs::OsRng;
use rand::seq::SliceRandom;
use rand_chacha::ChaCha20Rng;
use crate::_vault::ABSOLUTE_MAX_LENGTH;
use crate::_vault::ABSOLUTE_MIN_LENGTH;
use crate::_vault::DEFAULT_LENGTH;
use crate::error::password_generation_error::PasswordGenerationError;

verus! {

/// What a user chooses for generated passwords.
#[derive(Debug, Clone)]
pub struct PasswordGeneratorSettings {
    pub length: usize,
    pub use_lowercase: bool,
    pub use_uppercase: bool,
    pub use_numbers: bool,
    pub use_symbols: bool,
    pub min_numbers: usize,
    pub min_symbols: usize,
    pub exclude_ambiguous: bool,
}

/// The characters that passwords are drawn from, and the groups of
/// characters that look alike.
#[derive(Debug, Clone)]
pub struct CharacterSets {
    pub(crate) lowercase: Vec<char>,
    pub(crate) uppercase: Vec<char>,
    pub(crate) numbers: Vec<char>,
    pub(crate) symbols: Vec<char>,
    pub(crate) ambiguous: Vec<Vec<char>>,
}

/// What a [`CharacterSets`] holds, as plain values.
pub struct CharacterSetsView {
    pub lowercase: Seq<char>,
    pub uppercase: Seq<char>,
    pub numbers: Seq<char>,
    pub symbols: Seq<char>,
    pub ambiguous: Seq<Seq<char>>,
}

impl View for CharacterSets {
    type V = CharacterSetsView;

    closed spec fn view(&self) -> CharacterSetsView {
        CharacterSetsView {
            lowercase: self.lowercase@,
            uppercase: self.uppercase@,
            numbers: self.numbers@,
            symbols: self.symbols@,
            ambiguous: Seq::new(self.ambiguous@.len(), |i: int| self.ambiguous@[i]@),
        }
    }
}

/// The length that the chosen sets and minimums need: one for each of
/// lowercase and uppercase where chosen, the minimums of digits and symbols
/// where chosen, and never less than the smallest allowed length.
pub open spec fn required_length(settings: PasswordGeneratorSettings) -> int {
    let from_sets = (if settings.use_lowercase {
        1int
    } else {
        0int
    }) + (if settings.use_uppercase {
        1int
    } else {
        0int
    }) + (if settings.use_numbers {
        settings.min_numbers as int
    } else {
        0int
    }) + (if settings.use_symbols {
        settings.min_symbols as int
    } else {
        0int
    });
    if from_sets < ABSOLUTE_MIN_LENGTH {
        ABSOLUTE_MIN_LENGTH as int
    } else {
        from_sets
    }
}

/// The required length as far as a machine word holds it.
pub open spec fn required_length_capped(settings: PasswordGeneratorSettings) -> usize {
    if required_length(settings) > usize::MAX {
        usize::MAX
    } else {
        required_length(settings) as usize
    }
}

/// Why settings are refused; `None` where they are accepted. The length is
/// judged first, then the choice of sets, then the minimums.
pub open spec fn settings_fault(settings: PasswordGeneratorSettings) -> Option<
    PasswordGenerationError,
> {
    if settings.length < ABSOLUTE_MIN_LENGTH {
        Some(PasswordGenerationError::LengthTooShort(settings.length))
    } else if settings.length > ABSOLUTE_MAX_LENGTH {
        Some(PasswordGenerationError::LengthTooLong(settings.length))
    } else if !settings.use_lowercase && !settings.use_uppercase && !settings.use_numbers
        && !settings.use_symbols {
        Some(PasswordGenerationError::EmptyCharacterSet)
    } else if settings.length < required_length(settings) {
        Some(
            PasswordGenerationError::ExcessiveMinimums(
                required_length_capped(settings),
                settings.length,
            ),
        )
    } else {
        None
    }
}

/// A configurable generator of passwords.
#[derive(Debug, Clone)]
pub struct PasswordGenerator {
    min_required: usize,
    length: usize,
    use_lowercase: bool,
    use_uppercase: bool,
    use_numbers: bool,
    use_symbols: bool,
    pub(crate) min_numbers: usize,
    pub(crate) min_symbols: usize,
    exclude_ambiguous: bool,
    pub(crate) available_chars: CharacterSets,
}

/// What a [`PasswordGenerator`] holds, as plain values.
pub struct PasswordGeneratorView {
    pub min_required: usize,
    pub settings: PasswordGeneratorSettings,
    pub available_chars: CharacterSetsView,
}

impl View for PasswordGenerator {
    type V = PasswordGeneratorView;

    closed spec fn view(&self) -> PasswordGeneratorView {
        PasswordGeneratorView {
            min_required: self.min_required,
            settings: PasswordGeneratorSettings {
                length: self.length,
                use_lowercase: self.use_lowercase,
                use_uppercase: self.use_uppercase,
                use_numbers: self.use_numbers,
                use_symbols: self.use_symbols,
                min_numbers: self.min_numbers,
                min_symbols: self.min_symbols,
                exclude_ambiguous: self.exclude_ambiguous,
            },
            available_chars: self.available_chars@,
        }
    }
}

impl PasswordGenerator {
    /// The length that `settings` need.
    fn calculate_min_required(&self, settings: &PasswordGeneratorSettings) -> (required: usize)
        ensures
            required == required_length_capped(*settings),
    {
        let mut required_from_sets: usize = 0;
        if settings.use_lowercase {
            required_from_sets = required_from_sets.saturating_add(1);
        }
        if settings.use_uppercase {
            required_from_sets = required_from_sets.saturating_add(1);
        }
        if settings.use_numbers {
            required_from_sets = required_from_sets.saturating_add(settings.min_numbers);
        }
        if settings.use_symbols {
            required_from_sets = required_from_sets.saturating_add(settings.min_symbols);
        }
        if required_from_sets < ABSOLUTE_MIN_LENGTH {
            ABSOLUTE_MIN_LENGTH
        } else {
            required_from_sets
        }
    }

    /// Takes over `settings` if they are acceptable, and changes nothing if
    /// they are not.
    pub fn configure(&mut self, settings: PasswordGeneratorSettings) -> (configured: Result<
        (),
        PasswordGenerationError,
    >)
        ensures
            match configured {
                Ok(()) => {
                    &&& settings_fault(settings) is None
                    &&& final(self)@.settings == settings
                    &&& final(self)@.min_required == required_length(settings)
                    &&& final(self)@.available_chars == old(self)@.available_chars
                },
                Err(e) => settings_fault(settings) == Some(e) && final(self)@ == old(self)@,
            },
    {
        match self.validate_settings(&settings) {
            Ok(()) => {},
            Err(e) => {
                return Err(e);
            },
        }
        self.length = settings.length;
        self.use_lowercase = settings.use_lowercase;
        self.use_uppercase = settings.use_uppercase;
        self.use_numbers = settings.use_numbers;
        self.use_symbols = settings.use_symbols;
        self.min_numbers = settings.min_numbers;
        self.min_symbols = settings.min_symbols;
        self.exclude_ambiguous = settings.exclude_ambiguous;
        self.min_required = self.calculate_min_required(&settings);
        Ok(())
    }

    /// The character sets that passwords are drawn from.
    pub fn available_chars(&self) -> (sets: &CharacterSets)
        ensures
            sets@ == self@.available_chars,
    {
        &self.available_chars
    }

    /// The settings in force.
    pub fn get_settings(&self) -> (settings: PasswordGeneratorSettings)
        ensures
            settings == self@.settings,
    {
        PasswordGeneratorSettings {
            length: self.length,
            use_lowercase: self.use_lowercase,
            use_uppercase: self.use_uppercase,
            use_numbers: self.use_numbers,
            use_symbols: self.use_symbols,
            min_numbers: self.min_numbers,
            min_symbols: self.min_symbols,
            exclude_ambiguous: self.exclude_ambiguous,
        }
    }

    /// Judges `settings` without taking them over.
    fn validate_settings(&self, settings: &PasswordGeneratorSettings) -> (checked: Result<
        (),
        PasswordGenerationError,
    >)
        ensures
            match checked {
                Ok(()) => settings_fault(*settings) is None,
                Err(e) => settings_fault(*settings) == Some(e),
            },
    {
        if settings.length < ABSOLUTE_MIN_LENGTH {
            return Err(PasswordGenerationError::LengthTooShort(settings.length));
        }
        if settings.length > ABSOLUTE_MAX_LENGTH {
            return Err(PasswordGenerationError::LengthTooLong(settings.length));
        }
        if !settings.use_lowercase && !settings.use_uppercase && !settings.use_numbers
            && !settings.use_symbols {
            return Err(PasswordGenerationError::EmptyCharacterSet);
        }
        let required_length = self.calculate_min_required(settings);
        if settings.length < required_length {
            return Err(
                PasswordGenerationError::ExcessiveMinimums(required_length, settings.length),
            );
        }
        Ok(())
    }
}

impl Default for PasswordGenerator {
    /// Sixteen characters from all four sets, with at least two digits and
    /// two symbols, and no two characters that look alike.
    fn default() -> (generator: Self)
        ensures
            generator@.settings == (PasswordGeneratorSettings {
                length: 16,
                use_lowercase: true,
                use_uppercase: true,
                use_numbers: true,
                use_symbols: true,
                min_numbers: 2,
                min_symbols: 2,
                exclude_ambiguous: true,
            }),
            generator@.min_required == 6,
            settings_fault(generator@.settings) is None,
            generator@.available_chars == default_character_sets(),
            generator@.can_generate(),
            are_disjoint(generator@.available_chars.ambiguous),
    {
        proof {
            lemma_default_sets_always_yield();
            lemma_default_groups_are_disjoint();
        }
        Self {
            min_required: 6,
            length: DEFAULT_LENGTH,
            use_lowercase: true,
            use_uppercase: true,
            use_numbers: true,
            use_symbols: true,
            min_numbers: 2,
            min_symbols: 2,
            exclude_ambiguous: true,
            available_chars: CharacterSets::default(),
        }
    }
}

/// The character sets of a generator as it is first made.
pub open spec fn default_character_sets() -> CharacterSetsView {
    CharacterSetsView {
        lowercase: seq![
            'a', 'b', 'c', 'd', 'e', 'f', 'g', 'h', 'i', 'j', 'k', 'l', 'm', 'n', 'o', 'p', 'q',
            'r', 's', 't', 'u', 'v', 'w', 'x', 'y', 'z',
        ],
        uppercase: seq![
            'A', 'B', 'C', 'D', 'E', 'F', 'G', 'H', 'I', 'J', 'K', 'L', 'M', 'N', 'O', 'P', 'Q',
            'R', 'S', 'T', 'U', 'V', 'W', 'X', 'Y', 'Z',
        ],
        numbers: seq!['0', '1', '2', '3', '4', '5', '6', '7', '8', '9'],
        symbols: seq!['!', '@', '#', '$', '%', '^', '&', '*'],
        ambiguous: seq![
            seq!['1', 'l', 'I'],
            seq!['o', 'O', '0'],
            seq!['5', 'S'],
            seq!['2', 'Z'],
            seq!['8', 'B'],
        ],
    }
}

impl CharacterSets {
    /// The letters a to z and A to Z, the digits, eight symbols, and five
    /// groups of characters that look alike.
    pub fn default() -> (sets: Self)
        ensures
            sets@ == default_character_sets(),
    {
        let sets = Self {
            lowercase: vec![
                'a', 'b', 'c', 'd', 'e', 'f', 'g', 'h', 'i', 'j', 'k', 'l', 'm', 'n', 'o', 'p',
                'q', 'r', 's', 't', 'u', 'v', 'w', 'x', 'y', 'z',
            ],
            uppercase: vec![
                'A', 'B', 'C', 'D', 'E', 'F', 'G', 'H', 'I', 'J', 'K', 'L', 'M', 'N', 'O', 'P',
                'Q', 'R', 'S', 'T', 'U', 'V', 'W', 'X', 'Y', 'Z',
            ],
            numbers: vec!['0', '1', '2', '3', '4', '5', '6', '7', '8', '9'],
            symbols: vec!['!', '@', '#', '$', '%', '^', '&', '*'],
            ambiguous: vec![
                vec!['1', 'l', 'I'],
                vec!['o', 'O', '0'],
                vec!['5', 'S'],
                vec!['2', 'Z'],
                vec!['8', 'B'],
            ],
        };
        proof {
            let v = sets@;
            let d = default_character_sets();
            assert(v.lowercase =~= d.lowercase);
            assert(v.uppercase =~= d.uppercase);
            assert(v.numbers =~= d.numbers);
            assert(v.symbols =~= d.symbols);
            assert(v.ambiguous.len() == 5);
            assert(v.ambiguous[0] =~= d.ambiguous[0]);
            assert(v.ambiguous[1] =~= d.ambiguous[1]);
            assert(v.ambiguous[2] =~= d.ambiguous[2]);
            assert(v.ambiguous[3] =~= d.ambiguous[3]);
            assert(v.ambiguous[4] =~= d.ambiguous[4]);
            assert(v.ambiguous =~= d.ambiguous);
        }
        sets
    }

    /// The lowercase letters.
    pub fn lowercase(&self) -> (chars: &Vec<char>)
        ensures
            chars@ == self@.lowercase,
    {
        &self.lowercase
    }

    /// The uppercase letters.
    pub fn uppercase(&self) -> (chars: &Vec<char>)
        ensures
            chars@ == self@.uppercase,
    {
        &self.uppercase
    }

    /// The digits.
    pub fn numbers(&self) -> (chars: &Vec<char>)
        ensures
            chars@ == self@.numbers,
    {
        &self.numbers
    }

    /// The symbols.
    pub fn symbols(&self) -> (chars: &Vec<char>)
        ensures
            chars@ == self@.symbols,
    {
        &self.symbols
    }

    /// The groups of characters that look alike.
    pub fn ambiguous(&self) -> (groups: &Vec<Vec<char>>)
        ensures
            groups@.len() == self@.ambiguous.len(),
            forall|g: int| 0 <= g < groups@.len() ==> (#[trigger] groups@[g])@ == self@.ambiguous[g],
    {
        &self.ambiguous
    }
}

/// `rand_chacha::ChaCha20Rng`: a cryptographically secure generator of
/// random numbers.
#[verifier::external_type_specification]
#[verifier::external_body]
pub struct ExChaCha20Rng(ChaCha20Rng);

/// `SeedableRng::from_rng` on `OsRng`: a generator seeded by the operating
/// system, or `None` where that gives no seed.
#[verifier::external_body]
fn seeded_generator() -> Option<ChaCha20Rng> {
    ChaCha20Rng::from_rng(OsRng).ok()
}

/// `SliceRandom::choose`: one item of the list, or `None` where the list is
/// empty.
#[verifier::external_body]
fn pick<T: Copy>(items: &Vec<T>, rng: &mut ChaCha20Rng) -> (chosen: Option<T>)
    ensures
        chosen is Some <==> items@.len() > 0,
        chosen matches Some(item) ==> items@.contains(item),
{
    items.choose(rng).copied()
}

/// `SliceRandom::shuffle`: puts the items into a random order.
#[verifier::external_body]
fn shuffle(items: &mut Vec<char>, rng: &mut ChaCha20Rng)
    ensures
        final(items)@.to_multiset() == old(items)@.to_multiset(),
{
    items.shuffle(rng);
}

/// `String::from_iter` over characters: the text made of them.
#[verifier::external_body]
fn text_of_chars(chars: &Vec<char>) -> (text: String)
    ensures
        text@ == chars@,
{
    String::from_iter(chars.iter())
}

/// Whether a character looks like one drawn before: it belongs to a group
/// that is marked as used.
pub open spec fn is_blocked(groups: Seq<Seq<char>>, used: Seq<bool>, c: char) -> bool {
    exists|g: int|
        0 <= g < groups.len() && g < used.len() && used[g] && (#[trigger] groups[g]).contains(c)
}

/// Whether a character may be drawn: always where look-alikes are allowed,
/// else unless it looks like one drawn before.
pub open spec fn may_draw(exclude: bool, groups: Seq<Seq<char>>, used: Seq<bool>, c: char) -> bool {
    !(exclude && is_blocked(groups, used, c))
}

/// The characters of a set that may be drawn, in their order.
pub open spec fn drawable(
    set: Seq<char>,
    exclude: bool,
    groups: Seq<Seq<char>>,
    used: Seq<bool>,
) -> Seq<char> {
    set.filter(|c: char| may_draw(exclude, groups, used, c))
}

/// Whether `g` is the first group that holds the character.
pub open spec fn is_first_group(groups: Seq<Seq<char>>, c: char, g: int) -> bool {
    &&& 0 <= g < groups.len()
    &&& groups[g].contains(c)
    &&& forall|h: int| 0 <= h < g ==> !(#[trigger] groups[h]).contains(c)
}

/// The marks after a character is drawn: where look-alikes are excluded,
/// the first group that holds it is marked as used.
pub open spec fn marked(
    exclude: bool,
    groups: Seq<Seq<char>>,
    used: Seq<bool>,
    c: char,
) -> Seq<bool> {
    Seq::new(used.len(), |g: int| used[g] || (exclude && is_first_group(groups, c, g)))
}

/// Whether a character looks like no other: no group holds it.
pub open spec fn is_free(c: char, groups: Seq<Seq<char>>) -> bool {
    forall|g: int| 0 <= g < groups.len() ==> !(#[trigger] groups[g]).contains(c)
}

/// Whether a set holds a character that looks like no other, and so can be
/// drawn from whatever was drawn before.
pub open spec fn has_free_char(set: Seq<char>, groups: Seq<Seq<char>>) -> bool {
    exists|i: int| 0 <= i < set.len() && is_free(#[trigger] set[i], groups)
}

impl CharacterSetsView {
    /// Whether each of the four sets holds a character that looks like no
    /// other.
    pub open spec fn always_yields(self) -> bool {
        &&& has_free_char(self.lowercase, self.ambiguous)
        &&& has_free_char(self.uppercase, self.ambiguous)
        &&& has_free_char(self.numbers, self.ambiguous)
        &&& has_free_char(self.symbols, self.ambiguous)
    }

    /// Whether the character belongs to one of the four sets.
    pub open spec fn knows(self, c: char) -> bool {
        self.lowercase.contains(c) || self.uppercase.contains(c) || self.numbers.contains(c)
            || self.symbols.contains(c)
    }
}

/// Whether every character of the password belongs to one of the four sets.
pub open spec fn is_made_of(password: Seq<char>, sets: CharacterSetsView) -> bool {
    forall|i: int| 0 <= i < password.len() ==> sets.knows(#[trigger] password[i])
}

/// The test for belonging to a set.
pub open spec fn belongs_to(set: Seq<char>) -> spec_fn(char) -> bool {
    |c: char| set.contains(c)
}

/// How many characters of the password belong to the set, wherever they
/// stand.
pub open spec fn count_from(password: Seq<char>, set: Seq<char>) -> nat {
    password.to_multiset().filter(belongs_to(set)).len()
}

/// Whether no character belongs to two groups.
pub open spec fn are_disjoint(groups: Seq<Seq<char>>) -> bool {
    forall|g: int, h: int, c: char|
        0 <= g < groups.len() && 0 <= h < groups.len() && g != h && (#[trigger] groups[g].contains(
            c,
        )) ==> !(#[trigger] groups[h].contains(c))
}

/// Whether the password holds no two characters that look alike: at most one
/// character of each group.
pub open spec fn has_no_look_alikes(password: Seq<char>, groups: Seq<Seq<char>>) -> bool {
    forall|g: int| 0 <= g < groups.len() ==> count_from(password, #[trigger] groups[g]) <= 1
}

/// Whether the marks agree with the password: a group is marked where the
/// password holds one character of it, and unmarked where it holds none.
pub open spec fn marks_agree(password: Seq<char>, groups: Seq<Seq<char>>, used: Seq<bool>) -> bool {
    &&& used.len() == groups.len()
    &&& forall|g: int|
        0 <= g < groups.len() ==> count_from(password, #[trigger] groups[g]) == if used[g] {
            1nat
        } else {
            0nat
        }
}

impl PasswordGeneratorView {
    /// The number of characters drawn before the password is filled up: one
    /// lowercase and one uppercase letter where those are chosen, and the
    /// minimums of digits and symbols.
    pub open spec fn required_draws(self) -> int {
        (if self.settings.use_lowercase {
            1int
        } else {
            0int
        }) + (if self.settings.use_uppercase {
            1int
        } else {
            0int
        }) + self.settings.min_numbers + self.settings.min_symbols
    }

    /// The length of a generated password: the length configured, or the
    /// number of required draws where that is larger.
    pub open spec fn drawn_length(self) -> int {
        if self.required_draws() > self.settings.length {
            self.required_draws()
        } else {
            self.settings.length as int
        }
    }

    /// What holds of every generated password: it has the length due, it is
    /// made of characters of the four sets, it holds as many characters of
    /// each kind as are required, and, where look-alikes are excluded and no
    /// character belongs to two groups, it holds no two characters that look
    /// alike.
    pub open spec fn is_generated(self, password: Seq<char>) -> bool {
        let sets = self.available_chars;
        &&& password.len() == self.drawn_length()
        &&& is_made_of(password, sets)
        &&& self.settings.use_lowercase ==> count_from(password, sets.lowercase) >= 1
        &&& self.settings.use_uppercase ==> count_from(password, sets.uppercase) >= 1
        &&& count_from(password, sets.numbers) >= self.settings.min_numbers
        &&& count_from(password, sets.symbols) >= self.settings.min_symbols
        &&& self.settings.exclude_ambiguous && are_disjoint(sets.ambiguous) ==> has_no_look_alikes(
            password,
            sets.ambiguous,
        )
    }

    /// Whether a password can be drawn whatever the draws bring: each set
    /// holds a character that looks like no other, and there is a set to fill
    /// the password up from, or nothing to fill up.
    pub open spec fn can_generate(self) -> bool {
        &&& self.available_chars.always_yields()
        &&& self.has_a_set() || self.settings.length <= self.required_draws()
    }

    /// Whether some set is chosen to fill a password up from.
    pub open spec fn has_a_set(self) -> bool {
        self.settings.use_lowercase || self.settings.use_uppercase || self.settings.use_numbers
            || self.settings.use_symbols
    }
}

/// Tells whether a list holds a character.
fn holds(chars: &Vec<char>, c: char) -> (found: bool)
    ensures
        found == chars@.contains(c),
{
    let mut i: usize = 0;
    while i < chars.len()
        invariant
            i <= chars.len(),
            forall|j: int| 0 <= j < i ==> chars@[j] != c,
        decreases chars.len() - i,
    {
        if chars[i] == c {
            return true;
        }
        i = i + 1;
    }
    false
}

impl PasswordGenerator {
    /// The groups of look-alikes.
    pub closed spec fn groups(&self) -> Seq<Seq<char>> {
        self@.available_chars.ambiguous
    }

    /// Tells whether a character looks like one drawn before.
    fn looks_like_a_drawn_one(&self, used_groups: &Vec<bool>, c: char) -> (blocked: bool)
        ensures
            blocked == is_blocked(self.groups(), used_groups@, c),
    {
        let groups = &self.available_chars.ambiguous;
        let mut g: usize = 0;
        while g < groups.len() && g < used_groups.len()
            invariant
                groups == &self.available_chars.ambiguous,
                self.groups().len() == groups@.len(),
                forall|h: int| 0 <= h < groups@.len() ==> self.groups()[h] == groups@[h]@,
                forall|h: int|
                    0 <= h < g ==> !(used_groups@[h] && (#[trigger] self.groups()[h]).contains(c)),
            decreases groups.len() - g,
        {
            if used_groups[g] && holds(&groups[g], c) {
                assert(self.groups()[g as int].contains(c));
                return true;
            }
            g = g + 1;
        }
        false
    }

    /// The characters of a set that may still be drawn.
    pub fn drawable_chars(&self, char_set: &Vec<char>, used_groups: &Vec<bool>) -> (chars: Vec<
        char,
    >)
        ensures
            chars@ == drawable(
                char_set@,
                self@.settings.exclude_ambiguous,
                self@.available_chars.ambiguous,
                used_groups@,
            ),
    {
        let ghost pred = |c: char|
            may_draw(
                self@.settings.exclude_ambiguous,
                self@.available_chars.ambiguous,
                used_groups@,
                c,
            );
        let mut chars: Vec<char> = Vec::new();
        let mut i: usize = 0;
        proof {
            reveal(Seq::filter);
            assert(char_set@.subrange(0, 0) =~= Seq::<char>::empty());
        }
        while i < char_set.len()
            invariant
                i <= char_set.len(),
                pred == (|c: char|
                    may_draw(
                        self@.settings.exclude_ambiguous,
                        self@.available_chars.ambiguous,
                        used_groups@,
                        c,
                    )),
                chars@ == char_set@.subrange(0, i as int).filter(pred),
            decreases char_set.len() - i,
        {
            let c = char_set[i];
            let keep = !(self.exclude_ambiguous && self.looks_like_a_drawn_one(used_groups, c));
            proof {
                reveal(Seq::filter);
                let before = char_set@.subrange(0, i as int);
                let after = char_set@.subrange(0, i + 1);
                assert(after.drop_last() =~= before);
                assert(after.last() == c);
                assert(keep == pred(c));
            }
            if keep {
                chars.push(c);
            }
            i = i + 1;
        }
        proof {
            assert(char_set@.subrange(0, i as int) =~= char_set@);
        }
        chars
    }

    /// Takes a drawn character into the password and, where look-alikes are
    /// excluded, marks the first group that holds it as used.
    pub fn take_char(&self, password: &mut Vec<char>, chosen: char, used_groups: &mut Vec<bool>)
        ensures
            final(password)@ == old(password)@.push(chosen),
            final(used_groups)@ == marked(
                self@.settings.exclude_ambiguous,
                self@.available_chars.ambiguous,
                old(used_groups)@,
                chosen,
            ),
    {
        let ghost before = used_groups@;
        if self.exclude_ambiguous {
            let groups = &self.available_chars.ambiguous;
            let mut g: usize = 0;
            let mut found = false;
            while g < groups.len() && !found
                invariant
                    g <= groups.len(),
                    groups == &self.available_chars.ambiguous,
                    self.groups().len() == groups@.len(),
                    forall|h: int| 0 <= h < groups@.len() ==> self.groups()[h] == groups@[h]@,
                    !found ==> used_groups@ == before,
                    !found ==> forall|h: int|
                        0 <= h < g ==> !(#[trigger] self.groups()[h]).contains(chosen),
                    found ==> used_groups@ == marked(true, self.groups(), before, chosen),
                decreases groups.len() - g + (if found {
                    0int
                } else {
                    1int
                }),
            {
                if holds(&groups[g], chosen) {
                    if g < used_groups.len() {
                        used_groups.set(g, true);
                    }
                    found = true;
                    proof {
                        assert(is_first_group(self.groups(), chosen, g as int));
                        assert(used_groups@ =~= marked(true, self.groups(), before, chosen));
                    }
                } else {
                    g = g + 1;
                }
            }
            proof {
                if !found {
                    assert(used_groups@ =~= marked(true, self.groups(), before, chosen));
                }
            }
        } else {
            proof {
                assert(used_groups@ =~= marked(false, self.groups(), before, chosen));
            }
        }
        password.push(chosen);
    }

    /// Draws one character of `char_set` that may still be drawn and takes
    /// it into the password. Where none may be drawn, nothing changes.
    fn add_random_char_from_set(
        &self,
        password: &mut Vec<char>,
        char_set: &Vec<char>,
        used_groups: &mut Vec<bool>,
        rng: &mut ChaCha20Rng,
    ) -> (added: Result<(), PasswordGenerationError>)
        ensures
            match added {
                Ok(()) => exists|c: char|
                    {
                        &&& char_set@.contains(c)
                        &&& #[trigger] may_draw(
                            self@.settings.exclude_ambiguous,
                            self@.available_chars.ambiguous,
                            old(used_groups)@,
                            c,
                        )
                        &&& final(password)@ == old(password)@.push(c)
                        &&& final(used_groups)@ == marked(
                            self@.settings.exclude_ambiguous,
                            self@.available_chars.ambiguous,
                            old(used_groups)@,
                            c,
                        )
                    },
                Err(e) => {
                    &&& e is EmptyCharacterSet
                    &&& drawable(
                        char_set@,
                        self@.settings.exclude_ambiguous,
                        self@.available_chars.ambiguous,
                        old(used_groups)@,
                    ).len() == 0
                    &&& final(password)@ == old(password)@
                    &&& final(used_groups)@ == old(used_groups)@
                },
            },
            has_free_char(char_set@, self@.available_chars.ambiguous) ==> added is Ok,
    {
        proof {
            if has_free_char(char_set@, self@.available_chars.ambiguous) {
                let pred = |c: char|
                    may_draw(
                        self@.settings.exclude_ambiguous,
                        self@.available_chars.ambiguous,
                        used_groups@,
                        c,
                    );
                let i = choose|i: int|
                    0 <= i < char_set@.len() && is_free(
                        #[trigger] char_set@[i],
                        self@.available_chars.ambiguous,
                    );
                assert(pred(char_set@[i]));
                char_set@.lemma_filter_contains(pred, i);
            }
        }
        let available_chars = self.drawable_chars(char_set, used_groups);
        if available_chars.len() == 0 {
            return Err(PasswordGenerationError::EmptyCharacterSet);
        }
        match pick(&available_chars, rng) {
            Some(chosen_char) => {
                proof {
                    let pred = |c: char|
                        may_draw(
                            self@.settings.exclude_ambiguous,
                            self@.available_chars.ambiguous,
                            used_groups@,
                            c,
                        );
                    let i = choose|i: int|
                        0 <= i < available_chars@.len() && available_chars@[i] == chosen_char;
                    char_set@.lemma_filter_pred(pred, i);
                    lemma_filtered_is_from(char_set@, pred, i);
                }
                self.take_char(password, chosen_char, used_groups);
                Ok(())
            },
            None => Err(
                PasswordGenerationError::RandomGenerationFailed(
                    String::from_str("Failed to choose random character"),
                ),
            ),
        }
    }

    /// Draws one character from one of the chosen sets, itself drawn at
    /// random, and takes it into the password.
    fn add_random_allowed_char(
        &self,
        password: &mut Vec<char>,
        used_groups: &mut Vec<bool>,
        rng: &mut ChaCha20Rng,
    ) -> (added: Result<(), PasswordGenerationError>)
        ensures
            match added {
                Ok(()) => exists|c: char|
                    {
                        &&& self@.available_chars.knows(c)
                        &&& #[trigger] may_draw(
                            self@.settings.exclude_ambiguous,
                            self@.available_chars.ambiguous,
                            old(used_groups)@,
                            c,
                        )
                        &&& final(password)@ == old(password)@.push(c)
                        &&& final(used_groups)@ == marked(
                            self@.settings.exclude_ambiguous,
                            self@.available_chars.ambiguous,
                            old(used_groups)@,
                            c,
                        )
                    },
                Err(e) => {
                    &&& e is EmptyCharacterSet
                    &&& final(password)@ == old(password)@
                    &&& final(used_groups)@ == old(used_groups)@
                    &&& !self@.has_a_set() || exists|set: Seq<char>|
                        self@.available_chars.is_one_of(set) && (#[trigger] drawable(
                            set,
                            self@.settings.exclude_ambiguous,
                            self@.available_chars.ambiguous,
                            old(used_groups)@,
                        )).len() == 0
                },
            },
            self@.has_a_set() && self@.available_chars.always_yields() ==> added is Ok,
    {
        let mut allowed_sets: Vec<u8> = Vec::new();
        if self.use_lowercase {
            allowed_sets.push(0);
        }
        if self.use_uppercase {
            allowed_sets.push(1);
        }
        if self.use_numbers {
            allowed_sets.push(2);
        }
        if self.use_symbols {
            allowed_sets.push(3);
        }
        match pick(&allowed_sets, rng) {
            Some(which) => {
                let char_set = if which == 0 {
                    &self.available_chars.lowercase
                } else if which == 1 {
                    &self.available_chars.uppercase
                } else if which == 2 {
                    &self.available_chars.numbers
                } else {
                    &self.available_chars.symbols
                };
                self.add_random_char_from_set(password, char_set, used_groups, rng)
            },
            None => Err(PasswordGenerationError::EmptyCharacterSet),
        }
    }

    /// Draws the characters of a password: first those that are required,
    /// then as many more as the length asks for.
    fn draw(&self, rng: &mut ChaCha20Rng) -> (drawn: Result<Vec<char>, PasswordGenerationError>)
        ensures
            match drawn {
                Ok(chars) => self@.is_generated(chars@),
                Err(e) => e is EmptyCharacterSet,
            },
            self@.can_generate() ==> drawn is Ok,
    {
        let ghost sets = self@.available_chars;
        let mut password_chars: Vec<char> = Vec::new();
        let mut used_groups: Vec<bool> = Vec::new();
        let mut g: usize = 0;
        while g < self.available_chars.ambiguous.len()
            invariant
                g <= self.available_chars.ambiguous.len(),
                used_groups@.len() == g,
                forall|i: int| 0 <= i < g ==> !used_groups@[i],
            decreases self.available_chars.ambiguous.len() - g,
        {
            used_groups.push(false);
            g = g + 1;
        }
        let ghost groups = sets.ambiguous;
        let ghost exclude = self@.settings.exclude_ambiguous;
        let ghost guarded = exclude && are_disjoint(groups);
        proof {
            assert forall|i: int| 0 <= i < groups.len() implies count_from(
                password_chars@,
                #[trigger] groups[i],
            ) == 0 by {
                lemma_count_of_nothing(groups[i]);
            }
        }

        if self.use_lowercase {
            let ghost before = password_chars@;
            let ghost marks = used_groups@;
            match self.add_random_char_from_set(
                &mut password_chars,
                &self.available_chars.lowercase,
                &mut used_groups,
                rng,
            ) {
                Ok(()) => {
                    proof {
                        lemma_one_more(before, password_chars@, sets);
                        if guarded {
                            lemma_marks_follow(
                                before,
                                password_chars@,
                                marks,
                                used_groups@,
                                groups,
                            );
                        }
                    }
                },
                Err(e) => {
                    return Err(e);
                },
            }
        }
        if self.use_uppercase {
            let ghost before = password_chars@;
            let ghost marks = used_groups@;
            match self.add_random_char_from_set(
                &mut password_chars,
                &self.available_chars.uppercase,
                &mut used_groups,
                rng,
            ) {
                Ok(()) => {
                    proof {
                        lemma_one_more(before, password_chars@, sets);
                        if guarded {
                            lemma_marks_follow(
                                before,
                                password_chars@,
                                marks,
                                used_groups@,
                                groups,
                            );
                        }
                    }
                },
                Err(e) => {
                    return Err(e);
                },
            }
        }
        let ghost letters = password_chars@.len();

        let mut numbers: usize = 0;
        while numbers < self.min_numbers
            invariant
                sets == self@.available_chars,
                numbers <= self.min_numbers,
                password_chars@.len() == letters + numbers,
                is_made_of(password_chars@, sets),
                groups == sets.ambiguous,
                exclude == self@.settings.exclude_ambiguous,
                guarded == (exclude && are_disjoint(groups)),
                guarded ==> marks_agree(password_chars@, groups, used_groups@),
                self.use_lowercase ==> count_from(password_chars@, sets.lowercase) >= 1,
                self.use_uppercase ==> count_from(password_chars@, sets.uppercase) >= 1,
                count_from(password_chars@, sets.numbers) >= numbers,
            decreases self.min_numbers - numbers,
        {
            let ghost before = password_chars@;
            let ghost marks = used_groups@;
            match self.add_random_char_from_set(
                &mut password_chars,
                &self.available_chars.numbers,
                &mut used_groups,
                rng,
            ) {
                Ok(()) => {
                    proof {
                        lemma_one_more(before, password_chars@, sets);
                        if guarded {
                            lemma_marks_follow(
                                before,
                                password_chars@,
                                marks,
                                used_groups@,
                                groups,
                            );
                        }
                    }
                },
                Err(e) => {
                    return Err(e);
                },
            }
            numbers = numbers + 1;
        }

        let mut symbols: usize = 0;
        while symbols < self.min_symbols
            invariant
                sets == self@.available_chars,
                symbols <= self.min_symbols,
                password_chars@.len() == letters + self.min_numbers + symbols,
                is_made_of(password_chars@, sets),
                groups == sets.ambiguous,
                exclude == self@.settings.exclude_ambiguous,
                guarded == (exclude && are_disjoint(groups)),
                guarded ==> marks_agree(password_chars@, groups, used_groups@),
                self.use_lowercase ==> count_from(password_chars@, sets.lowercase) >= 1,
                self.use_uppercase ==> count_from(password_chars@, sets.uppercase) >= 1,
                count_from(password_chars@, sets.numbers) >= self.min_numbers,
                count_from(password_chars@, sets.symbols) >= symbols,
            decreases self.min_symbols - symbols,
        {
            let ghost before = password_chars@;
            let ghost marks = used_groups@;
            match self.add_random_char_from_set(
                &mut password_chars,
                &self.available_chars.symbols,
                &mut used_groups,
                rng,
            ) {
                Ok(()) => {
                    proof {
                        lemma_one_more(before, password_chars@, sets);
                        if guarded {
                            lemma_marks_follow(
                                before,
                                password_chars@,
                                marks,
                                used_groups@,
                                groups,
                            );
                        }
                    }
                },
                Err(e) => {
                    return Err(e);
                },
            }
            symbols = symbols + 1;
        }

        while password_chars.len() < self.length
            invariant
                sets == self@.available_chars,
                password_chars@.len() >= self@.required_draws(),
                password_chars@.len() > self@.required_draws() ==> password_chars@.len()
                    <= self.length,
                is_made_of(password_chars@, sets),
                groups == sets.ambiguous,
                exclude == self@.settings.exclude_ambiguous,
                guarded == (exclude && are_disjoint(groups)),
                guarded ==> marks_agree(password_chars@, groups, used_groups@),
                self.use_lowercase ==> count_from(password_chars@, sets.lowercase) >= 1,
                self.use_uppercase ==> count_from(password_chars@, sets.uppercase) >= 1,
                count_from(password_chars@, sets.numbers) >= self.min_numbers,
                count_from(password_chars@, sets.symbols) >= self.min_symbols,
            decreases self.length - password_chars.len(),
        {
            let ghost before = password_chars@;
            let ghost marks = used_groups@;
            match self.add_random_allowed_char(&mut password_chars, &mut used_groups, rng) {
                Ok(()) => {
                    proof {
                        lemma_one_more(before, password_chars@, sets);
                        if guarded {
                            lemma_marks_follow(
                                before,
                                password_chars@,
                                marks,
                                used_groups@,
                                groups,
                            );
                        }
                    }
                },
                Err(e) => {
                    return Err(e);
                },
            }
        }
        Ok(password_chars)
    }

    /// Generates a password: the required characters and as many more as the
    /// length asks for, drawn at random and put into a random order.
    pub fn generate(&self) -> (password: Result<String, PasswordGenerationError>)
        ensures
            match password {
                Ok(text) => self@.is_generated(text@),
                Err(e) => e is EmptyCharacterSet || e is SystemError,
            },
            self@.can_generate() ==> (match password {
                Ok(_) => true,
                Err(e) => e is SystemError,
            }),
    {
        let mut rng = match seeded_generator() {
            Some(rng) => rng,
            None => {
                return Err(
                    PasswordGenerationError::SystemError(
                        String::from_str("The operating system gave no random seed"),
                    ),
                );
            },
        };
        let mut password_chars = match self.draw(&mut rng) {
            Ok(chars) => chars,
            Err(e) => {
                return Err(e);
            },
        };
        let ghost drawn = password_chars@;
        self.shuffle_password(&mut password_chars, &mut rng);
        proof {
            lemma_order_does_not_matter(self@, drawn, password_chars@);
        }
        Ok(text_of_chars(&password_chars))
    }

    /// Puts the characters of the password into a random order.
    fn shuffle_password(&self, password: &mut Vec<char>, rng: &mut ChaCha20Rng)
        ensures
            final(password)@.to_multiset() == old(password)@.to_multiset(),
    {
        shuffle(password, rng);
    }
}

impl CharacterSetsView {
    /// Whether `set` is one of the four sets.
    pub open spec fn is_one_of(self, set: Seq<char>) -> bool {
        set == self.lowercase || set == self.uppercase || set == self.numbers || set
            == self.symbols
    }
}

/// What passes a filter comes from what was filtered.
proof fn lemma_filtered_is_from(s: Seq<char>, pred: spec_fn(char) -> bool, i: int)
    requires
        0 <= i < s.filter(pred).len(),
    ensures
        s.contains(s.filter(pred)[i]),
    decreases s.len(),
{
    reveal(Seq::filter);
    if s.len() > 0 {
        let rest = s.drop_last();
        if pred(s.last()) && i == rest.filter(pred).len() {
            assert(s[s.len() - 1] == s.filter(pred)[i]);
        } else {
            lemma_filtered_is_from(rest, pred, i);
            let j = choose|j: int| 0 <= j < rest.len() && rest[j] == rest.filter(pred)[i];
            assert(s[j] == s.filter(pred)[i]);
        }
    }
}

/// Nothing holds no character of any set.
proof fn lemma_count_of_nothing(set: Seq<char>)
    ensures
        count_from(Seq::<char>::empty(), set) == 0,
{
    broadcast use vstd::multiset::group_multiset_axioms;

    let nothing = Seq::<char>::empty();
    nothing.to_multiset_ensures();
    assert(nothing.to_multiset() =~= vstd::multiset::Multiset::<char>::empty());
    assert(nothing.to_multiset().filter(belongs_to(set)) =~= vstd::multiset::Multiset::<
        char,
    >::empty());
}

/// One more character raises the count of every set it belongs to by one
/// and leaves every other count as it is.
proof fn lemma_count_after_push(before: Seq<char>, c: char, set: Seq<char>)
    ensures
        count_from(before.push(c), set) == count_from(before, set) + if set.contains(c) {
            1nat
        } else {
            0nat
        },
{
    broadcast use vstd::multiset::group_multiset_axioms;

    vstd::seq_lib::to_multiset_build(before, c);
    let f = belongs_to(set);
    let m = before.to_multiset();
    if f(c) {
        assert(m.insert(c).filter(f) =~= m.filter(f).insert(c));
    } else {
        assert(m.insert(c).filter(f) =~= m.filter(f));
    }
}

/// The marks follow the password: where the marks agreed with the password
/// before a character was drawn that looks like none drawn before, and no
/// character belongs to two groups, the marks made by the draw agree with
/// the password after it.
proof fn lemma_marks_follow(
    before: Seq<char>,
    after: Seq<char>,
    marks_before: Seq<bool>,
    marks_after: Seq<bool>,
    groups: Seq<Seq<char>>,
)
    requires
        are_disjoint(groups),
        marks_agree(before, groups, marks_before),
        exists|c: char|
            {
                &&& #[trigger] may_draw(true, groups, marks_before, c)
                &&& after == before.push(c)
                &&& marks_after == marked(true, groups, marks_before, c)
            },
    ensures
        marks_agree(after, groups, marks_after),
{
    let c = choose|c: char|
        {
            &&& #[trigger] may_draw(true, groups, marks_before, c)
            &&& after == before.push(c)
            &&& marks_after == marked(true, groups, marks_before, c)
        };
    assert forall|g: int| 0 <= g < groups.len() implies count_from(after, #[trigger] groups[g])
        == if marks_after[g] {
        1nat
    } else {
        0nat
    } by {
        lemma_count_after_push(before, c, groups[g]);
        if groups[g].contains(c) {
            assert(!marks_before[g]);
            assert(is_first_group(groups, c, g)) by {
                assert forall|h: int| 0 <= h < g implies !(#[trigger] groups[h]).contains(c) by {
                    if groups[h].contains(c) {
                        assert(groups[g].contains(c));
                    }
                }
            }
        } else {
            assert(!is_first_group(groups, c, g));
        }
    }
}

/// One more known character keeps a password made of known characters. It
/// raises the count of every set it belongs to by one and lowers none.
proof fn lemma_one_more(before: Seq<char>, after: Seq<char>, sets: CharacterSetsView)
    requires
        is_made_of(before, sets),
        exists|c: char| sets.knows(c) && after == before.push(c),
    ensures
        is_made_of(after, sets),
        after.len() == before.len() + 1,
        forall|set: Seq<char>| #[trigger] count_from(after, set) >= count_from(before, set),
        forall|set: Seq<char>|
            set.contains(after.last()) ==> #[trigger] count_from(after, set) == count_from(
                before,
                set,
            ) + 1,
{
    broadcast use vstd::multiset::group_multiset_axioms;

    let c = after.last();
    assert(after == before.push(c));
    vstd::seq_lib::to_multiset_build(before, c);
    assert forall|set: Seq<char>|
        {
            &&& #[trigger] count_from(after, set) >= count_from(before, set)
            &&& set.contains(c) ==> count_from(after, set) == count_from(before, set) + 1
        } by {
        let f = belongs_to(set);
        let m = before.to_multiset();
        if f(c) {
            assert(m.insert(c).filter(f) =~= m.filter(f).insert(c));
        } else {
            assert(m.insert(c).filter(f) =~= m.filter(f));
        }
    }
}

/// What holds of every generated password does not depend on the order of
/// its characters.
pub proof fn lemma_order_does_not_matter(
    generator: PasswordGeneratorView,
    before: Seq<char>,
    after: Seq<char>,
)
    requires
        generator.is_generated(before),
        before.to_multiset() == after.to_multiset(),
    ensures
        generator.is_generated(after),
{
    before.to_multiset_ensures();
    after.to_multiset_ensures();
    let sets = generator.available_chars;
    assert forall|i: int| 0 <= i < after.len() implies sets.knows(#[trigger] after[i]) by {
        assert(after.contains(after[i]));
        assert(after.to_multiset().count(after[i]) > 0);
        assert(before.to_multiset().count(after[i]) > 0);
        assert(before.contains(after[i]));
    }
}

/// Each of the default sets holds a character that looks like no other: the
/// letters a and A, the digit 3 and the exclamation mark are in no group.
pub proof fn lemma_default_sets_always_yield()
    ensures
        default_character_sets().always_yields(),
{
    let sets = default_character_sets();
    let groups = sets.ambiguous;
    assert(groups.len() == 5);
    assert(groups[0].len() == 3 && groups[1].len() == 3 && groups[2].len() == 2 && groups[3].len()
        == 2 && groups[4].len() == 2);
    assert(is_free('a', groups));
    assert(is_free('A', groups));
    assert(is_free('3', groups));
    assert(is_free('!', groups));
    assert(sets.lowercase[0] == 'a');
    assert(sets.uppercase[0] == 'A');
    assert(sets.numbers[3] == '3');
    assert(sets.symbols[0] == '!');
}

/// No character belongs to two of the default groups of look-alikes.
pub proof fn lemma_default_groups_are_disjoint()
    ensures
        are_disjoint(default_character_sets().ambiguous),
{
    let groups = default_character_sets().ambiguous;
    assert(groups.len() == 5);
    assert forall|c: char| (#[trigger] groups[0].contains(c)) <==> c == '1' || c == 'l' || c
        == 'I' by {
        if c == '1' {
            assert(groups[0][0] == c);
        }
        if c == 'l' {
            assert(groups[0][1] == c);
        }
        if c == 'I' {
            assert(groups[0][2] == c);
        }
    }
    assert forall|c: char| (#[trigger] groups[1].contains(c)) <==> c == 'o' || c == 'O' || c
        == '0' by {
        if c == 'o' {
            assert(groups[1][0] == c);
        }
        if c == 'O' {
            assert(groups[1][1] == c);
        }
        if c == '0' {
            assert(groups[1][2] == c);
        }
    }
    assert forall|c: char| (#[trigger] groups[2].contains(c)) <==> c == '5' || c == 'S' by {
        if c == '5' {
            assert(groups[2][0] == c);
        }
        if c == 'S' {
            assert(groups[2][1] == c);
        }
    }
    assert forall|c: char| (#[trigger] groups[3].contains(c)) <==> c == '2' || c == 'Z' by {
        if c == '2' {
            assert(groups[3][0] == c);
        }
        if c == 'Z' {
            assert(groups[3][1] == c);
        }
    }
    assert forall|c: char| (#[trigger] groups[4].contains(c)) <==> c == '8' || c == 'B' by {
        if c == '8' {
            assert(groups[4][0] == c);
        }
        if c == 'B' {
            assert(groups[4][1] == c);
        }
    }
}

} // verus!
