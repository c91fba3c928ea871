//! Password generation and the rules of interactive reading.

use vstd::prelude::*;

use crate::error::Error;
use crate::text;
use crate::vault::secret::VaultSecret;

verus! {

pub const LOWERCASE: &'static str = "abcdefghijklmnopqrstuvwxyz";

pub const UPPERCASE: &'static str = "ABCDEFGHIJKLMNOPQRSTUVWXYZ";

pub const DIGITS: &'static str = "0123456789";

pub const SYMBOLS: &'static str = "!@#$%^&*()-_=+[]{};:,.?/";

/// Default generated password length.
pub const DEFAULT_LENGTH: usize = 32;

/// `rand::Rng::gen_range` of the thread's generator, over `0..n`: some number
/// below `n`.
#[verifier::external_body]
fn random_below(n: usize) -> (i: usize)
    requires
        n > 0,
    ensures
        i < n,
{
    rand::Rng::gen_range(&mut rand::thread_rng(), 0..n)
}

/// `rand::seq::SliceRandom::shuffle` with the thread's generator: the same
/// characters in some order.
#[verifier::external_body]
fn shuffle(chars: &mut Vec<char>)
    ensures
        final(chars)@.to_multiset() == old(chars)@.to_multiset(),
{
    rand::seq::SliceRandom::shuffle(chars.as_mut_slice(), &mut rand::thread_rng());
}

/// The characters that a generated password is made of.
pub open spec fn alphabet(include_symbols: bool) -> Seq<char> {
    let letters_and_digits = LOWERCASE@ + UPPERCASE@ + DIGITS@;
    if include_symbols {
        letters_and_digits + SYMBOLS@
    } else {
        letters_and_digits
    }
}

/// Every character of `s` is one of `set`.
pub open spec fn made_of(s: Seq<char>, set: Seq<char>) -> bool {
    forall|i: int| 0 <= i < s.len() ==> set.contains(#[trigger] s[i])
}

/// The characters of the alphabet at the given positions.
pub open spec fn spelling(draws: Seq<usize>, include_symbols: bool) -> Seq<char> {
    draws.map_values(|at: usize| alphabet(include_symbols)[at as int])
}

/// Every position is one in the alphabet.
pub open spec fn in_alphabet(draws: Seq<usize>, include_symbols: bool) -> bool {
    forall|i: int| 0 <= i < draws.len() ==> #[trigger] draws[i] < alphabet(include_symbols).len()
}

/// The alphabet, character by character.
fn letters(include_symbols: bool) -> (r: Vec<char>)
    ensures
        r@ == alphabet(include_symbols),
        r@.len() > 0,
{
    let mut all = text::join3(LOWERCASE, UPPERCASE, DIGITS);
    if include_symbols {
        all.append(SYMBOLS);
    }
    proof {
        reveal_strlit("abcdefghijklmnopqrstuvwxyz");
        assert(all@ == alphabet(include_symbols));
    }
    text::chars_of(all.as_str())
}

/// Spell out the characters of the alphabet at the drawn positions.
pub fn spelled(draws: &Vec<usize>, include_symbols: bool) -> (r: Vec<char>)
    requires
        in_alphabet(draws@, include_symbols),
    ensures
        r@ == spelling(draws@, include_symbols),
{
    let from = letters(include_symbols);
    let mut chars: Vec<char> = Vec::new();
    for i in 0..draws.len()
        invariant
            from@ == alphabet(include_symbols),
            in_alphabet(draws@, include_symbols),
            chars@ == spelling(draws@.take(i as int), include_symbols),
    {
        let at: usize = draws[i];
        chars.push(from[at]);
        assert(chars@ =~= spelling(draws@.take(i + 1), include_symbols));
    }
    assert(draws@.take(draws@.len() as int) =~= draws@);
    chars
}

/// The random source answered `at`, asked for a position among `n`.
pub closed spec fn drawn_from(n: usize, at: usize) -> bool {
    call_ensures(random_below, (n,), at)
}

/// A password spells positions that the random source answered, each asked for
/// among all the characters of the alphabet, in some order.
pub open spec fn randomly_drawn(password: Seq<char>, include_symbols: bool) -> bool {
    exists|draws: Seq<usize>|
        draws.len() == password.len() && in_alphabet(draws, include_symbols) && (forall|i: int|
            0 <= i < draws.len() ==> drawn_from(
                alphabet(include_symbols).len() as usize,
                #[trigger] draws[i],
            )) && #[trigger] spelling(draws, include_symbols).to_multiset()
            == password.to_multiset()
}

/// Generate a random password of `length` using a CSPRNG: what positions drawn at
/// random spell, in an order drawn at random.
///
/// When `include_symbols` is true the character set is `[a-zA-Z0-9]` and the
/// symbols; otherwise it is `[a-zA-Z0-9]`. A length of zero is an error.
pub fn generate(length: usize, include_symbols: bool) -> (r: Result<VaultSecret, Error>)
    ensures
        match r {
            Ok(secret) => {
                &&& length > 0 && secret@.len() == length
                &&& made_of(secret@, alphabet(include_symbols))
                &&& randomly_drawn(secret@, include_symbols)
            },
            Err(e) => length == 0 && (e matches Error::Other(message) && message@
                == "password length must be > 0"@),
        },
{
    if length == 0 {
        return Err(Error::Other("password length must be > 0".to_owned()));
    }
    let n: usize = letters(include_symbols).len();
    let mut draws: Vec<usize> = Vec::new();
    for i in 0..length
        invariant
            0 < n == alphabet(include_symbols).len(),
            draws@.len() == i,
            in_alphabet(draws@, include_symbols),
            forall|j: int| 0 <= j < i ==> drawn_from(n, #[trigger] draws@[j]),
    {
        draws.push(random_below(n));
    }
    let mut chars = spelled(&draws, include_symbols);
    let ghost drawn = chars@;
    shuffle(&mut chars);
    proof {
        drawn.to_multiset_ensures();
        chars@.to_multiset_ensures();
        assert forall|i: int| 0 <= i < chars@.len() implies alphabet(include_symbols).contains(
            #[trigger] chars@[i],
        ) by {
            assert(chars@.contains(chars@[i]));
            assert(chars@.to_multiset().count(chars@[i]) > 0);
            assert(drawn.contains(chars@[i]));
            let j = drawn.index_of(chars@[i]);
            assert(drawn[j] == chars@[i]);
            assert(alphabet(include_symbols)[draws@[j] as int] == drawn[j]);
        }
        assert(spelling(draws@, include_symbols).to_multiset() == chars@.to_multiset());
        assert(randomly_drawn(chars@, include_symbols));
    }
    Ok(VaultSecret::new(text::text_of(&chars)))
}

/// The alphabet is fair: it has every letter, every digit and, where symbols are
/// asked for, every symbol, each of them once, and no other character.
pub proof fn alphabet_is_fair(include_symbols: bool)
    ensures
        alphabet(include_symbols).no_duplicates(),
        forall|c: char| #[trigger]
            alphabet(false).contains(c) <==> ('a' <= c <= 'z') || ('A' <= c <= 'Z') || ('0' <= c
                <= '9'),
        forall|c: char| #[trigger]
            alphabet(true).contains(c) <==> alphabet(false).contains(c) || SYMBOLS@.contains(c),
        forall|c: char| #[trigger]
            SYMBOLS@.contains(c) ==> '!' <= c <= '~' && !alphabet(false).contains(c),
        SYMBOLS@.len() == 24,
{
    lemma_letters_and_digits();
    lemma_symbols();
    let plain = alphabet(false);
    let full = alphabet(true);
    assert(full =~= plain + SYMBOLS@);
    assert forall|c: char| #[trigger] full.contains(c) <==> plain.contains(c)
        || SYMBOLS@.contains(c) by {
        if plain.contains(c) {
            assert(full[plain.index_of(c)] == c);
        }
        if SYMBOLS@.contains(c) {
            assert(full[plain.len() + SYMBOLS@.index_of(c)] == c);
        }
        if full.contains(c) {
            let i = full.index_of(c);
            if i < plain.len() {
                assert(plain[i] == c);
            } else {
                assert(SYMBOLS@[i - plain.len()] == c);
            }
        }
    }
    assert forall|i: int, j: int| 0 <= i < full.len() && 0 <= j < full.len() && i != j implies full[i]
        != full[j] by {
        let n = plain.len() as int;
        if i < n && j < n {
            assert(plain[i] != plain[j]);
        } else if i >= n && j >= n {
            assert(SYMBOLS@[i - n] != SYMBOLS@[j - n]);
        } else if i < n {
            assert(plain.contains(plain[i]));
            assert(SYMBOLS@.contains(SYMBOLS@[j - n]));
        } else {
            assert(plain.contains(plain[j]));
            assert(SYMBOLS@.contains(SYMBOLS@[i - n]));
        }
    }
}

proof fn lemma_letters_and_digits()
    ensures
        alphabet(false).no_duplicates(),
        forall|c: char| #[trigger]
            alphabet(false).contains(c) <==> ('a' <= c <= 'z') || ('A' <= c <= 'Z') || ('0' <= c
                <= '9'),
{
    reveal_strlit("abcdefghijklmnopqrstuvwxyz");
    reveal_strlit("ABCDEFGHIJKLMNOPQRSTUVWXYZ");
    reveal_strlit("0123456789");
    let plain = alphabet(false);
    assert forall|i: int| 0 <= i < plain.len() implies #[trigger] plain[i] as int == if i < 26 {
        'a' as int + i
    } else if i < 52 {
        'A' as int + i - 26
    } else {
        '0' as int + i - 52
    } by {
        if i < 26 {
            assert(plain[i] == LOWERCASE@[i]);
        } else if i < 52 {
            assert(plain[i] == UPPERCASE@[i - 26]);
        } else {
            assert(plain[i] == DIGITS@[i - 52]);
        }
    }
    assert forall|c: char| #[trigger] plain.contains(c) <==> ('a' <= c <= 'z') || ('A' <= c <= 'Z')
        || ('0' <= c <= '9') by {
        if 'a' <= c <= 'z' {
            assert(plain[c as int - 'a' as int] == c);
        }
        if 'A' <= c <= 'Z' {
            assert(plain[c as int - 'A' as int + 26] == c);
        }
        if '0' <= c <= '9' {
            assert(plain[c as int - '0' as int + 52] == c);
        }
    }
}

proof fn lemma_symbols()
    ensures
        SYMBOLS@.no_duplicates(),
        SYMBOLS@.len() == 24,
        forall|c: char| #[trigger]
            SYMBOLS@.contains(c) ==> '!' <= c <= '~' && !('a' <= c <= 'z') && !('A' <= c <= 'Z')
                && !('0' <= c <= '9'),
{
    reveal_strlit("!@#$%^&*()-_=+[]{};:,.?/");
}

/// A generated password is as long as asked for, made of letters and digits (and
/// symbols where they are asked for) alone, and what the random source answered.
pub proof fn generated_password_is_random(
    length: usize,
    include_symbols: bool,
    r: Result<VaultSecret, Error>,
)
    requires
        call_ensures(generate, (length, include_symbols), r),
    ensures
        r is Ok <==> length > 0,
        r matches Ok(secret) ==> {
            &&& secret@.len() == length
            &&& randomly_drawn(secret@, include_symbols)
            &&& forall|i: int|
                0 <= i < length ==> {
                    let c = #[trigger] secret@[i];
                    ('a' <= c <= 'z') || ('A' <= c <= 'Z') || ('0' <= c <= '9') || (include_symbols
                        && SYMBOLS@.contains(c))
                }
        },
{
    alphabet_is_fair(include_symbols);
}

/// Accept a password that was typed twice.
pub fn confirm(first: VaultSecret, second: &VaultSecret) -> (r: Result<VaultSecret, Error>)
    ensures
        match r {
            Ok(secret) => first@ == second@ && secret == first,
            Err(e) => first@ != second@ && (e matches Error::Other(message) && message@
                == "passwords do not match"@),
        },
{
    if text::same(first.as_str(), second.as_str()) {
        Ok(first)
    } else {
        Err(Error::Other("passwords do not match".to_owned()))
    }
}

/// A password that was typed twice is accepted as it was typed, and only where both
/// are the same.
pub proof fn only_a_repeated_password_is_accepted(
    first: VaultSecret,
    second: &VaultSecret,
    r: Result<VaultSecret, Error>,
)
    requires
        call_ensures(confirm, (first, second), r),
    ensures
        r is Ok <==> first@ == second@,
        r matches Ok(secret) ==> secret@ == first@,
{
}

/// An answer to a yes/no question says yes: it is `y` or `yes` in any case,
/// with white space around it.
pub open spec fn says_yes(line: Seq<char>) -> bool {
    let answer = text::lowered(text::trimmed(line));
    answer == "y"@ || answer == "yes"@
}

/// Yes is `y` or `yes`, in small letters or capitals, with any white space around it;
/// an empty line and every other answer is no.
pub proof fn yes_in_any_case(before: Seq<char>, word: Seq<char>, after: Seq<char>)
    requires
        forall|i: int| 0 <= i < before.len() ==> text::is_space(#[trigger] before[i]),
        forall|i: int| 0 <= i < after.len() ==> text::is_space(#[trigger] after[i]),
        word.len() > 0 ==> !text::is_space(word[0]) && !text::is_space(word.last()),
    ensures
        says_yes(before + word + after) <==> {
            ||| word.len() == 1 && (word[0] == 'y' || word[0] == 'Y')
            ||| word.len() == 3 && (word[0] == 'y' || word[0] == 'Y') && (word[1] == 'e' || word[1]
                == 'E') && (word[2] == 's' || word[2] == 'S')
        },
{
    text::trimming_ignores_the_margins(before, word, after);
    reveal_strlit("y");
    reveal_strlit("yes");
    let answer = text::lowered(word);
    assert("y"@.len() == 1 && "y"@[0] == 'y');
    assert("yes"@.len() == 3 && "yes"@[0] == 'y' && "yes"@[1] == 'e' && "yes"@[2] == 's');
    assert forall|i: int| 0 <= i < word.len() implies {
        &&& #[trigger] answer[i] == 'y' <==> word[i] == 'y' || word[i] == 'Y'
        &&& answer[i] == 'e' <==> word[i] == 'e' || word[i] == 'E'
        &&& answer[i] == 's' <==> word[i] == 's' || word[i] == 'S'
    } by {
        text::lower_case_of_each_character(word, i);
    }
    if word.len() == 1 && answer[0] == 'y' {
        assert(answer =~= "y"@);
    }
    if word.len() == 3 && answer[0] == 'y' && answer[1] == 'e' && answer[2] == 's' {
        assert(answer =~= "yes"@);
    }
}

/// Whether an answer to a yes/no question says yes.
pub fn is_yes(line: &str) -> (r: bool)
    ensures
        r == says_yes(line@),
{
    let trimmed = text::trim(line);
    let answer = text::to_lower(trimmed.as_str());
    text::same(answer.as_str(), "y") || text::same(answer.as_str(), "yes")
}

} // verus!
