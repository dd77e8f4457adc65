//! The check that the user wrote the seed phrase down: for every word
//! position, pick the right word among three; six positions to a page, in a
//! shuffled order.
use vstd::prelude::*;
use crate::keys::bip39_phrase;
use crate::text::{decimal, push_decimal, split_whitespace, split_ws, str_eq, string_texts};
use crate::vault_creation::{moved_on, opt_seq, stayed, VaultCreationState};

verus! {

/// Number of prompts on a page.
pub const PAGE_SIZE: usize = 6;

/// Progress of the seed phrase check.
pub struct SeedVerificationState {
    /// Word positions in the order they are asked (a shuffle of all
    /// positions).
    pub verification_indices: Vec<usize>,
    /// For each word position, the words offered: the right one and up to
    /// two others, in a shuffled order.
    pub word_choices: Vec<Vec<String>>,
    /// For each word position, the word picked, if any.
    pub selected_words: Vec<Option<String>>,
    pub initialized: bool,
    /// Index of the page shown.
    pub current_page: usize,
}

impl SeedVerificationState {
    pub fn new() -> (s: Self)
        ensures
            s.verification_indices@.len() == 0,
            s.word_choices@.len() == 0,
            s.selected_words@.len() == 0,
            !s.initialized,
            s.current_page == 0,
    {
        SeedVerificationState {
            verification_indices: Vec::new(),
            word_choices: Vec::new(),
            selected_words: Vec::new(),
            initialized: false,
            current_page: 0,
        }
    }
}

/// The picks as a map from word position to word.
pub open spec fn picks(sel: Seq<Option<String>>) -> Map<usize, Seq<char>> {
    Map::new(
        |i: usize| i < sel.len() && sel[i as int] is Some,
        |i: usize| sel[i as int]->Some_0@,
    )
}

/// Number of positions picked.
pub open spec fn count_picked(sel: Seq<Option<String>>) -> nat
    decreases sel.len(),
{
    if sel.len() == 0 {
        0
    } else {
        count_picked(sel.drop_last()) + (if sel.last() is Some {
            1nat
        } else {
            0nat
        })
    }
}

proof fn lemma_count_update(sel: Seq<Option<String>>, i: int, x: Option<String>)
    requires
        0 <= i < sel.len(),
    ensures
        count_picked(sel.update(i, x)) + (if sel[i] is Some {
            1int
        } else {
            0int
        }) == count_picked(sel) + (if x is Some {
            1int
        } else {
            0int
        }),
    decreases sel.len(),
{
    let u = sel.update(i, x);
    if i == sel.len() - 1 {
        assert(u.drop_last() =~= sel.drop_last());
    } else {
        assert(u.drop_last() =~= sel.drop_last().update(i, x));
        lemma_count_update(sel.drop_last(), i, x);
    }
}

/// The words of the generated phrase.
pub open spec fn phrase_words(mnemonic: Option<String>) -> Option<Seq<Seq<char>>> {
    match mnemonic {
        Some(m) => Some(split_ws(m@)),
        None => None,
    }
}

/// Number of words to check: those of the phrase, 12 when there is none.
pub open spec fn total_words(mnemonic: Option<String>) -> nat {
    match mnemonic {
        Some(m) => split_ws(m@).len(),
        None => 12,
    }
}

/// The positions asked on page `page`.
pub open spec fn page_positions(indices: Seq<usize>, page: nat, total: nat) -> Seq<usize> {
    let start = page * 6;
    let end = if (page + 1) * 6 < total {
        (page + 1) * 6
    } else {
        total
    };
    indices.subrange(start as int, end as int)
}

/// The page can be cut out of the order of positions.
pub open spec fn page_in_range(indices: Seq<usize>, page: nat, total: nat) -> bool {
    let end = if (page + 1) * 6 < total {
        (page + 1) * 6
    } else {
        total
    };
    page * 6 <= end <= indices.len()
}

pub open spec fn incorrect_message() -> Seq<char> {
    "One or more words are incorrect. Please try again."@
}

pub open spec fn no_mnemonic_message() -> Seq<char> {
    "No mnemonic available"@
}

pub open spec fn invalid_index_message(i: nat) -> Seq<char> {
    "Invalid word index: "@ + decimal(i)
}

/// The first of the given positions, from `k` on, whose pick is not the
/// word of the phrase: the message for it, if any.
pub open spec fn first_wrong(positions: Seq<usize>, sel: Map<usize, Seq<char>>, words: Seq<Seq<char>>, k: nat) -> Option<Seq<char>>
    decreases positions.len() - k,
{
    if k >= positions.len() {
        None
    } else {
        let p = positions[k as int];
        if p >= words.len() {
            Some(invalid_index_message(p as nat))
        } else if words[p as int] != sel[p] {
            Some(incorrect_message())
        } else {
            first_wrong(positions, sel, words, k + 1)
        }
    }
}

/// What checking a page finds wrong: a position not picked, then no
/// phrase, then the first wrong pick in the page's order.
pub open spec fn page_error(positions: Seq<usize>, sel: Map<usize, Seq<char>>, words: Option<Seq<Seq<char>>>) -> Option<Seq<char>> {
    if exists|k: int| 0 <= k < positions.len() && !sel.contains_key(#[trigger] positions[k]) {
        Some("Please select all 6 words on this page"@)
    } else {
        match words {
            None => Some(no_mnemonic_message()),
            Some(w) => first_wrong(positions, sel, w, 0),
        }
    }
}

/// The English ordinal of a number: 1st, 2nd, 3rd, 4th, ..., 11th, 12th,
/// 13th, ..., 21st, 22nd, ...
pub open spec fn ordinal_text(n: nat) -> Seq<char> {
    if n == 1 {
        "1st"@
    } else if n == 2 {
        "2nd"@
    } else if n == 3 {
        "3rd"@
    } else if n % 10 == 1 && n % 100 != 11 {
        decimal(n) + "st"@
    } else if n % 10 == 2 && n % 100 != 12 {
        decimal(n) + "nd"@
    } else if n % 10 == 3 && n % 100 != 13 {
        decimal(n) + "rd"@
    } else {
        decimal(n) + "th"@
    }
}

/// The ordinal of `n` as text.
pub fn ordinal_number(n: usize) -> (s: String)
    ensures
        s@ == ordinal_text(n as nat),
{
    if n == 1 {
        return String::from_str("1st");
    }
    if n == 2 {
        return String::from_str("2nd");
    }
    if n == 3 {
        return String::from_str("3rd");
    }
    let mut s = String::new();
    push_decimal(&mut s, n as u64);
    if n % 10 == 1 && n % 100 != 11 {
        s.append("st");
    } else if n % 10 == 2 && n % 100 != 12 {
        s.append("nd");
    } else if n % 10 == 3 && n % 100 != 13 {
        s.append("rd");
    } else {
        s.append("th");
    }
    s
}

/// The first wrong pick at a position from `i` on, by position: the
/// message for it, if any.
pub open spec fn first_wrong_pick(sel: Seq<Option<String>>, words: Seq<Seq<char>>, i: nat) -> Option<Seq<char>>
    decreases sel.len() - i,
{
    if i >= sel.len() {
        None
    } else if sel[i as int] is Some {
        if i >= words.len() {
            Some(invalid_index_message(i))
        } else if words[i as int] != sel[i as int]->Some_0@ {
            Some(incorrect_message())
        } else {
            first_wrong_pick(sel, words, i + 1)
        }
    } else {
        first_wrong_pick(sel, words, i + 1)
    }
}

/// What the final check finds wrong: not every word picked, then no
/// phrase, then the first wrong pick by position.
pub open spec fn final_check_error(sel: Seq<Option<String>>, mnemonic: Option<String>, word_count: u32) -> Option<Seq<char>> {
    let expected: nat = match mnemonic {
        Some(m) => split_ws(m@).len(),
        None => word_count as nat,
    };
    if count_picked(sel) != expected {
        Some("Please select all "@ + decimal(expected) + " words"@)
    } else {
        match mnemonic {
            None => Some(no_mnemonic_message()),
            Some(m) => first_wrong_pick(sel, split_ws(m@), 0),
        }
    }
}

/// The positions `0..n` in order.
pub open spec fn positions(n: nat) -> Seq<usize> {
    Seq::new(n, |i: int| i as usize)
}

/// The words offered for a position: the right word and one or two others,
/// none of which is a word of the phrase.
pub open spec fn good_choices(c: Seq<String>, correct: Seq<char>, words: Seq<Seq<char>>) -> bool {
    &&& string_texts(c).contains(correct)
    &&& 1 <= c.len() <= 3
    &&& forall|j: int| 0 <= j < c.len() ==> ((#[trigger] c[j])@ == correct || (!words.contains(c[j]@)
        && is_bip39_word(c[j]@)))
}

/// `rand::seq::SliceRandom::shuffle` with the thread-local generator: puts
/// the items in a random order. Only that the same items remain (the same
/// multiset) is stated.
#[verifier::external_body]
pub(crate) fn shuffle<T>(v: &mut Vec<T>)
    ensures
        final(v)@.to_multiset() == old(v)@.to_multiset(),
{
    rand::seq::SliceRandom::shuffle(v.as_mut_slice(), &mut rand::thread_rng());
}

/// Whether one of the strings has the text `w`.
fn has_text(v: &Vec<String>, w: &str) -> (b: bool)
    ensures
        b == string_texts(v@).contains(w@),
{
    let mut i: usize = 0;
    while i < v.len()
        invariant
            i <= v@.len(),
            forall|k: int| 0 <= k < i ==> v@[k]@ != w@,
        decreases v@.len() - i,
    {
        if str_eq(v[i].as_str(), w) {
            assert(string_texts(v@)[i as int] == w@);
            return true;
        }
        i = i + 1;
    }
    proof {
        if string_texts(v@).contains(w@) {
            let k = choose|k: int| 0 <= k < string_texts(v@).len() && string_texts(v@)[k] == w@;
            assert(v@[k]@ == w@);
        }
    }
    false
}

/// A word of the BIP-39 English list: a word of the phrase of some 16 bytes
/// of entropy.
pub open spec fn is_bip39_word(w: Seq<char>) -> bool {
    exists|e: Seq<u8>| #![trigger bip39_phrase(e)] e.len() == 16 && split_ws(bip39_phrase(e)).contains(w)
}

/// A draw of entropy gave nothing new: every word of its phrase is already
/// among `taken` (the words to avoid and those already picked).
pub open spec fn draw_gives_nothing(e: Seq<u8>, exclude: Seq<Seq<char>>, picked: Seq<Seq<char>>) -> bool {
    forall|w: Seq<char>| #[trigger] split_ws(bip39_phrase(e)).contains(w) ==> exclude.contains(w) || picked.contains(
        w,
    )
}

/// A thousand random draws of 16 bytes of entropy all gave nothing new.
pub open spec fn draws_exhausted(exclude: Seq<Seq<char>>, picked: Seq<Seq<char>>) -> bool {
    exists|draws: Seq<Seq<u8>>| #![trigger draws.len()]
        draws.len() == 1000 && forall|i: int| 0 <= i < 1000 ==> (#[trigger] draws[i]).len() == 16
            && draw_gives_nothing(draws[i], exclude, picked)
}

/// Picking more words keeps a fruitless draw fruitless.
proof fn lemma_draw_more_picked(e: Seq<u8>, exclude: Seq<Seq<char>>, p1: Seq<Seq<char>>, p2: Seq<Seq<char>>)
    requires
        draw_gives_nothing(e, exclude, p1),
        forall|w: Seq<char>| #[trigger] p1.contains(w) ==> p2.contains(w),
    ensures
        draw_gives_nothing(e, exclude, p2),
{
    assert forall|w: Seq<char>| #[trigger] split_ws(bip39_phrase(e)).contains(w) implies exclude.contains(w)
        || p2.contains(w) by {
        if !exclude.contains(w) {
            assert(p1.contains(w));
        }
    }
}

/// Picking more words keeps exhausted draws exhausted.
pub proof fn lemma_exhausted_more_picked(exclude: Seq<Seq<char>>, p1: Seq<Seq<char>>, p2: Seq<Seq<char>>)
    requires
        draws_exhausted(exclude, p1),
        forall|w: Seq<char>| #[trigger] p1.contains(w) ==> p2.contains(w),
    ensures
        draws_exhausted(exclude, p2),
{
    let draws = choose|draws: Seq<Seq<u8>>| #![trigger draws.len()]
        draws.len() == 1000 && forall|i: int| 0 <= i < 1000 ==> (#[trigger] draws[i]).len() == 16
            && draw_gives_nothing(draws[i], exclude, p1);
    assert forall|i: int| 0 <= i < 1000 implies (#[trigger] draws[i]).len() == 16 && draw_gives_nothing(
        draws[i],
        exclude,
        p2,
    ) by {
        lemma_draw_more_picked(draws[i], exclude, p1, p2);
    }
    assert(draws.len() == 1000);
}

/// Up to `count` words of the BIP-39 list, drawn at random, none of them in
/// `exclude` and none twice. Fewer come back only if a thousand draws (of
/// 16 bytes of entropy each) found no word that is neither excluded nor
/// already picked.
pub fn generate_distractor_words(exclude: &Vec<String>, count: usize) -> (d: Vec<String>)
    ensures
        d@.len() <= count,
        string_texts(d@).no_duplicates(),
        forall|k: int| 0 <= k < d@.len() ==> !string_texts(exclude@).contains((#[trigger] d@[k])@),
        forall|k: int| 0 <= k < d@.len() ==> is_bip39_word((#[trigger] d@[k])@),
        d@.len() < count ==> draws_exhausted(string_texts(exclude@), string_texts(d@)),
{
    let mut d: Vec<String> = Vec::new();
    let mut attempts: usize = 0;
    let ghost mut draws: Seq<Seq<u8>> = Seq::empty();
    while d.len() < count && attempts < 1000
        invariant
            d@.len() <= count,
            attempts <= 1000,
            string_texts(d@).no_duplicates(),
            forall|k: int| 0 <= k < d@.len() ==> !string_texts(exclude@).contains((#[trigger] d@[k])@),
            forall|k: int| 0 <= k < d@.len() ==> is_bip39_word((#[trigger] d@[k])@),
            d@.len() < count ==> draws.len() == attempts,
            d@.len() < count ==> forall|i: int| 0 <= i < draws.len() ==> (#[trigger] draws[i]).len() == 16
                && draw_gives_nothing(draws[i], string_texts(exclude@), string_texts(d@)),
        decreases 1000 - attempts,
    {
        attempts = attempts + 1;
        let mut entropy: Vec<u8> = vec![0u8; 16];
        crate::keys::fill_random(&mut entropy);
        let ghost drawn = entropy@;
        let ghost d_start = string_texts(d@);
        let ghost draws_start = draws;
        match crate::keys::mnemonic_from_entropy(entropy.as_slice()) {
            Ok(phrase) => {
                let words = split_whitespace(phrase.as_str());
                let mut j: usize = 0;
                while j < words.len() && d.len() < count
                    invariant
                        d@.len() <= count,
                        j <= words@.len(),
                        drawn.len() == 16,
                        string_texts(words@) == split_ws(bip39_phrase(drawn)),
                        string_texts(d@).no_duplicates(),
                        forall|k: int| 0 <= k < d@.len() ==> !string_texts(exclude@).contains((#[trigger] d@[k])@),
                        forall|k: int| 0 <= k < d@.len() ==> is_bip39_word((#[trigger] d@[k])@),
                        forall|w: Seq<char>| #[trigger] d_start.contains(w) ==> string_texts(d@).contains(w),
                        forall|k: int| 0 <= k < j ==> string_texts(exclude@).contains(#[trigger] string_texts(words@)[k])
                            || string_texts(d@).contains(string_texts(words@)[k]),
                    decreases words@.len() - j,
                {
                    let w = words[j].clone();
                    proof {
                        assert(string_texts(words@)[j as int] == w@);
                        assert(split_ws(bip39_phrase(drawn)).contains(w@));
                        assert(is_bip39_word(w@));
                    }
                    let in_exclude = has_text(exclude, w.as_str());
                    let in_d = has_text(&d, w.as_str());
                    if !in_exclude && !in_d {
                        let ghost before = d@;
                        d.push(w);
                        proof {
                            assert(string_texts(d@) =~= string_texts(before).push(d@[before.len() as int]@));
                            assert forall|a: int, b: int| 0 <= a < b < string_texts(d@).len() implies string_texts(d@)[a] != string_texts(d@)[b] by {
                                if b == before.len() {
                                    assert(string_texts(before)[a] == string_texts(d@)[a]);
                                } else {
                                    assert(string_texts(before)[a] == string_texts(d@)[a]);
                                    assert(string_texts(before)[b] == string_texts(d@)[b]);
                                }
                            }
                            assert forall|k: int| 0 <= k < d@.len() implies is_bip39_word((#[trigger] d@[k])@) by {
                                if k < before.len() {
                                    assert(d@[k] == before[k]);
                                }
                            }
                            assert forall|x: Seq<char>| #[trigger] string_texts(before).contains(x) implies string_texts(
                                d@,
                            ).contains(x) by {
                                let i = choose|i: int| 0 <= i < string_texts(before).len() && string_texts(before)[i] == x;
                                assert(string_texts(d@)[i] == x);
                            }
                            assert(string_texts(d@)[before.len() as int] == string_texts(words@)[j as int]);
                        }
                    }
                    j = j + 1;
                }
                proof {
                    if d@.len() < count {
                        assert forall|w: Seq<char>| #[trigger] split_ws(bip39_phrase(drawn)).contains(w) implies
                            string_texts(exclude@).contains(w) || string_texts(d@).contains(w) by {
                            let k = choose|k: int| 0 <= k < split_ws(bip39_phrase(drawn)).len()
                                && split_ws(bip39_phrase(drawn))[k] == w;
                            assert(string_texts(words@)[k] == w);
                        }
                        draws = draws_start.push(drawn);
                        assert forall|i: int| 0 <= i < draws.len() implies (#[trigger] draws[i]).len() == 16
                            && draw_gives_nothing(draws[i], string_texts(exclude@), string_texts(d@)) by {
                            if i < draws_start.len() {
                                assert(draws[i] == draws_start[i]);
                                lemma_draw_more_picked(draws[i], string_texts(exclude@), d_start, string_texts(d@));
                            }
                        }
                    }
                }
            },
            Err(_) => {
                proof {
                    assert(crate::keys::valid_entropy_len(16));
                    assert(false);
                }
            },
        }
    }
    proof {
        if d@.len() < count {
            assert(draws.len() == 1000);
        }
    }
    d
}

/// All but the seed phrase check agree.
pub open spec fn same_outside_check(a: &VaultCreationState, b: &VaultCreationState) -> bool {
    &&& a.current_step == b.current_step
    &&& a.previous_step == b.previous_step
    &&& a.step_history@ == b.step_history@
    &&& a.device_role == b.device_role
    &&& a.mnemonic == b.mnemonic
    &&& a.mnemonic_word_count == b.mnemonic_word_count
    &&& a.vault_name == b.vault_name
    &&& a.error == b.error
    &&& a.pin_setup_state == b.pin_setup_state
}

/// The words of the phrase as strings.
fn words_of(mnemonic: &Option<String>) -> (w: Option<Vec<String>>)
    ensures
        match w {
            Some(v) => phrase_words(*mnemonic) == Some(string_texts(v@)),
            None => mnemonic is None,
        },
{
    match mnemonic {
        Some(m) => Some(split_whitespace(m.as_str())),
        None => None,
    }
}

impl VaultCreationState {
    /// Prepares the check of the phrase: the positions in a random order and,
    /// for each position, the right word with two other words of the list
    /// (as far as the draws find them), in a random order. Only a phrase of
    /// 12 or 24 words can be checked. The picks made so far are kept.
    pub fn initialize_verification_state(&mut self) -> (r: Result<(), String>)
        ensures
            r is Ok <==> (old(self).mnemonic is Some && (total_words(old(self).mnemonic) == 12
                || total_words(old(self).mnemonic) == 24)),
            old(self).mnemonic is None ==> (r matches Err(e) && e@ == no_mnemonic_message()),
            old(self).mnemonic is Some && r is Err ==> (r matches Err(e) && e@ == "Expected 12 or 24 words, got "@
                + decimal(total_words(old(self).mnemonic))),
            r is Err ==> final(self).seed_verification_state == old(self).seed_verification_state,
            r is Ok ==> {
                let n = total_words(old(self).mnemonic);
                let words = split_ws(old(self).mnemonic->Some_0@);
                let sv = final(self).seed_verification_state;
                &&& sv.verification_indices@.to_multiset() == positions(n).to_multiset()
                &&& sv.word_choices@.len() == n
                &&& forall|p: int| 0 <= p < n ==> good_choices((#[trigger] sv.word_choices@[p])@, words[p], words)
                &&& forall|p: int| 0 <= p < n ==> (#[trigger] sv.word_choices@[p])@.len() == 3 || draws_exhausted(
                    words,
                    string_texts(sv.word_choices@[p]@),
                )
                &&& sv.selected_words == old(self).seed_verification_state.selected_words
                &&& sv.initialized
                &&& sv.current_page == 0
            },
            same_outside_check(old(self), final(self)),
    {
        let words = match words_of(&self.mnemonic) {
            Some(w) => w,
            None => {
                return Err(String::from_str("No mnemonic available"));
            },
        };
        let ghost wt = string_texts(words@);
        let n = words.len();
        if n != 12 && n != 24 {
            let mut m = String::from_str("Expected 12 or 24 words, got ");
            push_decimal(&mut m, n as u64);
            return Err(m);
        }
        let mut indices: Vec<usize> = Vec::new();
        let mut i: usize = 0;
        while i < n
            invariant
                i <= n,
                indices@ == positions(i as nat),
            decreases n - i,
        {
            indices.push(i);
            i = i + 1;
            assert(indices@ =~= positions(i as nat));
        }
        shuffle(&mut indices);
        let mut choices_by_position: Vec<Vec<String>> = Vec::new();
        let mut p: usize = 0;
        while p < n
            invariant
                n == words@.len(),
                wt == string_texts(words@),
                p <= n,
                choices_by_position@.len() == p,
                forall|q: int| 0 <= q < p ==> good_choices((#[trigger] choices_by_position@[q])@, wt[q], wt),
                forall|q: int| 0 <= q < p ==> (#[trigger] choices_by_position@[q])@.len() == 3 || draws_exhausted(
                    wt,
                    string_texts(choices_by_position@[q]@),
                ),
            decreases n - p,
        {
            let correct = words[p].clone();
            let distractors = generate_distractor_words(&words, 2);
            let mut choices: Vec<String> = Vec::new();
            choices.push(correct);
            let mut j: usize = 0;
            while j < distractors.len()
                invariant
                    n == words@.len(),
                    wt == string_texts(words@),
                    p < n,
                    j <= distractors@.len(),
                    distractors@.len() <= 2,
                    choices@.len() == j + 1,
                    choices@[0]@ == wt[p as int],
                    forall|k: int| 0 <= k < j ==> (#[trigger] choices@[k + 1])@ == distractors@[k]@,
                    forall|k: int| 0 <= k < distractors@.len() ==> !wt.contains((#[trigger] distractors@[k])@),
                    forall|k: int| 0 <= k < distractors@.len() ==> is_bip39_word((#[trigger] distractors@[k])@),
                    forall|k: int| 0 <= k < choices@.len() ==> ((#[trigger] choices@[k])@ == wt[p as int] || (
                    !wt.contains(choices@[k]@) && is_bip39_word(choices@[k]@))),
                decreases distractors@.len() - j,
            {
                let x = distractors[j].clone();
                choices.push(x);
                j = j + 1;
            }
            let ghost before = choices@;
            assert(string_texts(before)[0] == wt[p as int]);
            shuffle(&mut choices);
            proof {
                broadcast use vstd::seq_lib::group_to_multiset_ensures;
                assert(choices@.to_multiset().len() == before.to_multiset().len());
                assert(choices@.len() == before.len());
                assert forall|w: Seq<char>| #[trigger] string_texts(distractors@).contains(w) implies string_texts(
                    choices@,
                ).contains(w) by {
                    let k = choose|k: int| 0 <= k < string_texts(distractors@).len() && string_texts(distractors@)[k] == w;
                    assert(before[k + 1]@ == w);
                    assert(before.contains(before[k + 1]));
                    assert(choices@.to_multiset().count(before[k + 1]) > 0);
                    assert(choices@.contains(before[k + 1]));
                    let c = choose|c: int| 0 <= c < choices@.len() && choices@[c] == before[k + 1];
                    assert(string_texts(choices@)[c] == w);
                }
                if distractors@.len() < 2 {
                    lemma_exhausted_more_picked(wt, string_texts(distractors@), string_texts(choices@));
                }
            }
            proof {
                broadcast use vstd::seq_lib::group_to_multiset_ensures;
                assert(choices@.to_multiset().len() == before.to_multiset().len());
                assert(choices@.len() == before.len());
                assert(before.contains(before[0]));
                assert(choices@.to_multiset().count(before[0]) > 0);
                assert(choices@.contains(before[0]));
                let k0 = choose|k: int| 0 <= k < choices@.len() && choices@[k] == before[0];
                assert(string_texts(choices@)[k0] == wt[p as int]);
                assert forall|k: int| 0 <= k < choices@.len() implies ((#[trigger] choices@[k])@ == wt[p as int] || (
                !wt.contains(choices@[k]@) && is_bip39_word(choices@[k]@))) by {
                    assert(choices@.contains(choices@[k]));
                    assert(before.to_multiset().count(choices@[k]) > 0);
                    assert(before.contains(choices@[k]));
                    let b = choose|b: int| 0 <= b < before.len() && before[b] == choices@[k];
                }
                assert(good_choices(choices@, wt[p as int], wt));
            }
            choices_by_position.push(choices);
            p = p + 1;
        }
        self.seed_verification_state.verification_indices = indices;
        self.seed_verification_state.word_choices = choices_by_position;
        self.seed_verification_state.initialized = true;
        self.seed_verification_state.current_page = 0;
        Ok(())
    }
}

/// The page's last position in the order of positions (exclusive).
pub open spec fn page_end(page: nat, total: nat) -> nat {
    if (page + 1) * 6 < total {
        (page + 1) * 6
    } else {
        total
    }
}

/// Number of pages for `total` words, six to a page.
pub open spec fn page_count(total: nat) -> nat {
    total / 6 + (if total % 6 != 0 {
        1nat
    } else {
        0nat
    })
}

/// The current page is the last one.
pub open spec fn is_last_page(page: nat, total: nat) -> bool {
    page + 1 == page_count(total)
}

/// Whether position `p` has a pick.
fn picked_at(sel: &Vec<Option<String>>, p: usize) -> (b: bool)
    ensures
        b == picks(sel@).contains_key(p),
{
    p < sel.len() && sel[p].is_some()
}

proof fn lemma_first_wrong_step(positions: Seq<usize>, sel: Map<usize, Seq<char>>, words: Seq<Seq<char>>, k: nat)
    requires
        k < positions.len(),
        positions[k as int] < words.len(),
        words[positions[k as int] as int] == sel[positions[k as int]],
    ensures
        first_wrong(positions, sel, words, k) == first_wrong(positions, sel, words, k + 1),
{
}

impl VaultCreationState {
    /// The number of words to check: those of the phrase, or 12.
    fn word_total(&self) -> (n: usize)
        ensures
            n == total_words(self.mnemonic),
    {
        match &self.mnemonic {
            Some(m) => {
                let w = split_whitespace(m.as_str());
                proof {
                    assert(string_texts(w@).len() == w@.len());
                }
                w.len()
            },
            None => 12,
        }
    }

    /// Checks the picks of the page shown: every position of the page must
    /// be picked, then each pick must be the word of the phrase.
    pub fn validate_current_page(&self) -> (r: Result<(), String>)
        requires
            page_in_range(
                self.seed_verification_state.verification_indices@,
                self.seed_verification_state.current_page as nat,
                total_words(self.mnemonic),
            ),
        ensures
            ({
                let sv = self.seed_verification_state;
                let e = page_error(
                    page_positions(sv.verification_indices@, sv.current_page as nat, total_words(self.mnemonic)),
                    picks(sv.selected_words@),
                    phrase_words(self.mnemonic),
                );
                match r {
                    Ok(()) => e is None,
                    Err(m) => e == Some(m@),
                }
            }),
    {
        let sv = &self.seed_verification_state;
        let total = self.word_total();
        let page = sv.current_page;
        let start = page * 6;
        let end = if total >= start && total - start > 6 {
            start + 6
        } else {
            total
        };
        let ghost pos = page_positions(sv.verification_indices@, page as nat, total as nat);
        let ghost sel = picks(sv.selected_words@);
        assert(end == page_end(page as nat, total as nat));
        let mut k: usize = start;
        while k < end
            invariant
                start <= k <= end,
                end <= sv.verification_indices@.len(),
                pos == sv.verification_indices@.subrange(start as int, end as int),
                sel == picks(sv.selected_words@),
                *sv == self.seed_verification_state,
                pos == page_positions(sv.verification_indices@, sv.current_page as nat, total_words(self.mnemonic)),
                forall|t: int| 0 <= t < k - start ==> sel.contains_key(#[trigger] pos[t]),
            decreases end - k,
        {
            let p = sv.verification_indices[k];
            if !picked_at(&sv.selected_words, p) {
                assert(pos[k - start] == p);
                assert(!sel.contains_key(pos[k - start]));
                return Err(String::from_str("Please select all 6 words on this page"));
            }
            k = k + 1;
        }
        let words = match words_of(&self.mnemonic) {
            Some(w) => w,
            None => {
                return Err(String::from_str("No mnemonic available"));
            },
        };
        let ghost wt = string_texts(words@);
        let mut k: usize = start;
        while k < end
            invariant
                start <= k <= end,
                end <= sv.verification_indices@.len(),
                pos == sv.verification_indices@.subrange(start as int, end as int),
                sel == picks(sv.selected_words@),
                *sv == self.seed_verification_state,
                pos == page_positions(sv.verification_indices@, sv.current_page as nat, total_words(self.mnemonic)),
                wt == string_texts(words@),
                wt.len() == words@.len(),
                phrase_words(self.mnemonic) == Some(wt),
                forall|t: int| 0 <= t < pos.len() ==> sel.contains_key(#[trigger] pos[t]),
                first_wrong(pos, sel, wt, 0) == first_wrong(pos, sel, wt, (k - start) as nat),
            decreases end - k,
        {
            let p = sv.verification_indices[k];
            assert(pos[k - start] == p);
            if p >= words.len() {
                let mut m = String::from_str("Invalid word index: ");
                push_decimal(&mut m, p as u64);
                return Err(m);
            }
            assert(sel.contains_key(p));
            let chosen = match &sv.selected_words[p] {
                Some(w) => w,
                None => {
                    return Err(String::from_str("Word not selected"));
                },
            };
            if !str_eq(words[p].as_str(), chosen.as_str()) {
                return Err(String::from_str("One or more words are incorrect. Please try again."));
            }
            proof {
                lemma_first_wrong_step(pos, sel, wt, (k - start) as nat);
            }
            k = k + 1;
        }
        Ok(())
    }
}

proof fn lemma_count_prefix(sel: Seq<Option<String>>, i: int)
    requires
        0 <= i < sel.len(),
    ensures
        count_picked(sel.subrange(0, i + 1)) == count_picked(sel.subrange(0, i)) + (if sel[i] is Some {
            1nat
        } else {
            0nat
        }),
{
    assert(sel.subrange(0, i + 1).drop_last() =~= sel.subrange(0, i));
}

/// Number of positions picked.
fn count_picks(sel: &Vec<Option<String>>) -> (n: usize)
    ensures
        n == count_picked(sel@),
{
    let mut n: usize = 0;
    let mut i: usize = 0;
    assert(sel@.subrange(0, 0) =~= Seq::<Option<String>>::empty());
    while i < sel.len()
        invariant
            i <= sel@.len(),
            n == count_picked(sel@.subrange(0, i as int)),
            n <= i,
        decreases sel@.len() - i,
    {
        proof {
            lemma_count_prefix(sel@, i as int);
        }
        if sel[i].is_some() {
            n = n + 1;
        }
        i = i + 1;
    }
    assert(sel@.subrange(0, sel@.len() as int) =~= sel@);
    n
}

impl VaultCreationState {
    /// The final check, on the last page: every word picked, and each pick
    /// the word of the phrase.
    pub fn validate_all_words(&self) -> (r: Result<(), String>)
        ensures
            ({
                let e = final_check_error(
                    self.seed_verification_state.selected_words@,
                    self.mnemonic,
                    self.mnemonic_word_count,
                );
                match r {
                    Ok(()) => e is None,
                    Err(m) => e == Some(m@),
                }
            }),
    {
        let sel = &self.seed_verification_state.selected_words;
        let words = words_of(&self.mnemonic);
        let expected: usize = match &words {
            Some(w) => w.len(),
            None => self.mnemonic_word_count as usize,
        };
        proof {
            if words is Some {
                assert(string_texts(words->Some_0@).len() == words->Some_0@.len());
            }
        }
        if count_picks(sel) != expected {
            let mut m = String::from_str("Please select all ");
            push_decimal(&mut m, expected as u64);
            m.append(" words");
            return Err(m);
        }
        let words = match words {
            Some(w) => w,
            None => {
                return Err(String::from_str("No mnemonic available"));
            },
        };
        let ghost wt = string_texts(words@);
        assert(final_check_error(sel@, self.mnemonic, self.mnemonic_word_count) == first_wrong_pick(sel@, wt, 0));
        let mut i: usize = 0;
        while i < sel.len()
            invariant
                final_check_error(sel@, self.mnemonic, self.mnemonic_word_count) == first_wrong_pick(sel@, wt, 0),
                i <= sel@.len(),
                wt == string_texts(words@),
                wt.len() == words@.len(),
                *sel == self.seed_verification_state.selected_words,
                phrase_words(self.mnemonic) == Some(wt),
                first_wrong_pick(sel@, wt, 0) == first_wrong_pick(sel@, wt, i as nat),
            decreases sel@.len() - i,
        {
            match &sel[i] {
                Some(w) => {
                    if i >= words.len() {
                        let mut m = String::from_str("Invalid word index: ");
                        push_decimal(&mut m, i as u64);
                        return Err(m);
                    }
                    if !str_eq(words[i].as_str(), w.as_str()) {
                        return Err(String::from_str("One or more words are incorrect. Please try again."));
                    }
                },
                None => {},
            }
            i = i + 1;
        }
        Ok(())
    }

    /// A word button of a prompt was clicked: a picked word is unpicked,
    /// any other word becomes the pick of its position.
    pub fn toggle_word(&mut self, position: usize, word: String)
        ensures
            ({
                let before = picks(old(self).seed_verification_state.selected_words@);
                let after = picks(final(self).seed_verification_state.selected_words@);
                if before.contains_key(position) && before[position] == word@ {
                    after == before.remove(position)
                } else {
                    after == before.insert(position, word@)
                }
            }),
            same_outside_check(old(self), final(self)),
            final(self).seed_verification_state.verification_indices == old(self).seed_verification_state.verification_indices,
            final(self).seed_verification_state.word_choices == old(self).seed_verification_state.word_choices,
            final(self).seed_verification_state.current_page == old(self).seed_verification_state.current_page,
            final(self).seed_verification_state.initialized == old(self).seed_verification_state.initialized,
    {
        let ghost before = picks(self.seed_verification_state.selected_words@);
        let selected = position < self.seed_verification_state.selected_words.len() && match &self.seed_verification_state.selected_words[position] {
            Some(w) => str_eq(w.as_str(), word.as_str()),
            None => false,
        };
        if selected {
            self.seed_verification_state.selected_words.set(position, None);
            assert(picks(self.seed_verification_state.selected_words@) =~= before.remove(position));
        } else {
            let ghost start = self.seed_verification_state.selected_words@;
            while self.seed_verification_state.selected_words.len() <= position
                invariant
                    picks(self.seed_verification_state.selected_words@) == before,
                    self.seed_verification_state.selected_words@.len() >= start.len(),
                    forall|k: int| 0 <= k < start.len() ==> self.seed_verification_state.selected_words@[k] == start[k],
                    same_outside_check(old(self), self),
                    self.seed_verification_state.verification_indices == old(self).seed_verification_state.verification_indices,
                    self.seed_verification_state.word_choices == old(self).seed_verification_state.word_choices,
                    self.seed_verification_state.current_page == old(self).seed_verification_state.current_page,
                    self.seed_verification_state.initialized == old(self).seed_verification_state.initialized,
                decreases position + 1 - self.seed_verification_state.selected_words@.len(),
            {
                let ghost prev = self.seed_verification_state.selected_words@;
                self.seed_verification_state.selected_words.push(None);
                assert(picks(self.seed_verification_state.selected_words@) =~= picks(prev));
            }
            self.seed_verification_state.selected_words.set(position, Some(word));
            assert(picks(self.seed_verification_state.selected_words@) =~= before.insert(position, word@));
        }
    }

    /// Forgets the picks of the positions on the page shown.
    fn clear_page_picks(&mut self, start: usize, end: usize)
        requires
            start <= end <= old(self).seed_verification_state.verification_indices@.len(),
        ensures
            picks(final(self).seed_verification_state.selected_words@) == picks(
                old(self).seed_verification_state.selected_words@,
            ).remove_keys(old(self).seed_verification_state.verification_indices@.subrange(start as int, end as int).to_set()),
            same_outside_check(old(self), final(self)),
            final(self).seed_verification_state.verification_indices == old(self).seed_verification_state.verification_indices,
            final(self).seed_verification_state.word_choices == old(self).seed_verification_state.word_choices,
            final(self).seed_verification_state.current_page == old(self).seed_verification_state.current_page,
            final(self).seed_verification_state.initialized == old(self).seed_verification_state.initialized,
    {
        let ghost before = picks(self.seed_verification_state.selected_words@);
        let ghost page = self.seed_verification_state.verification_indices@.subrange(start as int, end as int);
        let mut k: usize = start;
        while k < end
            invariant
                start <= k <= end,
                end <= self.seed_verification_state.verification_indices@.len(),
                page == self.seed_verification_state.verification_indices@.subrange(start as int, end as int),
                picks(self.seed_verification_state.selected_words@) == before.remove_keys(page.subrange(0, k - start).to_set()),
                same_outside_check(old(self), self),
                self.seed_verification_state.verification_indices == old(self).seed_verification_state.verification_indices,
                self.seed_verification_state.word_choices == old(self).seed_verification_state.word_choices,
                self.seed_verification_state.current_page == old(self).seed_verification_state.current_page,
                self.seed_verification_state.initialized == old(self).seed_verification_state.initialized,
            decreases end - k,
        {
            let p = self.seed_verification_state.verification_indices[k];
            let ghost prev = picks(self.seed_verification_state.selected_words@);
            if p < self.seed_verification_state.selected_words.len() {
                self.seed_verification_state.selected_words.set(p, None);
            }
            proof {
                assert(page[k - start] == p);
                assert(page.subrange(0, k + 1 - start).to_set() =~= page.subrange(0, k - start).to_set().insert(p)) by {
                    assert(page.subrange(0, k + 1 - start) =~= page.subrange(0, k - start).push(p));
                    broadcast use vstd::seq_lib::group_seq_properties;
                }
                assert(picks(self.seed_verification_state.selected_words@) =~= prev.remove(p));
                assert(prev.remove(p) =~= before.remove_keys(page.subrange(0, k + 1 - start).to_set()));
            }
            k = k + 1;
        }
        assert(page.subrange(0, end - start) =~= page);
    }
}

impl VaultCreationState {
    /// Opens the check of the phrase: prepares it if it is not yet; a failure
    /// to prepare it is shown.
    pub fn ensure_verification_initialized(&mut self)
        ensures
            old(self).seed_verification_state.initialized ==> final(self).seed_verification_state
                == old(self).seed_verification_state && final(self).error == old(self).error,
            !old(self).seed_verification_state.initialized ==> (final(self).seed_verification_state.initialized
                <==> (old(self).mnemonic is Some && (total_words(old(self).mnemonic) == 12 || total_words(
                old(self).mnemonic,
            ) == 24))),
            !old(self).seed_verification_state.initialized && !final(self).seed_verification_state.initialized
                ==> final(self).error is Some,
            final(self).current_step == old(self).current_step,
            final(self).step_history@ == old(self).step_history@,
            final(self).mnemonic == old(self).mnemonic,
            final(self).device_role == old(self).device_role,
    {
        if !self.seed_verification_state.initialized {
            match self.initialize_verification_state() {
                Ok(()) => {},
                Err(e) => {
                    self.error = Some(e);
                },
            }
        }
    }

    /// "Next" / "Continue" under the prompts. The page shown is checked; a
    /// wrong page is shown its error and its picks are cleared. A good page
    /// that is not the last leads to the next page. On the last page every
    /// pick is checked: if all are right the flow moves on (the answer is
    /// then `true`); if not, the error is shown, the page's picks are cleared
    /// and the check is prepared anew, from the first page.
    pub fn verify_continue(&mut self) -> (advanced: bool)
        requires
            total_words(old(self).mnemonic) > 0,
            page_in_range(
                old(self).seed_verification_state.verification_indices@,
                old(self).seed_verification_state.current_page as nat,
                total_words(old(self).mnemonic),
            ),
        ensures
            ({
                let sv = old(self).seed_verification_state;
                let total = total_words(old(self).mnemonic);
                let page = sv.current_page as nat;
                let positions = page_positions(sv.verification_indices@, page, total);
                let before = picks(sv.selected_words@);
                let pe = page_error(positions, before, phrase_words(old(self).mnemonic));
                let fe = final_check_error(sv.selected_words@, old(self).mnemonic, old(self).mnemonic_word_count);
                let after = final(self).seed_verification_state;
                &&& advanced == (pe is None && is_last_page(page, total) && fe is None)
                &&& (pe matches Some(m) ==> {
                    &&& opt_seq(final(self).error) == Some(m)
                    &&& picks(after.selected_words@) == before.remove_keys(positions.to_set())
                    &&& after.current_page == sv.current_page
                    &&& after.verification_indices == sv.verification_indices
                })
                &&& (pe is None && !is_last_page(page, total) ==> {
                    &&& final(self).error is None
                    &&& after.current_page == sv.current_page + 1
                    &&& after == (crate::seed_verification::SeedVerificationState {
                        current_page: after.current_page,
                        ..sv
                    })
                })
                &&& (advanced ==> final(self).error is None && moved_on(old(self), final(self)))
                &&& (pe is None && is_last_page(page, total) ==> (fe matches Some(m) ==> {
                    &&& picks(after.selected_words@) == before.remove_keys(positions.to_set())
                    &&& (total == 12 || total == 24 ==> {
                        &&& opt_seq(final(self).error) == Some(m)
                        &&& after.initialized
                        &&& after.current_page == 0
                    })
                    &&& (total != 12 && total != 24 ==> final(self).error is Some)
                }))
                &&& (!advanced ==> stayed(old(self), final(self)))
            }),
            final(self).mnemonic == old(self).mnemonic,
            final(self).device_role == old(self).device_role,
            final(self).pin_setup_state == old(self).pin_setup_state,
    {
        let total = self.word_total();
        let page = self.seed_verification_state.current_page;
        let pages = total / 6 + if total % 6 != 0 {
            1
        } else {
            0
        };
        let is_last = page + 1 == pages;
        let start = page * 6;
        let end = if total >= start && total - start > 6 {
            start + 6
        } else {
            total
        };
        let ghost before = picks(self.seed_verification_state.selected_words@);
        match self.validate_current_page() {
            Ok(()) => {
                self.error = None;
                if !is_last {
                    self.seed_verification_state.current_page = page + 1;
                    false
                } else {
                    match self.validate_all_words() {
                        Ok(()) => {
                            self.error = None;
                            self.advance_for_role();
                            true
                        },
                        Err(e) => {
                            self.error = Some(e);
                            self.clear_page_picks(start, end);
                            match self.initialize_verification_state() {
                                Ok(()) => {},
                                Err(err) => {
                                    self.error = Some(err);
                                },
                            }
                            false
                        },
                    }
                }
            },
            Err(e) => {
                self.error = Some(e);
                self.clear_page_picks(start, end);
                false
            },
        }
    }
}

proof fn lemma_count_le_len(s: Seq<Option<String>>)
    ensures
        count_picked(s) <= s.len(),
    decreases s.len(),
{
    if s.len() > 0 {
        lemma_count_le_len(s.drop_last());
    }
}

proof fn lemma_count_full(s: Seq<Option<String>>)
    ensures
        count_picked(s) == s.len() <==> forall|j: int| 0 <= j < s.len() ==> (#[trigger] s[j]) is Some,
    decreases s.len(),
{
    if s.len() > 0 {
        lemma_count_full(s.drop_last());
        lemma_count_le_len(s.drop_last());
        if count_picked(s) == s.len() {
            assert forall|j: int| 0 <= j < s.len() implies (#[trigger] s[j]) is Some by {
                if j < s.len() - 1 {
                    assert(s.drop_last()[j] == s[j]);
                }
            }
        }
        if forall|j: int| 0 <= j < s.len() ==> (#[trigger] s[j]) is Some {
            assert forall|j: int| 0 <= j < s.drop_last().len() implies (#[trigger] s.drop_last()[j]) is Some by {
                assert(s[j] is Some);
            }
            assert(s[s.len() - 1] is Some);
        }
    }
}

proof fn lemma_count_bounded(s: Seq<Option<String>>, n: nat)
    requires
        forall|j: int| 0 <= j < s.len() && (#[trigger] s[j]) is Some ==> j < n,
        count_picked(s) == n,
    ensures
        n <= s.len(),
        forall|p: int| 0 <= p < n ==> (#[trigger] s[p]) is Some,
    decreases s.len(),
{
    lemma_count_le_len(s);
    if s.len() > n {
        assert(!(s[s.len() - 1] is Some));
        let d = s.drop_last();
        assert forall|j: int| 0 <= j < d.len() && (#[trigger] d[j]) is Some implies j < n by {
            assert(s[j] == d[j]);
        }
        lemma_count_bounded(d, n);
        assert forall|p: int| 0 <= p < n implies (#[trigger] s[p]) is Some by {
            assert(d[p] == s[p]);
        }
    } else {
        lemma_count_full(s);
    }
}

proof fn lemma_no_wrong_pick(sel: Seq<Option<String>>, words: Seq<Seq<char>>, i: nat)
    requires
        first_wrong_pick(sel, words, i) is None,
    ensures
        forall|j: int| i <= j < sel.len() && (#[trigger] sel[j]) is Some ==> j < words.len() && words[j] == sel[j]->Some_0@,
    decreases sel.len() - i,
{
    if i < sel.len() {
        lemma_no_wrong_pick(sel, words, i + 1);
    }
}

proof fn lemma_all_right_no_wrong_pick(sel: Seq<Option<String>>, words: Seq<Seq<char>>, i: nat)
    requires
        sel.len() == words.len(),
        forall|j: int| 0 <= j < sel.len() ==> ((#[trigger] sel[j]) matches Some(w) && w@ == words[j]),
    ensures
        first_wrong_pick(sel, words, i) is None,
    decreases sel.len() - i,
{
    if i < sel.len() {
        assert(sel[i as int] matches Some(w) && w@ == words[i as int]);
        lemma_all_right_no_wrong_pick(sel, words, i + 1);
    }
}

/// The phrase check passes exactly when every word of the phrase is picked
/// at its own position and nothing else is picked.
pub proof fn lemma_check_passes_iff_all_right(sel: Seq<Option<String>>, mnemonic: String, word_count: u32)
    requires
        sel.len() <= usize::MAX,
    ensures
        final_check_error(sel, Some(mnemonic), word_count) is None <==> (
            picks(sel).dom() == Set::new(|p: usize| p < split_ws(mnemonic@).len())
            && forall|p: usize| p < split_ws(mnemonic@).len() ==> #[trigger] picks(sel)[p] == split_ws(mnemonic@)[p as int]),
{
    let words = split_ws(mnemonic@);
    let n = words.len();
    let goal = picks(sel).dom() == Set::new(|p: usize| p < n) && forall|p: usize| p < n ==> #[trigger] picks(sel)[p] == words[p as int];
    if final_check_error(sel, Some(mnemonic), word_count) is None {
        lemma_no_wrong_pick(sel, words, 0);
        lemma_count_bounded(sel, n);
        assert(picks(sel).dom() =~= Set::new(|p: usize| p < n));
        assert forall|p: usize| p < n implies #[trigger] picks(sel)[p] == words[p as int] by {
            assert(sel[p as int] is Some);
        }
    }
    if goal {
        if n > sel.len() {
            let q = sel.len() as usize;
            assert(Set::new(|p: usize| p < n).contains(q));
            assert(picks(sel).dom().contains(q));
        }
        assert(n <= sel.len());
        assert forall|j: int| 0 <= j < sel.len() && (#[trigger] sel[j]) is Some implies j < n by {
            assert(picks(sel).dom().contains(j as usize));
        }
        assert forall|p: int| 0 <= p < n implies (#[trigger] sel[p]) is Some by {
            assert(Set::new(|q: usize| q < n).contains(p as usize));
            assert(picks(sel).dom().contains(p as usize));
        }
        // only the first n positions can hold picks
        let t = sel.subrange(0, n as int);
        assert forall|j: int| 0 <= j < t.len() implies ((#[trigger] t[j]) matches Some(w) && w@ == words[j]) by {
            assert(sel[j] is Some);
            assert(picks(sel)[j as usize] == words[j]);
        }
        lemma_count_full(t);
        lemma_count_tail_none(sel, n);
        lemma_all_right_no_wrong_pick(t, words, 0);
        lemma_wrong_pick_prefix(sel, words, 0);
    }
}

proof fn lemma_count_tail_none(sel: Seq<Option<String>>, n: nat)
    requires
        n <= sel.len(),
        forall|j: int| n <= j < sel.len() ==> !((#[trigger] sel[j]) is Some),
    ensures
        count_picked(sel) == count_picked(sel.subrange(0, n as int)),
    decreases sel.len(),
{
    if sel.len() > n {
        let d = sel.drop_last();
        assert forall|j: int| n <= j < d.len() implies !((#[trigger] d[j]) is Some) by {
            assert(d[j] == sel[j]);
        }
        lemma_count_tail_none(d, n);
        assert(d.subrange(0, n as int) =~= sel.subrange(0, n as int));
    } else {
        assert(sel.subrange(0, n as int) =~= sel);
    }
}

proof fn lemma_wrong_pick_prefix(sel: Seq<Option<String>>, words: Seq<Seq<char>>, i: nat)
    requires
        words.len() <= sel.len(),
        forall|j: int| words.len() <= j < sel.len() ==> !((#[trigger] sel[j]) is Some),
    ensures
        first_wrong_pick(sel, words, i) == first_wrong_pick(sel.subrange(0, words.len() as int), words, i),
    decreases sel.len() - i,
{
    if i < sel.len() {
        lemma_wrong_pick_prefix(sel, words, i + 1);
        if i < words.len() {
            assert(sel.subrange(0, words.len() as int)[i as int] == sel[i as int]);
        }
    }
}

} // verus!
