//! A fallback tokenizer: words by white space, and characters where a word
//! is not in the vocabulary.

use crate::encoding::push_char;
use std::collections::HashMap;
use vstd::hash_map::StringHashMap;
use vstd::prelude::*;
use vstd::std_specs::hash::group_hash_axioms;
use vstd::string::StringExecFns;

verus! {

/// The character has the Unicode property `White_Space`.
pub open spec fn is_white_space(c: char) -> bool {
    let v = c as u32;
    ||| 0x09 <= v <= 0x0d
    ||| v == 0x20
    ||| v == 0x85
    ||| v == 0xa0
    ||| v == 0x1680
    ||| 0x2000 <= v <= 0x200a
    ||| v == 0x2028
    ||| v == 0x2029
    ||| v == 0x202f
    ||| v == 0x205f
    ||| v == 0x3000
}

/// No character of the text is white space.
pub open spec fn has_no_white_space(text: Seq<char>) -> bool {
    forall|i: int| 0 <= i < text.len() ==> !is_white_space(#[trigger] text[i])
}

/// Every character of the text is white space.
pub open spec fn is_all_white_space(text: Seq<char>) -> bool {
    forall|i: int| 0 <= i < text.len() ==> is_white_space(#[trigger] text[i])
}

/// The words of a text: its maximal runs of characters that are not white
/// space, in order. Told by the last character: white space adds nothing,
/// another character continues the last word where it follows one, and
/// starts a new word where it does not.
pub open spec fn words(text: Seq<char>) -> Seq<Seq<char>>
    decreases text.len(),
{
    if text.len() == 0 {
        Seq::empty()
    } else {
        let before = words(text.drop_last());
        let c = text.last();
        if is_white_space(c) {
            before
        } else if text.len() >= 2 && !is_white_space(text[text.len() - 2]) {
            before.drop_last().push(before.last().push(c))
        } else {
            before.push(seq![c])
        }
    }
}

/// The text without the white space at its start.
pub open spec fn trim_start(text: Seq<char>) -> Seq<char>
    decreases text.len(),
{
    if text.len() > 0 && is_white_space(text[0]) {
        trim_start(text.skip(1))
    } else {
        text
    }
}

/// The text without the white space at its end.
pub open spec fn trim_end(text: Seq<char>) -> Seq<char>
    decreases text.len(),
{
    if text.len() > 0 && is_white_space(text.last()) {
        trim_end(text.drop_last())
    } else {
        text
    }
}

/// The text without the white space at its start and at its end.
pub open spec fn trimmed(text: Seq<char>) -> Seq<char> {
    trim_end(trim_start(text))
}

/// The texts of a list of strings, in order.
pub open spec fn texts(strings: Seq<String>) -> Seq<Seq<char>> {
    Seq::new(strings.len(), |i: int| strings[i]@)
}

/// The entries of a vocabulary, each text as a sequence.
pub open spec fn entry_texts(entries: Seq<(String, u32)>) -> Seq<(Seq<char>, u32)> {
    Seq::new(entries.len(), |i: int| (entries[i].0@, entries[i].1))
}

/// The map from token text to id that a list of entries makes: of two
/// entries with one text, the later counts.
pub open spec fn ids_of(entries: Seq<(Seq<char>, u32)>) -> Map<Seq<char>, u32>
    decreases entries.len(),
{
    if entries.len() == 0 {
        Map::empty()
    } else {
        ids_of(entries.drop_last()).insert(entries.last().0, entries.last().1)
    }
}

/// The map from id to token text that a list of entries makes: of two
/// entries with one id, the later counts.
pub open spec fn tokens_of(entries: Seq<(Seq<char>, u32)>) -> Map<u32, Seq<char>>
    decreases entries.len(),
{
    if entries.len() == 0 {
        Map::empty()
    } else {
        tokens_of(entries.drop_last()).insert(entries.last().1, entries.last().0)
    }
}

/// The ids of the characters of a word, one by one; a character that is no
/// token gives none.
pub open spec fn character_ids(ids: Map<Seq<char>, u32>, word: Seq<char>) -> Seq<u32>
    decreases word.len(),
{
    if word.len() == 0 {
        Seq::empty()
    } else {
        let before = character_ids(ids, word.drop_last());
        if ids.contains_key(seq![word.last()]) {
            before.push(ids[seq![word.last()]])
        } else {
            before
        }
    }
}

/// The ids of a word: its own id where the word is a token, else those of
/// its characters.
pub open spec fn word_ids(ids: Map<Seq<char>, u32>, word: Seq<char>) -> Seq<u32> {
    if ids.contains_key(word) {
        seq![ids[word]]
    } else {
        character_ids(ids, word)
    }
}

/// The ids of a list of words, in order.
pub open spec fn encoding(ids: Map<Seq<char>, u32>, list: Seq<Seq<char>>) -> Seq<u32>
    decreases list.len(),
{
    if list.len() == 0 {
        Seq::empty()
    } else {
        encoding(ids, list.drop_last()) + word_ids(ids, list.last())
    }
}

/// The tokens of a list of ids, each followed by a space; an id that has no
/// token gives nothing.
pub open spec fn spaced_tokens(tokens: Map<u32, Seq<char>>, ids: Seq<u32>) -> Seq<char>
    decreases ids.len(),
{
    if ids.len() == 0 {
        Seq::empty()
    } else {
        let before = spaced_tokens(tokens, ids.drop_last());
        if tokens.contains_key(ids.last()) {
            before + tokens[ids.last()] + seq![' ']
        } else {
            before
        }
    }
}

/// The word in progress as a list: itself if it has a character, else none.
pub open spec fn pending(word: Seq<char>) -> Seq<Seq<char>> {
    if word.len() > 0 {
        seq![word]
    } else {
        Seq::empty()
    }
}

/// Tells whether a character is white space.
pub fn white_space(c: char) -> (r: bool)
    ensures
        r == is_white_space(c),
{
    let v: u32 = c as u32;
    (0x09 <= v && v <= 0x0d) || v == 0x20 || v == 0x85 || v == 0xa0 || v == 0x1680 || (0x2000 <= v
        && v <= 0x200a) || v == 0x2028 || v == 0x2029 || v == 0x202f || v == 0x205f || v == 0x3000
}

/// Splits a text into its words.
pub fn split_words(text: &str) -> (list: Vec<String>)
    ensures
        texts(list@) == words(text@),
{
    let mut list: Vec<String> = Vec::new();
    let mut word = String::new();
    for c in it: text.chars()
        invariant
            it.seq() == text@,
            words(text@.take(it.index() as int)) == texts(list@) + pending(word@),
            word@.len() > 0 <==> it.index() > 0 && !is_white_space(text@[it.index() - 1]),
    {
        assert(text@.take(it.index() + 1).drop_last() =~= text@.take(it.index() as int));
        if white_space(c) {
            if !word.as_str().is_empty() {
                list.push(word);
                word = String::new();
            }
        } else {
            let ghost begun = word@.len() > 0;
            push_char(&mut word, c);
            assert(!begun ==> word@ =~= seq![c]);
        }
    }
    assert(text@.take(text@.len() as int) =~= text@);
    if !word.as_str().is_empty() {
        list.push(word);
    }
    list
}

/// Every word has a character, and none of its characters is white space.
pub proof fn lemma_words_are_runs(text: Seq<char>)
    ensures
        forall|i: int|
            0 <= i < words(text).len() ==> (#[trigger] words(text)[i]).len() > 0
                && has_no_white_space(words(text)[i]),
        text.len() > 0 && !is_white_space(text.last()) ==> words(text).len() > 0,
    decreases text.len(),
{
    if text.len() > 0 {
        lemma_words_are_runs(text.drop_last());
        let before = words(text.drop_last());
        let c = text.last();
        if !is_white_space(c) && text.len() >= 2 && !is_white_space(text[text.len() - 2]) {
            let grown = before.last().push(c);
            assert forall|j: int| 0 <= j < grown.len() implies !is_white_space(
                #[trigger] grown[j],
            ) by {
                if j < before.last().len() {
                    assert(grown[j] == before.last()[j]);
                }
            }
        }
    }
}

/// A text without white space at either end is its own trimmed form.
pub proof fn lemma_trim_keeps_a_text_with_clean_ends(text: Seq<char>)
    requires
        text.len() == 0 || (!is_white_space(text[0]) && !is_white_space(text.last())),
    ensures
        trimmed(text) == text,
{
}

/// White space at the end of a text is no part of its trimmed form.
proof fn lemma_trim_end_drops_white_space(kept: Seq<char>, held: Seq<char>)
    requires
        is_all_white_space(held),
        kept.len() == 0 || !is_white_space(kept.last()),
    ensures
        trim_end(kept + held) == kept,
    decreases held.len(),
{
    if held.len() > 0 {
        assert((kept + held).drop_last() =~= kept + held.drop_last());
        lemma_trim_end_drops_white_space(kept, held.drop_last());
    }
}

/// How the trimmed start of a text grows with one more character.
proof fn lemma_trim_start_push(text: Seq<char>, c: char)
    ensures
        trim_start(text).len() > 0 ==> trim_start(text.push(c)) == trim_start(text).push(c),
        trim_start(text).len() == 0 && is_white_space(c) ==> trim_start(text.push(c)).len() == 0,
        trim_start(text).len() == 0 && !is_white_space(c) ==> trim_start(text.push(c)) == seq![c],
    decreases text.len(),
{
    if text.len() == 0 {
        assert(trim_start(text.push(c).skip(1)).len() == 0);
    } else if is_white_space(text[0]) {
        assert(text.push(c).skip(1) =~= text.skip(1).push(c));
        lemma_trim_start_push(text.skip(1), c);
    }
}

/// Trims the white space from both ends of a text.
pub fn trim(text: &str) -> (r: String)
    ensures
        r@ == trimmed(text@),
{
    let mut kept = String::new();
    let mut held = String::new();
    for c in it: text.chars()
        invariant
            it.seq() == text@,
            trim_start(text@.take(it.index() as int)) == kept@ + held@,
            is_all_white_space(held@),
            kept@.len() == 0 ==> held@.len() == 0,
            kept@.len() == 0 || !is_white_space(kept@.last()),
    {
        let ghost seen = text@.take(it.index() as int);
        assert(text@.take(it.index() + 1) =~= seen.push(c));
        proof {
            lemma_trim_start_push(seen, c);
        }
        if white_space(c) {
            if !kept.as_str().is_empty() {
                push_char(&mut held, c);
            }
        } else {
            kept.append(held.as_str());
            held = String::new();
            push_char(&mut kept, c);
        }
    }
    assert(text@.take(text@.len() as int) =~= text@);
    proof {
        lemma_trim_end_drops_white_space(kept@, held@);
    }
    kept
}

/// What a tokenizer knows: the id of each token text, and the token text of
/// each id.
pub struct Vocabulary {
    pub ids: Map<Seq<char>, u32>,
    pub tokens: Map<u32, Seq<char>>,
}

/// A tokenizer over a fixed vocabulary.
pub struct SimpleTokenizer {
    vocab: StringHashMap<u32>,
    inv_vocab: HashMap<u32, String>,
}

impl View for SimpleTokenizer {
    type V = Vocabulary;

    closed spec fn view(&self) -> Vocabulary {
        Vocabulary {
            ids: self.vocab@,
            tokens: Map::new(
                |id: u32| self.inv_vocab@.contains_key(id),
                |id: u32| self.inv_vocab@[id]@,
            ),
        }
    }
}

impl SimpleTokenizer {
    /// A tokenizer whose vocabulary is made of the entries, taken in order.
    pub fn new(entries: Vec<(String, u32)>) -> (tokenizer: SimpleTokenizer)
        ensures
            tokenizer@.ids == ids_of(entry_texts(entries@)),
            tokenizer@.tokens == tokens_of(entry_texts(entries@)),
    {
        broadcast use group_hash_axioms;

        let mut vocab: StringHashMap<u32> = StringHashMap::new();
        let mut inv_vocab: HashMap<u32, String> = HashMap::new();
        let ghost all = entry_texts(entries@);
        let mut i: usize = 0;
        while i < entries.len()
            invariant
                i <= entries.len(),
                all == entry_texts(entries@),
                vocab@ == ids_of(all.take(i as int)),
                Map::new(
                    |id: u32| inv_vocab@.contains_key(id),
                    |id: u32| inv_vocab@[id]@,
                ) == tokens_of(all.take(i as int)),
            decreases entries.len() - i,
        {
            let ghost before = Map::new(
                |id: u32| inv_vocab@.contains_key(id),
                |id: u32| inv_vocab@[id]@,
            );
            let text = entries[i].0.clone();
            let id = entries[i].1;
            assert(all.take(i + 1).drop_last() =~= all.take(i as int));
            vocab.insert(entries[i].0.clone(), id);
            inv_vocab.insert(id, text);
            assert(Map::new(|id: u32| inv_vocab@.contains_key(id), |id: u32| inv_vocab@[id]@)
                =~= before.insert(id, text@));
            i = i + 1;
        }
        assert(all.take(entries.len() as int) =~= all);
        SimpleTokenizer { vocab, inv_vocab }
    }

    /// The ids of a text: word by word, the id of the word where the word
    /// is a token, else the ids of those of its characters that are tokens.
    pub fn encode(&self, text: &str) -> (ids: Vec<u32>)
        ensures
            ids@ == encoding(self@.ids, words(text@)),
    {
        let list = split_words(text);
        let ghost all = words(text@);
        let mut ids: Vec<u32> = Vec::new();
        let mut i: usize = 0;
        while i < list.len()
            invariant
                i <= list.len(),
                all == texts(list@),
                ids@ == encoding(self.vocab@, all.take(i as int)),
            decreases list.len() - i,
        {
            let word = list[i].as_str();
            let ghost done = ids@;
            assert(all.take(i + 1).drop_last() =~= all.take(i as int));
            match self.vocab.get(word) {
                Some(id) => {
                    ids.push(*id);
                },
                None => {
                    for c in it: word.chars()
                        invariant
                            it.seq() == word@,
                            ids@ == done + character_ids(self.vocab@, word@.take(it.index() as int)),
                    {
                        assert(word@.take(it.index() + 1).drop_last() =~= word@.take(
                            it.index() as int,
                        ));
                        let mut single = String::new();
                        push_char(&mut single, c);
                        match self.vocab.get(single.as_str()) {
                            Some(id) => {
                                ids.push(*id);
                            },
                            None => {},
                        }
                    }
                    assert(word@.take(word@.len() as int) =~= word@);
                },
            }
            i = i + 1;
        }
        assert(all.take(list.len() as int) =~= all);
        ids
    }

    /// The text of a list of ids: the tokens of those ids that have one,
    /// with a space between two.
    pub fn decode(&self, ids: &[u32]) -> (text: String)
        ensures
            text@ == trimmed(spaced_tokens(self@.tokens, ids@)),
    {
        broadcast use group_hash_axioms;

        let mut text = String::new();
        let mut i: usize = 0;
        while i < ids.len()
            invariant
                i <= ids.len(),
                text@ == spaced_tokens(self@.tokens, ids@.take(i as int)),
            decreases ids.len() - i,
        {
            assert(ids@.take(i + 1).drop_last() =~= ids@.take(i as int));
            match self.inv_vocab.get(&ids[i]) {
                Some(token) => {
                    text.append(token.as_str());
                    push_char(&mut text, ' ');
                },
                None => {},
            }
            i = i + 1;
        }
        assert(ids@.take(ids.len() as int) =~= ids@);
        trim(text.as_str())
    }
}

} // verus!
