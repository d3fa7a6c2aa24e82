use vstd::prelude::*;
use crate::text::{ascii_upper, ascii_upper_text, join, joined, to_upper, upper_of, views};

verus! {

/// What kind of placeholder text to generate.
#[derive(Clone, Copy, Debug, PartialEq, Eq, Structural)]
pub enum LipsumType {
    Words,
    Sentences,
    Paragraphs,
}

/// Number of words in the vocabulary.
pub const WORD_COUNT: usize = 68;

/// The vocabulary, by index (below `WORD_COUNT`).
pub open spec fn vocabulary(i: usize) -> Seq<char> {
    match i {
        0 => "lorem"@,
        1 => "ipsum"@,
        2 => "dolor"@,
        3 => "sit"@,
        4 => "amet"@,
        5 => "consectetur"@,
        6 => "adipiscing"@,
        7 => "elit"@,
        8 => "sed"@,
        9 => "do"@,
        10 => "eiusmod"@,
        11 => "tempor"@,
        12 => "incididunt"@,
        13 => "ut"@,
        14 => "labore"@,
        15 => "et"@,
        16 => "dolore"@,
        17 => "magna"@,
        18 => "aliqua"@,
        19 => "enim"@,
        20 => "ad"@,
        21 => "minim"@,
        22 => "veniam"@,
        23 => "quis"@,
        24 => "nostrud"@,
        25 => "exercitation"@,
        26 => "ullamco"@,
        27 => "laboris"@,
        28 => "nisi"@,
        29 => "ut"@,
        30 => "aliquip"@,
        31 => "ex"@,
        32 => "ea"@,
        33 => "commodo"@,
        34 => "consequat"@,
        35 => "duis"@,
        36 => "aute"@,
        37 => "irure"@,
        38 => "dolor"@,
        39 => "in"@,
        40 => "reprehenderit"@,
        41 => "in"@,
        42 => "voluptate"@,
        43 => "velit"@,
        44 => "esse"@,
        45 => "cillum"@,
        46 => "dolore"@,
        47 => "eu"@,
        48 => "fugiat"@,
        49 => "nulla"@,
        50 => "pariatur"@,
        51 => "excepteur"@,
        52 => "sint"@,
        53 => "occaecat"@,
        54 => "cupidatat"@,
        55 => "non"@,
        56 => "proident"@,
        57 => "sunt"@,
        58 => "in"@,
        59 => "culpa"@,
        60 => "qui"@,
        61 => "officia"@,
        62 => "deserunt"@,
        63 => "mollit"@,
        64 => "anim"@,
        65 => "id"@,
        66 => "est"@,
        _ => "laborum"@,
    }
}

fn vocabulary_word(i: usize) -> (r: &'static str)
    requires
        i < WORD_COUNT,
    ensures
        r@ == vocabulary(i),
{
    match i {
        0 => "lorem",
        1 => "ipsum",
        2 => "dolor",
        3 => "sit",
        4 => "amet",
        5 => "consectetur",
        6 => "adipiscing",
        7 => "elit",
        8 => "sed",
        9 => "do",
        10 => "eiusmod",
        11 => "tempor",
        12 => "incididunt",
        13 => "ut",
        14 => "labore",
        15 => "et",
        16 => "dolore",
        17 => "magna",
        18 => "aliqua",
        19 => "enim",
        20 => "ad",
        21 => "minim",
        22 => "veniam",
        23 => "quis",
        24 => "nostrud",
        25 => "exercitation",
        26 => "ullamco",
        27 => "laboris",
        28 => "nisi",
        29 => "ut",
        30 => "aliquip",
        31 => "ex",
        32 => "ea",
        33 => "commodo",
        34 => "consequat",
        35 => "duis",
        36 => "aute",
        37 => "irure",
        38 => "dolor",
        39 => "in",
        40 => "reprehenderit",
        41 => "in",
        42 => "voluptate",
        43 => "velit",
        44 => "esse",
        45 => "cillum",
        46 => "dolore",
        47 => "eu",
        48 => "fugiat",
        49 => "nulla",
        50 => "pariatur",
        51 => "excepteur",
        52 => "sint",
        53 => "occaecat",
        54 => "cupidatat",
        55 => "non",
        56 => "proident",
        57 => "sunt",
        58 => "in",
        59 => "culpa",
        60 => "qui",
        61 => "officia",
        62 => "deserunt",
        63 => "mollit",
        64 => "anim",
        65 => "id",
        66 => "est",
        _ => "laborum",
    }
}

/// A word with its first character in upper case (for an ASCII first
/// character: `a`-`z` become `A`-`Z`).
pub open spec fn capitalized(w: Seq<char>) -> Seq<char> {
    if w.len() == 0 {
        w
    } else if (w[0] as u32) < 128 {
        seq![ascii_upper(w[0])] + w.subrange(1, w.len() as int)
    } else {
        upper_of(w.subrange(0, 1)) + w.subrange(1, w.len() as int)
    }
}

/// A capitalised word of the vocabulary.
pub open spec fn is_lipsum_word(w: Seq<char>) -> bool {
    exists|i: usize| i < WORD_COUNT && w == #[trigger] capitalized(vocabulary(i))
}

pub open spec fn all_lipsum_words(ws: Seq<Seq<char>>) -> bool {
    forall|k: int| 0 <= k < ws.len() ==> is_lipsum_word(#[trigger] ws[k])
}

/// The closing mark drawn from a roll of `0..10`: seven in ten a period, two
/// in ten a question mark, one in ten an exclamation mark.
pub open spec fn mark_for(roll: int) -> Seq<char> {
    if roll <= 6 {
        "."@
    } else if roll <= 8 {
        "?"@
    } else {
        "!"@
    }
}

pub open spec fn is_mark(p: Seq<char>) -> bool {
    p == "."@ || p == "?"@ || p == "!"@
}

/// Words joined by single spaces and closed by a mark.
pub open spec fn sentence_of(ws: Seq<Seq<char>>, mark: Seq<char>) -> Seq<char> {
    joined(ws, " "@) + mark
}

/// A sentence of 5 to 15 vocabulary words, closed by a mark.
pub open spec fn is_sentence(s: Seq<char>) -> bool {
    exists|ws: Seq<Seq<char>>, mark: Seq<char>|
        5 <= ws.len() < 16 && all_lipsum_words(ws) && is_mark(mark) && s == #[trigger] sentence_of(
            ws,
            mark,
        )
}

pub open spec fn all_sentences(ss: Seq<Seq<char>>) -> bool {
    forall|k: int| 0 <= k < ss.len() ==> is_sentence(#[trigger] ss[k])
}

/// A paragraph of 3 to 8 sentences joined by single spaces.
pub open spec fn is_paragraph(p: Seq<char>) -> bool {
    exists|ss: Seq<Seq<char>>|
        3 <= ss.len() < 9 && all_sentences(ss) && p == #[trigger] joined(ss, " "@)
}

pub open spec fn all_paragraphs(ps: Seq<Seq<char>>) -> bool {
    forall|k: int| 0 <= k < ps.len() ==> is_paragraph(#[trigger] ps[k])
}

/// Relies on rand's `rng()` and `Rng::random_range`: a number drawn from
/// `low..high`, which must not be empty.
#[verifier::external_body]
fn random_below(low: usize, high: usize) -> (r: usize)
    requires
        low < high,
    ensures
        low <= r < high,
{
    rand::Rng::random_range(&mut rand::rng(), low..high)
}

pub open spec fn word_views(words: Seq<&str>) -> Seq<Seq<char>> {
    words.map_values(|w: &str| w@)
}

/// Relies on rand's `IndexedRandom::choose` (with `rng()`): one of the
/// words, which `None` only when there are none.
#[verifier::external_body]
fn choose_word(words: &Vec<&str>) -> (chosen: String)
    requires
        words.len() > 0,
    ensures
        word_views(words@).contains(chosen@),
{
    match rand::seq::IndexedRandom::choose(words.as_slice(), &mut rand::rng()) {
        Some(w) => w.to_string(),
        None => String::new(),
    }
}

/// The vocabulary as a list, in order.
pub fn vocabulary_list() -> (r: Vec<&'static str>)
    ensures
        r.len() == WORD_COUNT,
        forall|i: int| 0 <= i < WORD_COUNT ==> (#[trigger] r@[i])@ == vocabulary(i as usize),
{
    let mut words: Vec<&'static str> = Vec::new();
    let mut i: usize = 0;
    while i < WORD_COUNT
        invariant
            i <= WORD_COUNT,
            words.len() == i,
            forall|k: int| 0 <= k < i ==> (#[trigger] words@[k])@ == vocabulary(k as usize),
        decreases WORD_COUNT - i,
    {
        words.push(vocabulary_word(i));
        i += 1;
    }
    words
}

/// The closing mark for a roll of `0..10`.
pub fn punctuation_for(roll: usize) -> (r: &'static str)
    ensures
        r@ == mark_for(roll as int),
{
    if roll <= 6 {
        "."
    } else if roll <= 8 {
        "?"
    } else {
        "!"
    }
}

/// A randomly drawn closing mark.
pub fn random_punctuation() -> (r: &'static str)
    ensures
        is_mark(r@),
{
    let roll = random_below(0, 10);
    punctuation_for(roll)
}

/// `word` with its first character in upper case.
pub fn capitalize(word: &str) -> (r: String)
    ensures
        r@ == capitalized(word@),
{
    let n = word.unicode_len();
    if n == 0 {
        return String::from_str(word);
    }
    let first = word.substring_char(0, 1);
    let rest = word.substring_char(1, n);
    let mut out = to_upper(first);
    proof {
        if (word@[0] as u32) < 128 {
            assert(ascii_upper_text(first@) =~= seq![ascii_upper(word@[0])]);
        }
    }
    out.append(rest);
    out
}

/// One capitalised word drawn from the vocabulary.
pub fn random_word() -> (r: String)
    ensures
        is_lipsum_word(r@),
{
    let words = vocabulary_list();
    let w = choose_word(&words);
    let r = capitalize(w.as_str());
    let ghost views_of_words = word_views(words@);
    let ghost i = choose|i: int| 0 <= i < views_of_words.len() && views_of_words[i] == w@;
    assert(words@[i]@ == w@);
    assert(r@ == capitalized(vocabulary(i as usize)));
    r
}

/// `count` capitalised words drawn from the vocabulary.
pub fn generate_words(count: usize) -> (r: Vec<String>)
    ensures
        r.len() == count,
        all_lipsum_words(views(r@)),
{
    let mut words: Vec<String> = Vec::new();
    while words.len() < count
        invariant
            words.len() <= count,
            all_lipsum_words(views(words@)),
        decreases count - words.len(),
    {
        let w = random_word();
        let ghost prev = views(words@);
        words.push(w);
        proof {
            let vs = views(words@);
            assert forall|k: int| 0 <= k < vs.len() implies is_lipsum_word(#[trigger] vs[k]) by {
                if k < vs.len() - 1 {
                    assert(vs[k] == prev[k]);
                } else {
                    assert(vs[k] == w@);
                }
            }
        }
    }
    words
}

/// `words` joined by spaces and closed by a random mark.
fn close_sentence(words: &Vec<String>) -> (r: String)
    ensures
        exists|mark: Seq<char>| is_mark(mark) && r@ == #[trigger] sentence_of(views(words@), mark),
{
    let body = join(words, " ");
    let mark = random_punctuation();
    let r = body.concat(mark);
    assert(r@ == sentence_of(views(words@), mark@));
    r
}

/// `count` sentences of 5 to 15 words each.
pub fn generate_sentences(count: usize) -> (r: Vec<String>)
    ensures
        r.len() == count,
        all_sentences(views(r@)),
{
    let mut sentences: Vec<String> = Vec::new();
    while sentences.len() < count
        invariant
            sentences.len() <= count,
            all_sentences(views(sentences@)),
        decreases count - sentences.len(),
    {
        let n = random_below(5, 16);
        let words = generate_words(n);
        let s = close_sentence(&words);
        let ghost prev = views(sentences@);
        sentences.push(s);
        proof {
            let vs = views(sentences@);
            assert(is_sentence(s@));
            assert forall|k: int| 0 <= k < vs.len() implies is_sentence(#[trigger] vs[k]) by {
                if k < vs.len() - 1 {
                    assert(vs[k] == prev[k]);
                } else {
                    assert(vs[k] == s@);
                }
            }
        }
    }
    sentences
}

/// `count` paragraphs of 3 to 8 sentences each.
fn generate_paragraphs(count: usize) -> (r: Vec<String>)
    ensures
        r.len() == count,
        all_paragraphs(views(r@)),
{
    let mut paragraphs: Vec<String> = Vec::new();
    while paragraphs.len() < count
        invariant
            paragraphs.len() <= count,
            all_paragraphs(views(paragraphs@)),
        decreases count - paragraphs.len(),
    {
        let n = random_below(3, 9);
        let sentences = generate_sentences(n);
        let p = join(&sentences, " ");
        let ghost prev = views(paragraphs@);
        paragraphs.push(p);
        proof {
            let vs = views(paragraphs@);
            assert(is_paragraph(p@));
            assert forall|k: int| 0 <= k < vs.len() implies is_paragraph(#[trigger] vs[k]) by {
                if k < vs.len() - 1 {
                    assert(vs[k] == prev[k]);
                } else {
                    assert(vs[k] == p@);
                }
            }
        }
    }
    paragraphs
}

/// Placeholder text of the requested shape, as `generate_lipsum` produces it.
pub open spec fn is_lipsum(text: Seq<char>, count: nat, kind: LipsumType) -> bool {
    if count == 0 {
        text.len() == 0
    } else {
        match kind {
            LipsumType::Words => exists|ws: Seq<Seq<char>>, mark: Seq<char>|
                ws.len() == count && all_lipsum_words(ws) && is_mark(mark) && text
                    == #[trigger] sentence_of(ws, mark),
            LipsumType::Sentences => exists|ss: Seq<Seq<char>>|
                ss.len() == count && all_sentences(ss) && text == #[trigger] joined(ss, " "@),
            LipsumType::Paragraphs => exists|ps: Seq<Seq<char>>|
                ps.len() == count && all_paragraphs(ps) && text == #[trigger] joined(ps, "\n\n"@),
        }
    }
}

/// Generates `count` words (closed by a mark), sentences (joined by spaces)
/// or paragraphs (separated by blank lines). A count of 0 gives "".
pub fn generate_lipsum(count: usize, lipsum_type: LipsumType) -> (r: String)
    ensures
        is_lipsum(r@, count as nat, lipsum_type),
{
    if count == 0 {
        return String::new();
    }
    match lipsum_type {
        LipsumType::Words => {
            let words = generate_words(count);
            let r = close_sentence(&words);
            assert(views(words@).len() == count);
            r
        },
        LipsumType::Sentences => {
            let sentences = generate_sentences(count);
            let r = join(&sentences, " ");
            assert(views(sentences@).len() == count);
            r
        },
        LipsumType::Paragraphs => {
            let paragraphs = generate_paragraphs(count);
            let r = join(&paragraphs, "\n\n");
            assert(views(paragraphs@).len() == count);
            r
        },
    }
}

} // verus!
