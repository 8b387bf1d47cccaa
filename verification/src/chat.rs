//! What a chat message asks of the driver: whether it carries a statement,
//! how the statement reads once its quotes are plain, and the two side shows
//! of the chat.

use vstd::prelude::*;
use vstd::string::*;
use rand::Rng;

verus! {

/// What a message starts with when it carries a statement.
pub const PREFIX: &'static str = "jshell> ";

/// What a message holds, in any case of letters, when it earns a whisper.
pub const WHISPER_WORD: &'static str = "system.out.println";

/// The faces of the die that decides on a summons.
pub const SUMMONS_FACES: u32 = 25;

/// The face on which a summons is due.
pub const SUMMONS_FACE: u32 = 1;

/// A typographic double quote becomes a plain one; every other character
/// stays.
pub open spec fn plain_quote(c: char) -> char {
    if c == '\u{201E}' || c == '\u{201C}' {
        '"'
    } else {
        c
    }
}

/// The statement that a message carries: what follows the prefix, with plain
/// quotes. A message without the prefix carries none.
pub open spec fn statement_text(content: Seq<char>) -> Option<Seq<char>> {
    if PREFIX@.is_prefix_of(content) {
        Some(content.skip(PREFIX@.len() as int).map_values(|c: char| plain_quote(c)))
    } else {
        None
    }
}

/// Whether `needle` stands somewhere in `hay`.
pub open spec fn occurs_in(needle: Seq<char>, hay: Seq<char>) -> bool {
    exists|at: int|
        0 <= at && at + needle.len() <= hay.len() && #[trigger] hay.subrange(
            at,
            at + needle.len(),
        ) == needle
}

/// The lowercase form that the standard library gives a text.
pub uninterp spec fn lowercase_of(text: Seq<char>) -> Seq<char>;

/// What is to be done about a message of a human author.
#[derive(Debug)]
pub struct Reaction {
    /// Whether the author earns a whisper.
    pub whisper: bool,
    /// The statement to hand to the driver, if the message carries one.
    pub statement: Option<String>,
}

/// The model of an optional text.
pub open spec fn text_view(r: Option<String>) -> Option<Seq<char>> {
    match r {
        Some(text) => Some(text@),
        None => None,
    }
}

/// `String::push` of the standard library: the character is appended at the
/// end and nothing else changes.
pub assume_specification[ String::push ](s: &mut String, ch: char)
    ensures
        final(s)@ == old(s)@.push(ch),
;

/// `str::to_lowercase` of the standard library. Its result follows the
/// Unicode tables and is a function of the text alone; it is named, not
/// spelled out.
pub assume_specification[ str::to_lowercase ](s: &str) -> (r: String)
    ensures
        r@ == lowercase_of(s@),
;

/// `Rng::gen_range` of rand, on the generator of the running thread and an
/// inclusive range: some value of the range, which one is open. The
/// generator is seeded by the system when a thread first asks for it.
#[verifier::external_body]
fn roll(low: u32, high: u32) -> (r: u32)
    requires
        low <= high,
    ensures
        low <= r <= high,
{
    rand::thread_rng().gen_range(low..=high)
}

/// The characters of a text, one by one.
fn chars_of(text: &str) -> (v: Vec<char>)
    ensures
        v@ == text@,
{
    let mut v: Vec<char> = Vec::new();
    for c in it: text.chars()
        invariant
            it.seq() == text@,
            v@ == it.seq().take(it.index()),
    {
        v.push(c);
    }
    v
}

/// Whether `needle` stands in `hay` at `at`.
fn stands_at(hay: &Vec<char>, needle: &Vec<char>, at: usize) -> (b: bool)
    requires
        at + needle.len() <= hay.len(),
    ensures
        b == (hay@.subrange(at as int, at + needle.len()) == needle@),
{
    let mut k: usize = 0;
    while k < needle.len()
        invariant
            k <= needle.len(),
            at + needle.len() <= hay.len(),
            forall|j: int| 0 <= j < k ==> hay@[at + j] == needle@[j],
        decreases needle.len() - k,
    {
        if hay[at + k] != needle[k] {
            proof {
                let window = hay@.subrange(at as int, at + needle.len());
                assert(window[k as int] == hay@[at + k]);
            }
            return false;
        }
        k += 1;
    }
    proof {
        assert(hay@.subrange(at as int, at + needle.len()) =~= needle@);
    }
    true
}

/// The plain form of one character.
pub fn plain(c: char) -> (r: char)
    ensures
        r == plain_quote(c),
{
    if c == '\u{201E}' || c == '\u{201C}' {
        '"'
    } else {
        c
    }
}

/// Whether `needle` stands somewhere in `hay`.
pub fn contains(hay: &str, needle: &str) -> (b: bool)
    ensures
        b == occurs_in(needle@, hay@),
{
    let hay_chars = chars_of(hay);
    let needle_chars = chars_of(needle);
    if needle_chars.len() > hay_chars.len() {
        return false;
    }
    let last: usize = hay_chars.len() - needle_chars.len();
    let mut at: usize = 0;
    loop
        invariant
            hay_chars@ == hay@,
            needle_chars@ == needle@,
            last + needle_chars.len() == hay_chars.len(),
            at <= last,
            forall|i: int|
                0 <= i < at ==> #[trigger] hay@.subrange(i, i + needle@.len()) != needle@,
        decreases last - at,
    {
        if stands_at(&hay_chars, &needle_chars, at) {
            return true;
        }
        if at == last {
            return false;
        }
        at += 1;
    }
}

/// The statement that a message carries, ready to begin a turn with: the
/// text after the prefix `jshell> `, in which each typographic double quote
/// (low or left) is replaced by a plain one. `None` where the message does not
/// start with the prefix.
pub fn statement_of(content: &str) -> (r: Option<String>)
    ensures
        text_view(r) == statement_text(content@),
{
    let chars = chars_of(content);
    let prefix = chars_of(PREFIX);
    if prefix.len() > chars.len() {
        return None;
    }
    if !stands_at(&chars, &prefix, 0) {
        return None;
    }
    let ghost rest = content@.skip(PREFIX@.len() as int);
    let mut statement = String::new();
    let mut i: usize = prefix.len();
    while i < chars.len()
        invariant
            chars@ == content@,
            prefix@ == PREFIX@,
            prefix.len() <= i <= chars.len(),
            rest == content@.skip(PREFIX@.len() as int),
            statement@ == rest.map_values(|c: char| plain_quote(c)).take(i - prefix.len()),
        decreases chars.len() - i,
    {
        statement.push(plain(chars[i]));
        i += 1;
        proof {
            let mapped = rest.map_values(|c: char| plain_quote(c));
            assert(mapped.take(i - prefix.len()) =~= mapped.take(i - 1 - prefix.len()).push(
                mapped[i - 1 - prefix.len()],
            ));
        }
    }
    proof {
        let mapped = rest.map_values(|c: char| plain_quote(c));
        assert(mapped.take(mapped.len() as int) =~= mapped);
    }
    Some(statement)
}

/// Whether a text that is already in lowercase holds the whisper word.
pub fn holds_whisper_word(lowered: &str) -> (b: bool)
    ensures
        b == occurs_in(WHISPER_WORD@, lowered@),
{
    contains(lowered, WHISPER_WORD)
}

/// Whether a message earns a whisper: its lowercase form holds the whisper
/// word.
pub fn earns_whisper(content: &str) -> (b: bool)
    ensures
        b == occurs_in(WHISPER_WORD@, lowercase_of(content@)),
{
    let lowered = content.to_lowercase();
    holds_whisper_word(lowered.as_str())
}

/// What is to be done about a message. A message of a bot is passed over:
/// `None`. Any other earns a whisper where its lowercase form holds the
/// whisper word, and begins a turn where it carries a statement.
pub fn react(author_is_bot: bool, content: &str) -> (r: Option<Reaction>)
    ensures
        r is None <==> author_is_bot,
        r matches Some(reaction) ==> reaction.whisper == occurs_in(
            WHISPER_WORD@,
            lowercase_of(content@),
        ) && text_view(reaction.statement) == statement_text(content@),
{
    if author_is_bot {
        None
    } else {
        Some(Reaction { whisper: earns_whisper(content), statement: statement_of(content) })
    }
}

/// Whether the face that the die showed calls for a summons.
pub fn summons_due(face: u32) -> (b: bool)
    ensures
        b == (face == SUMMONS_FACE),
{
    face == SUMMONS_FACE
}

/// Rolls the die and says whether a summons is due. Which face comes up is
/// open; a summons is due on exactly one of them.
pub fn roll_summons() -> (r: (u32, bool))
    ensures
        SUMMONS_FACE <= r.0 <= SUMMONS_FACES,
        r.1 == (r.0 == SUMMONS_FACE),
{
    let face = roll(SUMMONS_FACE, SUMMONS_FACES);
    (face, summons_due(face))
}

} // verus!
