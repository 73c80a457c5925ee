//! Values shared by every resource: the side an operation works from, the
//! description that a resource gives of itself, and characters given as numbers.

use crate::error::ExTokenizersError;
use vstd::prelude::*;
use vstd::string::StrSliceExecFns;

verus! {

/// The side of a sequence that padding is added to, or that truncation removes from.
#[derive(Clone, Copy, Debug, PartialEq, Eq, Structural)]
pub enum Direction {
    Left,
    Right,
}

/// Each iteration of an option loop extends the folded prefix by one option.
pub proof fn lemma_take_step<T>(s: Seq<T>, i: int)
    requires
        0 <= i < s.len(),
    ensures
        s.take(i + 1).drop_last() == s.take(i),
        s.take(i + 1).last() == s[i],
        s.take(i + 1).len() == i + 1,
{
    assert(s.take(i + 1).drop_last() =~= s.take(i));
}

/// The whole sequence is its own longest prefix.
pub proof fn lemma_take_all<T>(s: Seq<T>)
    ensures
        s.take(s.len() as int) == s,
{
    assert(s.take(s.len() as int) =~= s);
}

/// The texts of a sequence of strings.
pub open spec fn texts(strings: Seq<String>) -> Seq<Seq<char>> {
    Seq::new(strings.len(), |i: int| strings[i]@)
}

/// The text of an outcome: of what was computed, or of the message that came instead.
pub open spec fn text_outcome(outcome: Result<String, String>) -> Result<Seq<char>, Seq<char>> {
    match outcome {
        Ok(text) => Ok(text@),
        Err(message) => Err(message@),
    }
}

/// Whether a text starts with another.
pub open spec fn starts_with(text: Seq<char>, prefix: Seq<char>) -> bool {
    prefix.len() <= text.len() && text.take(prefix.len() as int) == prefix
}

/// A text with each copy of a pattern in it given as another text: the copies are
/// looked for from the left, and none reaches into another. A pattern without
/// characters is no pattern.
pub open spec fn replaced(text: Seq<char>, pattern: Seq<char>, content: Seq<char>) -> Seq<char>
    decreases text.len(),
{
    if pattern.len() == 0 || text.len() < pattern.len() {
        text
    } else if starts_with(text, pattern) {
        content + replaced(text.skip(pattern.len() as int), pattern, content)
    } else {
        seq![text[0]] + replaced(text.skip(1), pattern, content)
    }
}

/// Whether a text holds another somewhere in it.
pub open spec fn holds_text(text: Seq<char>, part: Seq<char>) -> bool {
    exists|i: int| 0 <= i <= text.len() - part.len() && #[trigger] text.subrange(i, i + part.len()) == part
}

/// The characters of a text.
pub(crate) fn characters(text: &str) -> (chars: Vec<char>)
    ensures
        chars@ == text@,
{
    let n = text.unicode_len();
    let mut chars: Vec<char> = Vec::new();
    let mut i: usize = 0;
    while i < n
        invariant
            i <= n,
            n == text@.len(),
            chars@ == text@.take(i as int),
        decreases n - i,
    {
        chars.push(text.get_char(i));
        assert(chars@ =~= text@.take(i + 1));
        i += 1;
    }
    assert(text@.take(n as int) =~= text@);
    chars
}

/// Whether a text starts with another.
pub(crate) fn starts_with_text(text: &str, prefix: &str) -> (starts: bool)
    ensures
        starts == starts_with(text@, prefix@),
{
    let whole = characters(text);
    let wanted = characters(prefix);
    if wanted.len() > whole.len() {
        return false;
    }
    let mut i: usize = 0;
    while i < wanted.len()
        invariant
            i <= wanted@.len(),
            wanted@.len() <= whole@.len(),
            whole@ == text@,
            wanted@ == prefix@,
            forall|j: int| 0 <= j < i ==> whole@[j] == wanted@[j],
        decreases wanted@.len() - i,
    {
        if whole[i] != wanted[i] {
            assert(whole@.take(wanted@.len() as int)[i as int] != wanted@[i as int]);
            return false;
        }
        i += 1;
    }
    assert(whole@.take(wanted@.len() as int) =~= wanted@);
    true
}

/// Whether a text holds another somewhere in it.
pub fn has_text(text: &str, part: &str) -> (found: bool)
    ensures
        found == holds_text(text@, part@),
{
    let whole = characters(text);
    let wanted = characters(part);
    if wanted.len() > whole.len() {
        return false;
    }
    let last = whole.len() - wanted.len();
    let mut i: usize = 0;
    loop
        invariant
            i <= last,
            last == whole@.len() - wanted@.len(),
            whole@.len() <= usize::MAX,
            whole@ == text@,
            wanted@ == part@,
            forall|k: int| 0 <= k < i ==> #[trigger] whole@.subrange(k, k + wanted@.len()) != wanted@,
        decreases last - i,
    {
        let mut j: usize = 0;
        let mut same: bool = true;
        while same && j < wanted.len()
            invariant
                j <= wanted@.len(),
                i <= last,
                last == whole@.len() - wanted@.len(),
                whole@.len() <= usize::MAX,
                forall|m: int| 0 <= m < j ==> whole@[i + m] == wanted@[m],
                !same ==> j < wanted@.len() && whole@[i + j] != wanted@[j as int],
            decreases wanted@.len() - j + if same { 1nat } else { 0nat },
        {
            if whole[i + j] == wanted[j] {
                j += 1;
            } else {
                same = false;
            }
        }
        if same {
            assert(whole@.subrange(i as int, i + wanted@.len()) =~= wanted@);
            return true;
        }
        assert(whole@.subrange(i as int, i + wanted@.len())[j as int] != wanted@[j as int]);
        if i == last {
            return false;
        }
        i += 1;
    }
}

/// Whether a number is a Unicode scalar value: a code point that is no surrogate.
pub open spec fn is_scalar_value(code: u32) -> bool {
    code <= 0xD7FF || (0xE000 <= code && code <= 0x10FFFF)
}

/// `char::from_u32`: the character with the given number, for the numbers that are
/// Unicode scalar values, and nothing for the others.
pub assume_specification[ char::from_u32 ](i: u32) -> (c: Option<char>)
    ensures
        c == if is_scalar_value(i) {
            Some(i as char)
        } else {
            None::<char>
        },
;

/// The characters with the given numbers, if every number is one of a character.
pub open spec fn chars_of(codes: Seq<u32>) -> Option<Seq<char>> {
    if forall|i: int| 0 <= i < codes.len() ==> is_scalar_value(#[trigger] codes[i]) {
        Some(Seq::new(codes.len(), |i: int| codes[i] as char))
    } else {
        None
    }
}

/// The characters with the given numbers. A number that is not one of a character is
/// an error.
pub fn chars_from_codes(codes: &Vec<u32>) -> (chars: Result<Vec<char>, ExTokenizersError>)
    ensures
        match chars {
            Ok(chars) => chars_of(codes@) == Some(chars@),
            Err(error) => chars_of(codes@) is None && error is InvalidChar,
        },
{
    let mut chars: Vec<char> = Vec::new();
    let mut i: usize = 0;
    while i < codes.len()
        invariant
            i <= codes@.len(),
            chars@.len() == i,
            forall|j: int| 0 <= j < i ==> is_scalar_value(#[trigger] codes@[j]),
            forall|j: int| 0 <= j < i ==> chars@[j] == codes@[j] as char,
        decreases codes@.len() - i,
    {
        match char::from_u32(codes[i]) {
            Some(c) => chars.push(c),
            None => {
                assert(!is_scalar_value(codes@[i as int]));
                return Err(ExTokenizersError::InvalidChar);
            },
        }
        i += 1;
    }
    assert(chars@ =~= Seq::new(codes@.len(), |i: int| codes@[i] as char));
    Ok(chars)
}

/// One value in the description of a resource.
#[derive(Debug)]
pub enum InfoValue {
    Text(String),
    OptionalText(Option<String>),
    Flag(bool),
    Size(usize),
    OptionalSize(Option<usize>),
    Number(u32),
    Count(u64),
}

/// A value of a description as mathematics.
pub enum InfoValueModel {
    Text(Seq<char>),
    OptionalText(Option<Seq<char>>),
    Flag(bool),
    Size(usize),
    OptionalSize(Option<usize>),
    Number(u32),
    Count(u64),
}

impl View for InfoValue {
    type V = InfoValueModel;

    open spec fn view(&self) -> InfoValueModel {
        match *self {
            InfoValue::Text(text) => InfoValueModel::Text(text@),
            InfoValue::OptionalText(text) => InfoValueModel::OptionalText(
                match text {
                    Some(text) => Some(text@),
                    None => None,
                },
            ),
            InfoValue::Flag(flag) => InfoValueModel::Flag(flag),
            InfoValue::Size(size) => InfoValueModel::Size(size),
            InfoValue::OptionalSize(size) => InfoValueModel::OptionalSize(size),
            InfoValue::Number(number) => InfoValueModel::Number(number),
            InfoValue::Count(count) => InfoValueModel::Count(count),
        }
    }
}

/// The description that a resource gives of itself: names with their values, in the
/// order in which they were entered.
#[derive(Debug)]
pub struct Info(pub Vec<(String, InfoValue)>);

impl View for Info {
    type V = Seq<(Seq<char>, InfoValueModel)>;

    open spec fn view(&self) -> Seq<(Seq<char>, InfoValueModel)> {
        Seq::new(self.0@.len(), |i: int| (self.0@[i].0@, self.0@[i].1@))
    }
}

impl Info {
    /// The description with no entry.
    pub fn new() -> (info: Info)
        ensures
            info@ == Seq::<(Seq<char>, InfoValueModel)>::empty(),
    {
        let info = Info(Vec::new());
        assert(info@ =~= Seq::<(Seq<char>, InfoValueModel)>::empty());
        info
    }

    /// Enters a value under a name, behind the entries that are there.
    pub fn push(&mut self, name: &str, value: InfoValue)
        ensures
            final(self)@ == old(self)@.push((name@, value@)),
    {
        self.0.push((name.to_owned(), value));
        assert(self@ =~= old(self)@.push((name@, value@)));
    }
}

} // verus!
