//! Pre-tokenizers: they split a text into word-like pieces and keep track of where
//! each piece came from.

use crate::decoders::PrependScheme;
use crate::error::{BadArg, ExTokenizersError};
use crate::util::{is_scalar_value, lemma_take_all, lemma_take_step, Info, InfoValue, InfoValueModel};
use std::sync::Arc;
use tokenizers::PreTokenizer;
use vstd::prelude::*;

verus! {

#[verifier::external_type_specification]
#[verifier::external_body]
pub struct ExPreTokenizerWrapper(tokenizers::PreTokenizerWrapper);

/// What becomes of the delimiter where a text is split.
#[derive(Clone, Copy, Debug, PartialEq, Eq, Structural)]
pub enum SplitDelimiterBehavior {
    Removed,
    Isolated,
    MergedWithPrevious,
    MergedWithNext,
    Contiguous,
}

/// The pattern at which a text is split: a literal text or a regular expression.
pub enum LocalSplitPattern {
    String(String),
    Regex(String),
}

/// A split pattern as mathematics.
pub enum SplitPatternModel {
    String(Seq<char>),
    Regex(Seq<char>),
}

impl View for LocalSplitPattern {
    type V = SplitPatternModel;

    open spec fn view(&self) -> SplitPatternModel {
        match *self {
            LocalSplitPattern::String(pattern) => SplitPatternModel::String(pattern@),
            LocalSplitPattern::Regex(pattern) => SplitPatternModel::Regex(pattern@),
        }
    }
}

/// A pre-tokenizer as mathematics: which pre-tokenizer it is, with its settings.
pub enum PreTokenizerModel {
    BertPreTokenizer,
    ByteLevel { add_prefix_space: bool, trim_offsets: bool, use_regex: bool },
    Delimiter { delimiter: char },
    Metaspace { replacement: char, prepend_scheme: PrependScheme, split: bool },
    Whitespace,
    Sequence { pretokenizers: Seq<PreTokenizerModel> },
    Split { pattern: SplitPatternModel, behavior: SplitDelimiterBehavior, invert: bool },
    Punctuation { behavior: SplitDelimiterBehavior },
    WhitespaceSplit,
    Digits { individual_digits: bool },
    UnicodeScripts,
    FixedLength { length: usize },
}

/// The kinds of pre-tokenizer.
#[derive(Clone, Copy, Debug, PartialEq, Eq, Structural)]
pub enum PreTokenizerKind {
    BertPreTokenizer,
    ByteLevel,
    Delimiter,
    Metaspace,
    Whitespace,
    Sequence,
    Split,
    Punctuation,
    WhitespaceSplit,
    Digits,
    UnicodeScripts,
    FixedLength,
}

impl PreTokenizerModel {
    /// Whether the engine can run the pre-tokenizer: it cannot cut a text into pieces
    /// of no length, so no fixed length in it is zero.
    pub open spec fn defined(self) -> bool
        decreases self,
    {
        match self {
            PreTokenizerModel::FixedLength { length } => length > 0,
            PreTokenizerModel::Sequence { pretokenizers } => forall|i: int|
                0 <= i < pretokenizers.len() ==> (#[trigger] pretokenizers[i]).defined(),
            _ => true,
        }
    }

    /// The kind of the pre-tokenizer.
    pub open spec fn kind(self) -> PreTokenizerKind {
        match self {
            PreTokenizerModel::BertPreTokenizer => PreTokenizerKind::BertPreTokenizer,
            PreTokenizerModel::ByteLevel { .. } => PreTokenizerKind::ByteLevel,
            PreTokenizerModel::Delimiter { .. } => PreTokenizerKind::Delimiter,
            PreTokenizerModel::Metaspace { .. } => PreTokenizerKind::Metaspace,
            PreTokenizerModel::Whitespace => PreTokenizerKind::Whitespace,
            PreTokenizerModel::Sequence { .. } => PreTokenizerKind::Sequence,
            PreTokenizerModel::Split { .. } => PreTokenizerKind::Split,
            PreTokenizerModel::Punctuation { .. } => PreTokenizerKind::Punctuation,
            PreTokenizerModel::WhitespaceSplit => PreTokenizerKind::WhitespaceSplit,
            PreTokenizerModel::Digits { .. } => PreTokenizerKind::Digits,
            PreTokenizerModel::UnicodeScripts => PreTokenizerKind::UnicodeScripts,
            PreTokenizerModel::FixedLength { .. } => PreTokenizerKind::FixedLength,
        }
    }
}

/// Which pre-tokenizer of the engine a value is, with its settings.
pub uninterp spec fn pre_tokenizer_description(pre_tokenizer: tokenizers::PreTokenizerWrapper) -> PreTokenizerModel;

/// What the engine makes of a text with a pre-tokenizer: the pieces, each with the
/// characters of the text that it came from, or the message of its refusal.
pub uninterp spec fn pre_tokenized(pre_tokenizer: PreTokenizerModel, sequence: Seq<char>) -> Result<
    Seq<(Seq<char>, (usize, usize))>,
    Seq<char>,
>;

/// Whether the engine takes a pattern to split at: a literal text, or a regular
/// expression that it can compile.
pub uninterp spec fn split_pattern_accepted(pattern: SplitPatternModel) -> bool;

/// The descriptions of a sequence of pre-tokenizers.
pub open spec fn pre_tokenizer_descriptions(pre_tokenizers: Seq<tokenizers::PreTokenizerWrapper>) -> Seq<
    PreTokenizerModel,
> {
    Seq::new(pre_tokenizers.len(), |i: int| pre_tokenizer_description(pre_tokenizers[i]))
}

/// Pieces as mathematics.
pub open spec fn pieces(splits: Seq<(String, (usize, usize))>) -> Seq<(Seq<char>, (usize, usize))> {
    Seq::new(splits.len(), |i: int| (splits[i].0@, splits[i].1))
}

/// `Clone::clone` of `tokenizers::PreTokenizerWrapper`: the copy is the same
/// pre-tokenizer with the same settings.
pub assume_specification[ <tokenizers::PreTokenizerWrapper as Clone>::clone ](
    pre_tokenizer: &tokenizers::PreTokenizerWrapper,
) -> (copy: tokenizers::PreTokenizerWrapper)
    ensures
        pre_tokenizer_description(copy) == pre_tokenizer_description(*pre_tokenizer),
;

/// `tokenizers::PreTokenizer::pre_tokenize` of `tokenizers::PreTokenizerWrapper` on a
/// `tokenizers::PreTokenizedString` made of the text, and then
/// `tokenizers::PreTokenizedString::get_splits` with offsets that count the characters
/// of the text as it was given; the engine's error as its message. The engine stops
/// the program where it is to cut pieces of no length.
#[verifier::external_body]
fn pre_tokenize(pre_tokenizer: &tokenizers::PreTokenizerWrapper, sequence: String) -> (splits: Result<
    Vec<(String, (usize, usize))>,
    String,
>)
    requires
        pre_tokenizer_description(*pre_tokenizer).defined(),
    ensures
        match splits {
            Ok(splits) => pre_tokenized(pre_tokenizer_description(*pre_tokenizer), sequence@) == Ok::<
                Seq<(Seq<char>, (usize, usize))>,
                Seq<char>,
            >(pieces(splits@)),
            Err(message) => pre_tokenized(pre_tokenizer_description(*pre_tokenizer), sequence@) == Err::<
                Seq<(Seq<char>, (usize, usize))>,
                Seq<char>,
            >(message@),
        },
{
    let mut pretokenized = tokenizers::PreTokenizedString::from(sequence);
    match pre_tokenizer.pre_tokenize(&mut pretokenized) {
        Ok(()) => Ok(
            pretokenized.get_splits(
                tokenizers::OffsetReferential::Original,
                tokenizers::OffsetType::Char,
            ).into_iter().map(|(s, o, _)| (s.to_owned(), o)).collect(),
        ),
        Err(error) => Err(error.to_string()),
    }
}

/// Which variant of `tokenizers::PreTokenizerWrapper` a pre-tokenizer is.
#[verifier::external_body]
fn pre_tokenizer_kind(pre_tokenizer: &tokenizers::PreTokenizerWrapper) -> (kind: PreTokenizerKind)
    ensures
        kind == pre_tokenizer_description(*pre_tokenizer).kind(),
{
    match pre_tokenizer {
        tokenizers::PreTokenizerWrapper::BertPreTokenizer(_) => PreTokenizerKind::BertPreTokenizer,
        tokenizers::PreTokenizerWrapper::ByteLevel(_) => PreTokenizerKind::ByteLevel,
        tokenizers::PreTokenizerWrapper::Delimiter(_) => PreTokenizerKind::Delimiter,
        tokenizers::PreTokenizerWrapper::Metaspace(_) => PreTokenizerKind::Metaspace,
        tokenizers::PreTokenizerWrapper::Whitespace(_) => PreTokenizerKind::Whitespace,
        tokenizers::PreTokenizerWrapper::Sequence(_) => PreTokenizerKind::Sequence,
        tokenizers::PreTokenizerWrapper::Split(_) => PreTokenizerKind::Split,
        tokenizers::PreTokenizerWrapper::Punctuation(_) => PreTokenizerKind::Punctuation,
        tokenizers::PreTokenizerWrapper::WhitespaceSplit(_) => PreTokenizerKind::WhitespaceSplit,
        tokenizers::PreTokenizerWrapper::Digits(_) => PreTokenizerKind::Digits,
        tokenizers::PreTokenizerWrapper::UnicodeScripts(_) => PreTokenizerKind::UnicodeScripts,
        tokenizers::PreTokenizerWrapper::FixedLength(_) => PreTokenizerKind::FixedLength,
    }
}

/// The pre-tokenizers of a `tokenizers::pre_tokenizers::sequence::Sequence` in a
/// pre-tokenizer, copied.
#[verifier::external_body]
fn sequence_parts(pre_tokenizer: &tokenizers::PreTokenizerWrapper) -> (parts: Option<
    Vec<tokenizers::PreTokenizerWrapper>,
>)
    ensures
        match pre_tokenizer_description(*pre_tokenizer) {
            PreTokenizerModel::Sequence { pretokenizers } => parts matches Some(found)
                && pre_tokenizer_descriptions(found@) == pretokenizers,
            _ => parts is None,
        },
{
    match pre_tokenizer {
        tokenizers::PreTokenizerWrapper::Sequence(sequence) => Some(sequence.as_ref().to_vec()),
        _ => None,
    }
}

/// The field `length` of a `tokenizers::pre_tokenizers::fixed_length::FixedLength` in
/// a pre-tokenizer.
#[verifier::external_body]
fn fixed_length(pre_tokenizer: &tokenizers::PreTokenizerWrapper) -> (length: Option<usize>)
    ensures
        match pre_tokenizer_description(*pre_tokenizer) {
            PreTokenizerModel::FixedLength { length: found } => length == Some(found),
            _ => length is None,
        },
{
    match pre_tokenizer {
        tokenizers::PreTokenizerWrapper::FixedLength(fixed) => Some(fixed.length),
        _ => None,
    }
}

/// Whether the engine can run a pre-tokenizer.
pub fn defined(pre_tokenizer: &tokenizers::PreTokenizerWrapper) -> (defined: bool)
    ensures
        defined == pre_tokenizer_description(*pre_tokenizer).defined(),
    decreases pre_tokenizer_description(*pre_tokenizer),
{
    match pre_tokenizer_kind(pre_tokenizer) {
        PreTokenizerKind::FixedLength => fixed_length(pre_tokenizer).unwrap() > 0,
        PreTokenizerKind::Sequence => {
            let parts = sequence_parts(pre_tokenizer).unwrap();
            let ghost pretokenizers = pre_tokenizer_descriptions(parts@);
            let mut i: usize = 0;
            while i < parts.len()
                invariant
                    i <= parts@.len(),
                    pretokenizers == pre_tokenizer_descriptions(parts@),
                    pre_tokenizer_description(*pre_tokenizer) == (PreTokenizerModel::Sequence { pretokenizers }),
                    forall|j: int| 0 <= j < i ==> (#[trigger] pretokenizers[j]).defined(),
                decreases parts@.len() - i,
            {
                proof {
                    let whole = pre_tokenizer_description(*pre_tokenizer);
                    assert(pre_tokenizer_description(parts@[i as int]) == pretokenizers[i as int]);
                    assert(whole->pretokenizers == pretokenizers);
                    assert(decreases_to!(whole => whole->pretokenizers));
                    assert(decreases_to!(pretokenizers => pretokenizers[i as int]));
                }
                if !defined(&parts[i]) {
                    assert(!pretokenizers[i as int].defined());
                    return false;
                }
                i += 1;
            }
            true
        },
        _ => true,
    }
}

/// `tokenizers::pre_tokenizers::byte_level::ByteLevel::new`, as a pre-tokenizer of any
/// kind.
#[verifier::external_body]
fn byte_level_pre_tokenizer(add_prefix_space: bool, trim_offsets: bool, use_regex: bool) -> (pre_tokenizer:
    tokenizers::PreTokenizerWrapper)
    ensures
        pre_tokenizer_description(pre_tokenizer) == (PreTokenizerModel::ByteLevel {
            add_prefix_space,
            trim_offsets,
            use_regex,
        }),
{
    tokenizers::pre_tokenizers::byte_level::ByteLevel::new(add_prefix_space, trim_offsets, use_regex).into()
}

/// Whether a number is that of a character of the byte-level alphabet: the visible
/// characters among the first 256 stand for themselves, and the 68 others are stood
/// for by the characters from number 256 on.
pub open spec fn in_byte_level_alphabet(code: u32) -> bool {
    (33 <= code && code <= 126) || (161 <= code && code <= 172) || (174 <= code && code <= 323)
}

/// `tokenizers::pre_tokenizers::byte_level::ByteLevel::alphabet`, as the list of the
/// numbers of its characters: the characters that stand for the 256 bytes, each once,
/// in no order that could be relied on.
#[verifier::external_body]
fn byte_level_alphabet() -> (codes: Vec<u32>)
    ensures
        codes@.len() == 256,
        codes@.no_duplicates(),
        forall|i: int| 0 <= i < codes@.len() ==> in_byte_level_alphabet(#[trigger] codes@[i]),
{
    tokenizers::pre_tokenizers::byte_level::ByteLevel::alphabet().into_iter().map(|c| c as u32).collect()
}

/// The unit value `tokenizers::pre_tokenizers::whitespace::Whitespace`, as a
/// pre-tokenizer of any kind.
#[verifier::external_body]
fn whitespace_pre_tokenizer() -> (pre_tokenizer: tokenizers::PreTokenizerWrapper)
    ensures
        pre_tokenizer_description(pre_tokenizer) == PreTokenizerModel::Whitespace,
{
    tokenizers::pre_tokenizers::whitespace::Whitespace.into()
}

/// The unit value `tokenizers::pre_tokenizers::whitespace::WhitespaceSplit`, as a
/// pre-tokenizer of any kind.
#[verifier::external_body]
fn whitespace_split_pre_tokenizer() -> (pre_tokenizer: tokenizers::PreTokenizerWrapper)
    ensures
        pre_tokenizer_description(pre_tokenizer) == PreTokenizerModel::WhitespaceSplit,
{
    tokenizers::pre_tokenizers::whitespace::WhitespaceSplit.into()
}

/// The unit value `tokenizers::pre_tokenizers::bert::BertPreTokenizer`, as a
/// pre-tokenizer of any kind.
#[verifier::external_body]
fn bert_pre_tokenizer() -> (pre_tokenizer: tokenizers::PreTokenizerWrapper)
    ensures
        pre_tokenizer_description(pre_tokenizer) == PreTokenizerModel::BertPreTokenizer,
{
    tokenizers::pre_tokenizers::bert::BertPreTokenizer.into()
}

/// `tokenizers::pre_tokenizers::metaspace::Metaspace::new`, as a pre-tokenizer of any
/// kind, with the scheme handed over in the engine's own type.
#[verifier::external_body]
fn metaspace_pre_tokenizer(replacement: char, prepend_scheme: PrependScheme, split: bool) -> (pre_tokenizer:
    tokenizers::PreTokenizerWrapper)
    ensures
        pre_tokenizer_description(pre_tokenizer) == (PreTokenizerModel::Metaspace {
            replacement,
            prepend_scheme,
            split,
        }),
{
    let scheme = match prepend_scheme {
        PrependScheme::First => tokenizers::pre_tokenizers::metaspace::PrependScheme::First,
        PrependScheme::Never => tokenizers::pre_tokenizers::metaspace::PrependScheme::Never,
        PrependScheme::Always => tokenizers::pre_tokenizers::metaspace::PrependScheme::Always,
    };
    tokenizers::pre_tokenizers::metaspace::Metaspace::new(replacement, scheme, split).into()
}

/// `tokenizers::pre_tokenizers::delimiter::CharDelimiterSplit::new`, as a pre-tokenizer
/// of any kind.
#[verifier::external_body]
fn delimiter_pre_tokenizer(delimiter: char) -> (pre_tokenizer: tokenizers::PreTokenizerWrapper)
    ensures
        pre_tokenizer_description(pre_tokenizer) == (PreTokenizerModel::Delimiter { delimiter }),
{
    tokenizers::pre_tokenizers::delimiter::CharDelimiterSplit::new(delimiter).into()
}

/// `tokenizers::pre_tokenizers::split::Split::new`, as a pre-tokenizer of any kind, with
/// the pattern and the behaviour handed over in the engine's own types. The engine
/// compiles the pattern and may refuse it.
#[verifier::external_body]
fn split_pre_tokenizer(pattern: LocalSplitPattern, behavior: SplitDelimiterBehavior, invert: bool) -> (pre_tokenizer: Result<
    tokenizers::PreTokenizerWrapper,
    BadArg,
>)
    ensures
        match pre_tokenizer {
            Ok(pre_tokenizer) => split_pattern_accepted(pattern@) && pre_tokenizer_description(pre_tokenizer)
                == (PreTokenizerModel::Split { pattern: pattern@, behavior, invert }),
            Err(_) => !split_pattern_accepted(pattern@),
        },
{
    let pattern = match pattern {
        LocalSplitPattern::String(p) => tokenizers::pre_tokenizers::split::SplitPattern::String(p),
        LocalSplitPattern::Regex(p) => tokenizers::pre_tokenizers::split::SplitPattern::Regex(p),
    };
    let behavior = match behavior {
        SplitDelimiterBehavior::Removed => tokenizers::SplitDelimiterBehavior::Removed,
        SplitDelimiterBehavior::Isolated => tokenizers::SplitDelimiterBehavior::Isolated,
        SplitDelimiterBehavior::MergedWithPrevious => tokenizers::SplitDelimiterBehavior::MergedWithPrevious,
        SplitDelimiterBehavior::MergedWithNext => tokenizers::SplitDelimiterBehavior::MergedWithNext,
        SplitDelimiterBehavior::Contiguous => tokenizers::SplitDelimiterBehavior::Contiguous,
    };
    tokenizers::pre_tokenizers::split::Split::new(pattern, behavior, invert).map(|s| s.into()).map_err(|_| BadArg)
}

/// `tokenizers::pre_tokenizers::punctuation::Punctuation::new`, as a pre-tokenizer of
/// any kind, with the behaviour handed over in the engine's own type.
#[verifier::external_body]
fn punctuation_pre_tokenizer(behavior: SplitDelimiterBehavior) -> (pre_tokenizer:
    tokenizers::PreTokenizerWrapper)
    ensures
        pre_tokenizer_description(pre_tokenizer) == (PreTokenizerModel::Punctuation { behavior }),
{
    let behavior = match behavior {
        SplitDelimiterBehavior::Removed => tokenizers::SplitDelimiterBehavior::Removed,
        SplitDelimiterBehavior::Isolated => tokenizers::SplitDelimiterBehavior::Isolated,
        SplitDelimiterBehavior::MergedWithPrevious => tokenizers::SplitDelimiterBehavior::MergedWithPrevious,
        SplitDelimiterBehavior::MergedWithNext => tokenizers::SplitDelimiterBehavior::MergedWithNext,
        SplitDelimiterBehavior::Contiguous => tokenizers::SplitDelimiterBehavior::Contiguous,
    };
    tokenizers::pre_tokenizers::punctuation::Punctuation::new(behavior).into()
}

/// `tokenizers::pre_tokenizers::sequence::Sequence::new`, as a pre-tokenizer of any
/// kind.
#[verifier::external_body]
fn sequence_pre_tokenizer(pretokenizers: Vec<tokenizers::PreTokenizerWrapper>) -> (pre_tokenizer:
    tokenizers::PreTokenizerWrapper)
    ensures
        pre_tokenizer_description(pre_tokenizer) == (PreTokenizerModel::Sequence {
            pretokenizers: pre_tokenizer_descriptions(pretokenizers@),
        }),
{
    tokenizers::pre_tokenizers::sequence::Sequence::new(pretokenizers).into()
}

/// `tokenizers::pre_tokenizers::digits::Digits::new`, as a pre-tokenizer of any kind.
#[verifier::external_body]
fn digits_pre_tokenizer(individual_digits: bool) -> (pre_tokenizer: tokenizers::PreTokenizerWrapper)
    ensures
        pre_tokenizer_description(pre_tokenizer) == (PreTokenizerModel::Digits { individual_digits }),
{
    tokenizers::pre_tokenizers::digits::Digits::new(individual_digits).into()
}

/// A pre-tokenizer of the engine, owned by the library.
pub struct ExTokenizersPreTokenizerRef(pub tokenizers::PreTokenizerWrapper);

/// A handle on a pre-tokenizer.
#[derive(Clone)]
pub struct ExTokenizersPreTokenizer {
    pub resource: Arc<ExTokenizersPreTokenizerRef>,
}

impl View for ExTokenizersPreTokenizerRef {
    type V = PreTokenizerModel;

    open spec fn view(&self) -> PreTokenizerModel {
        pre_tokenizer_description(self.0)
    }
}

impl View for ExTokenizersPreTokenizer {
    type V = PreTokenizerModel;

    open spec fn view(&self) -> PreTokenizerModel {
        self.resource@
    }
}

impl ExTokenizersPreTokenizerRef {
    /// The resource that owns the given pre-tokenizer.
    pub fn new(data: tokenizers::PreTokenizerWrapper) -> (resource: Self)
        ensures
            resource@ == pre_tokenizer_description(data),
    {
        Self(data)
    }
}

impl ExTokenizersPreTokenizer {
    /// A handle on the given pre-tokenizer.
    pub fn new(data: tokenizers::PreTokenizerWrapper) -> (handle: Self)
        ensures
            handle@ == pre_tokenizer_description(data),
    {
        Self { resource: Arc::new(ExTokenizersPreTokenizerRef::new(data)) }
    }
}

/// The pieces that a pre-tokenizer makes of a text: what the engine makes of it; but
/// a pre-tokenizer that the engine cannot run is refused.
pub open spec fn pieces_of(pre_tokenizer: PreTokenizerModel, sequence: Seq<char>) -> Result<
    Seq<(Seq<char>, (usize, usize))>,
    Seq<char>,
> {
    if !pre_tokenizer.defined() {
        Err("a fixed length of zero cuts no pieces"@)
    } else {
        pre_tokenized(pre_tokenizer, sequence)
    }
}

/// The pieces that the pre-tokenizer makes of a text, each with the characters of the
/// text that it came from.
pub fn pre_tokenizers_pre_tokenize(pre_tokenizer: ExTokenizersPreTokenizer, sequence: String) -> (splits: Result<
    Vec<(String, (usize, usize))>,
    ExTokenizersError,
>)
    ensures
        match splits {
            Ok(splits) => pieces_of(pre_tokenizer@, sequence@) == Ok::<
                Seq<(Seq<char>, (usize, usize))>,
                Seq<char>,
            >(pieces(splits@)),
            Err(error) => error matches ExTokenizersError::Tokenizer(message) && pieces_of(
                pre_tokenizer@,
                sequence@,
            ) == Err::<Seq<(Seq<char>, (usize, usize))>, Seq<char>>(message@),
        },
{
    if !defined(&pre_tokenizer.resource.0) {
        return Err(ExTokenizersError::Tokenizer("a fixed length of zero cuts no pieces".to_owned()));
    }
    match pre_tokenize(&pre_tokenizer.resource.0, sequence) {
        Ok(splits) => Ok(splits),
        Err(message) => Err(ExTokenizersError::Tokenizer(message)),
    }
}

/// The name of a kind of pre-tokenizer.
pub open spec fn pre_tokenizer_kind_name(kind: PreTokenizerKind) -> Seq<char> {
    match kind {
        PreTokenizerKind::BertPreTokenizer => "BertPreTokenizer"@,
        PreTokenizerKind::ByteLevel => "ByteLevel"@,
        PreTokenizerKind::Delimiter => "Delimiter"@,
        PreTokenizerKind::Metaspace => "Metaspace"@,
        PreTokenizerKind::Whitespace => "Whitespace"@,
        PreTokenizerKind::Sequence => "Sequence"@,
        PreTokenizerKind::Split => "Split"@,
        PreTokenizerKind::Punctuation => "Punctuation"@,
        PreTokenizerKind::WhitespaceSplit => "WhitespaceSplit"@,
        PreTokenizerKind::Digits => "Digits"@,
        PreTokenizerKind::UnicodeScripts => "UnicodeScripts"@,
        PreTokenizerKind::FixedLength => "FixedLength"@,
    }
}

/// The description that a pre-tokenizer gives of itself: its kind, under the name
/// `pre_tokenizer_type`.
pub open spec fn pre_tokenizer_info(pre_tokenizer: PreTokenizerModel) -> Seq<(Seq<char>, InfoValueModel)> {
    seq![("pre_tokenizer_type"@, InfoValueModel::Text(pre_tokenizer_kind_name(pre_tokenizer.kind())))]
}

/// The description that the pre-tokenizer gives of itself.
pub fn pre_tokenizers_info(pre_tokenizer: ExTokenizersPreTokenizer) -> (info: Info)
    ensures
        info@ == pre_tokenizer_info(pre_tokenizer@),
{
    let name = match pre_tokenizer_kind(&pre_tokenizer.resource.0) {
        PreTokenizerKind::BertPreTokenizer => "BertPreTokenizer",
        PreTokenizerKind::ByteLevel => "ByteLevel",
        PreTokenizerKind::Delimiter => "Delimiter",
        PreTokenizerKind::Metaspace => "Metaspace",
        PreTokenizerKind::Whitespace => "Whitespace",
        PreTokenizerKind::Sequence => "Sequence",
        PreTokenizerKind::Split => "Split",
        PreTokenizerKind::Punctuation => "Punctuation",
        PreTokenizerKind::WhitespaceSplit => "WhitespaceSplit",
        PreTokenizerKind::Digits => "Digits",
        PreTokenizerKind::UnicodeScripts => "UnicodeScripts",
        PreTokenizerKind::FixedLength => "FixedLength",
    };
    let mut info = Info::new();
    info.push("pre_tokenizer_type", InfoValue::Text(name.to_owned()));
    assert(info@ =~= pre_tokenizer_info(pre_tokenizer@));
    info
}

/// One setting of a byte-level pre-tokenizer.
pub enum ByteLevelOption {
    AddPrefixSpace(bool),
    UseRegex(bool),
}

/// The settings of a byte-level pre-tokenizer that options can change.
pub struct ByteLevelSettings {
    pub add_prefix_space: bool,
    pub use_regex: bool,
}

impl ByteLevelSettings {
    /// The settings that no option has changed: both on.
    pub open spec fn initial() -> ByteLevelSettings {
        ByteLevelSettings { add_prefix_space: true, use_regex: true }
    }

    /// The settings with one option applied.
    pub open spec fn with(self, option: ByteLevelOption) -> ByteLevelSettings {
        match option {
            ByteLevelOption::AddPrefixSpace(value) => ByteLevelSettings { add_prefix_space: value, ..self },
            ByteLevelOption::UseRegex(value) => ByteLevelSettings { use_regex: value, ..self },
        }
    }

    /// The settings that a list of options describes: of two options for one setting
    /// the later one counts.
    pub open spec fn from_options(options: Seq<ByteLevelOption>) -> ByteLevelSettings
        decreases options.len(),
    {
        if options.len() == 0 {
            ByteLevelSettings::initial()
        } else {
            ByteLevelSettings::from_options(options.drop_last()).with(options.last())
        }
    }
}

/// The byte-level pre-tokenizer that the options describe; it trims offsets.
pub fn pre_tokenizers_byte_level(options: Vec<ByteLevelOption>) -> (pre_tokenizer: ExTokenizersPreTokenizer)
    ensures
        pre_tokenizer@ == (PreTokenizerModel::ByteLevel {
            add_prefix_space: ByteLevelSettings::from_options(options@).add_prefix_space,
            trim_offsets: true,
            use_regex: ByteLevelSettings::from_options(options@).use_regex,
        }),
{
    let mut add_prefix_space: bool = true;
    let mut use_regex: bool = true;
    let mut i: usize = 0;
    while i < options.len()
        invariant
            i <= options@.len(),
            (ByteLevelSettings { add_prefix_space, use_regex }) == ByteLevelSettings::from_options(
                options@.take(i as int),
            ),
        decreases options@.len() - i,
    {
        proof {
            lemma_take_step(options@, i as int);
        }
        match &options[i] {
            ByteLevelOption::AddPrefixSpace(value) => add_prefix_space = *value,
            ByteLevelOption::UseRegex(value) => use_regex = *value,
        }
        i += 1;
    }
    proof {
        lemma_take_all(options@);
    }
    ExTokenizersPreTokenizer::new(byte_level_pre_tokenizer(add_prefix_space, true, use_regex))
}

/// The numbers of the characters of the byte-level alphabet: 256 of them, each once,
/// in no order that could be relied on.
pub fn pre_tokenizers_byte_level_alphabet() -> (codes: Vec<u32>)
    ensures
        codes@.len() == 256,
        codes@.no_duplicates(),
        forall|i: int| 0 <= i < codes@.len() ==> in_byte_level_alphabet(#[trigger] codes@[i]),
{
    byte_level_alphabet()
}

/// The pre-tokenizer that splits at white space and between words and punctuation.
pub fn pre_tokenizers_whitespace() -> (pre_tokenizer: ExTokenizersPreTokenizer)
    ensures
        pre_tokenizer@ == PreTokenizerModel::Whitespace,
{
    ExTokenizersPreTokenizer::new(whitespace_pre_tokenizer())
}

/// The pre-tokenizer that splits at white space only.
pub fn pre_tokenizers_whitespace_split() -> (pre_tokenizer: ExTokenizersPreTokenizer)
    ensures
        pre_tokenizer@ == PreTokenizerModel::WhitespaceSplit,
{
    ExTokenizersPreTokenizer::new(whitespace_split_pre_tokenizer())
}

/// The BERT pre-tokenizer.
pub fn pre_tokenizers_bert() -> (pre_tokenizer: ExTokenizersPreTokenizer)
    ensures
        pre_tokenizer@ == PreTokenizerModel::BertPreTokenizer,
{
    ExTokenizersPreTokenizer::new(bert_pre_tokenizer())
}

/// One setting of a Metaspace pre-tokenizer.
pub enum MetaspaceOption {
    /// The marker of a space, as the number of its character.
    Replacement(u32),
    /// Whether the marker is put in front of a piece that does not start with it.
    AddPrefixSpace(bool),
}

/// The settings of a Metaspace pre-tokenizer that options can change.
pub struct MetaspaceSettings {
    pub replacement: char,
    pub prepend_scheme: PrependScheme,
}

impl MetaspaceSettings {
    /// The settings that no option has changed: the marker U+2581, put in front of
    /// every piece.
    pub open spec fn initial() -> MetaspaceSettings {
        MetaspaceSettings { replacement: '\u{2581}', prepend_scheme: PrependScheme::Always }
    }

    /// Whether an option can be applied: a marker has to be the number of a character.
    pub open spec fn accepts(option: MetaspaceOption) -> bool {
        match option {
            MetaspaceOption::Replacement(code) => is_scalar_value(code),
            MetaspaceOption::AddPrefixSpace(_) => true,
        }
    }

    /// The settings with one option applied. A prefix space that is asked for puts the
    /// marker in front of every piece; one that is declined, in front of none.
    pub open spec fn with(self, option: MetaspaceOption) -> MetaspaceSettings {
        match option {
            MetaspaceOption::Replacement(code) => MetaspaceSettings { replacement: code as char, ..self },
            MetaspaceOption::AddPrefixSpace(value) => MetaspaceSettings {
                prepend_scheme: if value {
                    PrependScheme::Always
                } else {
                    PrependScheme::Never
                },
                ..self
            },
        }
    }

    /// The settings that a list of options describes, where every option can be
    /// applied: of two options for one setting the later one counts.
    pub open spec fn from_options(options: Seq<MetaspaceOption>) -> Option<MetaspaceSettings>
        decreases options.len(),
    {
        if options.len() == 0 {
            Some(MetaspaceSettings::initial())
        } else {
            match MetaspaceSettings::from_options(options.drop_last()) {
                Some(settings) if MetaspaceSettings::accepts(options.last()) => Some(
                    settings.with(options.last()),
                ),
                _ => None,
            }
        }
    }
}

/// Options that are refused as a whole are refused from one of them on.
pub proof fn lemma_metaspace_refused(options: Seq<MetaspaceOption>, k: int)
    requires
        0 <= k <= options.len(),
        MetaspaceSettings::from_options(options.take(k)) is None,
    ensures
        MetaspaceSettings::from_options(options) is None,
    decreases options.len() - k,
{
    if k < options.len() {
        lemma_take_step(options, k);
        lemma_metaspace_refused(options, k + 1);
    } else {
        lemma_take_all(options);
    }
}

/// The Metaspace pre-tokenizer that the options describe; it splits on the marker. An
/// option whose marker is not the number of a character is refused.
pub fn pre_tokenizers_metaspace(options: Vec<MetaspaceOption>) -> (pre_tokenizer: Result<
    ExTokenizersPreTokenizer,
    BadArg,
>)
    ensures
        match pre_tokenizer {
            Ok(pre_tokenizer) => MetaspaceSettings::from_options(options@) matches Some(settings)
                && pre_tokenizer@ == (PreTokenizerModel::Metaspace {
                replacement: settings.replacement,
                prepend_scheme: settings.prepend_scheme,
                split: true,
            }),
            Err(_) => MetaspaceSettings::from_options(options@) is None,
        },
{
    let mut replacement: char = '\u{2581}';
    let mut prepend_scheme: PrependScheme = PrependScheme::Always;
    let mut i: usize = 0;
    while i < options.len()
        invariant
            i <= options@.len(),
            MetaspaceSettings::from_options(options@.take(i as int)) == Some(
                MetaspaceSettings { replacement, prepend_scheme },
            ),
        decreases options@.len() - i,
    {
        proof {
            lemma_take_step(options@, i as int);
        }
        match &options[i] {
            MetaspaceOption::Replacement(code) => {
                match char::from_u32(*code) {
                    Some(c) => replacement = c,
                    None => {
                        proof {
                            lemma_metaspace_refused(options@, i + 1);
                        }
                        return Err(BadArg);
                    },
                }
            },
            MetaspaceOption::AddPrefixSpace(value) => {
                prepend_scheme = if *value {
                    PrependScheme::Always
                } else {
                    PrependScheme::Never
                };
            },
        }
        i += 1;
    }
    proof {
        lemma_take_all(options@);
    }
    Ok(ExTokenizersPreTokenizer::new(metaspace_pre_tokenizer(replacement, prepend_scheme, true)))
}

/// The pre-tokenizer that splits at a character and drops it. The character is given as
/// its number; a number that is not one of a character is refused.
pub fn pre_tokenizers_char_delimiter_split(delimiter: u32) -> (pre_tokenizer: Result<
    ExTokenizersPreTokenizer,
    BadArg,
>)
    ensures
        match pre_tokenizer {
            Ok(pre_tokenizer) => is_scalar_value(delimiter) && pre_tokenizer@ == (PreTokenizerModel::Delimiter {
                delimiter: delimiter as char,
            }),
            Err(_) => !is_scalar_value(delimiter),
        },
{
    match char::from_u32(delimiter) {
        Some(delimiter) => Ok(ExTokenizersPreTokenizer::new(delimiter_pre_tokenizer(delimiter))),
        None => Err(BadArg),
    }
}

/// One setting of a pre-tokenizer that splits at a pattern.
pub enum SplitOption {
    /// Whether to split at what does not match, instead of at what matches.
    Invert(bool),
}

/// Whether a list of options asks to invert the pattern: what the last option says,
/// and no where there is none.
pub open spec fn split_inverted(options: Seq<SplitOption>) -> bool {
    if options.len() == 0 {
        false
    } else {
        match options.last() {
            SplitOption::Invert(invert) => invert,
        }
    }
}

/// The pre-tokenizer that splits at a pattern, unless the engine refuses the pattern.
pub fn pre_tokenizers_split(
    pattern: LocalSplitPattern,
    behavior: SplitDelimiterBehavior,
    options: Vec<SplitOption>,
) -> (pre_tokenizer: Result<ExTokenizersPreTokenizer, BadArg>)
    ensures
        match pre_tokenizer {
            Ok(pre_tokenizer) => split_pattern_accepted(pattern@) && pre_tokenizer@ == (PreTokenizerModel::Split {
                pattern: pattern@,
                behavior,
                invert: split_inverted(options@),
            }),
            Err(_) => !split_pattern_accepted(pattern@),
        },
{
    let mut invert: bool = false;
    let mut i: usize = 0;
    while i < options.len()
        invariant
            i <= options@.len(),
            invert == split_inverted(options@.take(i as int)),
        decreases options@.len() - i,
    {
        proof {
            lemma_take_step(options@, i as int);
        }
        match &options[i] {
            SplitOption::Invert(value) => invert = *value,
        }
        i += 1;
    }
    proof {
        lemma_take_all(options@);
    }
    match split_pre_tokenizer(pattern, behavior, invert) {
        Ok(pre_tokenizer) => Ok(ExTokenizersPreTokenizer::new(pre_tokenizer)),
        Err(refusal) => Err(refusal),
    }
}

/// The pre-tokenizer that splits at punctuation.
pub fn pre_tokenizers_punctuation(behavior: SplitDelimiterBehavior) -> (pre_tokenizer:
    ExTokenizersPreTokenizer)
    ensures
        pre_tokenizer@ == (PreTokenizerModel::Punctuation { behavior }),
{
    ExTokenizersPreTokenizer::new(punctuation_pre_tokenizer(behavior))
}

/// The views of a sequence of pre-tokenizer handles.
pub open spec fn pre_tokenizer_views(pre_tokenizers: Seq<ExTokenizersPreTokenizer>) -> Seq<PreTokenizerModel> {
    Seq::new(pre_tokenizers.len(), |i: int| pre_tokenizers[i]@)
}

/// The pre-tokenizer that runs the given pre-tokenizers one after the other.
pub fn pre_tokenizers_sequence(pretokenizers: Vec<ExTokenizersPreTokenizer>) -> (pre_tokenizer:
    ExTokenizersPreTokenizer)
    ensures
        pre_tokenizer@ == (PreTokenizerModel::Sequence {
            pretokenizers: pre_tokenizer_views(pretokenizers@),
        }),
{
    let mut sequence: Vec<tokenizers::PreTokenizerWrapper> = Vec::new();
    let mut i: usize = 0;
    while i < pretokenizers.len()
        invariant
            i <= pretokenizers@.len(),
            sequence@.len() == i,
            forall|j: int|
                0 <= j < i ==> pre_tokenizer_description(#[trigger] sequence@[j]) == pretokenizers@[j]@,
        decreases pretokenizers@.len() - i,
    {
        sequence.push(pretokenizers[i].resource.0.clone());
        i += 1;
    }
    assert(pre_tokenizer_descriptions(sequence@) =~= pre_tokenizer_views(pretokenizers@));
    ExTokenizersPreTokenizer::new(sequence_pre_tokenizer(sequence))
}

/// One setting of a pre-tokenizer that splits at digits.
pub enum DigitsOption {
    /// Whether every digit becomes a piece of its own.
    IndividualDigits(bool),
}

/// Whether a list of options asks for every digit to be a piece of its own: what the
/// last option says, and no where there is none.
pub open spec fn digits_individual(options: Seq<DigitsOption>) -> bool {
    if options.len() == 0 {
        false
    } else {
        match options.last() {
            DigitsOption::IndividualDigits(individual) => individual,
        }
    }
}

/// The pre-tokenizer that splits at digits as the options describe.
pub fn pre_tokenizers_digits(options: Vec<DigitsOption>) -> (pre_tokenizer: ExTokenizersPreTokenizer)
    ensures
        pre_tokenizer@ == (PreTokenizerModel::Digits { individual_digits: digits_individual(options@) }),
{
    let mut individual_digits: bool = false;
    let mut i: usize = 0;
    while i < options.len()
        invariant
            i <= options@.len(),
            individual_digits == digits_individual(options@.take(i as int)),
        decreases options@.len() - i,
    {
        proof {
            lemma_take_step(options@, i as int);
        }
        match &options[i] {
            DigitsOption::IndividualDigits(value) => individual_digits = *value,
        }
        i += 1;
    }
    proof {
        lemma_take_all(options@);
    }
    ExTokenizersPreTokenizer::new(digits_pre_tokenizer(individual_digits))
}

} // verus!
