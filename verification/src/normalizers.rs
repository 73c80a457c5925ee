//! Normalizers: they clean a text before it is split.

use crate::error::{BadArg, ExTokenizersError};
use crate::util::{lemma_take_all, lemma_take_step, replaced, text_outcome, Info, InfoValue, InfoValueModel};
use std::sync::Arc;
use tokenizers::Normalizer;
use vstd::prelude::*;

verus! {

#[verifier::external_type_specification]
#[verifier::external_body]
pub struct ExNormalizerWrapper(tokenizers::NormalizerWrapper);

/// What is looked for in a text: a text as it stands, or what a regular expression
/// describes.
pub enum PatternModel {
    Literal(Seq<char>),
    Regex(Seq<char>),
}

/// A normalizer as mathematics: which normalizer it is, with its settings.
pub enum NormalizerModel {
    BertNormalizer {
        clean_text: bool,
        handle_chinese_chars: bool,
        strip_accents: Option<bool>,
        lowercase: bool,
    },
    StripNormalizer { strip_left: bool, strip_right: bool },
    StripAccents,
    Nfc,
    Nfd,
    Nfkc,
    Nfkd,
    Sequence { normalizers: Seq<NormalizerModel> },
    Lowercase,
    Nmt,
    Precompiled { data: Seq<u8> },
    Replace { pattern: PatternModel, content: Seq<char> },
    Prepend { prepend: Seq<char> },
    ByteLevel,
}

/// The kinds of normalizer.
#[derive(Clone, Copy, Debug, PartialEq, Eq, Structural)]
pub enum NormalizerKind {
    BertNormalizer,
    StripNormalizer,
    StripAccents,
    Nfc,
    Nfd,
    Nfkc,
    Nfkd,
    Sequence,
    Lowercase,
    Nmt,
    Precompiled,
    Replace,
    Prepend,
    ByteLevel,
}

impl NormalizerModel {
    /// Whether the engine can run the normalizer on every text. It reads a table of
    /// replacements without a look at where the table sends it, and stops the program
    /// where that is outside the table: so the normalizer is none that works from
    /// such a table, nor a sequence that holds one at any depth.
    pub open spec fn defined(self) -> bool
        decreases self,
    {
        match self {
            NormalizerModel::Precompiled { .. } => false,
            NormalizerModel::Sequence { normalizers } => forall|i: int|
                0 <= i < normalizers.len() ==> (#[trigger] normalizers[i]).defined(),
            _ => true,
        }
    }

    /// The kind of the normalizer.
    pub open spec fn kind(self) -> NormalizerKind {
        match self {
            NormalizerModel::BertNormalizer { .. } => NormalizerKind::BertNormalizer,
            NormalizerModel::StripNormalizer { .. } => NormalizerKind::StripNormalizer,
            NormalizerModel::StripAccents => NormalizerKind::StripAccents,
            NormalizerModel::Nfc => NormalizerKind::Nfc,
            NormalizerModel::Nfd => NormalizerKind::Nfd,
            NormalizerModel::Nfkc => NormalizerKind::Nfkc,
            NormalizerModel::Nfkd => NormalizerKind::Nfkd,
            NormalizerModel::Sequence { .. } => NormalizerKind::Sequence,
            NormalizerModel::Lowercase => NormalizerKind::Lowercase,
            NormalizerModel::Nmt => NormalizerKind::Nmt,
            NormalizerModel::Precompiled { .. } => NormalizerKind::Precompiled,
            NormalizerModel::Replace { .. } => NormalizerKind::Replace,
            NormalizerModel::Prepend { .. } => NormalizerKind::Prepend,
            NormalizerModel::ByteLevel => NormalizerKind::ByteLevel,
        }
    }
}

/// Which normalizer of the engine a value is, with its settings.
pub uninterp spec fn normalizer_description(normalizer: tokenizers::NormalizerWrapper) -> NormalizerModel;

/// What the engine makes of a text with a normalizer: the normalized text, or the
/// message of its refusal.
pub uninterp spec fn normalized(normalizer: NormalizerModel, input: Seq<char>) -> Result<
    Seq<char>,
    Seq<char>,
>;

/// Whether the engine takes a literal text as the pattern of a replacement.
pub uninterp spec fn replace_pattern_accepted(pattern: Seq<char>) -> bool;

/// Whether the engine can read bytes as a table of replacements.
pub uninterp spec fn precompiled_accepted(data: Seq<u8>) -> bool;

/// The descriptions of a sequence of normalizers.
pub open spec fn normalizer_descriptions(normalizers: Seq<tokenizers::NormalizerWrapper>) -> Seq<
    NormalizerModel,
> {
    Seq::new(normalizers.len(), |i: int| normalizer_description(normalizers[i]))
}

/// `Clone::clone` of `tokenizers::NormalizerWrapper`: the copy is the same normalizer
/// with the same settings.
pub assume_specification[ <tokenizers::NormalizerWrapper as Clone>::clone ](
    normalizer: &tokenizers::NormalizerWrapper,
) -> (copy: tokenizers::NormalizerWrapper)
    ensures
        normalizer_description(copy) == normalizer_description(*normalizer),
;

/// `tokenizers::normalizers::BertNormalizer::new`, as a normalizer of any kind.
#[verifier::external_body]
fn bert_normalizer(
    clean_text: bool,
    handle_chinese_chars: bool,
    strip_accents: Option<bool>,
    lowercase: bool,
) -> (normalizer: tokenizers::NormalizerWrapper)
    ensures
        normalizer_description(normalizer) == (NormalizerModel::BertNormalizer {
            clean_text,
            handle_chinese_chars,
            strip_accents,
            lowercase,
        }),
{
    tokenizers::normalizers::BertNormalizer::new(
        clean_text,
        handle_chinese_chars,
        strip_accents,
        lowercase,
    ).into()
}

/// The unit value `tokenizers::normalizers::unicode::NFD`, as a normalizer of any kind.
#[verifier::external_body]
fn nfd_normalizer() -> (normalizer: tokenizers::NormalizerWrapper)
    ensures
        normalizer_description(normalizer) == NormalizerModel::Nfd,
{
    tokenizers::normalizers::unicode::NFD.into()
}

/// The unit value `tokenizers::normalizers::unicode::NFKD`, as a normalizer of any kind.
#[verifier::external_body]
fn nfkd_normalizer() -> (normalizer: tokenizers::NormalizerWrapper)
    ensures
        normalizer_description(normalizer) == NormalizerModel::Nfkd,
{
    tokenizers::normalizers::unicode::NFKD.into()
}

/// The unit value `tokenizers::normalizers::unicode::NFC`, as a normalizer of any kind.
#[verifier::external_body]
fn nfc_normalizer() -> (normalizer: tokenizers::NormalizerWrapper)
    ensures
        normalizer_description(normalizer) == NormalizerModel::Nfc,
{
    tokenizers::normalizers::unicode::NFC.into()
}

/// The unit value `tokenizers::normalizers::unicode::NFKC`, as a normalizer of any kind.
#[verifier::external_body]
fn nfkc_normalizer() -> (normalizer: tokenizers::NormalizerWrapper)
    ensures
        normalizer_description(normalizer) == NormalizerModel::Nfkc,
{
    tokenizers::normalizers::unicode::NFKC.into()
}

/// `tokenizers::normalizers::strip::Strip::new`, as a normalizer of any kind.
#[verifier::external_body]
fn strip_normalizer(strip_left: bool, strip_right: bool) -> (normalizer: tokenizers::NormalizerWrapper)
    ensures
        normalizer_description(normalizer) == (NormalizerModel::StripNormalizer { strip_left, strip_right }),
{
    tokenizers::normalizers::strip::Strip::new(strip_left, strip_right).into()
}

/// `tokenizers::normalizers::prepend::Prepend::new`, as a normalizer of any kind.
#[verifier::external_body]
fn prepend_normalizer(prepend: String) -> (normalizer: tokenizers::NormalizerWrapper)
    ensures
        normalizer_description(normalizer) == (NormalizerModel::Prepend { prepend: prepend@ }),
{
    tokenizers::normalizers::prepend::Prepend::new(prepend).into()
}

/// The unit value `tokenizers::normalizers::strip::StripAccents`, as a normalizer of
/// any kind.
#[verifier::external_body]
fn strip_accents_normalizer() -> (normalizer: tokenizers::NormalizerWrapper)
    ensures
        normalizer_description(normalizer) == NormalizerModel::StripAccents,
{
    tokenizers::normalizers::strip::StripAccents.into()
}

/// `tokenizers::normalizers::Sequence::new`, as a normalizer of any kind.
#[verifier::external_body]
fn sequence_normalizer(normalizers: Vec<tokenizers::NormalizerWrapper>) -> (normalizer:
    tokenizers::NormalizerWrapper)
    ensures
        normalizer_description(normalizer) == (NormalizerModel::Sequence {
            normalizers: normalizer_descriptions(normalizers@),
        }),
{
    tokenizers::normalizers::Sequence::new(normalizers).into()
}

/// The unit value `tokenizers::normalizers::utils::Lowercase`, as a normalizer of any
/// kind.
#[verifier::external_body]
fn lowercase_normalizer() -> (normalizer: tokenizers::NormalizerWrapper)
    ensures
        normalizer_description(normalizer) == NormalizerModel::Lowercase,
{
    tokenizers::normalizers::utils::Lowercase.into()
}

/// `tokenizers::normalizers::replace::Replace::new` with a literal pattern, as a
/// normalizer of any kind. The engine compiles the pattern and may refuse it.
#[verifier::external_body]
fn replace_normalizer(pattern: String, content: String) -> (normalizer: Result<
    tokenizers::NormalizerWrapper,
    BadArg,
>)
    ensures
        match normalizer {
            Ok(normalizer) => replace_pattern_accepted(pattern@) && normalizer_description(normalizer) == (
            NormalizerModel::Replace { pattern: PatternModel::Literal(pattern@), content: content@ }),
            Err(_) => !replace_pattern_accepted(pattern@),
        },
{
    match tokenizers::normalizers::replace::Replace::new(pattern, content) {
        Ok(replace) => Ok(replace.into()),
        Err(_) => Err(BadArg),
    }
}

/// The unit value `tokenizers::normalizers::unicode::Nmt`, as a normalizer of any kind.
#[verifier::external_body]
fn nmt_normalizer() -> (normalizer: tokenizers::NormalizerWrapper)
    ensures
        normalizer_description(normalizer) == NormalizerModel::Nmt,
{
    tokenizers::normalizers::unicode::Nmt.into()
}

/// `tokenizers::normalizers::precompiled::Precompiled::from`, as a normalizer of any
/// kind, with the engine's error as its message. The engine reads the bytes as a table
/// of replacements and may refuse them.
#[verifier::external_body]
fn precompiled_normalizer(data: &Vec<u8>) -> (normalizer: Result<tokenizers::NormalizerWrapper, String>)
    ensures
        match normalizer {
            Ok(normalizer) => precompiled_accepted(data@) && normalizer_description(normalizer) == (
            NormalizerModel::Precompiled { data: data@ }),
            Err(_) => !precompiled_accepted(data@),
        },
{
    match tokenizers::normalizers::precompiled::Precompiled::from(data) {
        Ok(precompiled) => Ok(precompiled.into()),
        Err(error) => Err(error.to_string()),
    }
}

/// What the normalizers make of a text that put a text in front of it or replace a
/// text as it stands, and sequences of these; nothing for the others, whose work is
/// not written out here. Nothing is put in front of a text without characters.
pub open spec fn exact_normalized(normalizer: NormalizerModel, input: Seq<char>) -> Option<Seq<char>>
    decreases normalizer, 0nat,
{
    match normalizer {
        NormalizerModel::Prepend { prepend } => Some(
            if input.len() == 0 {
                input
            } else {
                prepend + input
            },
        ),
        NormalizerModel::Replace { pattern: PatternModel::Literal(pattern), content } => if pattern.len() == 0 {
            None
        } else {
            Some(replaced(input, pattern, content))
        },
        NormalizerModel::Sequence { normalizers } => exact_from(normalizers, 0, input),
        _ => None,
    }
}

/// What the normalizers of a sequence make of a text from one of them on, each
/// working on what the one before it made; nothing where the work of one of them is
/// not written out.
pub open spec fn exact_from(normalizers: Seq<NormalizerModel>, from: nat, input: Seq<char>) -> Option<Seq<char>>
    decreases normalizers, normalizers.len() - from,
{
    if from >= normalizers.len() {
        Some(input)
    } else {
        match exact_normalized(normalizers[from as int], input) {
            Some(made) => exact_from(normalizers, from + 1, made),
            None => None,
        }
    }
}

/// Whether an outcome is what the normalizer is known to make of a text, where that
/// is written out.
pub open spec fn settled(normalizer: NormalizerModel, input: Seq<char>, outcome: Result<Seq<char>, Seq<char>>) -> bool {
    exact_normalized(normalizer, input) matches Some(made) ==> outcome == Ok::<Seq<char>, Seq<char>>(made)
}

/// `tokenizers::Normalizer::normalize` of `tokenizers::NormalizerWrapper` on a
/// `tokenizers::NormalizedString` made of the input, and then
/// `tokenizers::NormalizedString::get`; the engine's error as its message. What the
/// normalizers make that put a text in front, or replace a text as it stands, is
/// written out in `exact_normalized`. The engine stops the program where a table of
/// replacements sends it outside the table, so the normalizer must work from none.
#[verifier::external_body]
fn normalize(normalizer: &tokenizers::NormalizerWrapper, input: String) -> (text: Result<String, String>)
    requires
        normalizer_description(*normalizer).defined(),
    ensures
        text_outcome(text) == normalized(normalizer_description(*normalizer), input@),
        settled(normalizer_description(*normalizer), input@, text_outcome(text)),
{
    let mut normalized = tokenizers::NormalizedString::from(input);
    match normalizer.normalize(&mut normalized) {
        Ok(()) => Ok(normalized.get().to_owned()),
        Err(error) => Err(error.to_string()),
    }
}

/// Which of the variants of `tokenizers::NormalizerWrapper` for the four Unicode
/// normalization forms a normalizer is, if it is one of them.
#[verifier::external_body]
fn unicode_form(normalizer: &tokenizers::NormalizerWrapper) -> (kind: Option<NormalizerKind>)
    ensures
        kind == match normalizer_description(*normalizer).kind() {
            NormalizerKind::Nfc => Some(NormalizerKind::Nfc),
            NormalizerKind::Nfd => Some(NormalizerKind::Nfd),
            NormalizerKind::Nfkc => Some(NormalizerKind::Nfkc),
            NormalizerKind::Nfkd => Some(NormalizerKind::Nfkd),
            _ => None,
        },
{
    match normalizer {
        tokenizers::NormalizerWrapper::NFC(_) => Some(NormalizerKind::Nfc),
        tokenizers::NormalizerWrapper::NFD(_) => Some(NormalizerKind::Nfd),
        tokenizers::NormalizerWrapper::NFKC(_) => Some(NormalizerKind::Nfkc),
        tokenizers::NormalizerWrapper::NFKD(_) => Some(NormalizerKind::Nfkd),
        _ => None,
    }
}

/// Which of the other variants of `tokenizers::NormalizerWrapper` a normalizer is, if
/// it is none of the four Unicode normalization forms.
#[verifier::external_body]
fn other_kind(normalizer: &tokenizers::NormalizerWrapper) -> (kind: Option<NormalizerKind>)
    ensures
        kind == match normalizer_description(*normalizer).kind() {
            NormalizerKind::Nfc | NormalizerKind::Nfd | NormalizerKind::Nfkc | NormalizerKind::Nfkd => None,
            other => Some(other),
        },
{
    match normalizer {
        tokenizers::NormalizerWrapper::BertNormalizer(_) => Some(NormalizerKind::BertNormalizer),
        tokenizers::NormalizerWrapper::StripNormalizer(_) => Some(NormalizerKind::StripNormalizer),
        tokenizers::NormalizerWrapper::StripAccents(_) => Some(NormalizerKind::StripAccents),
        tokenizers::NormalizerWrapper::Sequence(_) => Some(NormalizerKind::Sequence),
        tokenizers::NormalizerWrapper::Lowercase(_) => Some(NormalizerKind::Lowercase),
        tokenizers::NormalizerWrapper::Nmt(_) => Some(NormalizerKind::Nmt),
        tokenizers::NormalizerWrapper::Precompiled(_) => Some(NormalizerKind::Precompiled),
        tokenizers::NormalizerWrapper::Replace(_) => Some(NormalizerKind::Replace),
        tokenizers::NormalizerWrapper::Prepend(_) => Some(NormalizerKind::Prepend),
        tokenizers::NormalizerWrapper::ByteLevel(_) => Some(NormalizerKind::ByteLevel),
        _ => None,
    }
}

/// The normalizers of a `tokenizers::normalizers::Sequence` in a normalizer, copied.
#[verifier::external_body]
fn sequence_parts(normalizer: &tokenizers::NormalizerWrapper) -> (parts: Option<Vec<tokenizers::NormalizerWrapper>>)
    ensures
        match normalizer_description(*normalizer) {
            NormalizerModel::Sequence { normalizers } => parts matches Some(found) && normalizer_descriptions(
                found@,
            ) == normalizers,
            _ => parts is None,
        },
{
    match normalizer {
        tokenizers::NormalizerWrapper::Sequence(sequence) => Some(sequence.as_ref().to_vec()),
        _ => None,
    }
}

/// Whether the engine can run a normalizer on every text.
pub fn defined(normalizer: &tokenizers::NormalizerWrapper) -> (defined: bool)
    ensures
        defined == normalizer_description(*normalizer).defined(),
    decreases normalizer_description(*normalizer),
{
    match normalizer_kind(normalizer) {
        NormalizerKind::Precompiled => false,
        NormalizerKind::Sequence => {
            let parts = sequence_parts(normalizer).unwrap();
            let ghost normalizers = normalizer_descriptions(parts@);
            let mut i: usize = 0;
            while i < parts.len()
                invariant
                    i <= parts@.len(),
                    normalizers == normalizer_descriptions(parts@),
                    normalizer_description(*normalizer) == (NormalizerModel::Sequence { normalizers }),
                    forall|j: int| 0 <= j < i ==> (#[trigger] normalizers[j]).defined(),
                decreases parts@.len() - i,
            {
                proof {
                    let whole = normalizer_description(*normalizer);
                    assert(normalizer_description(parts@[i as int]) == normalizers[i as int]);
                    assert(whole->normalizers == normalizers);
                    assert(decreases_to!(whole => whole->normalizers));
                    assert(decreases_to!(normalizers => normalizers[i as int]));
                }
                if !defined(&parts[i]) {
                    assert(!normalizers[i as int].defined());
                    return false;
                }
                i += 1;
            }
            true
        },
        _ => true,
    }
}

/// The kind of a normalizer of the engine.
fn normalizer_kind(normalizer: &tokenizers::NormalizerWrapper) -> (kind: NormalizerKind)
    ensures
        kind == normalizer_description(*normalizer).kind(),
{
    match unicode_form(normalizer) {
        Some(kind) => kind,
        None => other_kind(normalizer).unwrap(),
    }
}

/// A normalizer of the engine, owned by the library.
pub struct ExTokenizersNormalizerRef(pub tokenizers::NormalizerWrapper);

/// A handle on a normalizer.
#[derive(Clone)]
pub struct ExTokenizersNormalizer {
    pub resource: Arc<ExTokenizersNormalizerRef>,
}

impl View for ExTokenizersNormalizerRef {
    type V = NormalizerModel;

    open spec fn view(&self) -> NormalizerModel {
        normalizer_description(self.0)
    }
}

impl View for ExTokenizersNormalizer {
    type V = NormalizerModel;

    open spec fn view(&self) -> NormalizerModel {
        self.resource@
    }
}

impl ExTokenizersNormalizerRef {
    /// The resource that owns the given normalizer.
    pub fn new(data: tokenizers::NormalizerWrapper) -> (resource: Self)
        ensures
            resource@ == normalizer_description(data),
    {
        Self(data)
    }
}

impl ExTokenizersNormalizer {
    /// A handle on the given normalizer.
    pub fn new(data: tokenizers::NormalizerWrapper) -> (handle: Self)
        ensures
            handle@ == normalizer_description(data),
    {
        Self { resource: Arc::new(ExTokenizersNormalizerRef::new(data)) }
    }
}

/// The text that a normalizer makes of a text: what the engine makes of it; but a
/// normalizer that the engine cannot run on every text is refused.
pub open spec fn normalized_text(normalizer: NormalizerModel, input: Seq<char>) -> Result<Seq<char>, Seq<char>> {
    if !normalizer.defined() {
        Err("a normalizer that works from a table is not run here"@)
    } else {
        normalized(normalizer, input)
    }
}

/// The text that the normalizer makes of the input: see `normalized_text`, and for
/// the normalizers whose work is written out `exact_normalized`.
pub fn normalizers_normalize(normalizer: ExTokenizersNormalizer, input: String) -> (text: Result<
    String,
    ExTokenizersError,
>)
    ensures
        match text {
            Ok(text) => normalized_text(normalizer@, input@) == Ok::<Seq<char>, Seq<char>>(text@),
            Err(error) => error matches ExTokenizersError::Tokenizer(message) && normalized_text(
                normalizer@,
                input@,
            ) == Err::<Seq<char>, Seq<char>>(message@),
        },
        match text {
            Ok(text) => settled(normalizer@, input@, Ok(text@)),
            Err(_) => exact_normalized(normalizer@, input@) is None,
        },
{
    if !defined(&normalizer.resource.0) {
        proof {
            lemma_undefined_is_not_exact(normalizer@, input@);
        }
        return Err(ExTokenizersError::Tokenizer("a normalizer that works from a table is not run here".to_owned()));
    }
    match normalize(&normalizer.resource.0, input) {
        Ok(text) => Ok(text),
        Err(message) => Err(ExTokenizersError::Tokenizer(message)),
    }
}

/// Of a normalizer that the engine cannot run on every text, the work is not written
/// out.
pub proof fn lemma_undefined_is_not_exact(normalizer: NormalizerModel, input: Seq<char>)
    requires
        !normalizer.defined(),
    ensures
        exact_normalized(normalizer, input) is None,
    decreases normalizer, 0nat,
{
    match normalizer {
        NormalizerModel::Sequence { normalizers } => {
            let k = choose|k: int| 0 <= k < normalizers.len() && !(#[trigger] normalizers[k]).defined();
            lemma_undefined_part_is_not_exact(normalizers, 0, k, input);
        },
        _ => {},
    }
}

/// A sequence that holds, from some place on, a normalizer that the engine cannot run
/// on every text has no work written out from that place on.
pub proof fn lemma_undefined_part_is_not_exact(normalizers: Seq<NormalizerModel>, from: nat, k: int, input: Seq<char>)
    requires
        from <= k < normalizers.len(),
        !normalizers[k].defined(),
    ensures
        exact_from(normalizers, from, input) is None,
    decreases normalizers, normalizers.len() - from,
{
    if from == k {
        lemma_undefined_is_not_exact(normalizers[k], input);
    } else {
        match exact_normalized(normalizers[from as int], input) {
            Some(made) => lemma_undefined_part_is_not_exact(normalizers, from + 1, k, made),
            None => {},
        }
    }
}

/// The name of a kind of normalizer.
pub open spec fn normalizer_kind_name(kind: NormalizerKind) -> Seq<char> {
    match kind {
        NormalizerKind::BertNormalizer => "BertNormalizer"@,
        NormalizerKind::StripNormalizer => "StripNormalizer"@,
        NormalizerKind::StripAccents => "StripAccents"@,
        NormalizerKind::Nfc => "NFC"@,
        NormalizerKind::Nfd => "NFD"@,
        NormalizerKind::Nfkc => "NFKC"@,
        NormalizerKind::Nfkd => "NFKD"@,
        NormalizerKind::Sequence => "Sequence"@,
        NormalizerKind::Lowercase => "Lowercase"@,
        NormalizerKind::Nmt => "Nmt"@,
        NormalizerKind::Precompiled => "Precompiled"@,
        NormalizerKind::Replace => "Replace"@,
        NormalizerKind::Prepend => "Prepend"@,
        NormalizerKind::ByteLevel => "ByteLevel"@,
    }
}

/// The description that a normalizer gives of itself: its kind, under the name
/// `normalizer_type`.
pub open spec fn normalizer_info(normalizer: NormalizerModel) -> Seq<(Seq<char>, InfoValueModel)> {
    seq![("normalizer_type"@, InfoValueModel::Text(normalizer_kind_name(normalizer.kind())))]
}

/// The description that the normalizer gives of itself.
pub fn normalizers_info(normalizer: ExTokenizersNormalizer) -> (info: Info)
    ensures
        info@ == normalizer_info(normalizer@),
{
    let name = match normalizer_kind(&normalizer.resource.0) {
        NormalizerKind::BertNormalizer => "BertNormalizer",
        NormalizerKind::StripNormalizer => "StripNormalizer",
        NormalizerKind::StripAccents => "StripAccents",
        NormalizerKind::Nfc => "NFC",
        NormalizerKind::Nfd => "NFD",
        NormalizerKind::Nfkc => "NFKC",
        NormalizerKind::Nfkd => "NFKD",
        NormalizerKind::Sequence => "Sequence",
        NormalizerKind::Lowercase => "Lowercase",
        NormalizerKind::Nmt => "Nmt",
        NormalizerKind::Precompiled => "Precompiled",
        NormalizerKind::Replace => "Replace",
        NormalizerKind::Prepend => "Prepend",
        NormalizerKind::ByteLevel => "ByteLevel",
    };
    let mut info = Info::new();
    info.push("normalizer_type", InfoValue::Text(name.to_owned()));
    assert(info@ =~= normalizer_info(normalizer@));
    info
}

/// One setting of a BERT normalizer.
pub enum BertOption {
    CleanText(bool),
    HandleChineseChars(bool),
    StripAccents(bool),
    Lowercase(bool),
}

/// The settings of a BERT normalizer.
pub struct BertSettings {
    pub clean_text: bool,
    pub handle_chinese_chars: bool,
    pub strip_accents: Option<bool>,
    pub lowercase: bool,
}

impl BertSettings {
    /// The settings that no option has changed: everything on, and accents left to
    /// follow the lowercasing.
    pub open spec fn initial() -> BertSettings {
        BertSettings { clean_text: true, handle_chinese_chars: true, strip_accents: None, lowercase: true }
    }

    /// The settings with one option applied.
    pub open spec fn with(self, option: BertOption) -> BertSettings {
        match option {
            BertOption::CleanText(value) => BertSettings { clean_text: value, ..self },
            BertOption::HandleChineseChars(value) => BertSettings { handle_chinese_chars: value, ..self },
            BertOption::StripAccents(value) => BertSettings { strip_accents: Some(value), ..self },
            BertOption::Lowercase(value) => BertSettings { lowercase: value, ..self },
        }
    }

    /// The settings that a list of options describes: of two options for one setting
    /// the later one counts.
    pub open spec fn from_options(options: Seq<BertOption>) -> BertSettings
        decreases options.len(),
    {
        if options.len() == 0 {
            BertSettings::initial()
        } else {
            BertSettings::from_options(options.drop_last()).with(options.last())
        }
    }

    /// The normalizer with these settings.
    pub open spec fn normalizer(self) -> NormalizerModel {
        NormalizerModel::BertNormalizer {
            clean_text: self.clean_text,
            handle_chinese_chars: self.handle_chinese_chars,
            strip_accents: self.strip_accents,
            lowercase: self.lowercase,
        }
    }
}

/// The BERT normalizer that the options describe.
pub fn normalizers_bert_normalizer(options: Vec<BertOption>) -> (normalizer: ExTokenizersNormalizer)
    ensures
        normalizer@ == BertSettings::from_options(options@).normalizer(),
{
    let mut clean_text: bool = true;
    let mut handle_chinese_chars: bool = true;
    let mut strip_accents: Option<bool> = None;
    let mut lowercase: bool = true;
    let mut i: usize = 0;
    while i < options.len()
        invariant
            i <= options@.len(),
            (BertSettings { clean_text, handle_chinese_chars, strip_accents, lowercase })
                == BertSettings::from_options(options@.take(i as int)),
        decreases options@.len() - i,
    {
        proof {
            lemma_take_step(options@, i as int);
        }
        match &options[i] {
            BertOption::CleanText(value) => clean_text = *value,
            BertOption::HandleChineseChars(value) => handle_chinese_chars = *value,
            BertOption::StripAccents(value) => strip_accents = Some(*value),
            BertOption::Lowercase(value) => lowercase = *value,
        }
        i += 1;
    }
    proof {
        lemma_take_all(options@);
    }
    ExTokenizersNormalizer::new(
        bert_normalizer(clean_text, handle_chinese_chars, strip_accents, lowercase),
    )
}

/// The NFD normalizer.
pub fn normalizers_nfd() -> (normalizer: ExTokenizersNormalizer)
    ensures
        normalizer@ == NormalizerModel::Nfd,
{
    ExTokenizersNormalizer::new(nfd_normalizer())
}

/// The NFKD normalizer.
pub fn normalizers_nfkd() -> (normalizer: ExTokenizersNormalizer)
    ensures
        normalizer@ == NormalizerModel::Nfkd,
{
    ExTokenizersNormalizer::new(nfkd_normalizer())
}

/// The NFC normalizer.
pub fn normalizers_nfc() -> (normalizer: ExTokenizersNormalizer)
    ensures
        normalizer@ == NormalizerModel::Nfc,
{
    ExTokenizersNormalizer::new(nfc_normalizer())
}

/// The NFKC normalizer.
pub fn normalizers_nfkc() -> (normalizer: ExTokenizersNormalizer)
    ensures
        normalizer@ == NormalizerModel::Nfkc,
{
    ExTokenizersNormalizer::new(nfkc_normalizer())
}

/// One setting of a normalizer that strips white space.
pub enum StripOption {
    Left(bool),
    Right(bool),
}

/// The settings of a normalizer that strips white space: on which sides it does.
pub struct StripSettings {
    pub left: bool,
    pub right: bool,
}

impl StripSettings {
    /// The settings that no option has changed: both sides.
    pub open spec fn initial() -> StripSettings {
        StripSettings { left: true, right: true }
    }

    /// The settings with one option applied.
    pub open spec fn with(self, option: StripOption) -> StripSettings {
        match option {
            StripOption::Left(value) => StripSettings { left: value, ..self },
            StripOption::Right(value) => StripSettings { right: value, ..self },
        }
    }

    /// The settings that a list of options describes: of two options for one setting
    /// the later one counts.
    pub open spec fn from_options(options: Seq<StripOption>) -> StripSettings
        decreases options.len(),
    {
        if options.len() == 0 {
            StripSettings::initial()
        } else {
            StripSettings::from_options(options.drop_last()).with(options.last())
        }
    }
}

/// The normalizer that strips white space on the sides that the options describe.
pub fn normalizers_strip(options: Vec<StripOption>) -> (normalizer: ExTokenizersNormalizer)
    ensures
        normalizer@ == (NormalizerModel::StripNormalizer {
            strip_left: StripSettings::from_options(options@).left,
            strip_right: StripSettings::from_options(options@).right,
        }),
{
    let mut left: bool = true;
    let mut right: bool = true;
    let mut i: usize = 0;
    while i < options.len()
        invariant
            i <= options@.len(),
            (StripSettings { left, right }) == StripSettings::from_options(options@.take(i as int)),
        decreases options@.len() - i,
    {
        proof {
            lemma_take_step(options@, i as int);
        }
        match &options[i] {
            StripOption::Left(value) => left = *value,
            StripOption::Right(value) => right = *value,
        }
        i += 1;
    }
    proof {
        lemma_take_all(options@);
    }
    ExTokenizersNormalizer::new(strip_normalizer(left, right))
}

/// The normalizer that puts a text in front.
pub fn normalizers_prepend(prepend: String) -> (normalizer: ExTokenizersNormalizer)
    ensures
        normalizer@ == (NormalizerModel::Prepend { prepend: prepend@ }),
{
    ExTokenizersNormalizer::new(prepend_normalizer(prepend))
}

/// The normalizer that strips accents.
pub fn normalizers_strip_accents() -> (normalizer: ExTokenizersNormalizer)
    ensures
        normalizer@ == NormalizerModel::StripAccents,
{
    ExTokenizersNormalizer::new(strip_accents_normalizer())
}

/// The views of a sequence of normalizer handles.
pub open spec fn normalizer_views(normalizers: Seq<ExTokenizersNormalizer>) -> Seq<NormalizerModel> {
    Seq::new(normalizers.len(), |i: int| normalizers[i]@)
}

/// The normalizer that runs the given normalizers one after the other.
pub fn normalizers_sequence(normalizers: Vec<ExTokenizersNormalizer>) -> (normalizer:
    ExTokenizersNormalizer)
    ensures
        normalizer@ == (NormalizerModel::Sequence { normalizers: normalizer_views(normalizers@) }),
{
    let mut sequence: Vec<tokenizers::NormalizerWrapper> = Vec::new();
    let mut i: usize = 0;
    while i < normalizers.len()
        invariant
            i <= normalizers@.len(),
            sequence@.len() == i,
            forall|j: int|
                0 <= j < i ==> normalizer_description(#[trigger] sequence@[j]) == normalizers@[j]@,
        decreases normalizers@.len() - i,
    {
        sequence.push(normalizers[i].resource.0.clone());
        i += 1;
    }
    assert(normalizer_descriptions(sequence@) =~= normalizer_views(normalizers@));
    ExTokenizersNormalizer::new(sequence_normalizer(sequence))
}

/// The normalizer that lowercases.
pub fn normalizers_lowercase() -> (normalizer: ExTokenizersNormalizer)
    ensures
        normalizer@ == NormalizerModel::Lowercase,
{
    ExTokenizersNormalizer::new(lowercase_normalizer())
}

/// A normalizer that replaces what matches a literal pattern, unless the engine
/// refuses the pattern.
pub fn normalizers_replace(pattern: String, content: String) -> (normalizer: Result<
    ExTokenizersNormalizer,
    BadArg,
>)
    ensures
        match normalizer {
            Ok(normalizer) => replace_pattern_accepted(pattern@) && normalizer@ == (NormalizerModel::Replace {
                pattern: PatternModel::Literal(pattern@),
                content: content@,
            }),
            Err(_) => !replace_pattern_accepted(pattern@),
        },
{
    match replace_normalizer(pattern, content) {
        Ok(normalizer) => Ok(ExTokenizersNormalizer::new(normalizer)),
        Err(refusal) => Err(refusal),
    }
}

/// The normalizer of neural machine translation.
pub fn normalizers_nmt() -> (normalizer: ExTokenizersNormalizer)
    ensures
        normalizer@ == NormalizerModel::Nmt,
{
    ExTokenizersNormalizer::new(nmt_normalizer())
}

/// The normalizer that a table of replacements describes, unless the engine refuses
/// the table; then the error holds the engine's message.
pub fn normalizers_precompiled(data: Vec<u8>) -> (normalizer: Result<ExTokenizersNormalizer, ExTokenizersError>)
    ensures
        match normalizer {
            Ok(normalizer) => precompiled_accepted(data@) && normalizer@ == (NormalizerModel::Precompiled {
                data: data@,
            }),
            Err(error) => !precompiled_accepted(data@) && error is Unknown,
        },
{
    match precompiled_normalizer(&data) {
        Ok(normalizer) => Ok(ExTokenizersNormalizer::new(normalizer)),
        Err(message) => Err(ExTokenizersError::Unknown(message)),
    }
}

} // verus!
