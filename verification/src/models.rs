//! Models: they turn a word into tokens with ids. A model is made from a vocabulary
//! and settings; this module folds the settings, guards the engine against merges
//! that it cannot take, and describes the models that it is handed.

use crate::error::ExTokenizersError;
use crate::util::{lemma_take_all, lemma_take_step, Info, InfoValue, InfoValueModel};
use std::sync::Arc;
use tokenizers::models::bpe::{Vocab, BPE};
use tokenizers::Model;
use vstd::prelude::*;
use vstd::utf8::encode_utf8;

verus! {

#[verifier::external_type_specification]
#[verifier::external_body]
pub struct ExModelWrapper(tokenizers::ModelWrapper);

/// A model as mathematics: which model it is, with its vocabulary and its settings as
/// far as the library speaks of them.
#[allow(inconsistent_fields)]
pub enum ModelModel {
    Bpe {
        vocab: Map<Seq<char>, u32>,
        merges: Seq<(Seq<char>, Seq<char>)>,
        unk_token: Option<Seq<char>>,
        continuing_subword_prefix: Option<Seq<char>>,
        end_of_word_suffix: Option<Seq<char>>,
        fuse_unk: bool,
        byte_fallback: bool,
        /// Whether a word that is a token is taken as it is, before any merge.
        ignore_merges: bool,
        /// Whether merges are skipped at random.
        dropout: bool,
    },
    WordPiece {
        vocab: Map<Seq<char>, u32>,
        unk_token: Seq<char>,
        continuing_subword_prefix: Seq<char>,
        max_input_chars_per_word: usize,
    },
    WordLevel { vocab: Map<Seq<char>, u32>, unk_token: Seq<char> },
    Unigram { pieces: Seq<Seq<char>>, byte_fallback: bool },
}

/// The kinds of model.
#[derive(Clone, Copy, Debug, PartialEq, Eq, Structural)]
pub enum ModelKind {
    Bpe,
    WordPiece,
    WordLevel,
    Unigram,
}

/// The ids of the pieces of a unigram model: each piece has its place in the list as
/// its id, and of two places for one piece the later one counts.
pub open spec fn piece_ids(pieces: Seq<Seq<char>>) -> Map<Seq<char>, u32>
    decreases pieces.len(),
{
    if pieces.len() == 0 {
        Map::empty()
    } else {
        piece_ids(pieces.drop_last()).insert(pieces.last(), (pieces.len() - 1) as u32)
    }
}

/// Whether a list holds each token of a vocabulary once, with its id, and nothing
/// else.
pub open spec fn lists_vocabulary(pairs: Seq<(Seq<char>, u32)>, vocabulary: Map<Seq<char>, u32>) -> bool {
    &&& forall|i: int|
        0 <= i < pairs.len() ==> vocabulary.dom().contains((#[trigger] pairs[i]).0) && vocabulary[pairs[i].0]
            == pairs[i].1
    &&& forall|i: int, j: int| 0 <= i < j < pairs.len() ==> (#[trigger] pairs[i]).0 != (#[trigger] pairs[j]).0
    &&& forall|token: Seq<char>| #[trigger]
        vocabulary.dom().contains(token) ==> exists|i: int| 0 <= i < pairs.len() && (#[trigger] pairs[i]).0 == token
}

impl ModelModel {
    /// The vocabulary of the model: the id of each token.
    pub open spec fn vocabulary(self) -> Map<Seq<char>, u32> {
        match self {
            ModelModel::Bpe { vocab, .. } => vocab,
            ModelModel::WordPiece { vocab, .. } => vocab,
            ModelModel::WordLevel { vocab, .. } => vocab,
            ModelModel::Unigram { pieces, .. } => piece_ids(pieces),
        }
    }

    /// The size of the vocabulary as the engine counts it: the number of tokens, and
    /// for a unigram model the number of pieces, even where two are the same.
    pub open spec fn vocabulary_size(self) -> nat {
        match self {
            ModelModel::Unigram { pieces, .. } => pieces.len(),
            _ => self.vocabulary().dom().len(),
        }
    }

    /// The id of a token, if it has one.
    pub open spec fn token_id(self, token: Seq<char>) -> Option<u32> {
        if self.vocabulary().dom().contains(token) {
            Some(self.vocabulary()[token])
        } else {
            None
        }
    }

    /// Whether `found` is a token with the id, or nothing where no token has it. In
    /// a unigram model the id is the place of the piece; elsewhere, of two tokens
    /// with one id either may be found.
    pub open spec fn is_token_of(self, id: u32, found: Option<Seq<char>>) -> bool {
        match self {
            ModelModel::Unigram { pieces, .. } => found == if id < pieces.len() {
                Some(pieces[id as int])
            } else {
                None
            },
            _ => match found {
                Some(token) => self.vocabulary().dom().contains(token) && self.vocabulary()[token] == id,
                None => forall|token: Seq<char>| #[trigger]
                    self.vocabulary().dom().contains(token) ==> self.vocabulary()[token] != id,
            },
        }
    }

    /// Whether the model gives the same tokens for the same word every time: all do,
    /// but a BPE model that skips merges at random.
    pub open spec fn deterministic(self) -> bool {
        match self {
            ModelModel::Bpe { dropout, .. } => !dropout,
            _ => true,
        }
    }

    /// Whether no two tokens of the vocabulary have one id.
    pub open spec fn ids_differ(self) -> bool {
        forall|a: Seq<char>, b: Seq<char>|
            #![trigger self.vocabulary()[a], self.vocabulary()[b]]
            self.vocabulary().dom().contains(a) && self.vocabulary().dom().contains(b) && self.vocabulary()[a]
                == self.vocabulary()[b] ==> a == b
    }

    /// Whether what the model makes of a text rests on nothing but what is written
    /// here: a BPE model that skips no merge at random and has no id for two tokens.
    /// The cache that it keeps is not written here.
    pub open spec fn merges_alone(self) -> bool {
        self is Bpe && self.deterministic() && self.ids_differ()
    }

    /// The kind of the model.
    pub open spec fn kind(self) -> ModelKind {
        match self {
            ModelModel::Bpe { .. } => ModelKind::Bpe,
            ModelModel::WordPiece { .. } => ModelKind::WordPiece,
            ModelModel::WordLevel { .. } => ModelKind::WordLevel,
            ModelModel::Unigram { .. } => ModelKind::Unigram,
        }
    }
}

/// Which model of the engine a value is, with its vocabulary and settings.
pub uninterp spec fn model_description(model: tokenizers::ModelWrapper) -> ModelModel;

/// A token: its id, its text, and where it stands in the text that was tokenized.
#[derive(Debug)]
pub struct Token {
    pub id: u32,
    pub value: String,
    pub offsets: (usize, usize),
}

/// A token as mathematics.
pub struct TokenModel {
    pub id: u32,
    pub value: Seq<char>,
    pub offsets: (usize, usize),
}

impl View for Token {
    type V = TokenModel;

    open spec fn view(&self) -> TokenModel {
        TokenModel { id: self.id, value: self.value@, offsets: self.offsets }
    }
}

/// Tokens as mathematics.
pub open spec fn token_models(tokens: Seq<Token>) -> Seq<TokenModel> {
    Seq::new(tokens.len(), |i: int| tokens[i]@)
}

/// What a model of the engine that is deterministic makes of a text: its tokens, or the
/// message of its refusal.
pub uninterp spec fn tokenized(model: tokenizers::ModelWrapper, sequence: Seq<char>) -> Result<
    Seq<TokenModel>,
    Seq<char>,
>;

/// What a BPE model of the engine makes of a text where that rests on nothing but
/// its vocabulary, its merges and its settings: its tokens, or the message of its
/// refusal. It looks words up in a cache, and finds there what it would make anew.
pub uninterp spec fn merged(model: ModelModel, sequence: Seq<char>) -> Result<Seq<TokenModel>, Seq<char>>;

/// A token with its id, as mathematics.
pub open spec fn entry(pair: (String, u32)) -> (Seq<char>, u32) {
    (pair.0@, pair.1)
}

/// Tokens with their ids, as mathematics.
pub open spec fn entries(pairs: Seq<(String, u32)>) -> Seq<(Seq<char>, u32)> {
    Seq::new(pairs.len(), |i: int| entry(pairs[i]))
}

/// A merge, as mathematics.
pub open spec fn merge(pair: (String, String)) -> (Seq<char>, Seq<char>) {
    (pair.0@, pair.1@)
}

/// Merges, as mathematics.
pub open spec fn merge_list(pairs: Seq<(String, String)>) -> Seq<(Seq<char>, Seq<char>)> {
    Seq::new(pairs.len(), |i: int| merge(pairs[i]))
}

/// The vocabulary that a list of tokens with ids makes: of two entries for one token
/// the later one counts.
pub open spec fn vocabulary_of(pairs: Seq<(Seq<char>, u32)>) -> Map<Seq<char>, u32>
    decreases pairs.len(),
{
    if pairs.len() == 0 {
        Map::empty()
    } else {
        vocabulary_of(pairs.drop_last()).insert(pairs.last().0, pairs.last().1)
    }
}

/// How many bytes a text takes.
pub open spec fn byte_len(text: Seq<char>) -> nat {
    encode_utf8(text).len()
}

/// The number of bytes of the longest token, and 0 where there is no token.
pub open spec fn longest_token(pairs: Seq<(Seq<char>, u32)>) -> nat
    decreases pairs.len(),
{
    if pairs.len() == 0 {
        0
    } else if byte_len(pairs.last().0) > longest_token(pairs.drop_last()) {
        byte_len(pairs.last().0)
    } else {
        longest_token(pairs.drop_last())
    }
}

/// The bytes of the prefix that marks a token as continuing a word; none where no
/// prefix is set.
pub open spec fn prefix_bytes(prefix: Option<Seq<char>>) -> Seq<u8> {
    match prefix {
        Some(prefix) => encode_utf8(prefix),
        None => Seq::empty(),
    }
}

/// Whether the engine has room for the token that a merge makes: its second part
/// starts with the prefix, and the two parts without that prefix are no longer than
/// `longest` bytes.
pub open spec fn merge_fits(merge: (Seq<char>, Seq<char>), prefix: Seq<u8>, longest: nat) -> bool {
    &&& prefix.is_prefix_of(encode_utf8(merge.1))
    &&& byte_len(merge.0) + byte_len(merge.1) - prefix.len() <= longest
}

/// Whether the engine has room for the token of every merge, next to the longest
/// token of the vocabulary.
pub open spec fn merges_fit(
    vocab: Seq<(Seq<char>, u32)>,
    merges: Seq<(Seq<char>, Seq<char>)>,
    prefix: Option<Seq<char>>,
) -> bool {
    forall|i: int|
        0 <= i < merges.len() ==> merge_fits(#[trigger] merges[i], prefix_bytes(prefix), longest_token(vocab))
}

/// The token that a merge makes: its first part, then its second part without the
/// prefix.
pub open spec fn merged_token(merge: (Seq<char>, Seq<char>), prefix: Option<Seq<char>>) -> Seq<char> {
    match prefix {
        Some(prefix) => merge.0 + merge.1.skip(prefix.len() as int),
        None => merge.0 + merge.1,
    }
}

/// Whether the vocabulary holds both parts of every merge, and the token that the
/// merge makes.
pub open spec fn merges_known(
    vocab: Map<Seq<char>, u32>,
    merges: Seq<(Seq<char>, Seq<char>)>,
    prefix: Option<Seq<char>>,
) -> bool {
    forall|i: int|
        0 <= i < merges.len() ==> {
            &&& vocab.dom().contains((#[trigger] merges[i]).0)
            &&& vocab.dom().contains(merges[i].1)
            &&& vocab.dom().contains(merged_token(merges[i], prefix))
        }
}

/// One setting of a BPE model.
pub enum BPEOption {
    CacheCapacity(usize),
    UnkToken(String),
    ContinuingSubwordPrefix(String),
    EndOfWordSuffix(String),
    FuseUnk(bool),
    ByteFallback(bool),
}

/// The settings of a BPE model. What is not set is left to the engine.
pub struct BpeSettings {
    pub cache_capacity: Option<usize>,
    pub unk_token: Option<String>,
    pub continuing_subword_prefix: Option<String>,
    pub end_of_word_suffix: Option<String>,
    pub fuse_unk: bool,
    pub byte_fallback: bool,
}

/// The settings of a BPE model as mathematics.
pub struct BpeSettingsModel {
    pub cache_capacity: Option<usize>,
    pub unk_token: Option<Seq<char>>,
    pub continuing_subword_prefix: Option<Seq<char>>,
    pub end_of_word_suffix: Option<Seq<char>>,
    pub fuse_unk: bool,
    pub byte_fallback: bool,
}

/// The text of a string that may be missing.
pub open spec fn optional_text(text: Option<String>) -> Option<Seq<char>> {
    match text {
        Some(text) => Some(text@),
        None => None,
    }
}

impl View for BpeSettings {
    type V = BpeSettingsModel;

    open spec fn view(&self) -> BpeSettingsModel {
        BpeSettingsModel {
            cache_capacity: self.cache_capacity,
            unk_token: optional_text(self.unk_token),
            continuing_subword_prefix: optional_text(self.continuing_subword_prefix),
            end_of_word_suffix: optional_text(self.end_of_word_suffix),
            fuse_unk: self.fuse_unk,
            byte_fallback: self.byte_fallback,
        }
    }
}

impl BpeSettingsModel {
    /// The settings that no option has changed: nothing set, nothing fused, no
    /// fallback to bytes.
    pub open spec fn initial() -> BpeSettingsModel {
        BpeSettingsModel {
            cache_capacity: None,
            unk_token: None,
            continuing_subword_prefix: None,
            end_of_word_suffix: None,
            fuse_unk: false,
            byte_fallback: false,
        }
    }

    /// The settings with one option applied.
    pub open spec fn with(self, option: BPEOption) -> BpeSettingsModel {
        match option {
            BPEOption::CacheCapacity(capacity) => BpeSettingsModel { cache_capacity: Some(capacity), ..self },
            BPEOption::UnkToken(token) => BpeSettingsModel { unk_token: Some(token@), ..self },
            BPEOption::ContinuingSubwordPrefix(prefix) => BpeSettingsModel {
                continuing_subword_prefix: Some(prefix@),
                ..self
            },
            BPEOption::EndOfWordSuffix(suffix) => BpeSettingsModel { end_of_word_suffix: Some(suffix@), ..self },
            BPEOption::FuseUnk(value) => BpeSettingsModel { fuse_unk: value, ..self },
            BPEOption::ByteFallback(value) => BpeSettingsModel { byte_fallback: value, ..self },
        }
    }

    /// The settings that a list of options describes: of two options for one setting
    /// the later one counts.
    pub open spec fn from_options(options: Seq<BPEOption>) -> BpeSettingsModel
        decreases options.len(),
    {
        if options.len() == 0 {
            BpeSettingsModel::initial()
        } else {
            BpeSettingsModel::from_options(options.drop_last()).with(options.last())
        }
    }

    /// The BPE model with this vocabulary, these merges and these settings; it skips no
    /// merge at random.
    pub open spec fn model(self, vocab: Seq<(Seq<char>, u32)>, merges: Seq<(Seq<char>, Seq<char>)>) -> ModelModel {
        ModelModel::Bpe {
            vocab: vocabulary_of(vocab),
            merges,
            unk_token: self.unk_token,
            continuing_subword_prefix: self.continuing_subword_prefix,
            end_of_word_suffix: self.end_of_word_suffix,
            fuse_unk: self.fuse_unk,
            byte_fallback: self.byte_fallback,
            ignore_merges: false,
            dropout: false,
        }
    }
}

/// The settings of a BPE model that a list of options describes.
pub fn populate_bpe_options_to_builder(options: &Vec<BPEOption>) -> (settings: BpeSettings)
    ensures
        settings@ == BpeSettingsModel::from_options(options@),
{
    let mut settings = BpeSettings {
        cache_capacity: None,
        unk_token: None,
        continuing_subword_prefix: None,
        end_of_word_suffix: None,
        fuse_unk: false,
        byte_fallback: false,
    };
    let mut i: usize = 0;
    while i < options.len()
        invariant
            i <= options@.len(),
            settings@ == BpeSettingsModel::from_options(options@.take(i as int)),
        decreases options@.len() - i,
    {
        proof {
            lemma_take_step(options@, i as int);
        }
        match &options[i] {
            BPEOption::CacheCapacity(capacity) => settings.cache_capacity = Some(*capacity),
            BPEOption::UnkToken(token) => settings.unk_token = Some(token.clone()),
            BPEOption::ContinuingSubwordPrefix(prefix) => settings.continuing_subword_prefix = Some(
                prefix.clone(),
            ),
            BPEOption::EndOfWordSuffix(suffix) => settings.end_of_word_suffix = Some(suffix.clone()),
            BPEOption::FuseUnk(value) => settings.fuse_unk = *value,
            BPEOption::ByteFallback(value) => settings.byte_fallback = *value,
        }
        i += 1;
    }
    proof {
        lemma_take_all(options@);
    }
    settings
}

/// `Clone::clone` of `tokenizers::ModelWrapper`, which is derived: the copy is the
/// same model with the same vocabulary and settings.
pub assume_specification[ <tokenizers::ModelWrapper as Clone>::clone ](model: &tokenizers::ModelWrapper) -> (copy: tokenizers::ModelWrapper)
    ensures
        model_description(copy) == model_description(*model),
;

/// `tokenizers::models::bpe::BPE::builder`, its setter `vocab_and_merges`, the setters
/// of the settings that are set, and `build`, as a model of any kind, with the
/// engine's error as its message. The engine refuses merges whose parts, or whose
/// token, the vocabulary does not hold. It writes the token of each merge into
/// a buffer as long as the longest token of the vocabulary, which is why every
/// merge has to fit.
#[verifier::external_body]
fn bpe_model(vocab: Vec<(String, u32)>, merges: Vec<(String, String)>, settings: BpeSettings) -> (model: Result<
    tokenizers::ModelWrapper,
    String,
>)
    requires
        merges_fit(entries(vocab@), merge_list(merges@), settings@.continuing_subword_prefix),
    ensures
        match model {
            Ok(model) => merges_known(
                vocabulary_of(entries(vocab@)),
                merge_list(merges@),
                settings@.continuing_subword_prefix,
            ) && model_description(model) == settings@.model(entries(vocab@), merge_list(merges@)),
            Err(_) => !merges_known(
                vocabulary_of(entries(vocab@)),
                merge_list(merges@),
                settings@.continuing_subword_prefix,
            ),
        },
{
    let vocab: Vocab = vocab.into_iter().collect();
    let b = BPE::builder().vocab_and_merges(vocab, merges);
    let b = b.fuse_unk(settings.fuse_unk).byte_fallback(settings.byte_fallback);
    let b = settings.cache_capacity.into_iter().fold(b, |b, c| b.cache_capacity(c));
    let b = settings.unk_token.into_iter().fold(b, |b, t| b.unk_token(t));
    let b = settings.continuing_subword_prefix.into_iter().fold(b, |b, p| b.continuing_subword_prefix(p));
    let b = settings.end_of_word_suffix.into_iter().fold(b, |b, s| b.end_of_word_suffix(s));
    b.build().map(|bpe| bpe.into()).map_err(|error| error.to_string())
}

/// `tokenizers::models::bpe::BPE::default`, as a model of any kind: no vocabulary, no
/// merges, nothing set.
#[verifier::external_body]
fn empty_bpe_model() -> (model: tokenizers::ModelWrapper)
    ensures
        model_description(model) == BpeSettingsModel::initial().model(Seq::empty(), Seq::empty()),
{
    BPE::default().into()
}

/// `tokenizers::models::wordpiece::WordPiece::builder`, its setters `vocab`,
/// `unk_token`, `continuing_subword_prefix` and `max_input_chars_per_word`, and
/// `build`, as a model of any kind. Without a file to read, `build` does not fail.
#[verifier::external_body]
fn wordpiece_model(
    vocab: Vec<(String, u32)>,
    unk_token: String,
    continuing_subword_prefix: String,
    max_input_chars_per_word: usize,
) -> (model: tokenizers::ModelWrapper)
    ensures
        model_description(model) == (ModelModel::WordPiece {
            vocab: vocabulary_of(entries(vocab@)),
            unk_token: unk_token@,
            continuing_subword_prefix: continuing_subword_prefix@,
            max_input_chars_per_word,
        }),
{
    let vocab: Vocab = vocab.into_iter().collect();
    tokenizers::models::wordpiece::WordPiece::builder().vocab(vocab).unk_token(
        unk_token,
    ).continuing_subword_prefix(continuing_subword_prefix).max_input_chars_per_word(
        max_input_chars_per_word,
    ).build().unwrap().into()
}

/// `tokenizers::models::wordlevel::WordLevel::builder`, its setters `vocab` and
/// `unk_token`, and `build`, as a model of any kind. Without a file to read, `build`
/// does not fail.
#[verifier::external_body]
fn wordlevel_model(vocab: Vec<(String, u32)>, unk_token: String) -> (model: tokenizers::ModelWrapper)
    ensures
        model_description(model) == (ModelModel::WordLevel {
            vocab: vocabulary_of(entries(vocab@)),
            unk_token: unk_token@,
        }),
{
    tokenizers::models::wordlevel::WordLevel::builder().vocab(vocab.into_iter().collect()).unk_token(
        unk_token,
    ).build().unwrap().into()
}

/// `tokenizers::models::unigram::Unigram::default`, as a model of any kind: its only
/// piece is `<unk>`, and it does not fall back to bytes.
#[verifier::external_body]
fn empty_unigram_model() -> (model: tokenizers::ModelWrapper)
    ensures
        model_description(model) == (ModelModel::Unigram { pieces: seq!["<unk>"@], byte_fallback: false }),
{
    tokenizers::models::unigram::Unigram::default().into()
}

/// Which variant of `tokenizers::ModelWrapper` a model is.
#[verifier::external_body]
pub(crate) fn model_kind(model: &tokenizers::ModelWrapper) -> (kind: ModelKind)
    ensures
        kind == model_description(*model).kind(),
{
    match model {
        tokenizers::ModelWrapper::BPE(_) => ModelKind::Bpe,
        tokenizers::ModelWrapper::WordPiece(_) => ModelKind::WordPiece,
        tokenizers::ModelWrapper::WordLevel(_) => ModelKind::WordLevel,
        tokenizers::ModelWrapper::Unigram(_) => ModelKind::Unigram,
    }
}

/// The fields `unk_token`, `continuing_subword_prefix` and `end_of_word_suffix` of a
/// `tokenizers::models::bpe::BPE` in a model.
#[verifier::external_body]
pub(crate) fn bpe_texts(model: &tokenizers::ModelWrapper) -> (texts: Option<(Option<String>, Option<String>, Option<String>)>)
    ensures
        match model_description(*model) {
            ModelModel::Bpe { unk_token, continuing_subword_prefix, end_of_word_suffix, .. } => texts matches Some(
                found,
            ) && optional_text(found.0) == unk_token && optional_text(found.1)
                == continuing_subword_prefix && optional_text(found.2) == end_of_word_suffix,
            _ => texts is None,
        },
{
    match model {
        tokenizers::ModelWrapper::BPE(bpe) => Some(
            (bpe.unk_token.clone(), bpe.continuing_subword_prefix.clone(), bpe.end_of_word_suffix.clone()),
        ),
        _ => None,
    }
}

/// Whether the field `dropout` of a `tokenizers::models::bpe::BPE` in a model is set:
/// where it is, the model skips merges at random.
#[verifier::external_body]
fn bpe_skips_merges(model: &tokenizers::ModelWrapper) -> (skips: Option<bool>)
    ensures
        match model_description(*model) {
            ModelModel::Bpe { dropout, .. } => skips == Some(dropout),
            _ => skips is None,
        },
{
    match model {
        tokenizers::ModelWrapper::BPE(bpe) => Some(bpe.dropout.is_some()),
        _ => None,
    }
}

/// Whether a model of the engine gives the same tokens for the same word every time.
pub(crate) fn is_deterministic(model: &tokenizers::ModelWrapper) -> (deterministic: bool)
    ensures
        deterministic == model_description(*model).deterministic(),
{
    match bpe_skips_merges(model) {
        Some(skips) => !skips,
        None => true,
    }
}

/// The fields `fuse_unk` and `byte_fallback` of a `tokenizers::models::bpe::BPE` in a
/// model.
#[verifier::external_body]
pub(crate) fn bpe_flags(model: &tokenizers::ModelWrapper) -> (flags: Option<(bool, bool)>)
    ensures
        match model_description(*model) {
            ModelModel::Bpe { fuse_unk, byte_fallback, .. } => flags == Some((fuse_unk, byte_fallback)),
            _ => flags is None,
        },
{
    match model {
        tokenizers::ModelWrapper::BPE(bpe) => Some((bpe.fuse_unk, bpe.byte_fallback)),
        _ => None,
    }
}

/// The fields `unk_token`, `continuing_subword_prefix` and `max_input_chars_per_word`
/// of a `tokenizers::models::wordpiece::WordPiece` in a model.
#[verifier::external_body]
pub(crate) fn wordpiece_settings(model: &tokenizers::ModelWrapper) -> (settings: Option<(String, String, usize)>)
    ensures
        match model_description(*model) {
            ModelModel::WordPiece { unk_token, continuing_subword_prefix, max_input_chars_per_word, .. } => settings matches Some(
                found,
            ) && found.0@ == unk_token && found.1@ == continuing_subword_prefix && found.2
                == max_input_chars_per_word,
            _ => settings is None,
        },
{
    match model {
        tokenizers::ModelWrapper::WordPiece(w) => Some(
            (w.unk_token.clone(), w.continuing_subword_prefix.clone(), w.max_input_chars_per_word),
        ),
        _ => None,
    }
}

/// The field `unk_token` of a `tokenizers::models::wordlevel::WordLevel` in a model.
#[verifier::external_body]
pub(crate) fn wordlevel_unk_token(model: &tokenizers::ModelWrapper) -> (unk_token: Option<String>)
    ensures
        match model_description(*model) {
            ModelModel::WordLevel { unk_token: u, .. } => unk_token matches Some(found) && found@ == u,
            _ => unk_token is None,
        },
{
    match model {
        tokenizers::ModelWrapper::WordLevel(w) => Some(w.unk_token.clone()),
        _ => None,
    }
}

/// `tokenizers::models::unigram::Unigram::byte_fallback` of a unigram model in a model.
#[verifier::external_body]
pub(crate) fn unigram_byte_fallback(model: &tokenizers::ModelWrapper) -> (byte_fallback: Option<bool>)
    ensures
        match model_description(*model) {
            ModelModel::Unigram { byte_fallback: b, .. } => byte_fallback == Some(b),
            _ => byte_fallback is None,
        },
{
    match model {
        tokenizers::ModelWrapper::Unigram(u) => Some(u.byte_fallback()),
        _ => None,
    }
}

/// `tokenizers::Model::token_to_id` of `tokenizers::ModelWrapper`: every model looks
/// the token up in its vocabulary.
#[verifier::external_body]
fn token_to_id(model: &tokenizers::ModelWrapper, token: &str) -> (id: Option<u32>)
    ensures
        id == model_description(*model).token_id(token@),
{
    model.token_to_id(token)
}

/// `tokenizers::Model::id_to_token` of `tokenizers::ModelWrapper`: a unigram model
/// gives the piece at the place of the id, the others look the id up in a table that
/// holds one token for each id of the vocabulary.
#[verifier::external_body]
fn id_to_token(model: &tokenizers::ModelWrapper, id: u32) -> (token: Option<String>)
    ensures
        model_description(*model).is_token_of(id, optional_text(token)),
{
    model.id_to_token(id)
}

/// `tokenizers::Model::get_vocab` of `tokenizers::ModelWrapper`, as a list in no order
/// that could be relied on.
#[verifier::external_body]
fn get_vocab(model: &tokenizers::ModelWrapper) -> (vocab: Vec<(String, u32)>)
    ensures
        lists_vocabulary(entries(vocab@), model_description(*model).vocabulary()),
{
    model.get_vocab().into_iter().collect()
}

/// `tokenizers::Model::get_vocab_size` of `tokenizers::ModelWrapper`: the number of
/// tokens in the vocabulary, and for a unigram model the number of its pieces.
#[verifier::external_body]
fn get_vocab_size(model: &tokenizers::ModelWrapper) -> (size: usize)
    ensures
        model_description(*model).vocabulary().dom().finite() ==> size == model_description(
            *model,
        ).vocabulary_size(),
{
    model.get_vocab_size()
}

/// What a model of whole words makes of a text: the one token that the text is,
/// where the vocabulary holds it; else the token for what is unknown, where the
/// vocabulary holds that; else a refusal. Either token stands for the whole text.
pub open spec fn word_tokens(vocab: Map<Seq<char>, u32>, unk_token: Seq<char>, sequence: Seq<char>) -> Result<
    Seq<TokenModel>,
    Seq<char>,
> {
    if vocab.contains_key(sequence) {
        Ok(seq![TokenModel { id: vocab[sequence], value: sequence, offsets: (0, byte_len(sequence) as usize) }])
    } else if vocab.contains_key(unk_token) {
        Ok(seq![TokenModel { id: vocab[unk_token], value: unk_token, offsets: (0, byte_len(sequence) as usize) }])
    } else {
        Err("WordLevel error: Missing [UNK] token from the vocabulary"@)
    }
}

/// Whether an outcome is what the model is known to make of a text, where that is
/// written out: for a model of whole words.
pub open spec fn settled_tokens(model: ModelModel, sequence: Seq<char>, outcome: Result<
    Seq<TokenModel>,
    Seq<char>,
>) -> bool {
    model matches ModelModel::WordLevel { vocab, unk_token } ==> outcome == word_tokens(vocab, unk_token, sequence)
}

/// The tokens of an outcome, or the message that came instead, as mathematics.
pub open spec fn tokens_outcome(outcome: Result<Vec<Token>, String>) -> Result<Seq<TokenModel>, Seq<char>> {
    match outcome {
        Ok(tokens) => Ok(token_models(tokens@)),
        Err(message) => Err(message@),
    }
}

/// `tokenizers::Model::tokenize` of `tokenizers::ModelWrapper`, with the tokens in the
/// library's own type and the engine's error as its message. What a model of whole
/// words makes is written out in `word_tokens`. What a BPE model makes rests on its
/// vocabulary, merges and settings and not on its cache, unless it skips merges at
/// random or finds the text of a token by an id that two tokens have.
#[verifier::external_body]
fn tokenize(model: &tokenizers::ModelWrapper, sequence: &str) -> (tokens: Result<Vec<Token>, String>)
    ensures
        model_description(*model).deterministic() ==> match tokens {
            Ok(tokens) => tokenized(*model, sequence@) == Ok::<Seq<TokenModel>, Seq<char>>(token_models(tokens@)),
            Err(message) => tokenized(*model, sequence@) == Err::<Seq<TokenModel>, Seq<char>>(message@),
        },
        settled_tokens(model_description(*model), sequence@, tokens_outcome(tokens)),
        model_description(*model).merges_alone() ==> tokens_outcome(tokens) == merged(
            model_description(*model),
            sequence@,
        ),
{
    match model.tokenize(sequence) {
        Ok(tokens) => Ok(tokens.into_iter().map(|t| Token { id: t.id, value: t.value, offsets: t.offsets }).collect()),
        Err(error) => Err(error.to_string()),
    }
}

/// A model of the engine, owned by the library.
pub struct ExTokenizersModelRef(pub tokenizers::ModelWrapper);

/// A handle on a model.
#[derive(Clone)]
pub struct ExTokenizersModel {
    pub resource: Arc<ExTokenizersModelRef>,
}

impl View for ExTokenizersModelRef {
    type V = ModelModel;

    open spec fn view(&self) -> ModelModel {
        model_description(self.0)
    }
}

impl View for ExTokenizersModel {
    type V = ModelModel;

    open spec fn view(&self) -> ModelModel {
        self.resource@
    }
}

impl ExTokenizersModelRef {
    /// The resource that owns the given model.
    pub fn new(data: tokenizers::ModelWrapper) -> (resource: Self)
        ensures
            resource@ == model_description(data),
    {
        Self(data)
    }
}

impl ExTokenizersModel {
    /// Whether an outcome is what the model makes of a text: what the engine makes of
    /// it; for a model of whole words what `word_tokens` says; for a BPE model, where
    /// that rests on nothing else, what its vocabulary, merges and settings give.
    pub open spec fn tokenizes(self, sequence: Seq<char>, outcome: Result<Vec<Token>, ExTokenizersError>) -> bool {
        match outcome {
            Ok(tokens) => {
                &&& self@.deterministic() ==> tokenized(self.resource.0, sequence) == Ok::<
                    Seq<TokenModel>,
                    Seq<char>,
                >(token_models(tokens@))
                &&& settled_tokens(self@, sequence, Ok(token_models(tokens@)))
                &&& self@.merges_alone() ==> merged(self@, sequence) == Ok::<Seq<TokenModel>, Seq<char>>(
                    token_models(tokens@),
                )
            },
            Err(error) => {
                &&& error matches ExTokenizersError::Tokenizer(message)
                &&& self@.deterministic() ==> tokenized(self.resource.0, sequence) == Err::<
                    Seq<TokenModel>,
                    Seq<char>,
                >(error->Tokenizer_0@)
                &&& settled_tokens(self@, sequence, Err(error->Tokenizer_0@))
                &&& self@.merges_alone() ==> merged(self@, sequence) == Err::<Seq<TokenModel>, Seq<char>>(
                    error->Tokenizer_0@,
                )
            },
        }
    }

    /// The tokens that the model makes of a text: see `tokenizes`.
    pub fn tokenize(&self, sequence: &str) -> (tokens: Result<Vec<Token>, ExTokenizersError>)
        ensures
            self.tokenizes(sequence@, tokens),
    {
        match tokenize(&self.resource.0, sequence) {
            Ok(tokens) => Ok(tokens),
            Err(message) => Err(ExTokenizersError::Tokenizer(message)),
        }
    }

    /// The id of a token in the vocabulary of the model, if it has one.
    pub fn token_to_id(&self, token: &str) -> (id: Option<u32>)
        ensures
            id == self@.token_id(token@),
    {
        token_to_id(&self.resource.0, token)
    }

    /// A token that has the id in the vocabulary of the model, if one has.
    pub fn id_to_token(&self, id: u32) -> (token: Option<String>)
        ensures
            self@.is_token_of(id, optional_text(token)),
    {
        id_to_token(&self.resource.0, id)
    }

    /// The vocabulary of the model: each token once, with its id, in no order that
    /// could be relied on.
    pub fn get_vocab(&self) -> (vocab: Vec<(String, u32)>)
        ensures
            lists_vocabulary(entries(vocab@), self@.vocabulary()),
    {
        get_vocab(&self.resource.0)
    }

    /// The size of the vocabulary of the model.
    pub fn get_vocab_size(&self) -> (size: usize)
        ensures
            self@.vocabulary().dom().finite() ==> size == self@.vocabulary_size(),
    {
        get_vocab_size(&self.resource.0)
    }

    /// A handle on the given model.
    pub fn new(data: tokenizers::ModelWrapper) -> (handle: Self)
        ensures
            handle@ == model_description(data),
    {
        Self { resource: Arc::new(ExTokenizersModelRef::new(data)) }
    }
}

/// Two BPE models with the same vocabulary, the same merges and the same settings,
/// which skip no merge at random and have no id for two tokens, make the same tokens
/// of the same text, or refuse it with the same message: whether a model keeps a
/// cache, and how much of one, changes nothing. One model does so every time.
pub proof fn lemma_bpe_is_repeatable(
    first: ExTokenizersModel,
    second: ExTokenizersModel,
    sequence: Seq<char>,
    once: Result<Vec<Token>, ExTokenizersError>,
    again: Result<Vec<Token>, ExTokenizersError>,
)
    requires
        first@ == second@,
        first@.merges_alone(),
        first.tokenizes(sequence, once),
        second.tokenizes(sequence, again),
    ensures
        once is Ok <==> again is Ok,
        once matches Ok(a) ==> again matches Ok(b) && token_models(a@) == token_models(b@),
        once matches Err(ExTokenizersError::Tokenizer(a)) ==> again matches Err(ExTokenizersError::Tokenizer(b)) && a@
            == b@,
{
}

/// One setting of the saving of a model.
pub enum ModelSaveOption {
    /// What the names of the files start with.
    Prefix(String),
}

/// The prefix that a list of options describes: that of the last option, and none
/// where there is no option.
pub open spec fn save_prefix(options: Seq<ModelSaveOption>) -> Option<Seq<char>> {
    if options.len() == 0 {
        None
    } else {
        match options.last() {
            ModelSaveOption::Prefix(prefix) => Some(prefix@),
        }
    }
}

/// The prefix for the names of the files that a model is saved to, as the options
/// describe it.
pub fn models_save_prefix(options: &Vec<ModelSaveOption>) -> (prefix: Option<String>)
    ensures
        optional_text(prefix) == save_prefix(options@),
{
    let mut prefix: Option<String> = None;
    let mut i: usize = 0;
    while i < options.len()
        invariant
            i <= options@.len(),
            optional_text(prefix) == save_prefix(options@.take(i as int)),
        decreases options@.len() - i,
    {
        proof {
            lemma_take_step(options@, i as int);
        }
        match &options[i] {
            ModelSaveOption::Prefix(value) => prefix = Some(value.clone()),
        }
        i += 1;
    }
    proof {
        lemma_take_all(options@);
    }
    prefix
}

/// The description that a model gives of itself: its kind under the name `model_type`,
/// then its settings under their names.
pub open spec fn model_info(model: ModelModel) -> Seq<(Seq<char>, InfoValueModel)> {
    match model {
        ModelModel::Bpe { unk_token, continuing_subword_prefix, end_of_word_suffix, fuse_unk, byte_fallback, .. } => seq![
            ("model_type"@, InfoValueModel::Text("bpe"@)),
            ("unk_token"@, InfoValueModel::OptionalText(unk_token)),
            ("continuing_subword_prefix"@, InfoValueModel::OptionalText(continuing_subword_prefix)),
            ("end_of_word_suffix"@, InfoValueModel::OptionalText(end_of_word_suffix)),
            ("fuse_unk"@, InfoValueModel::Flag(fuse_unk)),
            ("byte_fallback"@, InfoValueModel::Flag(byte_fallback)),
        ],
        ModelModel::WordPiece { unk_token, continuing_subword_prefix, max_input_chars_per_word, .. } => seq![
            ("model_type"@, InfoValueModel::Text("wordpiece"@)),
            ("unk_token"@, InfoValueModel::Text(unk_token)),
            ("continuing_subword_prefix"@, InfoValueModel::Text(continuing_subword_prefix)),
            ("max_input_chars_per_word"@, InfoValueModel::Size(max_input_chars_per_word)),
        ],
        ModelModel::WordLevel { unk_token, .. } => seq![
            ("model_type"@, InfoValueModel::Text("wordlevel"@)),
            ("unk_token"@, InfoValueModel::Text(unk_token)),
        ],
        ModelModel::Unigram { byte_fallback, .. } => seq![
            ("model_type"@, InfoValueModel::Text("unigram"@)),
            ("byte_fallback"@, InfoValueModel::Flag(byte_fallback)),
        ],
    }
}

/// The description that the model gives of itself.
pub fn models_info(model: ExTokenizersModel) -> (info: Info)
    ensures
        info@ == model_info(model@),
{
    let inner = &model.resource.0;
    let mut info = Info::new();
    match model_kind(inner) {
        ModelKind::Bpe => {
            let texts = bpe_texts(inner).unwrap();
            let flags = bpe_flags(inner).unwrap();
            info.push("model_type", InfoValue::Text("bpe".to_owned()));
            info.push("unk_token", InfoValue::OptionalText(texts.0));
            info.push("continuing_subword_prefix", InfoValue::OptionalText(texts.1));
            info.push("end_of_word_suffix", InfoValue::OptionalText(texts.2));
            info.push("fuse_unk", InfoValue::Flag(flags.0));
            info.push("byte_fallback", InfoValue::Flag(flags.1));
        },
        ModelKind::WordPiece => {
            let settings = wordpiece_settings(inner).unwrap();
            info.push("model_type", InfoValue::Text("wordpiece".to_owned()));
            info.push("unk_token", InfoValue::Text(settings.0));
            info.push("continuing_subword_prefix", InfoValue::Text(settings.1));
            info.push("max_input_chars_per_word", InfoValue::Size(settings.2));
        },
        ModelKind::WordLevel => {
            info.push("model_type", InfoValue::Text("wordlevel".to_owned()));
            info.push("unk_token", InfoValue::Text(wordlevel_unk_token(inner).unwrap()));
        },
        ModelKind::Unigram => {
            info.push("model_type", InfoValue::Text("unigram".to_owned()));
            info.push("byte_fallback", InfoValue::Flag(unigram_byte_fallback(inner).unwrap()));
        },
    }
    assert(info@ =~= model_info(model@));
    info
}

/// The number of bytes of the longest token of a vocabulary.
fn longest_token_bytes(vocab: &Vec<(String, u32)>) -> (longest: usize)
    ensures
        longest == longest_token(entries(vocab@)),
{
    let mut longest: usize = 0;
    let mut i: usize = 0;
    while i < vocab.len()
        invariant
            i <= vocab@.len(),
            longest == longest_token(entries(vocab@).take(i as int)),
        decreases vocab@.len() - i,
    {
        proof {
            lemma_take_step(entries(vocab@), i as int);
        }
        let n = vocab[i].0.as_str().as_bytes().len();
        assert(n == byte_len(entries(vocab@)[i as int].0));
        if n > longest {
            longest = n;
        }
        i += 1;
    }
    proof {
        lemma_take_all(entries(vocab@));
    }
    longest
}

/// Whether one sequence of bytes starts with another.
fn starts_with_bytes(text: &[u8], prefix: &[u8]) -> (starts: bool)
    ensures
        starts == prefix@.is_prefix_of(text@),
{
    if prefix.len() > text.len() {
        return false;
    }
    let mut i: usize = 0;
    while i < prefix.len()
        invariant
            i <= prefix@.len(),
            prefix@.len() <= text@.len(),
            forall|j: int| 0 <= j < i ==> prefix@[j] == text@[j],
        decreases prefix@.len() - i,
    {
        if prefix[i] != text[i] {
            assert(prefix@[i as int] != text@.subrange(0, prefix@.len() as int)[i as int]);
            return false;
        }
        i += 1;
    }
    assert(prefix@ =~= text@.subrange(0, prefix@.len() as int));
    true
}

/// Whether the engine has room for the token of every merge.
fn check_merges_fit(
    vocab: &Vec<(String, u32)>,
    merges: &Vec<(String, String)>,
    prefix: &Option<String>,
) -> (fit: bool)
    ensures
        fit == merges_fit(entries(vocab@), merge_list(merges@), optional_text(*prefix)),
{
    let longest = longest_token_bytes(vocab);
    let empty: &str = "";
    let prefix_text: &str = match prefix {
        Some(prefix) => prefix.as_str(),
        None => empty,
    };
    proof {
        reveal_strlit("");
        assert(empty@ =~= Seq::<char>::empty());
        assert(encode_utf8(Seq::<char>::empty()) =~= Seq::<u8>::empty());
    }
    let prefix_slice = prefix_text.as_bytes();
    assert(prefix_slice@ == prefix_bytes(optional_text(*prefix)));
    let mut i: usize = 0;
    while i < merges.len()
        invariant
            i <= merges@.len(),
            longest == longest_token(entries(vocab@)),
            prefix_slice@ == prefix_bytes(optional_text(*prefix)),
            forall|j: int|
                0 <= j < i ==> merge_fits(#[trigger] merge_list(merges@)[j], prefix_slice@, longest as nat),
        decreases merges@.len() - i,
    {
        let first = merges[i].0.as_str().as_bytes();
        let second = merges[i].1.as_str().as_bytes();
        assert(first@ == encode_utf8(merge_list(merges@)[i as int].0));
        assert(second@ == encode_utf8(merge_list(merges@)[i as int].1));
        if !starts_with_bytes(second, prefix_slice) {
            return false;
        }
        let rest = second.len() - prefix_slice.len();
        if rest > longest || first.len() > longest - rest {
            return false;
        }
        i += 1;
    }
    true
}

/// The BPE model with the given vocabulary and merges, as the options describe. A
/// merge that the engine has no room for is refused here; one whose parts or whose
/// token are missing from the vocabulary is refused by the engine.
pub fn models_bpe_init(vocab: Vec<(String, u32)>, merges: Vec<(String, String)>, options: Vec<BPEOption>) -> (model: Result<
    ExTokenizersModel,
    ExTokenizersError,
>)
    ensures
        match model {
            Ok(model) => {
                &&& merges_fit(
                    entries(vocab@),
                    merge_list(merges@),
                    BpeSettingsModel::from_options(options@).continuing_subword_prefix,
                )
                &&& merges_known(
                    vocabulary_of(entries(vocab@)),
                    merge_list(merges@),
                    BpeSettingsModel::from_options(options@).continuing_subword_prefix,
                )
                &&& model@ == BpeSettingsModel::from_options(options@).model(
                    entries(vocab@),
                    merge_list(merges@),
                )
            },
            Err(ExTokenizersError::Other(message)) => {
                &&& !merges_fit(
                    entries(vocab@),
                    merge_list(merges@),
                    BpeSettingsModel::from_options(options@).continuing_subword_prefix,
                )
                &&& message@ == "a merge makes a token longer than any token of the vocabulary"@
            },
            Err(ExTokenizersError::Tokenizer(_)) => {
                &&& merges_fit(
                    entries(vocab@),
                    merge_list(merges@),
                    BpeSettingsModel::from_options(options@).continuing_subword_prefix,
                )
                &&& !merges_known(
                    vocabulary_of(entries(vocab@)),
                    merge_list(merges@),
                    BpeSettingsModel::from_options(options@).continuing_subword_prefix,
                )
            },
            Err(_) => false,
        },
{
    let settings = populate_bpe_options_to_builder(&options);
    if !check_merges_fit(&vocab, &merges, &settings.continuing_subword_prefix) {
        return Err(
            ExTokenizersError::Other(
                "a merge makes a token longer than any token of the vocabulary".to_owned(),
            ),
        );
    }
    match bpe_model(vocab, merges, settings) {
        Ok(model) => Ok(ExTokenizersModel::new(model)),
        Err(message) => Err(ExTokenizersError::Tokenizer(message)),
    }
}

/// The BPE model with no vocabulary, no merges and nothing set.
pub fn models_bpe_empty() -> (model: Result<ExTokenizersModel, ExTokenizersError>)
    ensures
        model matches Ok(model) && model@ == BpeSettingsModel::initial().model(Seq::empty(), Seq::empty()),
{
    Ok(ExTokenizersModel::new(empty_bpe_model()))
}

/// One setting of a WordPiece model.
pub enum WordPieceOption {
    UnkToken(String),
    ContinuingSubwordPrefix(String),
    MaxInputCharsPerWord(usize),
}

/// The settings of a WordPiece model.
pub struct WordPieceSettings {
    pub unk_token: Seq<char>,
    pub continuing_subword_prefix: Seq<char>,
    pub max_input_chars_per_word: usize,
}

impl WordPieceSettings {
    /// The settings that no option has changed: the unknown token `[UNK]`, the prefix
    /// `##`, and words of up to 100 characters.
    pub open spec fn initial() -> WordPieceSettings {
        WordPieceSettings {
            unk_token: "[UNK]"@,
            continuing_subword_prefix: "##"@,
            max_input_chars_per_word: 100,
        }
    }

    /// The settings with one option applied.
    pub open spec fn with(self, option: WordPieceOption) -> WordPieceSettings {
        match option {
            WordPieceOption::UnkToken(token) => WordPieceSettings { unk_token: token@, ..self },
            WordPieceOption::ContinuingSubwordPrefix(prefix) => WordPieceSettings {
                continuing_subword_prefix: prefix@,
                ..self
            },
            WordPieceOption::MaxInputCharsPerWord(max) => WordPieceSettings {
                max_input_chars_per_word: max,
                ..self
            },
        }
    }

    /// The settings that a list of options describes: of two options for one setting
    /// the later one counts.
    pub open spec fn from_options(options: Seq<WordPieceOption>) -> WordPieceSettings
        decreases options.len(),
    {
        if options.len() == 0 {
            WordPieceSettings::initial()
        } else {
            WordPieceSettings::from_options(options.drop_last()).with(options.last())
        }
    }

    /// The WordPiece model with this vocabulary and these settings.
    pub open spec fn model(self, vocab: Seq<(Seq<char>, u32)>) -> ModelModel {
        ModelModel::WordPiece {
            vocab: vocabulary_of(vocab),
            unk_token: self.unk_token,
            continuing_subword_prefix: self.continuing_subword_prefix,
            max_input_chars_per_word: self.max_input_chars_per_word,
        }
    }
}

/// The WordPiece model with the given vocabulary, as the options describe.
pub fn models_wordpiece_init(vocab: Vec<(String, u32)>, options: Vec<WordPieceOption>) -> (model: Result<
    ExTokenizersModel,
    ExTokenizersError,
>)
    ensures
        model matches Ok(model) && model@ == WordPieceSettings::from_options(options@).model(entries(vocab@)),
{
    let mut unk_token: String = "[UNK]".to_owned();
    let mut continuing_subword_prefix: String = "##".to_owned();
    let mut max_input_chars_per_word: usize = 100;
    let mut i: usize = 0;
    while i < options.len()
        invariant
            i <= options@.len(),
            (WordPieceSettings {
                unk_token: unk_token@,
                continuing_subword_prefix: continuing_subword_prefix@,
                max_input_chars_per_word,
            }) == WordPieceSettings::from_options(options@.take(i as int)),
        decreases options@.len() - i,
    {
        proof {
            lemma_take_step(options@, i as int);
        }
        match &options[i] {
            WordPieceOption::UnkToken(token) => unk_token = token.clone(),
            WordPieceOption::ContinuingSubwordPrefix(prefix) => continuing_subword_prefix = prefix.clone(),
            WordPieceOption::MaxInputCharsPerWord(max) => max_input_chars_per_word = *max,
        }
        i += 1;
    }
    proof {
        lemma_take_all(options@);
    }
    Ok(
        ExTokenizersModel::new(
            wordpiece_model(vocab, unk_token, continuing_subword_prefix, max_input_chars_per_word),
        ),
    )
}

/// The WordPiece model with no vocabulary and nothing changed.
pub fn models_wordpiece_empty() -> (model: Result<ExTokenizersModel, ExTokenizersError>)
    ensures
        model matches Ok(model) && model@ == WordPieceSettings::initial().model(Seq::empty()),
{
    Ok(
        ExTokenizersModel::new(
            wordpiece_model(Vec::new(), "[UNK]".to_owned(), "##".to_owned(), 100),
        ),
    )
}

/// One setting of a WordLevel model.
pub enum WordLevelOption {
    UnkToken(String),
}

/// The unknown token that a list of options describes: that of the last option, and
/// `<unk>` where there is none.
pub open spec fn wordlevel_unk_from_options(options: Seq<WordLevelOption>) -> Seq<char> {
    if options.len() == 0 {
        "<unk>"@
    } else {
        match options.last() {
            WordLevelOption::UnkToken(token) => token@,
        }
    }
}

/// The WordLevel model with the given vocabulary, as the options describe.
pub fn models_wordlevel_init(vocab: Vec<(String, u32)>, options: Vec<WordLevelOption>) -> (model: Result<
    ExTokenizersModel,
    ExTokenizersError,
>)
    ensures
        model matches Ok(model) && model@ == (ModelModel::WordLevel {
            vocab: vocabulary_of(entries(vocab@)),
            unk_token: wordlevel_unk_from_options(options@),
        }),
{
    let mut unk_token: String = "<unk>".to_owned();
    let mut i: usize = 0;
    while i < options.len()
        invariant
            i <= options@.len(),
            unk_token@ == wordlevel_unk_from_options(options@.take(i as int)),
        decreases options@.len() - i,
    {
        proof {
            lemma_take_step(options@, i as int);
        }
        match &options[i] {
            WordLevelOption::UnkToken(token) => unk_token = token.clone(),
        }
        i += 1;
    }
    proof {
        lemma_take_all(options@);
    }
    Ok(ExTokenizersModel::new(wordlevel_model(vocab, unk_token)))
}

/// The WordLevel model with no vocabulary and nothing changed.
pub fn models_wordlevel_empty() -> (model: Result<ExTokenizersModel, ExTokenizersError>)
    ensures
        model matches Ok(model) && model@ == (ModelModel::WordLevel {
            vocab: Map::empty(),
            unk_token: "<unk>"@,
        }),
{
    Ok(ExTokenizersModel::new(wordlevel_model(Vec::new(), "<unk>".to_owned())))
}

/// One setting of a unigram model.
pub enum UnigramOption {
    /// The place in the vocabulary of the piece that stands for what is unknown.
    UnkId(usize),
    ByteFallback(bool),
}

/// The settings of a unigram model.
#[derive(Clone, Copy, Debug, PartialEq, Eq, Structural)]
pub struct UnigramSettings {
    pub unk_id: usize,
    pub byte_fallback: bool,
}

/// What the first option says that sets the place of the unknown piece, if any does.
pub open spec fn first_unk_id(options: Seq<UnigramOption>) -> Option<usize>
    decreases options.len(),
{
    if options.len() == 0 {
        None
    } else {
        match options.first() {
            UnigramOption::UnkId(id) => Some(id),
            _ => first_unk_id(options.drop_first()),
        }
    }
}

/// What the first option says that sets the fallback to bytes, if any does.
pub open spec fn first_byte_fallback(options: Seq<UnigramOption>) -> Option<bool>
    decreases options.len(),
{
    if options.len() == 0 {
        None
    } else {
        match options.first() {
            UnigramOption::ByteFallback(value) => Some(value),
            _ => first_byte_fallback(options.drop_first()),
        }
    }
}

/// The settings that a list of options describes: of two options for one setting the
/// earlier one counts, and both settings have to be there.
pub open spec fn unigram_settings_from_options(options: Seq<UnigramOption>) -> Option<UnigramSettings> {
    match (first_unk_id(options), first_byte_fallback(options)) {
        (Some(unk_id), Some(byte_fallback)) => Some(UnigramSettings { unk_id, byte_fallback }),
        _ => None,
    }
}

/// The settings of a unigram model that a list of options describes, if it sets both.
pub fn unigram_settings(options: &Vec<UnigramOption>) -> (settings: Option<UnigramSettings>)
    ensures
        settings == unigram_settings_from_options(options@),
{
    let mut unk_id: Option<usize> = None;
    let mut byte_fallback: Option<bool> = None;
    let mut i: usize = options.len();
    assert(options@.skip(i as int) =~= Seq::<UnigramOption>::empty());
    while i > 0
        invariant
            i <= options@.len(),
            unk_id == first_unk_id(options@.skip(i as int)),
            byte_fallback == first_byte_fallback(options@.skip(i as int)),
        decreases i,
    {
        i -= 1;
        assert(options@.skip(i as int).drop_first() =~= options@.skip(i + 1));
        match &options[i] {
            UnigramOption::UnkId(id) => unk_id = Some(*id),
            UnigramOption::ByteFallback(value) => byte_fallback = Some(*value),
        }
    }
    assert(options@.skip(0) =~= options@);
    match (unk_id, byte_fallback) {
        (Some(unk_id), Some(byte_fallback)) => Some(UnigramSettings { unk_id, byte_fallback }),
        _ => None,
    }
}

/// The unigram model whose only piece stands for what is unknown.
pub fn models_unigram_empty() -> (model: Result<ExTokenizersModel, ExTokenizersError>)
    ensures
        model matches Ok(model) && model@ == (ModelModel::Unigram {
            pieces: seq!["<unk>"@],
            byte_fallback: false,
        }),
{
    Ok(ExTokenizersModel::new(empty_unigram_model()))
}

} // verus!
