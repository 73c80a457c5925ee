//! Trainers: they build the vocabulary of a model from a corpus. This module folds
//! the settings of a trainer, checks the characters that an alphabet is given as, and
//! describes the trainers that it is handed.

use crate::added_token::{
    added_token_descriptions, added_tokens_from_inputs, added_tokens_meant, plain_token,
    special_tokens_from_texts, AddedTokenInput, AddedTokenModel,
};
use crate::error::ExTokenizersError;
use crate::models::{model_description, optional_text, ExTokenizersModel, ModelModel};
use crate::util::{chars_from_codes, chars_of, lemma_take_all, lemma_take_step, Info, InfoValue, InfoValueModel};
use std::sync::Arc;
use tokenizers::{Model, Trainer};
use vstd::prelude::*;

verus! {

#[verifier::external_type_specification]
#[verifier::external_body]
pub struct ExTrainerWrapper(tokenizers::models::TrainerWrapper);

/// The settings of a trainer of subwords, as mathematics.
pub struct SubwordTrainerModel {
    pub min_frequency: u64,
    pub vocab_size: usize,
    pub show_progress: bool,
    pub special_tokens: Seq<AddedTokenModel>,
    pub limit_alphabet: Option<usize>,
    pub initial_alphabet: Set<char>,
    pub continuing_subword_prefix: Option<Seq<char>>,
    pub end_of_word_suffix: Option<Seq<char>>,
}

/// The settings of a trainer of whole words, as mathematics.
pub struct WordLevelTrainerModel {
    pub min_frequency: u64,
    pub vocab_size: usize,
    pub show_progress: bool,
    pub special_tokens: Seq<AddedTokenModel>,
}

/// The settings of a unigram trainer, as mathematics, but for the factor by which it
/// shrinks the vocabulary in each round.
pub struct UnigramTrainerModel {
    pub show_progress: bool,
    pub vocab_size: u32,
    pub n_sub_iterations: u32,
    pub special_tokens: Seq<AddedTokenModel>,
    pub initial_alphabet: Set<char>,
    pub unk_token: Option<Seq<char>>,
    pub max_piece_length: usize,
    pub seed_size: usize,
}

/// A trainer as mathematics: which trainer it is, with its settings.
#[allow(inconsistent_fields)]
pub enum TrainerModel {
    Bpe { settings: SubwordTrainerModel },
    WordPiece { settings: SubwordTrainerModel },
    WordLevel { settings: WordLevelTrainerModel },
    Unigram { settings: UnigramTrainerModel },
}

/// The kinds of trainer.
#[derive(Clone, Copy, Debug, PartialEq, Eq, Structural)]
pub enum TrainerKind {
    Bpe,
    WordPiece,
    WordLevel,
    Unigram,
}

impl TrainerModel {
    /// Whether the trainer shows how far it is.
    pub open spec fn show_progress(self) -> bool {
        match self {
            TrainerModel::Bpe { settings } => settings.show_progress,
            TrainerModel::WordPiece { settings } => settings.show_progress,
            TrainerModel::WordLevel { settings } => settings.show_progress,
            TrainerModel::Unigram { settings } => settings.show_progress,
        }
    }

    /// The special tokens that the trainer puts into the vocabulary.
    pub open spec fn special_tokens(self) -> Seq<AddedTokenModel> {
        match self {
            TrainerModel::Bpe { settings } => settings.special_tokens,
            TrainerModel::WordPiece { settings } => settings.special_tokens,
            TrainerModel::WordLevel { settings } => settings.special_tokens,
            TrainerModel::Unigram { settings } => settings.special_tokens,
        }
    }

    /// The kind of the trainer.
    pub open spec fn kind(self) -> TrainerKind {
        match self {
            TrainerModel::Bpe { .. } => TrainerKind::Bpe,
            TrainerModel::WordPiece { .. } => TrainerKind::WordPiece,
            TrainerModel::WordLevel { .. } => TrainerKind::WordLevel,
            TrainerModel::Unigram { .. } => TrainerKind::Unigram,
        }
    }
}

/// Which trainer of the engine a value is, with its settings.
pub uninterp spec fn trainer_description(trainer: tokenizers::models::TrainerWrapper) -> TrainerModel;

/// `Clone::clone` of `tokenizers::models::TrainerWrapper`, which is derived: the copy
/// is the same trainer with the same settings.
pub assume_specification[ <tokenizers::models::TrainerWrapper as Clone>::clone ](
    trainer: &tokenizers::models::TrainerWrapper,
) -> (copy: tokenizers::models::TrainerWrapper)
    ensures
        trainer_description(copy) == trainer_description(*trainer),
;

/// The settings of a trainer of subwords.
pub struct SubwordTrainerSettings {
    pub min_frequency: u32,
    pub vocab_size: usize,
    pub show_progress: bool,
    pub special_tokens: Vec<tokenizers::AddedToken>,
    pub limit_alphabet: Option<usize>,
    pub initial_alphabet: Vec<char>,
    pub continuing_subword_prefix: Option<String>,
    pub end_of_word_suffix: Option<String>,
}

impl View for SubwordTrainerSettings {
    type V = SubwordTrainerModel;

    open spec fn view(&self) -> SubwordTrainerModel {
        SubwordTrainerModel {
            min_frequency: self.min_frequency as u64,
            vocab_size: self.vocab_size,
            show_progress: self.show_progress,
            special_tokens: added_token_descriptions(self.special_tokens@),
            limit_alphabet: self.limit_alphabet,
            initial_alphabet: self.initial_alphabet@.to_set(),
            continuing_subword_prefix: optional_text(self.continuing_subword_prefix),
            end_of_word_suffix: optional_text(self.end_of_word_suffix),
        }
    }
}

/// The settings of a trainer of whole words.
pub struct WordLevelTrainerSettings {
    pub min_frequency: u32,
    pub vocab_size: usize,
    pub show_progress: bool,
    pub special_tokens: Vec<tokenizers::AddedToken>,
}

impl View for WordLevelTrainerSettings {
    type V = WordLevelTrainerModel;

    open spec fn view(&self) -> WordLevelTrainerModel {
        WordLevelTrainerModel {
            min_frequency: self.min_frequency as u64,
            vocab_size: self.vocab_size,
            show_progress: self.show_progress,
            special_tokens: added_token_descriptions(self.special_tokens@),
        }
    }
}

/// The settings of a unigram trainer, but for the factor by which it shrinks the
/// vocabulary in each round.
pub struct UnigramTrainerSettings {
    pub show_progress: bool,
    pub vocab_size: u32,
    pub n_sub_iterations: u32,
    pub special_tokens: Vec<tokenizers::AddedToken>,
    pub initial_alphabet: Vec<char>,
    pub unk_token: Option<String>,
    pub max_piece_length: usize,
    pub seed_size: usize,
}

impl View for UnigramTrainerSettings {
    type V = UnigramTrainerModel;

    open spec fn view(&self) -> UnigramTrainerModel {
        UnigramTrainerModel {
            show_progress: self.show_progress,
            vocab_size: self.vocab_size,
            n_sub_iterations: self.n_sub_iterations,
            special_tokens: added_token_descriptions(self.special_tokens@),
            initial_alphabet: self.initial_alphabet@.to_set(),
            unk_token: optional_text(self.unk_token),
            max_piece_length: self.max_piece_length,
            seed_size: self.seed_size,
        }
    }
}

/// `tokenizers::models::bpe::BpeTrainer::builder`, its setters for each setting that
/// is set, and `build`, as a trainer of any kind.
#[verifier::external_body]
fn bpe_trainer(settings: SubwordTrainerSettings) -> (trainer: tokenizers::models::TrainerWrapper)
    ensures
        trainer_description(trainer) == (TrainerModel::Bpe { settings: settings@ }),
{
    let b = tokenizers::models::bpe::BpeTrainer::builder().vocab_size(settings.vocab_size);
    let b = b.min_frequency(settings.min_frequency.into()).show_progress(settings.show_progress);
    let b = b.special_tokens(settings.special_tokens);
    let b = b.initial_alphabet(settings.initial_alphabet.into_iter().collect());
    let b = settings.limit_alphabet.into_iter().fold(b, |b, l| b.limit_alphabet(l));
    let b = settings.continuing_subword_prefix.into_iter().fold(b, |b, p| b.continuing_subword_prefix(p));
    let b = settings.end_of_word_suffix.into_iter().fold(b, |b, s| b.end_of_word_suffix(s));
    b.build().into()
}

/// `tokenizers::models::wordpiece::WordPieceTrainer::builder`, its setters for each
/// setting that is set, and `build`, as a trainer of any kind.
#[verifier::external_body]
fn wordpiece_trainer(settings: SubwordTrainerSettings) -> (trainer: tokenizers::models::TrainerWrapper)
    requires
        settings.continuing_subword_prefix is Some,
    ensures
        trainer_description(trainer) == (TrainerModel::WordPiece { settings: settings@ }),
{
    let b = tokenizers::models::wordpiece::WordPieceTrainer::builder().vocab_size(settings.vocab_size);
    let b = b.min_frequency(settings.min_frequency.into()).show_progress(settings.show_progress);
    let b = b.special_tokens(settings.special_tokens);
    let b = b.initial_alphabet(settings.initial_alphabet.into_iter().collect());
    let b = settings.limit_alphabet.into_iter().fold(b, |b, l| b.limit_alphabet(l));
    let b = settings.continuing_subword_prefix.into_iter().fold(b, |b, p| b.continuing_subword_prefix(p));
    let b = settings.end_of_word_suffix.into_iter().fold(b, |b, s| b.end_of_word_suffix(s));
    b.build().into()
}

/// `tokenizers::models::wordlevel::WordLevelTrainer::builder`, its setters, and
/// `build`, as a trainer of any kind, with the engine's error as its message. Every
/// field of the trainer has a value of its own where none is set, so `build` has
/// nothing to refuse.
#[verifier::external_body]
fn wordlevel_trainer(settings: WordLevelTrainerSettings) -> (trainer: Result<tokenizers::models::TrainerWrapper, String>)
    ensures
        trainer matches Ok(trainer) && trainer_description(trainer) == (TrainerModel::WordLevel {
            settings: settings@,
        }),
{
    let mut b = tokenizers::models::wordlevel::WordLevelTrainer::builder();
    b.vocab_size(settings.vocab_size).min_frequency(settings.min_frequency.into());
    b.show_progress(settings.show_progress).special_tokens(settings.special_tokens);
    b.build().map(|trainer| trainer.into()).map_err(|error| error.to_string())
}

/// `tokenizers::models::unigram::UnigramTrainer::builder`, its setters but the one for
/// the shrinking factor, and `build`, as a trainer of any kind, with the engine's error
/// as its message. Every field of the trainer has a value of its own where none is set,
/// so `build` has nothing to refuse.
#[verifier::external_body]
fn unigram_trainer(settings: UnigramTrainerSettings) -> (trainer: Result<tokenizers::models::TrainerWrapper, String>)
    ensures
        trainer matches Ok(trainer) && trainer_description(trainer) == (TrainerModel::Unigram {
            settings: settings@,
        }),
{
    let mut b = tokenizers::models::unigram::UnigramTrainer::builder();
    b.show_progress(settings.show_progress).vocab_size(settings.vocab_size);
    b.n_sub_iterations(settings.n_sub_iterations).special_tokens(settings.special_tokens);
    b.initial_alphabet(settings.initial_alphabet.into_iter().collect()).unk_token(settings.unk_token);
    b.max_piece_length(settings.max_piece_length).seed_size(settings.seed_size);
    b.build().map(|trainer| trainer.into()).map_err(|error| error.to_string())
}

/// Whether a trainer is of the kind of a model.
pub open spec fn trainer_kind_matches(trainer: TrainerModel, model: ModelModel) -> bool {
    match (trainer, model) {
        (TrainerModel::Bpe { .. }, ModelModel::Bpe { .. }) => true,
        (TrainerModel::WordPiece { .. }, ModelModel::WordPiece { .. }) => true,
        (TrainerModel::WordLevel { .. }, ModelModel::WordLevel { .. }) => true,
        (TrainerModel::Unigram { .. }, ModelModel::Unigram { .. }) => true,
        _ => false,
    }
}

/// `tokenizers::Model::get_trainer` of `tokenizers::ModelWrapper`: a trainer of the
/// model's kind, without special tokens.
#[verifier::external_body]
pub(crate) fn default_trainer(model: &tokenizers::ModelWrapper) -> (trainer: tokenizers::models::TrainerWrapper)
    ensures
        trainer_kind_matches(trainer_description(trainer), model_description(*model)),
        trainer_description(trainer).special_tokens().len() == 0,
{
    model.get_trainer()
}

/// `tokenizers::Trainer::should_show_progress` of `tokenizers::models::TrainerWrapper`:
/// the field `show_progress` of the trainer.
#[verifier::external_body]
fn should_show_progress(trainer: &tokenizers::models::TrainerWrapper) -> (show: bool)
    ensures
        show == trainer_description(*trainer).show_progress(),
{
    trainer.should_show_progress()
}

/// Which variant of `tokenizers::models::TrainerWrapper` a trainer is.
#[verifier::external_body]
pub(crate) fn trainer_kind(trainer: &tokenizers::models::TrainerWrapper) -> (kind: TrainerKind)
    ensures
        kind == trainer_description(*trainer).kind(),
{
    match trainer {
        tokenizers::models::TrainerWrapper::BpeTrainer(_) => TrainerKind::Bpe,
        tokenizers::models::TrainerWrapper::WordPieceTrainer(_) => TrainerKind::WordPiece,
        tokenizers::models::TrainerWrapper::WordLevelTrainer(_) => TrainerKind::WordLevel,
        tokenizers::models::TrainerWrapper::UnigramTrainer(_) => TrainerKind::Unigram,
    }
}

/// The length of the field `special_tokens` of a trainer of the engine, of whichever
/// kind.
#[verifier::external_body]
pub(crate) fn special_token_count(trainer: &tokenizers::models::TrainerWrapper) -> (count: usize)
    ensures
        count == trainer_description(*trainer).special_tokens().len(),
{
    match trainer {
        tokenizers::models::TrainerWrapper::BpeTrainer(t) => t.special_tokens.len(),
        tokenizers::models::TrainerWrapper::WordPieceTrainer(t) => t.special_tokens().len(),
        tokenizers::models::TrainerWrapper::WordLevelTrainer(t) => t.special_tokens.len(),
        tokenizers::models::TrainerWrapper::UnigramTrainer(t) => t.special_tokens.len(),
    }
}

/// The numbers that a trainer of subwords is described by.
pub struct SubwordTrainerNumbers {
    pub min_frequency: u64,
    pub vocab_size: usize,
    pub show_progress: bool,
    pub special_tokens: usize,
    pub limit_alphabet: Option<usize>,
    pub initial_alphabet: usize,
}

/// The fields `min_frequency`, `vocab_size`, `show_progress` and `limit_alphabet` of a
/// `tokenizers::models::bpe::BpeTrainer` in a trainer, and the lengths of its fields
/// `special_tokens` and `initial_alphabet`.
#[verifier::external_body]
fn bpe_trainer_numbers(trainer: &tokenizers::models::TrainerWrapper) -> (numbers: Option<SubwordTrainerNumbers>)
    ensures
        match trainer_description(*trainer) {
            TrainerModel::Bpe { settings } => numbers matches Some(found) && found.min_frequency
                == settings.min_frequency && found.vocab_size == settings.vocab_size
                && found.show_progress == settings.show_progress && found.special_tokens
                == settings.special_tokens.len() && found.limit_alphabet == settings.limit_alphabet
                && settings.initial_alphabet.finite() && found.initial_alphabet
                == settings.initial_alphabet.len(),
            _ => numbers is None,
        },
{
    match trainer {
        tokenizers::models::TrainerWrapper::BpeTrainer(t) => Some(
            SubwordTrainerNumbers {
                min_frequency: t.min_frequency,
                vocab_size: t.vocab_size,
                show_progress: t.show_progress,
                special_tokens: t.special_tokens.len(),
                limit_alphabet: t.limit_alphabet,
                initial_alphabet: t.initial_alphabet.len(),
            },
        ),
        _ => None,
    }
}

/// The fields `continuing_subword_prefix` and `end_of_word_suffix` of a
/// `tokenizers::models::bpe::BpeTrainer` in a trainer.
#[verifier::external_body]
fn bpe_trainer_texts(trainer: &tokenizers::models::TrainerWrapper) -> (found: Option<(Option<String>, Option<String>)>)
    ensures
        match trainer_description(*trainer) {
            TrainerModel::Bpe { settings } => found matches Some(found) && optional_text(found.0)
                == settings.continuing_subword_prefix && optional_text(found.1)
                == settings.end_of_word_suffix,
            _ => found is None,
        },
{
    match trainer {
        tokenizers::models::TrainerWrapper::BpeTrainer(t) => Some(
            (t.continuing_subword_prefix.clone(), t.end_of_word_suffix.clone()),
        ),
        _ => None,
    }
}

/// The fields `min_frequency`, `vocab_size` and `show_progress` of a
/// `tokenizers::models::wordlevel::WordLevelTrainer` in a trainer, and the length of
/// its field `special_tokens`.
#[verifier::external_body]
fn wordlevel_trainer_numbers(trainer: &tokenizers::models::TrainerWrapper) -> (numbers: Option<(u64, usize, bool, usize)>)
    ensures
        match trainer_description(*trainer) {
            TrainerModel::WordLevel { settings } => numbers == Some(
                (
                    settings.min_frequency,
                    settings.vocab_size,
                    settings.show_progress,
                    settings.special_tokens.len() as usize,
                ),
            ) && settings.special_tokens.len() <= usize::MAX,
            _ => numbers is None,
        },
{
    match trainer {
        tokenizers::models::TrainerWrapper::WordLevelTrainer(t) => Some(
            (t.min_frequency, t.vocab_size, t.show_progress, t.special_tokens.len()),
        ),
        _ => None,
    }
}

/// The numbers that a unigram trainer is described by.
pub struct UnigramTrainerNumbers {
    pub show_progress: bool,
    pub vocab_size: u32,
    pub n_sub_iterations: u32,
    pub special_tokens: usize,
    pub initial_alphabet: usize,
    pub max_piece_length: usize,
}

/// The fields `show_progress`, `vocab_size`, `n_sub_iterations` and `max_piece_length`
/// of a `tokenizers::models::unigram::UnigramTrainer` in a trainer, and the lengths of
/// its fields `special_tokens` and `initial_alphabet`.
#[verifier::external_body]
fn unigram_trainer_numbers(trainer: &tokenizers::models::TrainerWrapper) -> (numbers: Option<UnigramTrainerNumbers>)
    ensures
        match trainer_description(*trainer) {
            TrainerModel::Unigram { settings } => numbers matches Some(found) && found.show_progress
                == settings.show_progress && found.vocab_size == settings.vocab_size
                && found.n_sub_iterations == settings.n_sub_iterations && found.special_tokens
                == settings.special_tokens.len() && settings.initial_alphabet.finite()
                && found.initial_alphabet == settings.initial_alphabet.len() && found.max_piece_length
                == settings.max_piece_length,
            _ => numbers is None,
        },
{
    match trainer {
        tokenizers::models::TrainerWrapper::UnigramTrainer(t) => Some(
            UnigramTrainerNumbers {
                show_progress: t.show_progress,
                vocab_size: t.vocab_size,
                n_sub_iterations: t.n_sub_iterations,
                special_tokens: t.special_tokens.len(),
                initial_alphabet: t.initial_alphabet.len(),
                max_piece_length: t.max_piece_length,
            },
        ),
        _ => None,
    }
}

/// The field `unk_token` of a `tokenizers::models::unigram::UnigramTrainer` in a
/// trainer.
#[verifier::external_body]
fn unigram_trainer_unk_token(trainer: &tokenizers::models::TrainerWrapper) -> (found: Option<Option<String>>)
    ensures
        match trainer_description(*trainer) {
            TrainerModel::Unigram { settings } => found matches Some(found) && optional_text(found)
                == settings.unk_token,
            _ => found is None,
        },
{
    match trainer {
        tokenizers::models::TrainerWrapper::UnigramTrainer(t) => Some(t.unk_token.clone()),
        _ => None,
    }
}

/// A trainer of the engine, owned by the library.
pub struct ExTokenizersTrainerRef(pub tokenizers::models::TrainerWrapper);

/// A handle on a trainer.
#[derive(Clone)]
pub struct ExTokenizersTrainer {
    pub resource: Arc<ExTokenizersTrainerRef>,
}

impl View for ExTokenizersTrainerRef {
    type V = TrainerModel;

    open spec fn view(&self) -> TrainerModel {
        trainer_description(self.0)
    }
}

impl View for ExTokenizersTrainer {
    type V = TrainerModel;

    open spec fn view(&self) -> TrainerModel {
        self.resource@
    }
}

impl ExTokenizersTrainerRef {
    /// The resource that owns the given trainer.
    pub fn new(data: tokenizers::models::TrainerWrapper) -> (resource: Self)
        ensures
            resource@ == trainer_description(data),
    {
        Self(data)
    }
}

impl ExTokenizersModel {
    /// A trainer of the kind of the model, with the engine's settings.
    pub fn get_trainer(&self) -> (trainer: ExTokenizersTrainer)
        ensures
            trainer_kind_matches(trainer@, self@),
    {
        ExTokenizersTrainer::new(default_trainer(&self.resource.0))
    }
}

impl ExTokenizersTrainer {
    /// Whether the trainer shows how far it is.
    pub fn should_show_progress(&self) -> (show: bool)
        ensures
            show == self@.show_progress(),
    {
        should_show_progress(&self.resource.0)
    }

    /// A handle on the given trainer.
    pub fn new(data: tokenizers::models::TrainerWrapper) -> (handle: Self)
        ensures
            handle@ == trainer_description(data),
    {
        Self { resource: Arc::new(ExTokenizersTrainerRef::new(data)) }
    }
}

/// The description that a trainer gives of itself: its kind under the name
/// `trainer_type`, then its settings under their names; of its special tokens and of
/// its alphabet, how many there are.
pub open spec fn trainer_info(trainer: TrainerModel) -> Seq<(Seq<char>, InfoValueModel)> {
    match trainer {
        TrainerModel::Bpe { settings } => seq![
            ("trainer_type"@, InfoValueModel::Text("bpe"@)),
            ("min_frequency"@, InfoValueModel::Count(settings.min_frequency)),
            ("vocab_size"@, InfoValueModel::Size(settings.vocab_size)),
            ("show_progress"@, InfoValueModel::Flag(settings.show_progress)),
            ("special_tokens"@, InfoValueModel::Size(settings.special_tokens.len() as usize)),
            ("limit_alphabet"@, InfoValueModel::OptionalSize(settings.limit_alphabet)),
            ("initial_alphabet"@, InfoValueModel::Size(settings.initial_alphabet.len() as usize)),
            ("continuing_subword_prefix"@, InfoValueModel::OptionalText(settings.continuing_subword_prefix)),
            ("end_of_word_suffix"@, InfoValueModel::OptionalText(settings.end_of_word_suffix)),
        ],
        TrainerModel::WordPiece { .. } => seq![("trainer_type"@, InfoValueModel::Text("wordpiece"@))],
        TrainerModel::WordLevel { settings } => seq![
            ("trainer_type"@, InfoValueModel::Text("wordlevel"@)),
            ("min_frequency"@, InfoValueModel::Count(settings.min_frequency)),
            ("vocab_size"@, InfoValueModel::Size(settings.vocab_size)),
            ("show_progress"@, InfoValueModel::Flag(settings.show_progress)),
            ("special_tokens"@, InfoValueModel::Size(settings.special_tokens.len() as usize)),
        ],
        TrainerModel::Unigram { settings } => seq![
            ("trainer_type"@, InfoValueModel::Text("unigram"@)),
            ("show_progress"@, InfoValueModel::Flag(settings.show_progress)),
            ("vocab_size"@, InfoValueModel::Number(settings.vocab_size)),
            ("n_sub_iterations"@, InfoValueModel::Number(settings.n_sub_iterations)),
            ("special_tokens"@, InfoValueModel::Size(settings.special_tokens.len() as usize)),
            ("initial_alphabet"@, InfoValueModel::Size(settings.initial_alphabet.len() as usize)),
            ("unk_token"@, InfoValueModel::OptionalText(settings.unk_token)),
            ("max_piece_length"@, InfoValueModel::Size(settings.max_piece_length)),
        ],
    }
}

/// The description that the trainer gives of itself.
pub fn trainers_info(trainer: ExTokenizersTrainer) -> (info: Info)
    ensures
        info@ == trainer_info(trainer@),
{
    let inner = &trainer.resource.0;
    let mut info = Info::new();
    match trainer_kind(inner) {
        TrainerKind::Bpe => {
            let numbers = bpe_trainer_numbers(inner).unwrap();
            let found = bpe_trainer_texts(inner).unwrap();
            info.push("trainer_type", InfoValue::Text("bpe".to_owned()));
            info.push("min_frequency", InfoValue::Count(numbers.min_frequency));
            info.push("vocab_size", InfoValue::Size(numbers.vocab_size));
            info.push("show_progress", InfoValue::Flag(numbers.show_progress));
            info.push("special_tokens", InfoValue::Size(numbers.special_tokens));
            info.push("limit_alphabet", InfoValue::OptionalSize(numbers.limit_alphabet));
            info.push("initial_alphabet", InfoValue::Size(numbers.initial_alphabet));
            info.push("continuing_subword_prefix", InfoValue::OptionalText(found.0));
            info.push("end_of_word_suffix", InfoValue::OptionalText(found.1));
        },
        TrainerKind::WordPiece => {
            info.push("trainer_type", InfoValue::Text("wordpiece".to_owned()));
        },
        TrainerKind::WordLevel => {
            let numbers = wordlevel_trainer_numbers(inner).unwrap();
            info.push("trainer_type", InfoValue::Text("wordlevel".to_owned()));
            info.push("min_frequency", InfoValue::Count(numbers.0));
            info.push("vocab_size", InfoValue::Size(numbers.1));
            info.push("show_progress", InfoValue::Flag(numbers.2));
            info.push("special_tokens", InfoValue::Size(numbers.3));
        },
        TrainerKind::Unigram => {
            let numbers = unigram_trainer_numbers(inner).unwrap();
            let unk_token = unigram_trainer_unk_token(inner).unwrap();
            info.push("trainer_type", InfoValue::Text("unigram".to_owned()));
            info.push("show_progress", InfoValue::Flag(numbers.show_progress));
            info.push("vocab_size", InfoValue::Number(numbers.vocab_size));
            info.push("n_sub_iterations", InfoValue::Number(numbers.n_sub_iterations));
            info.push("special_tokens", InfoValue::Size(numbers.special_tokens));
            info.push("initial_alphabet", InfoValue::Size(numbers.initial_alphabet));
            info.push("unk_token", InfoValue::OptionalText(unk_token));
            info.push("max_piece_length", InfoValue::Size(numbers.max_piece_length));
        },
    }
    assert(info@ =~= trainer_info(trainer@));
    info
}

/// One setting of a BPE trainer.
pub enum BPEOption {
    VocabSize(usize),
    MinFrequency(u32),
    SpecialTokens(Vec<AddedTokenInput>),
    LimitAlphabet(usize),
    /// The characters that the vocabulary starts with, as their numbers.
    InitialAlphabet(Vec<u32>),
    ShowProgress(bool),
    ContinuingSubwordPrefix(String),
    EndOfWordSuffix(String),
}

/// One setting of a WordPiece trainer.
pub enum WordPieceOption {
    VocabSize(usize),
    MinFrequency(u32),
    SpecialTokens(Vec<String>),
    LimitAlphabet(usize),
    /// The characters that the vocabulary starts with, as their numbers.
    InitialAlphabet(Vec<u32>),
    ShowProgress(bool),
    ContinuingSubwordPrefix(String),
    EndOfWordSuffix(String),
}

/// The special tokens with the given texts.
pub open spec fn special_tokens_of(tokens: Seq<String>) -> Seq<AddedTokenModel> {
    Seq::new(tokens.len(), |i: int| plain_token(tokens[i]@, true))
}

impl SubwordTrainerModel {
    /// The settings of a BPE trainer that no option has changed: a vocabulary of
    /// 30000, no least frequency, progress shown, nothing else set.
    pub open spec fn initial_bpe() -> SubwordTrainerModel {
        SubwordTrainerModel {
            min_frequency: 0,
            vocab_size: 30000,
            show_progress: true,
            special_tokens: Seq::empty(),
            limit_alphabet: None,
            initial_alphabet: Set::empty(),
            continuing_subword_prefix: None,
            end_of_word_suffix: None,
        }
    }

    /// The settings of a WordPiece trainer that no option has changed: those of a BPE
    /// trainer, with the prefix `##` for what continues a word.
    pub open spec fn initial_wordpiece() -> SubwordTrainerModel {
        SubwordTrainerModel { continuing_subword_prefix: Some("##"@), ..SubwordTrainerModel::initial_bpe() }
    }

    /// The settings with one option of a BPE trainer applied, unless the option gives
    /// an alphabet with a number that is not one of a character.
    pub open spec fn with_bpe(self, option: BPEOption) -> Option<SubwordTrainerModel> {
        match option {
            BPEOption::VocabSize(size) => Some(SubwordTrainerModel { vocab_size: size, ..self }),
            BPEOption::MinFrequency(frequency) => Some(
                SubwordTrainerModel { min_frequency: frequency as u64, ..self },
            ),
            BPEOption::SpecialTokens(tokens) => Some(
                SubwordTrainerModel { special_tokens: added_tokens_meant(tokens@), ..self },
            ),
            BPEOption::LimitAlphabet(limit) => Some(SubwordTrainerModel { limit_alphabet: Some(limit), ..self }),
            BPEOption::InitialAlphabet(codes) => match chars_of(codes@) {
                Some(chars) => Some(SubwordTrainerModel { initial_alphabet: chars.to_set(), ..self }),
                None => None,
            },
            BPEOption::ShowProgress(show) => Some(SubwordTrainerModel { show_progress: show, ..self }),
            BPEOption::ContinuingSubwordPrefix(prefix) => Some(
                SubwordTrainerModel { continuing_subword_prefix: Some(prefix@), ..self },
            ),
            BPEOption::EndOfWordSuffix(suffix) => Some(
                SubwordTrainerModel { end_of_word_suffix: Some(suffix@), ..self },
            ),
        }
    }

    /// The settings with one option of a WordPiece trainer applied, unless the option
    /// gives an alphabet with a number that is not one of a character.
    pub open spec fn with_wordpiece(self, option: WordPieceOption) -> Option<SubwordTrainerModel> {
        match option {
            WordPieceOption::VocabSize(size) => Some(SubwordTrainerModel { vocab_size: size, ..self }),
            WordPieceOption::MinFrequency(frequency) => Some(
                SubwordTrainerModel { min_frequency: frequency as u64, ..self },
            ),
            WordPieceOption::SpecialTokens(tokens) => Some(
                SubwordTrainerModel { special_tokens: special_tokens_of(tokens@), ..self },
            ),
            WordPieceOption::LimitAlphabet(limit) => Some(
                SubwordTrainerModel { limit_alphabet: Some(limit), ..self },
            ),
            WordPieceOption::InitialAlphabet(codes) => match chars_of(codes@) {
                Some(chars) => Some(SubwordTrainerModel { initial_alphabet: chars.to_set(), ..self }),
                None => None,
            },
            WordPieceOption::ShowProgress(show) => Some(SubwordTrainerModel { show_progress: show, ..self }),
            WordPieceOption::ContinuingSubwordPrefix(prefix) => Some(
                SubwordTrainerModel { continuing_subword_prefix: Some(prefix@), ..self },
            ),
            WordPieceOption::EndOfWordSuffix(suffix) => Some(
                SubwordTrainerModel { end_of_word_suffix: Some(suffix@), ..self },
            ),
        }
    }

    /// The settings of a BPE trainer that a list of options describes, where every
    /// option can be applied: of two options for one setting the later one counts.
    pub open spec fn from_bpe_options(options: Seq<BPEOption>) -> Option<SubwordTrainerModel>
        decreases options.len(),
    {
        if options.len() == 0 {
            Some(SubwordTrainerModel::initial_bpe())
        } else {
            match SubwordTrainerModel::from_bpe_options(options.drop_last()) {
                Some(settings) => settings.with_bpe(options.last()),
                None => None,
            }
        }
    }

    /// The settings of a WordPiece trainer that a list of options describes, where
    /// every option can be applied: of two options for one setting the later one counts.
    pub open spec fn from_wordpiece_options(options: Seq<WordPieceOption>) -> Option<SubwordTrainerModel>
        decreases options.len(),
    {
        if options.len() == 0 {
            Some(SubwordTrainerModel::initial_wordpiece())
        } else {
            match SubwordTrainerModel::from_wordpiece_options(options.drop_last()) {
                Some(settings) => settings.with_wordpiece(options.last()),
                None => None,
            }
        }
    }
}

/// Options of a BPE trainer that are refused as a whole are refused from one of them
/// on.
pub proof fn lemma_bpe_options_refused(options: Seq<BPEOption>, k: int)
    requires
        0 <= k <= options.len(),
        SubwordTrainerModel::from_bpe_options(options.take(k)) is None,
    ensures
        SubwordTrainerModel::from_bpe_options(options) is None,
    decreases options.len() - k,
{
    if k < options.len() {
        lemma_take_step(options, k);
        lemma_bpe_options_refused(options, k + 1);
    } else {
        lemma_take_all(options);
    }
}

/// Options of a WordPiece trainer that are refused as a whole are refused from one of
/// them on.
pub proof fn lemma_wordpiece_options_refused(options: Seq<WordPieceOption>, k: int)
    requires
        0 <= k <= options.len(),
        SubwordTrainerModel::from_wordpiece_options(options.take(k)) is None,
    ensures
        SubwordTrainerModel::from_wordpiece_options(options) is None,
    decreases options.len() - k,
{
    if k < options.len() {
        lemma_take_step(options, k);
        lemma_wordpiece_options_refused(options, k + 1);
    } else {
        lemma_take_all(options);
    }
}

/// The settings of a BPE trainer that a list of options describes. An alphabet with a
/// number that is not one of a character is an error.
pub fn populate_bpe_options_to_builder(options: &Vec<BPEOption>) -> (settings: Result<
    SubwordTrainerSettings,
    ExTokenizersError,
>)
    ensures
        match settings {
            Ok(settings) => SubwordTrainerModel::from_bpe_options(options@) == Some(settings@),
            Err(error) => SubwordTrainerModel::from_bpe_options(options@) is None && error is InvalidChar,
        },
{
    let mut settings = SubwordTrainerSettings {
        min_frequency: 0,
        vocab_size: 30000,
        show_progress: true,
        special_tokens: Vec::new(),
        limit_alphabet: None,
        initial_alphabet: Vec::new(),
        continuing_subword_prefix: None,
        end_of_word_suffix: None,
    };
    assert(settings@.special_tokens =~= Seq::empty());
    assert(settings@.initial_alphabet =~= Set::empty());
    let mut i: usize = 0;
    while i < options.len()
        invariant
            i <= options@.len(),
            SubwordTrainerModel::from_bpe_options(options@.take(i as int)) == Some(settings@),
        decreases options@.len() - i,
    {
        proof {
            lemma_take_step(options@, i as int);
        }
        match &options[i] {
            BPEOption::VocabSize(size) => settings.vocab_size = *size,
            BPEOption::MinFrequency(frequency) => settings.min_frequency = *frequency,
            BPEOption::SpecialTokens(tokens) => settings.special_tokens = added_tokens_from_inputs(tokens),
            BPEOption::LimitAlphabet(limit) => settings.limit_alphabet = Some(*limit),
            BPEOption::InitialAlphabet(codes) => {
                match chars_from_codes(codes) {
                    Ok(chars) => settings.initial_alphabet = chars,
                    Err(error) => {
                        proof {
                            lemma_bpe_options_refused(options@, i + 1);
                        }
                        return Err(error);
                    },
                }
            },
            BPEOption::ShowProgress(show) => settings.show_progress = *show,
            BPEOption::ContinuingSubwordPrefix(prefix) => settings.continuing_subword_prefix = Some(
                prefix.clone(),
            ),
            BPEOption::EndOfWordSuffix(suffix) => settings.end_of_word_suffix = Some(suffix.clone()),
        }
        i += 1;
    }
    proof {
        lemma_take_all(options@);
    }
    Ok(settings)
}

/// The BPE trainer that the options describe.
pub fn trainers_bpe_trainer(options: Vec<BPEOption>) -> (trainer: Result<ExTokenizersTrainer, ExTokenizersError>)
    ensures
        match trainer {
            Ok(trainer) => SubwordTrainerModel::from_bpe_options(options@) matches Some(settings)
                && trainer@ == (TrainerModel::Bpe { settings }),
            Err(error) => SubwordTrainerModel::from_bpe_options(options@) is None && error is InvalidChar,
        },
{
    match populate_bpe_options_to_builder(&options) {
        Ok(settings) => Ok(ExTokenizersTrainer::new(bpe_trainer(settings))),
        Err(error) => Err(error),
    }
}

/// The settings of a WordPiece trainer that a list of options describes. An alphabet
/// with a number that is not one of a character is an error.
pub fn populate_wordpiece_options_to_builder(options: &Vec<WordPieceOption>) -> (settings: Result<
    SubwordTrainerSettings,
    ExTokenizersError,
>)
    ensures
        match settings {
            Ok(settings) => SubwordTrainerModel::from_wordpiece_options(options@) == Some(settings@)
                && settings.continuing_subword_prefix is Some,
            Err(error) => SubwordTrainerModel::from_wordpiece_options(options@) is None
                && error is InvalidChar,
        },
{
    let mut settings = SubwordTrainerSettings {
        min_frequency: 0,
        vocab_size: 30000,
        show_progress: true,
        special_tokens: Vec::new(),
        limit_alphabet: None,
        initial_alphabet: Vec::new(),
        continuing_subword_prefix: Some("##".to_owned()),
        end_of_word_suffix: None,
    };
    assert(settings@.special_tokens =~= Seq::empty());
    assert(settings@.initial_alphabet =~= Set::empty());
    let mut i: usize = 0;
    while i < options.len()
        invariant
            i <= options@.len(),
            settings.continuing_subword_prefix is Some,
            SubwordTrainerModel::from_wordpiece_options(options@.take(i as int)) == Some(settings@),
        decreases options@.len() - i,
    {
        proof {
            lemma_take_step(options@, i as int);
        }
        match &options[i] {
            WordPieceOption::VocabSize(size) => settings.vocab_size = *size,
            WordPieceOption::MinFrequency(frequency) => settings.min_frequency = *frequency,
            WordPieceOption::SpecialTokens(tokens) => {
                settings.special_tokens = special_tokens_from_texts(tokens);
                assert(added_token_descriptions(settings.special_tokens@) =~= special_tokens_of(tokens@));
            },
            WordPieceOption::LimitAlphabet(limit) => settings.limit_alphabet = Some(*limit),
            WordPieceOption::InitialAlphabet(codes) => {
                match chars_from_codes(codes) {
                    Ok(chars) => settings.initial_alphabet = chars,
                    Err(error) => {
                        proof {
                            lemma_wordpiece_options_refused(options@, i + 1);
                        }
                        return Err(error);
                    },
                }
            },
            WordPieceOption::ShowProgress(show) => settings.show_progress = *show,
            WordPieceOption::ContinuingSubwordPrefix(prefix) => settings.continuing_subword_prefix = Some(
                prefix.clone(),
            ),
            WordPieceOption::EndOfWordSuffix(suffix) => settings.end_of_word_suffix = Some(suffix.clone()),
        }
        i += 1;
    }
    proof {
        lemma_take_all(options@);
    }
    Ok(settings)
}

/// The WordPiece trainer that the options describe.
pub fn trainers_wordpiece_trainer(options: Vec<WordPieceOption>) -> (trainer: Result<
    ExTokenizersTrainer,
    ExTokenizersError,
>)
    ensures
        match trainer {
            Ok(trainer) => SubwordTrainerModel::from_wordpiece_options(options@) matches Some(settings)
                && trainer@ == (TrainerModel::WordPiece { settings }),
            Err(error) => SubwordTrainerModel::from_wordpiece_options(options@) is None
                && error is InvalidChar,
        },
{
    match populate_wordpiece_options_to_builder(&options) {
        Ok(settings) => Ok(ExTokenizersTrainer::new(wordpiece_trainer(settings))),
        Err(error) => Err(error),
    }
}

/// One setting of a WordLevel trainer.
pub enum WordLevelOption {
    VocabSize(usize),
    MinFrequency(u32),
    SpecialTokens(Vec<String>),
    ShowProgress(bool),
}

impl WordLevelTrainerModel {
    /// The settings that no option has changed: a vocabulary of 30000, no least
    /// frequency, progress shown, no special tokens.
    pub open spec fn initial() -> WordLevelTrainerModel {
        WordLevelTrainerModel {
            min_frequency: 0,
            vocab_size: 30000,
            show_progress: true,
            special_tokens: Seq::empty(),
        }
    }

    /// The settings with one option applied.
    pub open spec fn with(self, option: WordLevelOption) -> WordLevelTrainerModel {
        match option {
            WordLevelOption::VocabSize(size) => WordLevelTrainerModel { vocab_size: size, ..self },
            WordLevelOption::MinFrequency(frequency) => WordLevelTrainerModel {
                min_frequency: frequency as u64,
                ..self
            },
            WordLevelOption::SpecialTokens(tokens) => WordLevelTrainerModel {
                special_tokens: special_tokens_of(tokens@),
                ..self
            },
            WordLevelOption::ShowProgress(show) => WordLevelTrainerModel { show_progress: show, ..self },
        }
    }

    /// The settings that a list of options describes: of two options for one setting
    /// the later one counts.
    pub open spec fn from_options(options: Seq<WordLevelOption>) -> WordLevelTrainerModel
        decreases options.len(),
    {
        if options.len() == 0 {
            WordLevelTrainerModel::initial()
        } else {
            WordLevelTrainerModel::from_options(options.drop_last()).with(options.last())
        }
    }
}

/// The settings of a WordLevel trainer that a list of options describes.
pub fn populate_wordlevel_options_to_builder(options: &Vec<WordLevelOption>) -> (settings: WordLevelTrainerSettings)
    ensures
        settings@ == WordLevelTrainerModel::from_options(options@),
{
    let mut settings = WordLevelTrainerSettings {
        min_frequency: 0,
        vocab_size: 30000,
        show_progress: true,
        special_tokens: Vec::new(),
    };
    assert(settings@.special_tokens =~= Seq::empty());
    let mut i: usize = 0;
    while i < options.len()
        invariant
            i <= options@.len(),
            settings@ == WordLevelTrainerModel::from_options(options@.take(i as int)),
        decreases options@.len() - i,
    {
        proof {
            lemma_take_step(options@, i as int);
        }
        match &options[i] {
            WordLevelOption::VocabSize(size) => settings.vocab_size = *size,
            WordLevelOption::MinFrequency(frequency) => settings.min_frequency = *frequency,
            WordLevelOption::SpecialTokens(tokens) => {
                settings.special_tokens = special_tokens_from_texts(tokens);
                assert(added_token_descriptions(settings.special_tokens@) =~= special_tokens_of(tokens@));
            },
            WordLevelOption::ShowProgress(show) => settings.show_progress = *show,
        }
        i += 1;
    }
    proof {
        lemma_take_all(options@);
    }
    settings
}

/// The WordLevel trainer that the options describe.
pub fn trainers_wordlevel_trainer(options: Vec<WordLevelOption>) -> (trainer: Result<
    ExTokenizersTrainer,
    ExTokenizersError,
>)
    ensures
        trainer matches Ok(trainer) && trainer@ == (TrainerModel::WordLevel {
            settings: WordLevelTrainerModel::from_options(options@),
        }),
{
    let settings = populate_wordlevel_options_to_builder(&options);
    match wordlevel_trainer(settings) {
        Ok(trainer) => Ok(ExTokenizersTrainer::new(trainer)),
        Err(message) => Err(ExTokenizersError::Unknown(message)),
    }
}

/// One setting of a unigram trainer, but for the factor by which it shrinks the
/// vocabulary in each round.
pub enum UnigramOption {
    VocabSize(u32),
    NSubIterations(u32),
    SpecialTokens(Vec<String>),
    /// The characters that the vocabulary starts with, as their numbers.
    InitialAlphabet(Vec<u32>),
    /// The token that stands for what is unknown.
    UniToken(String),
    MaxPieceLength(usize),
    SeedSize(usize),
    ShowProgress(bool),
}

impl UnigramTrainerModel {
    /// The settings that no option has changed: a vocabulary of 8000, two
    /// sub-iterations, pieces of up to 16 characters, a million seeds, progress shown.
    pub open spec fn initial() -> UnigramTrainerModel {
        UnigramTrainerModel {
            show_progress: true,
            vocab_size: 8000,
            n_sub_iterations: 2,
            special_tokens: Seq::empty(),
            initial_alphabet: Set::empty(),
            unk_token: None,
            max_piece_length: 16,
            seed_size: 1000000,
        }
    }

    /// The settings with one option applied, unless the option gives an alphabet with
    /// a number that is not one of a character.
    pub open spec fn with(self, option: UnigramOption) -> Option<UnigramTrainerModel> {
        match option {
            UnigramOption::VocabSize(size) => Some(UnigramTrainerModel { vocab_size: size, ..self }),
            UnigramOption::NSubIterations(n) => Some(UnigramTrainerModel { n_sub_iterations: n, ..self }),
            UnigramOption::SpecialTokens(tokens) => Some(
                UnigramTrainerModel { special_tokens: special_tokens_of(tokens@), ..self },
            ),
            UnigramOption::InitialAlphabet(codes) => match chars_of(codes@) {
                Some(chars) => Some(UnigramTrainerModel { initial_alphabet: chars.to_set(), ..self }),
                None => None,
            },
            UnigramOption::UniToken(token) => Some(UnigramTrainerModel { unk_token: Some(token@), ..self }),
            UnigramOption::MaxPieceLength(length) => Some(
                UnigramTrainerModel { max_piece_length: length, ..self },
            ),
            UnigramOption::SeedSize(size) => Some(UnigramTrainerModel { seed_size: size, ..self }),
            UnigramOption::ShowProgress(show) => Some(UnigramTrainerModel { show_progress: show, ..self }),
        }
    }

    /// The settings that a list of options describes, where every option can be
    /// applied: of two options for one setting the later one counts.
    pub open spec fn from_options(options: Seq<UnigramOption>) -> Option<UnigramTrainerModel>
        decreases options.len(),
    {
        if options.len() == 0 {
            Some(UnigramTrainerModel::initial())
        } else {
            match UnigramTrainerModel::from_options(options.drop_last()) {
                Some(settings) => settings.with(options.last()),
                None => None,
            }
        }
    }
}

/// Options of a unigram trainer that are refused as a whole are refused from one of
/// them on.
pub proof fn lemma_unigram_options_refused(options: Seq<UnigramOption>, k: int)
    requires
        0 <= k <= options.len(),
        UnigramTrainerModel::from_options(options.take(k)) is None,
    ensures
        UnigramTrainerModel::from_options(options) is None,
    decreases options.len() - k,
{
    if k < options.len() {
        lemma_take_step(options, k);
        lemma_unigram_options_refused(options, k + 1);
    } else {
        lemma_take_all(options);
    }
}

/// The settings of a unigram trainer that a list of options describes. An alphabet
/// with a number that is not one of a character is an error.
pub fn populate_unigram_options_to_builder(options: &Vec<UnigramOption>) -> (settings: Result<
    UnigramTrainerSettings,
    ExTokenizersError,
>)
    ensures
        match settings {
            Ok(settings) => UnigramTrainerModel::from_options(options@) == Some(settings@),
            Err(error) => UnigramTrainerModel::from_options(options@) is None && error is InvalidChar,
        },
{
    let mut settings = UnigramTrainerSettings {
        show_progress: true,
        vocab_size: 8000,
        n_sub_iterations: 2,
        special_tokens: Vec::new(),
        initial_alphabet: Vec::new(),
        unk_token: None,
        max_piece_length: 16,
        seed_size: 1000000,
    };
    assert(settings@.special_tokens =~= Seq::empty());
    assert(settings@.initial_alphabet =~= Set::empty());
    let mut i: usize = 0;
    while i < options.len()
        invariant
            i <= options@.len(),
            UnigramTrainerModel::from_options(options@.take(i as int)) == Some(settings@),
        decreases options@.len() - i,
    {
        proof {
            lemma_take_step(options@, i as int);
        }
        match &options[i] {
            UnigramOption::VocabSize(size) => settings.vocab_size = *size,
            UnigramOption::NSubIterations(n) => settings.n_sub_iterations = *n,
            UnigramOption::SpecialTokens(tokens) => {
                settings.special_tokens = special_tokens_from_texts(tokens);
                assert(added_token_descriptions(settings.special_tokens@) =~= special_tokens_of(tokens@));
            },
            UnigramOption::InitialAlphabet(codes) => {
                match chars_from_codes(codes) {
                    Ok(chars) => settings.initial_alphabet = chars,
                    Err(error) => {
                        proof {
                            lemma_unigram_options_refused(options@, i + 1);
                        }
                        return Err(error);
                    },
                }
            },
            UnigramOption::UniToken(token) => settings.unk_token = Some(token.clone()),
            UnigramOption::MaxPieceLength(length) => settings.max_piece_length = *length,
            UnigramOption::SeedSize(size) => settings.seed_size = *size,
            UnigramOption::ShowProgress(show) => settings.show_progress = *show,
        }
        i += 1;
    }
    proof {
        lemma_take_all(options@);
    }
    Ok(settings)
}

/// The unigram trainer that the options describe; it shrinks the vocabulary by the
/// engine's own factor. An alphabet with a number that is not one of a character is
/// an error.
pub fn trainers_unigram_trainer(options: Vec<UnigramOption>) -> (trainer: Result<
    ExTokenizersTrainer,
    ExTokenizersError,
>)
    ensures
        match trainer {
            Ok(trainer) => UnigramTrainerModel::from_options(options@) matches Some(settings) && trainer@
                == (TrainerModel::Unigram { settings }),
            Err(error) => {
                &&& UnigramTrainerModel::from_options(options@) is None
                &&& error matches ExTokenizersError::Unknown(message)
                &&& message@ == "Invalid Char"@
            },
        },
{
    match populate_unigram_options_to_builder(&options) {
        Ok(settings) => match unigram_trainer(settings) {
            Ok(trainer) => Ok(ExTokenizersTrainer::new(trainer)),
            Err(message) => Err(ExTokenizersError::Unknown(message)),
        },
        Err(error) => Err(ExTokenizersError::Unknown(error.message())),
    }
}

} // verus!
