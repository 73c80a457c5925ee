//! The tokenizer: one model with the optional stages around it, and the settings for
//! truncation and padding. Every change gives a new tokenizer; the one it was made
//! from stays as it was.

use crate::added_token::{
    added_token_descriptions, added_tokens_from_inputs, added_tokens_meant, no_token_normalized, none_normalized,
    special_tokens_from_inputs, special_tokens_meant, AddedSpecialTokenInput, AddedTokenInput, AddedTokenModel,
};
use crate::decoders::{decoded_text, decoder_description, decoders_decode, DecoderModel, ExTokenizersDecoder};
use crate::encoding::{
    apply_transformations, encoding_model, EncodingModel, ExTokenizersEncoding, TransformationElement,
};
use crate::error::ExTokenizersError;
use crate::models::{
    is_deterministic, lists_vocabulary, model_description, model_kind, ExTokenizersModel, ModelKind, ModelModel,
};
use crate::normalizers::{normalizer_description, ExTokenizersNormalizer, NormalizerModel};
use crate::post_processors::{
    added_token_count, post_processor_description, settled_count, ExTokenizersPostProcessor, PostProcessorModel,
};
use crate::pre_tokenizers::{pre_tokenizer_description, ExTokenizersPreTokenizer, PreTokenizerModel};
use crate::trainers::{
    default_trainer, special_token_count, trainer_description, trainer_kind, trainer_kind_matches,
    ExTokenizersTrainer, TrainerKind, TrainerModel,
};
use crate::util::{lemma_take_all, lemma_take_step, text_outcome, Direction};
use std::sync::Arc;
use vstd::prelude::*;
use vstd::string::StringExecFns;

verus! {

#[verifier::external_type_specification]
#[verifier::external_body]
pub struct ExTokenizer(tokenizers::Tokenizer);

/// Which of two sequences is cut where a pair is too long.
#[derive(Clone, Copy, Debug, PartialEq, Eq, Structural)]
pub enum TruncateStrategy {
    LongestFirst,
    OnlyFirst,
    OnlySecond,
}

/// How a tokenizer truncates what it encodes.
#[derive(Clone, Copy, Debug, PartialEq, Eq, Structural)]
pub struct TruncationParams {
    pub max_length: usize,
    pub stride: usize,
    pub strategy: TruncateStrategy,
    pub direction: Direction,
}

/// To which length a tokenizer pads what it encodes.
#[derive(Clone, Copy, Debug, PartialEq, Eq, Structural)]
pub enum PadStrategy {
    /// To the longest encoding of the batch.
    BatchLongest,
    /// To a given length.
    Fixed(usize),
}

/// How a tokenizer pads what it encodes.
pub struct PaddingParams {
    pub strategy: PadStrategy,
    pub direction: Direction,
    pub pad_to_multiple_of: Option<usize>,
    pub pad_id: u32,
    pub pad_type_id: u32,
    pub pad_token: String,
}

/// The padding of a tokenizer as mathematics.
pub struct PaddingParamsModel {
    pub strategy: PadStrategy,
    pub direction: Direction,
    pub pad_to_multiple_of: Option<usize>,
    pub pad_id: u32,
    pub pad_type_id: u32,
    pub pad_token: Seq<char>,
}

impl View for PaddingParams {
    type V = PaddingParamsModel;

    open spec fn view(&self) -> PaddingParamsModel {
        PaddingParamsModel {
            strategy: self.strategy,
            direction: self.direction,
            pad_to_multiple_of: self.pad_to_multiple_of,
            pad_id: self.pad_id,
            pad_type_id: self.pad_type_id,
            pad_token: self.pad_token@,
        }
    }
}

/// A tokenizer as mathematics: its stages and its settings. What tokens were added to
/// it is not part of this.
pub struct TokenizerParts {
    pub model: ModelModel,
    pub normalizer: Option<NormalizerModel>,
    pub pre_tokenizer: Option<PreTokenizerModel>,
    pub post_processor: Option<PostProcessorModel>,
    pub decoder: Option<DecoderModel>,
    pub truncation: Option<TruncationParams>,
    pub padding: Option<PaddingParamsModel>,
}

/// What is encoded: one sequence, or a pair of sequences.
pub enum EncodeInput {
    Single(String),
    Dual(String, String),
}

/// What is encoded, as mathematics.
pub enum EncodeInputModel {
    Single(Seq<char>),
    Dual(Seq<char>, Seq<char>),
}

impl View for EncodeInput {
    type V = EncodeInputModel;

    open spec fn view(&self) -> EncodeInputModel {
        match *self {
            EncodeInput::Single(sequence) => EncodeInputModel::Single(sequence@),
            EncodeInput::Dual(first, second) => EncodeInputModel::Dual(first@, second@),
        }
    }
}

/// The inputs of a batch, as mathematics.
pub open spec fn input_models(inputs: Seq<EncodeInput>) -> Seq<EncodeInputModel> {
    Seq::new(inputs.len(), |i: int| inputs[i]@)
}

/// The stages and settings of a tokenizer of the engine.
pub uninterp spec fn tokenizer_parts(tokenizer: tokenizers::Tokenizer) -> TokenizerParts;

/// The text that the engine writes a tokenizer as, or the message of its refusal.
pub uninterp spec fn serialized(tokenizer: tokenizers::Tokenizer, pretty: bool) -> Result<Seq<char>, Seq<char>>;

/// What the engine encodes an input as with a tokenizer whose model is deterministic:
/// the encoding, or the message of its refusal.
pub uninterp spec fn encoded(tokenizer: tokenizers::Tokenizer, input: EncodeInputModel, add_special_tokens: bool) -> Result<
    EncodingModel,
    Seq<char>,
>;

/// The greatest number of tokens among encodings, and 0 where there is none.
pub open spec fn greatest_length(encodings: Seq<EncodingModel>) -> nat
    decreases encodings.len(),
{
    if encodings.len() == 0 {
        0
    } else {
        let others = greatest_length(encodings.drop_last());
        if encodings.last().ids.len() > others {
            encodings.last().ids.len()
        } else {
            others
        }
    }
}

/// The length that the encodings of a batch are padded to: the given length, or that
/// of the longest among them, and from there up to the next multiple where one is
/// asked for.
pub open spec fn batch_target(encodings: Seq<EncodingModel>, padding: PaddingParamsModel) -> nat {
    let length = match padding.strategy {
        PadStrategy::Fixed(size) => size as nat,
        PadStrategy::BatchLongest => greatest_length(encodings),
    };
    match padding.pad_to_multiple_of {
        Some(multiple) => if multiple > 0 && length % (multiple as nat) > 0 {
            (length + multiple - length % (multiple as nat)) as nat
        } else {
            length
        },
        None => length,
    }
}

/// The encodings of a batch, padded together where the tokenizer pads.
pub open spec fn padded_together(encodings: Seq<EncodingModel>, padding: Option<PaddingParamsModel>) -> Seq<
    EncodingModel,
> {
    match padding {
        Some(padding) => Seq::new(
            encodings.len(),
            |i: int|
                encodings[i].padded(
                    batch_target(encodings, padding),
                    padding.pad_id,
                    padding.pad_type_id,
                    padding.pad_token,
                    padding.direction,
                ),
        ),
        None => encodings,
    }
}

/// Whether the engine encodes every input of a batch, each on its own.
pub open spec fn all_encoded(tokenizer: tokenizers::Tokenizer, inputs: Seq<EncodeInputModel>, add_special_tokens: bool) -> bool {
    forall|i: int| 0 <= i < inputs.len() ==> encoded(tokenizer, #[trigger] inputs[i], add_special_tokens) is Ok
}

/// What the engine encodes a batch of inputs as, where it encodes every one of them:
/// the encoding of each input, in the order of the inputs, padded together.
pub open spec fn batch_of(tokenizer: tokenizers::Tokenizer, inputs: Seq<EncodeInputModel>, add_special_tokens: bool) -> Seq<
    EncodingModel,
> {
    padded_together(
        Seq::new(inputs.len(), |i: int| encoded(tokenizer, inputs[i], add_special_tokens)->Ok_0),
        tokenizer_parts(tokenizer).padding,
    )
}

/// Whether an outcome is one of encoding a batch with a tokenizer whose model is
/// deterministic. The engine encodes the inputs side by side. Where it encodes every
/// one, it gives the encodings of `batch_of`. Where it fails on some, it gives the
/// message of one of those failures, and which of them is not fixed.
pub open spec fn is_batch_of(
    tokenizer: tokenizers::Tokenizer,
    inputs: Seq<EncodeInputModel>,
    add_special_tokens: bool,
    outcome: Result<Seq<EncodingModel>, Seq<char>>,
) -> bool {
    match outcome {
        Ok(made) => all_encoded(tokenizer, inputs, add_special_tokens) && made == batch_of(
            tokenizer,
            inputs,
            add_special_tokens,
        ),
        Err(message) => exists|i: int|
            0 <= i < inputs.len() && encoded(tokenizer, #[trigger] inputs[i], add_special_tokens) == Err::<
                EncodingModel,
                Seq<char>,
            >(message),
    }
}

/// What the engine makes of one or two encodings with the truncation, the
/// post-processor and the padding of a tokenizer: the encoding, or the message of its
/// refusal.
pub uninterp spec fn post_processed(
    tokenizer: tokenizers::Tokenizer,
    encoding: EncodingModel,
    pair: Option<EncodingModel>,
    add_special_tokens: bool,
) -> Result<EncodingModel, Seq<char>>;

/// The tokens that were added to a tokenizer, each with its id.
pub uninterp spec fn added_vocabulary(tokenizer: tokenizers::Tokenizer) -> Map<Seq<char>, u32>;

/// The id of a token in a tokenizer, if it has one: that of the added token with this
/// text, where there is one, and else that of the text in the vocabulary of the model.
pub open spec fn token_id(tokenizer: tokenizers::Tokenizer, token: Seq<char>) -> Option<u32> {
    if added_vocabulary(tokenizer).dom().contains(token) {
        Some(added_vocabulary(tokenizer)[token])
    } else {
        tokenizer_parts(tokenizer).model.token_id(token)
    }
}

/// The token of an id in a tokenizer, if it has one.
pub uninterp spec fn id_token(tokenizer: tokenizers::Tokenizer, id: u32) -> Option<Seq<char>>;

/// Whether a token is a special token of a tokenizer.
pub uninterp spec fn special_token(tokenizer: tokenizers::Tokenizer, token: Seq<char>) -> bool;

/// The vocabulary of a tokenizer: that of its model, with or without the added tokens
/// on top.
pub open spec fn vocabulary(tokenizer: tokenizers::Tokenizer, with_added_tokens: bool) -> Map<Seq<char>, u32> {
    if with_added_tokens {
        tokenizer_parts(tokenizer).model.vocabulary().union_prefer_right(added_vocabulary(tokenizer))
    } else {
        tokenizer_parts(tokenizer).model.vocabulary()
    }
}

/// The size of the vocabulary of a tokenizer, as the engine counts it.
pub uninterp spec fn vocabulary_size(tokenizer: tokenizers::Tokenizer, with_added_tokens: bool) -> usize;

/// How the engine counts the vocabulary of a tokenizer: the size of the vocabulary of
/// the model, and with the added tokens on top as many more as there are added tokens
/// that the model does not know.
pub open spec fn vocabulary_count(tokenizer: tokenizers::Tokenizer, with_added_tokens: bool) -> nat {
    let model = tokenizer_parts(tokenizer).model;
    if with_added_tokens {
        model.vocabulary_size() + added_vocabulary(tokenizer).dom().difference(model.vocabulary().dom()).len()
    } else {
        model.vocabulary_size()
    }
}

/// Whether the vocabulary of the model of a tokenizer and its added tokens can be
/// counted.
pub open spec fn countable(tokenizer: tokenizers::Tokenizer) -> bool {
    tokenizer_parts(tokenizer).model.vocabulary().dom().finite() && added_vocabulary(tokenizer).dom().finite()
}

/// The ids of the tokens that were added to a tokenizer.
pub uninterp spec fn added_ids(tokenizer: tokenizers::Tokenizer) -> Set<u32>;

/// Whether the engine takes a list of tokens into a tokenizer to the end: it gives up
/// where its normalizer fails on one of them, or where it cannot build its table of
/// the added tokens.
pub uninterp spec fn tokens_accepted(tokenizer: tokenizers::Tokenizer, tokens: Seq<AddedTokenModel>) -> bool;

/// Whether the engine takes a list of special tokens into a tokenizer to the end.
pub uninterp spec fn special_tokens_accepted(tokenizer: tokenizers::Tokenizer, tokens: Seq<AddedTokenModel>) -> bool;

/// Whether the engine takes a normalizer into a tokenizer: it normalizes the added
/// tokens anew, and gives up where the normalizer fails on one of them or where it
/// cannot build its table of them.
pub uninterp spec fn normalizer_accepted(tokenizer: tokenizers::Tokenizer, normalizer: NormalizerModel) -> bool;

/// Whether no token was added to a tokenizer.
pub open spec fn nothing_added(tokenizer: tokenizers::Tokenizer) -> bool {
    &&& forall|id: u32| !(#[trigger] added_ids(tokenizer).contains(id))
    &&& forall|token: Seq<char>| !(#[trigger] added_vocabulary(tokenizer).dom().contains(token))
    &&& forall|token: Seq<char>| !(#[trigger] special_token(tokenizer, token))
}

/// Whether the ids of the tokens that were added to a tokenizer leave room for a
/// number of ids after the greatest of them.
pub open spec fn ids_leave_room(tokenizer: tokenizers::Tokenizer, count: int) -> bool {
    forall|id: u32| #[trigger] added_ids(tokenizer).contains(id) ==> id + 1 + count <= u32::MAX
}

/// Whether a tokenizer has ids left for a number of new tokens. The engine numbers
/// new tokens on from the size of the model's vocabulary, or from the greatest id that
/// it gave to an added token where that is no less, and counts in 32 bits.
pub open spec fn has_room(tokenizer: tokenizers::Tokenizer, count: int) -> bool {
    vocabulary_size(tokenizer, false) + count <= u32::MAX && ids_leave_room(tokenizer, count)
}

/// Whether tokens can be added to a tokenizer: it has ids left for them, and the
/// engine can run its normalizer, or runs it on none of the tokens.
pub open spec fn can_add(tokenizer: tokenizers::Tokenizer, tokens: Seq<AddedTokenModel>) -> bool {
    has_room(tokenizer, tokens.len() as int) && (tokenizer_parts(tokenizer).can_normalize() || none_normalized(
        tokens,
    ))
}

/// Whether a tokenizer can take a normalizer: the engine runs it on the added tokens
/// at once, so it can run it on every text, or no token was added.
pub open spec fn normalizer_fits(tokenizer: tokenizers::Tokenizer, normalizer: NormalizerModel) -> bool {
    normalizer.defined() || forall|id: u32| !(#[trigger] added_ids(tokenizer).contains(id))
}

/// Whether the same tokens were added to two tokenizers: the same texts with the same
/// ids, and each text is a special token of both or of neither.
pub open spec fn same_tokens(before: tokenizers::Tokenizer, after: tokenizers::Tokenizer) -> bool {
    &&& added_vocabulary(after) == added_vocabulary(before)
    &&& forall|token: Seq<char>| #[trigger] special_token(after, token) == special_token(before, token)
    &&& added_ids(after) == added_ids(before)
}

/// Whether each id gives the same token in two tokenizers, or none in both.
pub open spec fn same_texts(before: tokenizers::Tokenizer, after: tokenizers::Tokenizer) -> bool {
    forall|id: u32| #[trigger] id_token(after, id) == id_token(before, id)
}

/// Whether a token of a list has its id to itself among the tokens of the list, and
/// is written as it stands: every token of the list that comes to the same id has the
/// same text, and the normalizer is run on none of them.
pub open spec fn alone_with_id(after: tokenizers::Tokenizer, tokens: Seq<AddedTokenModel>, i: int) -> bool {
    forall|j: int|
        0 <= j < tokens.len() && (#[trigger] tokens[j]).content.len() > 0 && token_id(after, tokens[j].content)
            == token_id(after, tokens[i].content) ==> tokens[j].content == tokens[i].content
            && !tokens[j].normalized
}

/// What adding tokens does to the tokens that a tokenizer knows. Adding none leaves
/// the added tokens as they are. An added token stays with its id, a token that had
/// an id keeps it, and a special token stays one. Where
/// the engine took the list to its end, each token of the list that is not empty has
/// an id among those of the added tokens, and is a special token if it was added as
/// one; and where the id is new among them and the token has it to itself (see
/// `alone_with_id`), the id gives the token back.
pub open spec fn tokens_added(
    before: tokenizers::Tokenizer,
    after: tokenizers::Tokenizer,
    tokens: Seq<AddedTokenModel>,
    accepted: bool,
) -> bool {
    &&& tokens.len() == 0 ==> same_tokens(before, after)
    &&& added_vocabulary(before).submap_of(added_vocabulary(after))
    &&& forall|token: Seq<char>| (#[trigger] token_id(before, token)) is Some ==> token_id(after, token) == token_id(before, token)
    &&& forall|token: Seq<char>| #[trigger] special_token(before, token) ==> special_token(after, token)
    &&& forall|id: u32| #[trigger] added_ids(before).contains(id) ==> added_ids(after).contains(id)
    &&& accepted ==> forall|i: int|
        0 <= i < tokens.len() && (#[trigger] tokens[i]).content.len() > 0 ==> {
            &&& token_id(after, tokens[i].content) matches Some(id)
            &&& added_ids(after).contains(id)
            &&& tokens[i].special ==> special_token(after, tokens[i].content)
            &&& !added_ids(before).contains(id) && alone_with_id(after, tokens, i) ==> id_token(after, id) == Some(
                tokens[i].content,
            )
        }
}

/// Whether the engine can cut an encoding of a length to a target with a stride:
/// there is nothing to cut, or nothing is left, or the stride is shorter than what is
/// left.
pub open spec fn cut_defined(length: nat, target: nat, stride: nat) -> bool {
    target >= length || target == 0 || stride < target
}

/// The lengths that the engine cuts a pair to, longest first, for a room that both
/// together do not fit in: the shorter keeps its length where the longer can give
/// way, and else both get half of the room, the second the odd token.
pub open spec fn longest_first(first: nat, second: nat, room: nat) -> (nat, nat) {
    let shorter = if first > second {
        second
    } else {
        first
    };
    let longer = if shorter > room {
        shorter
    } else if shorter > room - shorter {
        shorter
    } else {
        (room - shorter) as nat
    };
    let cut = if shorter + longer > room {
        (room / 2, room / 2 + room % 2)
    } else {
        (shorter, longer)
    };
    if first > second {
        (cut.1, cut.0)
    } else {
        cut
    }
}

/// Whether the cuts are defined that the engine makes to fit one encoding, or a pair,
/// of these lengths into a room. It makes none where they fit.
pub open spec fn cuts_defined(first: nat, second: Option<nat>, truncation: TruncationParams, room: nat) -> bool {
    let total = first + match second {
        Some(second) => second,
        None => 0,
    };
    let stride = truncation.stride as nat;
    if room == 0 || total <= room {
        true
    } else {
        match truncation.strategy {
            TruncateStrategy::LongestFirst => match second {
                Some(second) => cut_defined(first, longest_first(first, second, room).0, stride) && cut_defined(
                    second,
                    longest_first(first, second, room).1,
                    stride,
                ),
                None => cut_defined(first, room, stride),
            },
            TruncateStrategy::OnlyFirst => first > total - room ==> cut_defined(
                first,
                (first - (total - room)) as nat,
                stride,
            ),
            TruncateStrategy::OnlySecond => match second {
                Some(second) => second > total - room ==> cut_defined(
                    second,
                    (second - (total - room)) as nat,
                    stride,
                ),
                None => true,
            },
        }
    }
}

/// How many tokens the engine makes of one sequence with a tokenizer whose model is
/// deterministic, before it truncates, post-processes and pads; nothing where it
/// fails at the sequence.
pub uninterp spec fn sequence_length(tokenizer: tokenizers::Tokenizer, sequence: Seq<char>) -> Option<nat>;

/// Whether two tokenizers make as many tokens of every sequence.
pub open spec fn same_lengths(before: tokenizers::Tokenizer, after: tokenizers::Tokenizer) -> bool {
    forall|sequence: Seq<char>| #[trigger] sequence_length(after, sequence) == sequence_length(before, sequence)
}

/// How many tokens the engine makes of the sequences of an input; nothing where it
/// fails at one of them.
pub open spec fn input_lengths(tokenizer: tokenizers::Tokenizer, input: EncodeInputModel) -> Option<
    (nat, Option<nat>),
> {
    match input {
        EncodeInputModel::Single(sequence) => match sequence_length(tokenizer, sequence) {
            Some(first) => Some((first, None)),
            None => None,
        },
        EncodeInputModel::Dual(sequence, pair) => match (
            sequence_length(tokenizer, sequence),
            sequence_length(tokenizer, pair),
        ) {
            (Some(first), Some(second)) => Some((first, Some(second))),
            _ => None,
        },
    }
}

/// Whether encoding an input shows what the model makes of it: the input is one
/// sequence, no special tokens are added, the model is deterministic, and the
/// tokenizer neither truncates nor post-processes nor pads.
pub open spec fn bare(tokenizer: tokenizers::Tokenizer, input: EncodeInputModel, add_special_tokens: bool) -> bool {
    let parts = tokenizer_parts(tokenizer);
    &&& input is Single
    &&& !add_special_tokens
    &&& parts.model.deterministic()
    &&& parts.truncation is None
    &&& parts.padding is None
    &&& parts.post_processor is None
}

/// A length that may be missing, as mathematics.
pub open spec fn length_model(length: Option<usize>) -> Option<nat> {
    match length {
        Some(length) => Some(length as nat),
        None => None,
    }
}

/// Whether the engine can encode an input with a tokenizer: it can run the stages,
/// and truncate what the model makes of the sequences. Where it fails at a sequence
/// it does not come to truncate. With a model that is not deterministic the lengths
/// are not known beforehand, and the truncation has to be defined whatever they are.
pub open spec fn encode_defined(tokenizer: tokenizers::Tokenizer, input: EncodeInputModel, add_special_tokens: bool) -> bool {
    let parts = tokenizer_parts(tokenizer);
    &&& parts.can_run(input is Dual)
    &&& if parts.model.deterministic() {
        match input_lengths(tokenizer, input) {
            Some(lengths) => parts.truncation_fits(lengths.0, lengths.1, add_special_tokens),
            None => true,
        }
    } else {
        parts.can_truncate(input is Dual, add_special_tokens)
    }
}

impl TokenizerParts {
    /// The tokenizer with nothing but the model.
    pub open spec fn initial(model: ModelModel) -> TokenizerParts {
        TokenizerParts {
            model,
            normalizer: None,
            pre_tokenizer: None,
            post_processor: None,
            decoder: None,
            truncation: None,
            padding: None,
        }
    }

    /// How many tokens the post-processor adds; none where there is no post-processor.
    pub open spec fn added_tokens(self, is_pair: bool) -> usize {
        match self.post_processor {
            Some(post_processor) => added_token_count(post_processor, is_pair),
            None => 0,
        }
    }

    /// Whether the post-processor adds as many tokens as it is known to add, where
    /// that is written out.
    pub open spec fn count_settled(self, is_pair: bool) -> bool {
        match self.post_processor {
            Some(post_processor) => settled_count(post_processor, is_pair, self.added_tokens(is_pair)),
            None => true,
        }
    }

    /// Whether truncation as `truncation` says is sure to be defined where the
    /// post-processor adds `added` tokens: the added tokens leave room, and the stride
    /// is 0, or shorter than what is left of one sequence, or shorter than half of what
    /// is left of a pair that is cut longest first.
    pub open spec fn truncation_defined(truncation: TruncationParams, added: usize, is_pair: bool) -> bool {
        &&& truncation.max_length >= added
        &&& {
            ||| truncation.stride == 0
            ||| !is_pair && truncation.stride < truncation.max_length - added
            ||| is_pair && truncation.strategy == TruncateStrategy::LongestFirst && truncation.stride < (
            truncation.max_length - added) / 2
        }
    }

    /// Whether the truncation of the tokenizer is sure to be defined on what it encodes.
    pub open spec fn can_truncate(self, is_pair: bool, add_special_tokens: bool) -> bool {
        match self.truncation {
            Some(truncation) => TokenizerParts::truncation_defined(
                truncation,
                if add_special_tokens {
                    self.added_tokens(is_pair)
                } else {
                    0
                },
                is_pair,
            ),
            None => true,
        }
    }

    /// Whether the engine can run the post-processor on one sequence, or on a pair, if
    /// there is one.
    pub open spec fn can_combine(self, is_pair: bool) -> bool {
        match self.post_processor {
            Some(post_processor) => post_processor.fits(is_pair),
            None => true,
        }
    }

    /// Whether the engine can truncate encodings of these lengths: the tokens that
    /// the post-processor adds leave room, and the cuts that are made are defined.
    pub open spec fn truncation_fits(self, first: nat, second: Option<nat>, add_special_tokens: bool) -> bool {
        match self.truncation {
            Some(truncation) => {
                let added = if add_special_tokens {
                    self.added_tokens(second is Some)
                } else {
                    0
                };
                truncation.max_length >= added && cuts_defined(
                    first,
                    second,
                    truncation,
                    (truncation.max_length - added) as nat,
                )
            },
            None => true,
        }
    }

    /// Whether the engine can truncate, post-process and pad one encoding, or a pair,
    /// of these lengths.
    pub open spec fn can_process(self, first: nat, second: Option<nat>, add_special_tokens: bool) -> bool {
        self.truncation_fits(first, second, add_special_tokens) && self.can_combine(second is Some)
    }

    /// Whether the engine can write the tokenizer down: a unigram model is written
    /// piece by piece, and in the vocabulary of another model no token has the
    /// greatest id that 32 bits hold.
    pub open spec fn can_be_written(self) -> bool {
        self.model is Unigram || forall|token: Seq<char>| #[trigger]
            self.model.vocabulary().dom().contains(token) ==> self.model.vocabulary()[token] < u32::MAX
    }

    /// Whether the engine can run the normalizer on every text, if there is one.
    pub open spec fn can_normalize(self) -> bool {
        match self.normalizer {
            Some(normalizer) => normalizer.defined(),
            None => true,
        }
    }

    /// Whether the engine can run the pre-tokenizer, if there is one.
    pub open spec fn can_split(self) -> bool {
        match self.pre_tokenizer {
            Some(pre_tokenizer) => pre_tokenizer.defined(),
            None => true,
        }
    }

    /// Whether the engine can run the stages of the tokenizer on one sequence, or on a
    /// pair: the normalizer, the pre-tokenizer and the post-processor.
    pub open spec fn can_run(self, is_pair: bool) -> bool {
        self.can_normalize() && self.can_split() && self.can_combine(is_pair)
    }

    /// Whether the engine takes truncation settings: the tokens that the post-processor
    /// adds to one sequence leave room for the stride.
    pub open spec fn accepts_truncation(self, truncation: TruncationParams) -> bool {
        truncation.max_length >= self.added_tokens(false) && truncation.max_length - self.added_tokens(false)
            >= truncation.stride
    }
}

/// `Clone::clone` of `tokenizers::Tokenizer`, which is derived: the copy is the same
/// tokenizer.
pub assume_specification[ <tokenizers::Tokenizer as Clone>::clone ](tokenizer: &tokenizers::Tokenizer) -> (copy: tokenizers::Tokenizer)
    ensures
        copy == *tokenizer,
;

/// `tokenizers::Tokenizer::new`: the tokenizer with nothing but the model, and no
/// token added.
#[verifier::external_body]
fn new_tokenizer(model: tokenizers::ModelWrapper) -> (tokenizer: tokenizers::Tokenizer)
    ensures
        tokenizer_parts(tokenizer) == TokenizerParts::initial(model_description(model)),
        nothing_added(tokenizer),
{
    tokenizers::Tokenizer::new(model)
}

/// `tokenizers::TokenizerImpl::to_string`, with the engine's error as its message. The
/// engine writes the tokens of a vocabulary by counting the ids up to one past the
/// greatest, so the greatest id that 32 bits hold must not be among them.
#[verifier::external_body]
fn write_tokenizer(tokenizer: &tokenizers::Tokenizer, pretty: bool) -> (text: Result<String, String>)
    requires
        tokenizer_parts(*tokenizer).can_be_written(),
    ensures
        text_outcome(text) == serialized(*tokenizer, pretty),
{
    tokenizer.to_string(pretty).map_err(|error| error.to_string())
}

/// `tokenizers::TokenizerImpl::get_model`, copied.
#[verifier::external_body]
fn get_model(tokenizer: &tokenizers::Tokenizer) -> (model: tokenizers::ModelWrapper)
    ensures
        model_description(model) == tokenizer_parts(*tokenizer).model,
{
    tokenizer.get_model().clone()
}

/// `tokenizers::TokenizerImpl::get_normalizer`, copied.
#[verifier::external_body]
fn get_normalizer(tokenizer: &tokenizers::Tokenizer) -> (normalizer: Option<tokenizers::NormalizerWrapper>)
    ensures
        match normalizer {
            Some(normalizer) => tokenizer_parts(*tokenizer).normalizer == Some(normalizer_description(normalizer)),
            None => tokenizer_parts(*tokenizer).normalizer is None,
        },
{
    tokenizer.get_normalizer().cloned()
}

/// `tokenizers::TokenizerImpl::get_pre_tokenizer`, copied.
#[verifier::external_body]
fn get_pre_tokenizer(tokenizer: &tokenizers::Tokenizer) -> (pre_tokenizer: Option<tokenizers::PreTokenizerWrapper>)
    ensures
        match pre_tokenizer {
            Some(pre_tokenizer) => tokenizer_parts(*tokenizer).pre_tokenizer == Some(
                pre_tokenizer_description(pre_tokenizer),
            ),
            None => tokenizer_parts(*tokenizer).pre_tokenizer is None,
        },
{
    tokenizer.get_pre_tokenizer().cloned()
}

/// `tokenizers::TokenizerImpl::get_post_processor`, copied.
#[verifier::external_body]
fn get_post_processor(tokenizer: &tokenizers::Tokenizer) -> (post_processor: Option<tokenizers::PostProcessorWrapper>)
    ensures
        match post_processor {
            Some(post_processor) => tokenizer_parts(*tokenizer).post_processor == Some(
                post_processor_description(post_processor),
            ),
            None => tokenizer_parts(*tokenizer).post_processor is None,
        },
{
    tokenizer.get_post_processor().cloned()
}

/// `tokenizers::TokenizerImpl::get_decoder`, copied.
#[verifier::external_body]
fn get_decoder(tokenizer: &tokenizers::Tokenizer) -> (decoder: Option<tokenizers::DecoderWrapper>)
    ensures
        match decoder {
            Some(decoder) => tokenizer_parts(*tokenizer).decoder == Some(decoder_description(decoder)),
            None => tokenizer_parts(*tokenizer).decoder is None,
        },
{
    tokenizer.get_decoder().cloned()
}

/// `tokenizers::TokenizerImpl::get_truncation`, in the library's own type.
#[verifier::external_body]
fn get_truncation(tokenizer: &tokenizers::Tokenizer) -> (truncation: Option<TruncationParams>)
    ensures
        truncation == tokenizer_parts(*tokenizer).truncation,
{
    tokenizer.get_truncation().map(|t| TruncationParams {
        max_length: t.max_length,
        stride: t.stride,
        strategy: match t.strategy {
            tokenizers::TruncationStrategy::LongestFirst => TruncateStrategy::LongestFirst,
            tokenizers::TruncationStrategy::OnlyFirst => TruncateStrategy::OnlyFirst,
            tokenizers::TruncationStrategy::OnlySecond => TruncateStrategy::OnlySecond,
        },
        direction: match t.direction {
            tokenizers::TruncationDirection::Left => Direction::Left,
            tokenizers::TruncationDirection::Right => Direction::Right,
        },
    })
}

/// `tokenizers::TokenizerImpl::with_model`: the added tokens stay as they are.
#[verifier::external_body]
fn set_model(tokenizer: &mut tokenizers::Tokenizer, model: tokenizers::ModelWrapper)
    ensures
        tokenizer_parts(*final(tokenizer)) == (TokenizerParts {
            model: model_description(model),
            ..tokenizer_parts(*old(tokenizer))
        }),
        same_tokens(*old(tokenizer), *final(tokenizer)),
{
    tokenizer.with_model(model);
}

/// `tokenizers::TokenizerImpl::with_normalizer`, with the engine's error as its
/// message. The engine normalizes the added tokens anew, so where one was added the
/// normalizer has to be one that it can run; it may fail at that, and where no token
/// was added, it does not. The tokens keep their ids.
#[verifier::external_body]
fn set_normalizer(tokenizer: &mut tokenizers::Tokenizer, normalizer: tokenizers::NormalizerWrapper) -> (outcome: Result<
    (),
    String,
>)
    requires
        normalizer_fits(*old(tokenizer), normalizer_description(normalizer)),
    ensures
        outcome is Ok == normalizer_accepted(*old(tokenizer), normalizer_description(normalizer)),
        nothing_added(*old(tokenizer)) ==> outcome is Ok,
        outcome is Ok ==> tokenizer_parts(*final(tokenizer)) == (TokenizerParts {
            normalizer: Some(normalizer_description(normalizer)),
            ..tokenizer_parts(*old(tokenizer))
        }),
        outcome is Ok ==> same_tokens(*old(tokenizer), *final(tokenizer)),
{
    tokenizer.with_normalizer(Some(normalizer)).map(|_| ()).map_err(|error| error.to_string())
}

/// `tokenizers::TokenizerImpl::with_pre_tokenizer`: the tokens that the tokenizer knows stay.
#[verifier::external_body]
fn set_pre_tokenizer(tokenizer: &mut tokenizers::Tokenizer, pre_tokenizer: tokenizers::PreTokenizerWrapper)
    ensures
        tokenizer_parts(*final(tokenizer)) == (TokenizerParts {
            pre_tokenizer: Some(pre_tokenizer_description(pre_tokenizer)),
            ..tokenizer_parts(*old(tokenizer))
        }),
        same_tokens(*old(tokenizer), *final(tokenizer)),
        same_texts(*old(tokenizer), *final(tokenizer)),
{
    tokenizer.with_pre_tokenizer(Some(pre_tokenizer));
}

/// `tokenizers::TokenizerImpl::with_post_processor`: the tokens that the tokenizer knows stay.
#[verifier::external_body]
fn set_post_processor(tokenizer: &mut tokenizers::Tokenizer, post_processor: tokenizers::PostProcessorWrapper)
    ensures
        tokenizer_parts(*final(tokenizer)) == (TokenizerParts {
            post_processor: Some(post_processor_description(post_processor)),
            ..tokenizer_parts(*old(tokenizer))
        }),
        same_tokens(*old(tokenizer), *final(tokenizer)),
        same_texts(*old(tokenizer), *final(tokenizer)),
{
    tokenizer.with_post_processor(Some(post_processor));
}

/// `tokenizers::TokenizerImpl::with_post_processor` with nothing: no post-processor.
/// What the model makes of a sequence stays.
#[verifier::external_body]
fn unset_post_processor(tokenizer: &mut tokenizers::Tokenizer)
    ensures
        tokenizer_parts(*final(tokenizer)) == (TokenizerParts {
            post_processor: None,
            ..tokenizer_parts(*old(tokenizer))
        }),
        same_lengths(*old(tokenizer), *final(tokenizer)),
{
    tokenizer.with_post_processor(None::<tokenizers::PostProcessorWrapper>);
}

/// `tokenizers::TokenizerImpl::with_decoder`: the tokens that the tokenizer knows stay.
#[verifier::external_body]
fn set_decoder(tokenizer: &mut tokenizers::Tokenizer, decoder: tokenizers::DecoderWrapper)
    ensures
        tokenizer_parts(*final(tokenizer)) == (TokenizerParts {
            decoder: Some(decoder_description(decoder)),
            ..tokenizer_parts(*old(tokenizer))
        }),
        same_tokens(*old(tokenizer), *final(tokenizer)),
        same_texts(*old(tokenizer), *final(tokenizer)),
{
    tokenizer.with_decoder(Some(decoder));
}

/// `tokenizers::TokenizerImpl::with_truncation` with settings, handed over in the
/// engine's own type. The engine takes the tokens that the post-processor adds to one
/// sequence off the greatest length, and refuses a stride that is longer than the rest;
/// so the added tokens must leave room for the stride. The tokens that the tokenizer
/// knows stay.
#[verifier::external_body]
fn set_truncation(tokenizer: &mut tokenizers::Tokenizer, truncation: TruncationParams)
    requires
        tokenizer_parts(*old(tokenizer)).accepts_truncation(truncation),
    ensures
        tokenizer_parts(*final(tokenizer)) == (TokenizerParts {
            truncation: Some(truncation),
            ..tokenizer_parts(*old(tokenizer))
        }),
        same_tokens(*old(tokenizer), *final(tokenizer)),
        same_texts(*old(tokenizer), *final(tokenizer)),
{
    let strategy = match truncation.strategy {
        TruncateStrategy::LongestFirst => tokenizers::TruncationStrategy::LongestFirst,
        TruncateStrategy::OnlyFirst => tokenizers::TruncationStrategy::OnlyFirst,
        TruncateStrategy::OnlySecond => tokenizers::TruncationStrategy::OnlySecond,
    };
    let direction = match truncation.direction {
        Direction::Left => tokenizers::TruncationDirection::Left,
        Direction::Right => tokenizers::TruncationDirection::Right,
    };
    let (max_length, stride) = (truncation.max_length, truncation.stride);
    let params = tokenizers::TruncationParams { direction, max_length, strategy, stride };
    let _ = tokenizer.with_truncation(Some(params));
}

/// `tokenizers::TokenizerImpl::with_truncation` with nothing: no truncation. The
/// tokens that the tokenizer knows stay.
#[verifier::external_body]
fn unset_truncation(tokenizer: &mut tokenizers::Tokenizer)
    ensures
        tokenizer_parts(*final(tokenizer)) == (TokenizerParts {
            truncation: None,
            ..tokenizer_parts(*old(tokenizer))
        }),
        same_tokens(*old(tokenizer), *final(tokenizer)),
        same_texts(*old(tokenizer), *final(tokenizer)),
        same_lengths(*old(tokenizer), *final(tokenizer)),
{
    let _ = tokenizer.with_truncation(None);
}

/// `tokenizers::TokenizerImpl::with_padding` with settings, handed over in the engine's
/// own type. The tokens that the tokenizer knows stay.
#[verifier::external_body]
fn set_padding(tokenizer: &mut tokenizers::Tokenizer, padding: PaddingParams)
    ensures
        tokenizer_parts(*final(tokenizer)) == (TokenizerParts {
            padding: Some(padding@),
            ..tokenizer_parts(*old(tokenizer))
        }),
        same_tokens(*old(tokenizer), *final(tokenizer)),
        same_texts(*old(tokenizer), *final(tokenizer)),
{
    let strategy = match padding.strategy {
        PadStrategy::BatchLongest => tokenizers::PaddingStrategy::BatchLongest,
        PadStrategy::Fixed(size) => tokenizers::PaddingStrategy::Fixed(size),
    };
    let direction = match padding.direction {
        Direction::Left => tokenizers::PaddingDirection::Left,
        Direction::Right => tokenizers::PaddingDirection::Right,
    };
    let PaddingParams { pad_to_multiple_of, pad_id, pad_type_id, pad_token, .. } = padding;
    tokenizer.with_padding(
        Some(tokenizers::PaddingParams { strategy, direction, pad_to_multiple_of, pad_id, pad_type_id, pad_token }),
    );
}

/// `tokenizers::TokenizerImpl::with_padding` with nothing: no padding. The tokens
/// that the tokenizer knows stay.
#[verifier::external_body]
fn unset_padding(tokenizer: &mut tokenizers::Tokenizer)
    ensures
        tokenizer_parts(*final(tokenizer)) == (TokenizerParts {
            padding: None,
            ..tokenizer_parts(*old(tokenizer))
        }),
        same_tokens(*old(tokenizer), *final(tokenizer)),
        same_texts(*old(tokenizer), *final(tokenizer)),
        same_lengths(*old(tokenizer), *final(tokenizer)),
{
    tokenizer.with_padding(None);
}

/// `tokenizers::TokenizerImpl::get_added_tokens_decoder`: its keys, in no order that
/// could be relied on.
#[verifier::external_body]
fn added_ids_of(tokenizer: &tokenizers::Tokenizer) -> (ids: Vec<u32>)
    ensures
        ids@.to_set() == added_ids(*tokenizer),
{
    tokenizer.get_added_tokens_decoder().into_keys().collect()
}

/// `tokenizers::TokenizerImpl::add_tokens`, and whether it came to the end of the
/// list. The engine leaves out a token without content, and one that it holds
/// already; it gives a token that the model or an earlier addition knows the id that
/// it has, and the others new ids, which must not run out. It runs the normalizer on
/// the tokens that ask for it, so it must be able to, or none must ask. The stages
/// and settings stay.
#[verifier::external_body]
fn add_tokens(tokenizer: &mut tokenizers::Tokenizer, tokens: Vec<tokenizers::AddedToken>) -> (accepted: bool)
    requires
        can_add(*old(tokenizer), added_token_descriptions(tokens@)),
    ensures
        accepted == tokens_accepted(*old(tokenizer), added_token_descriptions(tokens@)),
        tokenizer_parts(*final(tokenizer)) == tokenizer_parts(*old(tokenizer)),
        added_vocabulary(*old(tokenizer)).submap_of(added_vocabulary(*final(tokenizer))),
        tokens_added(*old(tokenizer), *final(tokenizer), added_token_descriptions(tokens@), accepted),
{
    tokenizer.add_tokens(tokens).is_ok()
}

/// `tokenizers::TokenizerImpl::add_special_tokens`, and whether it came to the end of
/// the list: the engine does with special tokens what it does with others.
#[verifier::external_body]
fn add_special_tokens(tokenizer: &mut tokenizers::Tokenizer, tokens: Vec<tokenizers::AddedToken>) -> (accepted: bool)
    requires
        can_add(*old(tokenizer), added_token_descriptions(tokens@)),
    ensures
        accepted == special_tokens_accepted(*old(tokenizer), added_token_descriptions(tokens@)),
        tokenizer_parts(*final(tokenizer)) == tokenizer_parts(*old(tokenizer)),
        added_vocabulary(*old(tokenizer)).submap_of(added_vocabulary(*final(tokenizer))),
        tokens_added(*old(tokenizer), *final(tokenizer), added_token_descriptions(tokens@), accepted),
{
    tokenizer.add_special_tokens(tokens).is_ok()
}

/// Tokens with their ids, as mathematics.
pub open spec fn vocabulary_entries(pairs: Seq<(String, u32)>) -> Seq<(Seq<char>, u32)> {
    Seq::new(pairs.len(), |i: int| (pairs[i].0@, pairs[i].1))
}

/// `tokenizers::TokenizerImpl::get_vocab`, as a list in no order that could be relied
/// on: the vocabulary of the model, and where asked for the added tokens on top.
#[verifier::external_body]
fn get_vocab(tokenizer: &tokenizers::Tokenizer, with_added_tokens: bool) -> (vocab: Vec<(String, u32)>)
    ensures
        lists_vocabulary(vocabulary_entries(vocab@), vocabulary(*tokenizer, with_added_tokens)),
{
    tokenizer.get_vocab(with_added_tokens).into_iter().collect()
}

/// `tokenizers::TokenizerImpl::get_vocab_size`: the size of the vocabulary of the
/// model, and with the added tokens as many more as there are added tokens that the
/// model does not know.
#[verifier::external_body]
fn get_vocab_size(tokenizer: &tokenizers::Tokenizer, with_added_tokens: bool) -> (size: usize)
    ensures
        size == vocabulary_size(*tokenizer, with_added_tokens),
        countable(*tokenizer) ==> size == vocabulary_count(*tokenizer, with_added_tokens),
{
    tokenizer.get_vocab_size(with_added_tokens)
}

/// `tokenizers::TokenizerImpl::token_to_id`: the id of the added token with this text,
/// or else that of the text in the model.
#[verifier::external_body]
fn token_to_id(tokenizer: &tokenizers::Tokenizer, token: &str) -> (id: Option<u32>)
    ensures
        id == token_id(*tokenizer, token@),
{
    tokenizer.token_to_id(token)
}

/// The text of a string that may be missing.
pub open spec fn optional_text(text: Option<String>) -> Option<Seq<char>> {
    match text {
        Some(text) => Some(text@),
        None => None,
    }
}

/// `tokenizers::TokenizerImpl::id_to_token`: the added token with the id, as the
/// engine writes it for decoding, or else the token with the id in the model.
#[verifier::external_body]
fn id_to_token(tokenizer: &tokenizers::Tokenizer, id: u32) -> (token: Option<String>)
    ensures
        optional_text(token) == id_token(*tokenizer, id),
        !added_ids(*tokenizer).contains(id) ==> tokenizer_parts(*tokenizer).model.is_token_of(id, optional_text(token)),
{
    tokenizer.id_to_token(id)
}

/// `tokenizers::AddedVocabulary::is_special_token` of the added vocabulary of a
/// tokenizer.
#[verifier::external_body]
fn is_special_token(tokenizer: &tokenizers::Tokenizer, token: &str) -> (special: bool)
    ensures
        special == special_token(*tokenizer, token@),
{
    tokenizer.get_added_vocabulary().is_special_token(token)
}

/// `tokenizers::TokenizerImpl::encode`, with the engine's error as its message. The
/// engine stops the program on a pre-tokenizer that is to cut pieces of no length, on
/// truncation settings that leave a sequence no room, on a template that names a
/// sequence or a special token that is not there, and on a second template in a row:
/// so the pre-tokenizer must be one that it can run, the truncation must be sure to be
/// defined on what the model makes of the sequences, and the post-processor must
/// fit. The encoding that comes back records, as the engine documents it, for each
/// sequence a range of its own tokens. Of one sequence, without special tokens and
/// with a tokenizer that neither truncates nor post-processes nor pads, it holds the
/// tokens that the model made.
#[verifier::external_body]
fn encode(tokenizer: &tokenizers::Tokenizer, input: &EncodeInput, add_special_tokens: bool) -> (encoding: Result<
    tokenizers::Encoding,
    String,
>)
    requires
        encode_defined(*tokenizer, input@, add_special_tokens),
    ensures
        encoding matches Ok(encoding) ==> encoding_model(encoding).ranges_in_bounds_throughout(),
        bare(*tokenizer, input@, add_special_tokens) ==> match encoding {
            Ok(encoding) => sequence_length(*tokenizer, input@->Single_0) == Some(
                encoding_model(encoding).ids.len(),
            ),
            Err(_) => sequence_length(*tokenizer, input@->Single_0) is None,
        },
        tokenizer_parts(*tokenizer).model.deterministic() ==> match encoding {
            Ok(encoding) => encoded(*tokenizer, input@, add_special_tokens) == Ok::<EncodingModel, Seq<char>>(
                encoding_model(encoding),
            ),
            Err(message) => encoded(*tokenizer, input@, add_special_tokens) == Err::<EncodingModel, Seq<char>>(
                message@,
            ),
        },
{
    match input {
        EncodeInput::Single(s) => tokenizer.encode(s.as_str(), add_special_tokens),
        EncodeInput::Dual(a, b) => tokenizer.encode((a.as_str(), b.as_str()), add_special_tokens),
    }.map_err(|error| error.to_string())
}

/// What a sequence of encodings of the engine holds.
pub open spec fn encoding_models(encodings: Seq<tokenizers::Encoding>) -> Seq<EncodingModel> {
    Seq::new(encodings.len(), |i: int| encoding_model(encodings[i]))
}

/// `tokenizers::TokenizerImpl::encode_batch`, with the engine's error as its message.
/// As for one input, the truncation settings must be sure to be defined on every
/// input and the post-processor must fit it, and each encoding records ranges of its
/// own tokens. The engine encodes each input as it encodes one alone, keeps their
/// order, and pads them together with `tokenizers::utils::padding::pad_encodings`;
/// of several failures it reports whichever it comes upon first.
#[verifier::external_body]
fn encode_batch(tokenizer: &tokenizers::Tokenizer, inputs: &Vec<EncodeInput>, add_special_tokens: bool) -> (encodings: Result<
    Vec<tokenizers::Encoding>,
    String,
>)
    requires
        can_encode_all(*tokenizer, inputs@, add_special_tokens),
    ensures
        encodings matches Ok(encodings) ==> encodings@.len() == inputs@.len() && forall|i: int|
            0 <= i < encodings@.len() ==> encoding_model(#[trigger] encodings@[i]).ranges_in_bounds_throughout(),
        tokenizer_parts(*tokenizer).model.deterministic() ==> is_batch_of(
            *tokenizer,
            input_models(inputs@),
            add_special_tokens,
            encodings_outcome(encodings),
        ),
{
    let inputs: Vec<tokenizers::EncodeInput> = inputs.iter().map(|input| match input {
        EncodeInput::Single(s) => tokenizers::EncodeInput::from(s.as_str()),
        EncodeInput::Dual(a, b) => tokenizers::EncodeInput::from((a.as_str(), b.as_str())),
    }).collect();
    tokenizer.encode_batch(inputs, add_special_tokens).map_err(|error| error.to_string())
}

/// The encodings of an outcome of the engine, or the message that came instead, as
/// mathematics.
pub open spec fn encodings_outcome(outcome: Result<Vec<tokenizers::Encoding>, String>) -> Result<
    Seq<EncodingModel>,
    Seq<char>,
> {
    match outcome {
        Ok(made) => Ok(encoding_models(made@)),
        Err(message) => Err(message@),
    }
}

/// The number of tokens of an encoding that may be missing.
pub open spec fn optional_length(encoding: Option<EncodingModel>) -> Option<nat> {
    match encoding {
        Some(encoding) => Some(encoding.ids.len()),
        None => None,
    }
}

/// The encoding that may be missing, as mathematics.
pub open spec fn optional_encoding(encoding: Option<tokenizers::Encoding>) -> Option<EncodingModel> {
    match encoding {
        Some(encoding) => Some(encoding_model(encoding)),
        None => None,
    }
}

/// `tokenizers::TokenizerImpl::post_process`, with the engine's error as its message.
/// As for encoding, the truncation settings must be sure to be defined and the
/// post-processor must fit, and the encoding that comes back records ranges of its own
/// tokens.
#[verifier::external_body]
fn post_process(
    tokenizer: &tokenizers::Tokenizer,
    encoding: tokenizers::Encoding,
    pair: Option<tokenizers::Encoding>,
    add_special_tokens: bool,
) -> (processed: Result<tokenizers::Encoding, String>)
    requires
        tokenizer_parts(*tokenizer).can_process(
            encoding_model(encoding).ids.len(),
            optional_length(optional_encoding(pair)),
            add_special_tokens,
        ),
        encoding_model(encoding).well_formed(),
        pair matches Some(pair) ==> encoding_model(pair).well_formed(),
    ensures
        processed matches Ok(processed) ==> encoding_model(processed).ranges_in_bounds_throughout(),
        match processed {
            Ok(processed) => post_processed(
                *tokenizer,
                encoding_model(encoding),
                optional_encoding(pair),
                add_special_tokens,
            ) == Ok::<EncodingModel, Seq<char>>(encoding_model(processed)),
            Err(message) => post_processed(
                *tokenizer,
                encoding_model(encoding),
                optional_encoding(pair),
                add_special_tokens,
            ) == Err::<EncodingModel, Seq<char>>(message@),
        },
{
    tokenizer.post_process(encoding, pair, add_special_tokens).map_err(|error| error.to_string())
}

/// `tokenizers::TokenizerImpl::train`, with the engine's error as its message. A
/// trainer trains models of its own kind only. What the trained model holds depends
/// on the order in which the engine walks its tables, so nothing is said of it but
/// its kind; the other stages stay, and so do the settings. The engine's unigram
/// trainer stops the program where its arithmetic fails, which no test beforehand
/// can tell: it is left out. The engine runs the normalizer and the pre-tokenizer on
/// the texts, so it must be able to. At the end it adds the special tokens of the trainer to the
/// tokenizer, so the ids of the added tokens must leave room for them.
#[verifier::external_body]
fn train(
    tokenizer: &mut tokenizers::Tokenizer,
    trainer: tokenizers::models::TrainerWrapper,
    sequences: Vec<String>,
) -> (outcome: Result<(), String>)
    requires
        !(trainer_description(trainer) is Unigram),
        tokenizer_parts(*old(tokenizer)).can_normalize(),
        tokenizer_parts(*old(tokenizer)).can_split(),
        ids_leave_room(*old(tokenizer), trainer_description(trainer).special_tokens().len() as int),
    ensures
        outcome is Ok ==> {
            &&& trainer_kind_matches(trainer_description(trainer), tokenizer_parts(*old(tokenizer)).model)
            &&& tokenizer_parts(*final(tokenizer)).model.kind() == tokenizer_parts(*old(tokenizer)).model.kind()
            &&& tokenizer_parts(*final(tokenizer)) == (TokenizerParts {
                model: tokenizer_parts(*final(tokenizer)).model,
                ..tokenizer_parts(*old(tokenizer))
            })
        },
        !trainer_kind_matches(trainer_description(trainer), tokenizer_parts(*old(tokenizer)).model)
            ==> outcome is Err,
{
    let mut trainer = trainer;
    tokenizer.train(&mut trainer, sequences.into_iter()).map(|_| ()).map_err(|error| error.to_string())
}

/// Whether the ids of the tokens that were added to a tokenizer of the engine leave
/// room for a number of ids after the greatest of them.
fn leaves_room(tokenizer: &tokenizers::Tokenizer, count: usize) -> (room: bool)
    ensures
        room == ids_leave_room(*tokenizer, count as int),
{
    let ids = added_ids_of(tokenizer);
    let mut i: usize = 0;
    while i < ids.len()
        invariant
            i <= ids@.len(),
            ids@.to_set() == added_ids(*tokenizer),
            forall|j: int| 0 <= j < i ==> (#[trigger] ids@[j]) + 1 + count <= u32::MAX,
        decreases ids@.len() - i,
    {
        let id: u32 = ids[i];
        if count >= 0xFFFF_FFFF || id as usize > 0xFFFF_FFFE - count {
            assert(ids@.contains(ids@[i as int]));
            assert(added_ids(*tokenizer).contains(id));
            return false;
        }
        i += 1;
    }
    assert forall|id: u32| #[trigger] added_ids(*tokenizer).contains(id) implies id + 1 + count <= u32::MAX by {
        assert(ids@.contains(id));
        let j = choose|j: int| 0 <= j < ids@.len() && ids@[j] == id;
        assert(ids@[j] + 1 + count <= u32::MAX);
    }
    true
}

/// Whether a tokenizer of the engine has ids left for a number of new tokens.
fn has_room_for(tokenizer: &tokenizers::Tokenizer, count: usize) -> (room: bool)
    ensures
        room == has_room(*tokenizer, count as int),
{
    if count > 0xFFFF_FFFF {
        return false;
    }
    let size = get_vocab_size(tokenizer, false);
    if size > 0xFFFF_FFFF - count {
        return false;
    }
    leaves_room(tokenizer, count)
}

/// A tokenizer of the engine, owned by the library.
pub struct ExTokenizersTokenizerRef(pub tokenizers::Tokenizer);

/// A handle on a tokenizer.
#[derive(Clone)]
pub struct ExTokenizersTokenizer {
    pub resource: Arc<ExTokenizersTokenizerRef>,
}

impl View for ExTokenizersTokenizerRef {
    type V = TokenizerParts;

    open spec fn view(&self) -> TokenizerParts {
        tokenizer_parts(self.0)
    }
}

impl View for ExTokenizersTokenizer {
    type V = TokenizerParts;

    open spec fn view(&self) -> TokenizerParts {
        self.resource@
    }
}

impl ExTokenizersTokenizer {
    /// A handle on the given tokenizer.
    pub fn new(data: tokenizers::Tokenizer) -> (handle: Self)
        ensures
            handle.resource.0 == data,
    {
        Self { resource: Arc::new(ExTokenizersTokenizerRef(data)) }
    }

    /// The tokenizer of the engine behind the handle.
    pub open spec fn engine(&self) -> tokenizers::Tokenizer {
        self.resource.0
    }

}

/// The tokenizer with nothing but the given model.
pub fn tokenizer_init(model: ExTokenizersModel) -> (tokenizer: Result<ExTokenizersTokenizer, ExTokenizersError>)
    ensures
        tokenizer matches Ok(tokenizer) && tokenizer@ == TokenizerParts::initial(model@) && nothing_added(
            tokenizer.engine(),
        ),
{
    Ok(ExTokenizersTokenizer::new(new_tokenizer(model.resource.0.clone())))
}

/// One setting of the loading of a tokenizer.
pub enum LoadOption {
    /// Special tokens to add to those of the tokenizer.
    AdditionalSpecialTokens(Vec<AddedSpecialTokenInput>),
    /// Load without the padding that the text describes.
    Padding,
    /// Load without the truncation that the text describes.
    Truncation,
}

/// Whether a list of options asks to load without padding.
pub open spec fn disables_padding(options: Seq<LoadOption>) -> bool {
    exists|i: int| 0 <= i < options.len() && #[trigger] options[i] is Padding
}

/// Whether a list of options asks to load without truncation.
pub open spec fn disables_truncation(options: Seq<LoadOption>) -> bool {
    exists|i: int| 0 <= i < options.len() && #[trigger] options[i] is Truncation
}

/// The stages and settings of a tokenizer after loading with options.
pub open spec fn loaded_parts(parts: TokenizerParts, options: Seq<LoadOption>) -> TokenizerParts {
    TokenizerParts {
        padding: if disables_padding(options) {
            None
        } else {
            parts.padding
        },
        truncation: if disables_truncation(options) {
            None
        } else {
            parts.truncation
        },
        ..parts
    }
}

/// The special tokens that a list of options asks to add: those of the last option
/// that names some.
pub open spec fn additional_special_tokens(options: Seq<LoadOption>) -> Seq<AddedSpecialTokenInput>
    decreases options.len(),
{
    if options.len() == 0 {
        Seq::empty()
    } else {
        match options.last() {
            LoadOption::AdditionalSpecialTokens(tokens) => tokens@,
            _ => additional_special_tokens(options.drop_last()),
        }
    }
}

/// What loading with options makes of a tokenizer of the engine. Padding and
/// truncation are taken away where an option asks for it. The special tokens that the
/// options name are added (see `tokens_added`), and none is left; unless they cannot
/// be added here (see `can_add`): then the added tokens are as they were, and the
/// tokens are left to the caller, all of them and in their order. Where the options
/// name no token, the added tokens are as they were.
pub open spec fn loaded(
    before: tokenizers::Tokenizer,
    after: tokenizers::Tokenizer,
    options: Seq<LoadOption>,
    left: Seq<AddedTokenModel>,
) -> bool {
    let tokens = special_tokens_meant(additional_special_tokens(options));
    &&& tokenizer_parts(after) == loaded_parts(tokenizer_parts(before), options)
    &&& if can_add(before, tokens) {
        tokens_added(before, after, tokens, special_tokens_accepted(before, tokens)) && left.len() == 0
    } else {
        same_tokens(before, after) && same_texts(before, after) && left == tokens
    }
}

/// A tokenizer that was read, with the options of loading applied, and the special
/// tokens that could not be added here, for the caller to add: see `loaded`.
pub fn apply_load_options(tokenizer: tokenizers::Tokenizer, options: Vec<LoadOption>) -> (changed: (
    tokenizers::Tokenizer,
    Vec<tokenizers::AddedToken>,
))
    ensures
        loaded(tokenizer, changed.0, options@, added_token_descriptions(changed.1@)),
{
    let ghost start = tokenizer;
    let mut tokenizer = tokenizer;
    let mut additional: Option<usize> = None;
    let mut disable_padding: bool = false;
    let mut disable_truncation: bool = false;
    let mut i: usize = 0;
    while i < options.len()
        invariant
            i <= options@.len(),
            disable_padding == disables_padding(options@.take(i as int)),
            disable_truncation == disables_truncation(options@.take(i as int)),
            match additional {
                Some(k) => k < i && (options@[k as int] matches LoadOption::AdditionalSpecialTokens(tokens)
                    && tokens@ == additional_special_tokens(options@.take(i as int))),
                None => additional_special_tokens(options@.take(i as int)) == Seq::<AddedSpecialTokenInput>::empty(),
            },
        decreases options@.len() - i,
    {
        let ghost before = options@.take(i as int);
        let ghost after = options@.take(i + 1);
        proof {
            lemma_take_step(options@, i as int);
            assert(forall|j: int| 0 <= j < i ==> before[j] == after[j]);
            assert(after[i as int] == options@[i as int]);
        }
        match &options[i] {
            LoadOption::AdditionalSpecialTokens(_) => {
                additional = Some(i);
            },
            LoadOption::Padding => {
                disable_padding = true;
            },
            LoadOption::Truncation => {
                disable_truncation = true;
            },
        }
        proof {
            if disables_padding(before) {
                let j = choose|j: int| 0 <= j < before.len() && #[trigger] before[j] is Padding;
                assert(after[j] is Padding);
            }
            if disables_padding(after) && !(options@[i as int] is Padding) {
                let j = choose|j: int| 0 <= j < after.len() && #[trigger] after[j] is Padding;
                assert(before[j] is Padding);
            }
            if disables_truncation(before) {
                let j = choose|j: int| 0 <= j < before.len() && #[trigger] before[j] is Truncation;
                assert(after[j] is Truncation);
            }
            if disables_truncation(after) && !(options@[i as int] is Truncation) {
                let j = choose|j: int| 0 <= j < after.len() && #[trigger] after[j] is Truncation;
                assert(before[j] is Truncation);
            }
        }
        i += 1;
    }
    proof {
        lemma_take_all(options@);
    }
    let tokens = match additional {
        Some(k) => match &options[k] {
            LoadOption::AdditionalSpecialTokens(tokens) => special_tokens_from_inputs(tokens),
            _ => Vec::new(),
        },
        None => Vec::new(),
    };
    assert(added_token_descriptions(tokens@) =~= special_tokens_meant(additional_special_tokens(options@)));
    let mut left: Vec<tokenizers::AddedToken> = Vec::new();
    if can_add_to(&tokenizer, &tokens) {
        add_special_tokens(&mut tokenizer, tokens);
        assert(added_token_descriptions(left@).len() == 0);
    } else {
        left = tokens;
    }
    let ghost added = tokenizer;
    if disable_padding {
        unset_padding(&mut tokenizer);
    }
    let ghost unpadded = tokenizer;
    if disable_truncation {
        unset_truncation(&mut tokenizer);
    }
    proof {
        assert(same_tokens(added, unpadded) && same_texts(added, unpadded));
        assert(same_tokens(unpadded, tokenizer) && same_texts(unpadded, tokenizer));
        assert(same_tokens(added, tokenizer) && same_texts(added, tokenizer));
        let tokens = special_tokens_meant(additional_special_tokens(options@));
        assert forall|i: int| 0 <= i < tokens.len() implies alone_with_id(added, tokens, i) == alone_with_id(
            tokenizer,
            tokens,
            i,
        ) by {}
    }
    (tokenizer, left)
}

/// One setting of the saving of a tokenizer.
pub enum SaveOption {
    /// Whether the text is laid out for a reader.
    Pretty(bool),
}

/// Whether a list of options asks for a text laid out for a reader: what the last
/// option says, and no where there is none.
pub open spec fn saves_pretty(options: Seq<SaveOption>) -> bool {
    if options.len() == 0 {
        false
    } else {
        match options.last() {
            SaveOption::Pretty(pretty) => pretty,
        }
    }
}

/// Whether the engine can write a tokenizer down.
fn can_be_written(tokenizer: &tokenizers::Tokenizer) -> (can: bool)
    ensures
        can == tokenizer_parts(*tokenizer).can_be_written(),
{
    if let ModelKind::Unigram = model_kind(&get_model(tokenizer)) {
        return true;
    }
    let vocab = get_vocab(tokenizer, false);
    let ghost vocabulary = tokenizer_parts(*tokenizer).model.vocabulary();
    let mut i: usize = 0;
    while i < vocab.len()
        invariant
            i <= vocab@.len(),
            !(tokenizer_parts(*tokenizer).model is Unigram),
            vocabulary == tokenizer_parts(*tokenizer).model.vocabulary(),
            lists_vocabulary(vocabulary_entries(vocab@), vocabulary),
            forall|j: int| 0 <= j < i ==> (#[trigger] vocab@[j]).1 < u32::MAX,
        decreases vocab@.len() - i,
    {
        if vocab[i].1 == u32::MAX {
            assert(vocabulary.dom().contains(vocabulary_entries(vocab@)[i as int].0));
            assert(vocabulary[vocabulary_entries(vocab@)[i as int].0] == u32::MAX);
            assert(!tokenizer_parts(*tokenizer).can_be_written());
            return false;
        }
        i += 1;
    }
    assert forall|token: Seq<char>| #[trigger] vocabulary.dom().contains(token) implies vocabulary[token]
        < u32::MAX by {
        let j = choose|j: int| 0 <= j < vocab@.len() && (#[trigger] vocabulary_entries(vocab@)[j]).0 == token;
        assert(vocabulary_entries(vocab@)[j].1 == vocab@[j].1);
    }
    true
}

/// The text that describes the tokenizer, as it is written to a file when the
/// tokenizer is saved. A tokenizer that the engine cannot write down is refused.
pub fn tokenizer_save(tokenizer: ExTokenizersTokenizer, options: Vec<SaveOption>) -> (text: Result<
    String,
    ExTokenizersError,
>)
    ensures
        match text {
            Ok(text) => tokenizer@.can_be_written() && serialized(tokenizer.engine(), saves_pretty(options@)) == Ok::<
                Seq<char>,
                Seq<char>,
            >(text@),
            Err(ExTokenizersError::Other(_)) => !tokenizer@.can_be_written(),
            Err(error) => {
                &&& tokenizer@.can_be_written()
                &&& error matches ExTokenizersError::Tokenizer(message)
                &&& serialized(tokenizer.engine(), saves_pretty(options@)) == Err::<Seq<char>, Seq<char>>(
                    error->Tokenizer_0@,
                )
            },
        },
{
    if !can_be_written(&tokenizer.resource.0) {
        return Err(
            ExTokenizersError::Other("a token has the greatest id, which the engine cannot write".to_owned()),
        );
    }
    let mut pretty: bool = false;
    let mut i: usize = 0;
    while i < options.len()
        invariant
            i <= options@.len(),
            pretty == saves_pretty(options@.take(i as int)),
        decreases options@.len() - i,
    {
        proof {
            lemma_take_step(options@, i as int);
        }
        match &options[i] {
            SaveOption::Pretty(value) => pretty = *value,
        }
        i += 1;
    }
    proof {
        lemma_take_all(options@);
    }
    match write_tokenizer(&tokenizer.resource.0, pretty) {
        Ok(text) => Ok(text),
        Err(message) => Err(ExTokenizersError::Tokenizer(message)),
    }
}

/// The model of the tokenizer.
pub fn tokenizer_get_model(tokenizer: ExTokenizersTokenizer) -> (model: ExTokenizersModel)
    ensures
        model@ == tokenizer@.model,
{
    ExTokenizersModel::new(get_model(&tokenizer.resource.0))
}

/// The tokenizer with another model.
pub fn tokenizer_set_model(tokenizer: ExTokenizersTokenizer, model: ExTokenizersModel) -> (changed:
    ExTokenizersTokenizer)
    ensures
        changed@ == (TokenizerParts { model: model@, ..tokenizer@ }),
        same_tokens(tokenizer.engine(), changed.engine()),
{
    let mut new_tokenizer = tokenizer.resource.0.clone();
    set_model(&mut new_tokenizer, model.resource.0.clone());
    ExTokenizersTokenizer::new(new_tokenizer)
}

/// The normalizer that may be missing, as mathematics.
pub open spec fn optional_normalizer(normalizer: Option<ExTokenizersNormalizer>) -> Option<NormalizerModel> {
    match normalizer {
        Some(normalizer) => Some(normalizer@),
        None => None,
    }
}

/// The normalizer of the tokenizer, if it has one.
pub fn tokenizer_get_normalizer(tokenizer: ExTokenizersTokenizer) -> (normalizer: Option<
    ExTokenizersNormalizer,
>)
    ensures
        optional_normalizer(normalizer) == tokenizer@.normalizer,
{
    match get_normalizer(&tokenizer.resource.0) {
        Some(normalizer) => Some(ExTokenizersNormalizer::new(normalizer)),
        None => None,
    }
}

/// The tokenizer with another normalizer. A normalizer that the engine cannot run on
/// every text is refused where a token was added, since the engine would run it on
/// the added tokens at once. Else the normalizer is taken unless the engine fails to
/// normalize the added tokens with it.
pub fn tokenizer_set_normalizer(tokenizer: ExTokenizersTokenizer, normalizer: ExTokenizersNormalizer) -> (changed: Result<
    ExTokenizersTokenizer,
    ExTokenizersError,
>)
    ensures
        match changed {
            Ok(changed) => {
                &&& normalizer_fits(tokenizer.engine(), normalizer@)
                &&& normalizer_accepted(tokenizer.engine(), normalizer@)
                &&& changed@ == (TokenizerParts { normalizer: Some(normalizer@), ..tokenizer@ })
                &&& same_tokens(tokenizer.engine(), changed.engine())
            },
            Err(ExTokenizersError::Other(_)) => !normalizer_fits(tokenizer.engine(), normalizer@),
            Err(error) => {
                &&& normalizer_fits(tokenizer.engine(), normalizer@)
                &&& !normalizer_accepted(tokenizer.engine(), normalizer@)
                &&& error is Tokenizer
            },
        },
        nothing_added(tokenizer.engine()) ==> changed is Ok,
{
    let mut new_tokenizer = tokenizer.resource.0.clone();
    if !crate::normalizers::defined(&normalizer.resource.0) {
        let ids = added_ids_of(&new_tokenizer);
        if ids.len() > 0 {
            assert(ids@.contains(ids@[0]));
            assert(added_ids(new_tokenizer).contains(ids@[0]));
            return Err(
                ExTokenizersError::Other(
                    "a normalizer that works from a table is not run on the added tokens".to_owned(),
                ),
            );
        }
        assert forall|id: u32| !(#[trigger] added_ids(new_tokenizer).contains(id)) by {
            if added_ids(new_tokenizer).contains(id) {
                assert(ids@.contains(id));
            }
        }
    }
    match set_normalizer(&mut new_tokenizer, normalizer.resource.0.clone()) {
        Ok(()) => Ok(ExTokenizersTokenizer::new(new_tokenizer)),
        Err(message) => Err(ExTokenizersError::Tokenizer(message)),
    }
}

/// The pre-tokenizer that may be missing, as mathematics.
pub open spec fn optional_pre_tokenizer(pre_tokenizer: Option<ExTokenizersPreTokenizer>) -> Option<
    PreTokenizerModel,
> {
    match pre_tokenizer {
        Some(pre_tokenizer) => Some(pre_tokenizer@),
        None => None,
    }
}

/// The pre-tokenizer of the tokenizer, if it has one.
pub fn tokenizer_get_pre_tokenizer(tokenizer: ExTokenizersTokenizer) -> (pre_tokenizer: Option<
    ExTokenizersPreTokenizer,
>)
    ensures
        optional_pre_tokenizer(pre_tokenizer) == tokenizer@.pre_tokenizer,
{
    match get_pre_tokenizer(&tokenizer.resource.0) {
        Some(pre_tokenizer) => Some(ExTokenizersPreTokenizer::new(pre_tokenizer)),
        None => None,
    }
}

/// The tokenizer with another pre-tokenizer.
pub fn tokenizer_set_pre_tokenizer(tokenizer: ExTokenizersTokenizer, pre_tokenizer: ExTokenizersPreTokenizer) -> (changed:
    ExTokenizersTokenizer)
    ensures
        changed@ == (TokenizerParts { pre_tokenizer: Some(pre_tokenizer@), ..tokenizer@ }),
        same_tokens(tokenizer.engine(), changed.engine()),
        same_texts(tokenizer.engine(), changed.engine()),
{
    let mut new_tokenizer = tokenizer.resource.0.clone();
    set_pre_tokenizer(&mut new_tokenizer, pre_tokenizer.resource.0.clone());
    ExTokenizersTokenizer::new(new_tokenizer)
}

/// The post-processor that may be missing, as mathematics.
pub open spec fn optional_post_processor(post_processor: Option<ExTokenizersPostProcessor>) -> Option<
    PostProcessorModel,
> {
    match post_processor {
        Some(post_processor) => Some(post_processor@),
        None => None,
    }
}

/// The post-processor of the tokenizer, if it has one.
pub fn tokenizer_get_post_processor(tokenizer: ExTokenizersTokenizer) -> (post_processor: Option<
    ExTokenizersPostProcessor,
>)
    ensures
        optional_post_processor(post_processor) == tokenizer@.post_processor,
{
    match get_post_processor(&tokenizer.resource.0) {
        Some(post_processor) => Some(ExTokenizersPostProcessor::new(post_processor)),
        None => None,
    }
}

/// The tokenizer with another post-processor.
pub fn tokenizer_set_post_processor(tokenizer: ExTokenizersTokenizer, post_processor: ExTokenizersPostProcessor) -> (changed:
    ExTokenizersTokenizer)
    ensures
        changed@ == (TokenizerParts { post_processor: Some(post_processor@), ..tokenizer@ }),
        same_tokens(tokenizer.engine(), changed.engine()),
        same_texts(tokenizer.engine(), changed.engine()),
{
    let mut new_tokenizer = tokenizer.resource.0.clone();
    set_post_processor(&mut new_tokenizer, post_processor.resource.0.clone());
    ExTokenizersTokenizer::new(new_tokenizer)
}

/// The decoder that may be missing, as mathematics.
pub open spec fn optional_decoder(decoder: Option<ExTokenizersDecoder>) -> Option<DecoderModel> {
    match decoder {
        Some(decoder) => Some(decoder@),
        None => None,
    }
}

/// The decoder of the tokenizer, if it has one.
pub fn tokenizer_get_decoder(tokenizer: ExTokenizersTokenizer) -> (decoder: Option<ExTokenizersDecoder>)
    ensures
        optional_decoder(decoder) == tokenizer@.decoder,
{
    match get_decoder(&tokenizer.resource.0) {
        Some(decoder) => Some(ExTokenizersDecoder::new(decoder)),
        None => None,
    }
}

/// The tokenizer with another decoder.
pub fn tokenizer_set_decoder(tokenizer: ExTokenizersTokenizer, decoder: ExTokenizersDecoder) -> (changed:
    ExTokenizersTokenizer)
    ensures
        changed@ == (TokenizerParts { decoder: Some(decoder@), ..tokenizer@ }),
        same_tokens(tokenizer.engine(), changed.engine()),
        same_texts(tokenizer.engine(), changed.engine()),
{
    let mut new_tokenizer = tokenizer.resource.0.clone();
    set_decoder(&mut new_tokenizer, decoder.resource.0.clone());
    ExTokenizersTokenizer::new(new_tokenizer)
}

/// The vocabulary of the tokenizer, with or without the added tokens: each token once,
/// with its id, in no order that could be relied on.
pub fn tokenizer_get_vocab(tokenizer: ExTokenizersTokenizer, with_added_tokens: bool) -> (vocab: Vec<
    (String, u32),
>)
    ensures
        lists_vocabulary(vocabulary_entries(vocab@), vocabulary(tokenizer.engine(), with_added_tokens)),
{
    get_vocab(&tokenizer.resource.0, with_added_tokens)
}

/// The size of the vocabulary of the tokenizer, with or without the added tokens: see
/// `vocabulary_count`.
pub fn tokenizer_get_vocab_size(tokenizer: ExTokenizersTokenizer, with_added_tokens: bool) -> (size: usize)
    ensures
        size == vocabulary_size(tokenizer.engine(), with_added_tokens),
        countable(tokenizer.engine()) ==> size == vocabulary_count(tokenizer.engine(), with_added_tokens),
{
    get_vocab_size(&tokenizer.resource.0, with_added_tokens)
}

/// The tokenizer with tokens added: see `tokens_added`. Its stages and settings stay.
/// Where the tokens cannot be added (see `can_add`), nothing is added.
pub fn tokenizer_add_tokens(tokenizer: ExTokenizersTokenizer, tokens: Vec<AddedTokenInput>) -> (changed:
    ExTokenizersTokenizer)
    ensures
        changed@ == tokenizer@,
        if can_add(tokenizer.engine(), added_tokens_meant(tokens@)) {
            tokens_added(
                tokenizer.engine(),
                changed.engine(),
                added_tokens_meant(tokens@),
                tokens_accepted(tokenizer.engine(), added_tokens_meant(tokens@)),
            )
        } else {
            changed.engine() == tokenizer.engine()
        },
{
    let mut new_tokenizer = tokenizer.resource.0.clone();
    let added = added_tokens_from_inputs(&tokens);
    if can_add_to(&new_tokenizer, &added) {
        add_tokens(&mut new_tokenizer, added);
    }
    ExTokenizersTokenizer::new(new_tokenizer)
}

/// The tokenizer with special tokens added: see `tokens_added`. Its stages and
/// settings stay. Where the tokens cannot be added (see `can_add`), nothing is added.
pub fn tokenizer_add_special_tokens(tokenizer: ExTokenizersTokenizer, tokens: Vec<AddedSpecialTokenInput>) -> (changed:
    ExTokenizersTokenizer)
    ensures
        changed@ == tokenizer@,
        if can_add(tokenizer.engine(), special_tokens_meant(tokens@)) {
            tokens_added(
                tokenizer.engine(),
                changed.engine(),
                special_tokens_meant(tokens@),
                special_tokens_accepted(tokenizer.engine(), special_tokens_meant(tokens@)),
            )
        } else {
            changed.engine() == tokenizer.engine()
        },
{
    let mut new_tokenizer = tokenizer.resource.0.clone();
    let added = special_tokens_from_inputs(&tokens);
    if can_add_to(&new_tokenizer, &added) {
        add_special_tokens(&mut new_tokenizer, added);
    }
    ExTokenizersTokenizer::new(new_tokenizer)
}

/// One setting of the truncation of a tokenizer.
pub enum TruncationOption {
    MaxLength(usize),
    Stride(usize),
    Strategy(TruncateStrategy),
    Direction(Direction),
}

impl TruncationParams {
    /// The truncation that no option has changed: to 512 tokens, without stride, the
    /// longest sequence first, on the right.
    pub open spec fn initial() -> TruncationParams {
        TruncationParams {
            max_length: 512,
            stride: 0,
            strategy: TruncateStrategy::LongestFirst,
            direction: Direction::Right,
        }
    }

    /// The truncation with one option applied.
    pub open spec fn with(self, option: TruncationOption) -> TruncationParams {
        match option {
            TruncationOption::MaxLength(max_length) => TruncationParams { max_length, ..self },
            TruncationOption::Stride(stride) => TruncationParams { stride, ..self },
            TruncationOption::Strategy(strategy) => TruncationParams { strategy, ..self },
            TruncationOption::Direction(direction) => TruncationParams { direction, ..self },
        }
    }

    /// The truncation that a list of options describes: of two options for one setting
    /// the later one counts.
    pub open spec fn from_options(options: Seq<TruncationOption>) -> TruncationParams
        decreases options.len(),
    {
        if options.len() == 0 {
            TruncationParams::initial()
        } else {
            TruncationParams::from_options(options.drop_last()).with(options.last())
        }
    }
}

/// How many tokens the post-processor of the tokenizer adds to one sequence or to a
/// pair; none where it has no post-processor.
fn added_tokens_of(tokenizer: &tokenizers::Tokenizer, is_pair: bool) -> (count: usize)
    ensures
        count == tokenizer_parts(*tokenizer).added_tokens(is_pair),
        tokenizer_parts(*tokenizer).count_settled(is_pair),
{
    match get_post_processor(tokenizer) {
        Some(post_processor) => crate::post_processors::added_tokens(&post_processor, is_pair),
        None => 0,
    }
}

/// The tokenizer with the truncation that the options describe. The settings are
/// refused where the tokens that the post-processor adds to one sequence leave no
/// room for the stride; how many those are is written out in `exact_added` for the
/// post-processors without a template.
pub fn tokenizer_set_truncation(tokenizer: ExTokenizersTokenizer, opts: Vec<TruncationOption>) -> (changed: Result<
    ExTokenizersTokenizer,
    ExTokenizersError,
>)
    ensures
        match changed {
            Ok(changed) => {
                &&& tokenizer@.accepts_truncation(TruncationParams::from_options(opts@))
                &&& changed@ == (TokenizerParts {
                    truncation: Some(TruncationParams::from_options(opts@)),
                    ..tokenizer@
                })
                &&& same_tokens(tokenizer.engine(), changed.engine())
                &&& same_texts(tokenizer.engine(), changed.engine())
            },
            Err(error) => {
                &&& !tokenizer@.accepts_truncation(TruncationParams::from_options(opts@))
                &&& error matches ExTokenizersError::Tokenizer(message)
                &&& message@ == "the stride is too long for the greatest length and the added special tokens"@
            },
        },
        tokenizer@.count_settled(false),
{
    let mut truncation = TruncationParams {
        max_length: 512,
        stride: 0,
        strategy: TruncateStrategy::LongestFirst,
        direction: Direction::Right,
    };
    let mut i: usize = 0;
    while i < opts.len()
        invariant
            i <= opts@.len(),
            truncation == TruncationParams::from_options(opts@.take(i as int)),
        decreases opts@.len() - i,
    {
        proof {
            lemma_take_step(opts@, i as int);
        }
        match &opts[i] {
            TruncationOption::MaxLength(max_length) => truncation.max_length = *max_length,
            TruncationOption::Stride(stride) => truncation.stride = *stride,
            TruncationOption::Strategy(strategy) => truncation.strategy = *strategy,
            TruncationOption::Direction(direction) => truncation.direction = *direction,
        }
        i += 1;
    }
    proof {
        lemma_take_all(opts@);
    }
    let mut new_tokenizer = tokenizer.resource.0.clone();
    let added = added_tokens_of(&new_tokenizer, false);
    if truncation.max_length < added || truncation.max_length - added < truncation.stride {
        return Err(
            ExTokenizersError::Tokenizer(
                "the stride is too long for the greatest length and the added special tokens".to_owned(),
            ),
        );
    }
    set_truncation(&mut new_tokenizer, truncation);
    Ok(ExTokenizersTokenizer::new(new_tokenizer))
}

/// The tokenizer without truncation.
pub fn tokenizer_disable_truncation(tokenizer: ExTokenizersTokenizer) -> (changed: ExTokenizersTokenizer)
    ensures
        changed@ == (TokenizerParts { truncation: None, ..tokenizer@ }),
        same_tokens(tokenizer.engine(), changed.engine()),
        same_texts(tokenizer.engine(), changed.engine()),
{
    let mut new_tokenizer = tokenizer.resource.0.clone();
    unset_truncation(&mut new_tokenizer);
    ExTokenizersTokenizer::new(new_tokenizer)
}

/// One setting of the padding of a tokenizer.
pub enum PaddingOption {
    Strategy(PadStrategy),
    Direction(Direction),
    PadToMultipleOf(usize),
    PadId(u32),
    PadTypeId(u32),
    PadToken(String),
}

impl PaddingParamsModel {
    /// The padding that no option has changed: to the longest of the batch, on the
    /// right, with id 0, type id 0 and the token `[PAD]`.
    pub open spec fn initial() -> PaddingParamsModel {
        PaddingParamsModel {
            strategy: PadStrategy::BatchLongest,
            direction: Direction::Right,
            pad_to_multiple_of: None,
            pad_id: 0,
            pad_type_id: 0,
            pad_token: "[PAD]"@,
        }
    }

    /// The padding with one option applied.
    pub open spec fn with(self, option: PaddingOption) -> PaddingParamsModel {
        match option {
            PaddingOption::Strategy(strategy) => PaddingParamsModel { strategy, ..self },
            PaddingOption::Direction(direction) => PaddingParamsModel { direction, ..self },
            PaddingOption::PadToMultipleOf(multiple) => PaddingParamsModel {
                pad_to_multiple_of: Some(multiple),
                ..self
            },
            PaddingOption::PadId(pad_id) => PaddingParamsModel { pad_id, ..self },
            PaddingOption::PadTypeId(pad_type_id) => PaddingParamsModel { pad_type_id, ..self },
            PaddingOption::PadToken(pad_token) => PaddingParamsModel { pad_token: pad_token@, ..self },
        }
    }

    /// The padding that a list of options describes: of two options for one setting
    /// the later one counts.
    pub open spec fn from_options(options: Seq<PaddingOption>) -> PaddingParamsModel
        decreases options.len(),
    {
        if options.len() == 0 {
            PaddingParamsModel::initial()
        } else {
            PaddingParamsModel::from_options(options.drop_last()).with(options.last())
        }
    }
}

/// The tokenizer with the padding that the options describe.
pub fn tokenizer_set_padding(tokenizer: ExTokenizersTokenizer, opts: Vec<PaddingOption>) -> (changed:
    ExTokenizersTokenizer)
    ensures
        changed@ == (TokenizerParts { padding: Some(PaddingParamsModel::from_options(opts@)), ..tokenizer@ }),
        same_tokens(tokenizer.engine(), changed.engine()),
        same_texts(tokenizer.engine(), changed.engine()),
{
    let mut padding = PaddingParams {
        strategy: PadStrategy::BatchLongest,
        direction: Direction::Right,
        pad_to_multiple_of: None,
        pad_id: 0,
        pad_type_id: 0,
        pad_token: "[PAD]".to_owned(),
    };
    let mut i: usize = 0;
    while i < opts.len()
        invariant
            i <= opts@.len(),
            padding@ == PaddingParamsModel::from_options(opts@.take(i as int)),
        decreases opts@.len() - i,
    {
        proof {
            lemma_take_step(opts@, i as int);
        }
        match &opts[i] {
            PaddingOption::Strategy(strategy) => padding.strategy = *strategy,
            PaddingOption::Direction(direction) => padding.direction = *direction,
            PaddingOption::PadToMultipleOf(multiple) => padding.pad_to_multiple_of = Some(*multiple),
            PaddingOption::PadId(pad_id) => padding.pad_id = *pad_id,
            PaddingOption::PadTypeId(pad_type_id) => padding.pad_type_id = *pad_type_id,
            PaddingOption::PadToken(pad_token) => padding.pad_token = pad_token.clone(),
        }
        i += 1;
    }
    proof {
        lemma_take_all(opts@);
    }
    let mut new_tokenizer = tokenizer.resource.0.clone();
    set_padding(&mut new_tokenizer, padding);
    ExTokenizersTokenizer::new(new_tokenizer)
}

/// The tokenizer without padding.
pub fn tokenizer_disable_padding(tokenizer: ExTokenizersTokenizer) -> (changed: ExTokenizersTokenizer)
    ensures
        changed@ == (TokenizerParts { padding: None, ..tokenizer@ }),
        same_tokens(tokenizer.engine(), changed.engine()),
        same_texts(tokenizer.engine(), changed.engine()),
{
    let mut new_tokenizer = tokenizer.resource.0.clone();
    unset_padding(&mut new_tokenizer);
    ExTokenizersTokenizer::new(new_tokenizer)
}

/// What is to be encoded, of what a caller handed over: the one sequence where there
/// is one, else the pair where there is one; with neither, the input is refused.
pub open spec fn encode_input_of(single: Option<String>, pair: Option<(String, String)>) -> Option<EncodeInputModel> {
    match (single, pair) {
        (Some(sequence), _) => Some(EncodeInputModel::Single(sequence@)),
        (None, Some((first, second))) => Some(EncodeInputModel::Dual(first@, second@)),
        (None, None) => None,
    }
}

/// What is to be encoded, of what a caller handed over as one sequence or as a pair.
pub fn term_to_encode_input(single: Option<String>, pair: Option<(String, String)>) -> (input: Result<
    EncodeInput,
    ExTokenizersError,
>)
    ensures
        match input {
            Ok(input) => encode_input_of(single, pair) == Some(input@),
            Err(error) => {
                &&& encode_input_of(single, pair) is None
                &&& error matches ExTokenizersError::Other(message)
                &&& message@ == "input must be either a string or a tuple"@
            },
        },
{
    match single {
        Some(sequence) => Ok(EncodeInput::Single(sequence)),
        None => match pair {
            Some((first, second)) => Ok(EncodeInput::Dual(first, second)),
            None => Err(ExTokenizersError::Other("input must be either a string or a tuple".to_owned())),
        },
    }
}

/// One setting of an encoding.
pub enum EncodeOption {
    AddSpecialTokens(bool),
    /// Changes to make to each encoding once it is there.
    EncodingTransformations(Vec<TransformationElement>),
}

/// Whether a list of options asks for special tokens: what the last option says that
/// speaks of them, and yes where none does.
pub open spec fn adds_special_tokens(options: Seq<EncodeOption>) -> bool
    decreases options.len(),
{
    if options.len() == 0 {
        true
    } else {
        match options.last() {
            EncodeOption::AddSpecialTokens(add) => add,
            _ => adds_special_tokens(options.drop_last()),
        }
    }
}

/// The changes that a list of options asks for: those of the last option that names
/// changes, and none where no option does.
pub open spec fn transformations_of(options: Seq<EncodeOption>) -> Seq<TransformationElement>
    decreases options.len(),
{
    if options.len() == 0 {
        Seq::empty()
    } else {
        match options.last() {
            EncodeOption::EncodingTransformations(transformations) => transformations@,
            _ => transformations_of(options.drop_last()),
        }
    }
}

/// What a list of options asks for: whether to add special tokens, and where in the
/// list the changes stand that are to be made.
fn parse_encode_options(options: &Vec<EncodeOption>) -> (parsed: (bool, Option<usize>))
    ensures
        parsed.0 == adds_special_tokens(options@),
        match parsed.1 {
            Some(k) => {
                &&& k < options@.len()
                &&& options@[k as int] matches EncodeOption::EncodingTransformations(transformations)
                &&& transformations@ == transformations_of(options@)
            },
            None => transformations_of(options@) == Seq::<TransformationElement>::empty(),
        },
{
    let mut add_special_tokens: bool = true;
    let mut place: Option<usize> = None;
    let mut i: usize = 0;
    while i < options.len()
        invariant
            i <= options@.len(),
            add_special_tokens == adds_special_tokens(options@.take(i as int)),
            match place {
                Some(k) => {
                    &&& k < i
                    &&& options@[k as int] matches EncodeOption::EncodingTransformations(transformations)
                    &&& transformations@ == transformations_of(options@.take(i as int))
                },
                None => transformations_of(options@.take(i as int)) == Seq::<TransformationElement>::empty(),
            },
        decreases options@.len() - i,
    {
        proof {
            lemma_take_step(options@, i as int);
        }
        match &options[i] {
            EncodeOption::AddSpecialTokens(add) => add_special_tokens = *add,
            EncodeOption::EncodingTransformations(_) => place = Some(i),
        }
        i += 1;
    }
    proof {
        lemma_take_all(options@);
    }
    (add_special_tokens, place)
}

/// Whether the engine can run the normalizer of the tokenizer on every text, if there
/// is one.
fn can_normalize(tokenizer: &tokenizers::Tokenizer) -> (can: bool)
    ensures
        can == tokenizer_parts(*tokenizer).can_normalize(),
{
    match get_normalizer(tokenizer) {
        Some(normalizer) => crate::normalizers::defined(&normalizer),
        None => true,
    }
}

/// Whether tokens can be added to a tokenizer of the engine.
fn can_add_to(tokenizer: &tokenizers::Tokenizer, tokens: &Vec<tokenizers::AddedToken>) -> (can: bool)
    ensures
        can == can_add(*tokenizer, added_token_descriptions(tokens@)),
{
    assert(added_token_descriptions(tokens@).len() == tokens@.len());
    has_room_for(tokenizer, tokens.len()) && (can_normalize(tokenizer) || no_token_normalized(tokens))
}

/// Whether the engine can run the pre-tokenizer of the tokenizer, if there is one.
fn can_split(tokenizer: &tokenizers::Tokenizer) -> (can: bool)
    ensures
        can == tokenizer_parts(*tokenizer).can_split(),
{
    match get_pre_tokenizer(tokenizer) {
        Some(pre_tokenizer) => crate::pre_tokenizers::defined(&pre_tokenizer),
        None => true,
    }
}

/// Whether the engine can run the stages of the tokenizer on one sequence, or on a
/// pair.
fn can_run(tokenizer: &tokenizers::Tokenizer, is_pair: bool) -> (can: bool)
    ensures
        can == tokenizer_parts(*tokenizer).can_run(is_pair),
{
    can_normalize(tokenizer) && can_split(tokenizer) && can_combine(tokenizer, is_pair)
}

/// Whether the engine can run the post-processor of the tokenizer on one sequence, or
/// on a pair, if there is one.
fn can_combine(tokenizer: &tokenizers::Tokenizer, is_pair: bool) -> (can: bool)
    ensures
        can == tokenizer_parts(*tokenizer).can_combine(is_pair),
{
    match get_post_processor(tokenizer) {
        Some(post_processor) => crate::post_processors::fits(&post_processor, is_pair),
        None => true,
    }
}

/// Whether the engine can cut an encoding of a length to a target with a stride.
fn is_cut_defined(length: u128, target: u128, stride: u128) -> (defined: bool)
    ensures
        defined == cut_defined(length as nat, target as nat, stride as nat),
{
    target >= length || target == 0 || stride < target
}

/// Whether the cuts are defined that the engine makes to fit encodings into a room.
fn are_cuts_defined(first: usize, second: Option<usize>, truncation: &TruncationParams, room: usize) -> (defined:
    bool)
    ensures
        defined == cuts_defined(first as nat, length_model(second), *truncation, room as nat),
{
    let n1: u128 = first as u128;
    let n2: u128 = match second {
        Some(second) => second as u128,
        None => 0,
    };
    let room: u128 = room as u128;
    let stride: u128 = truncation.stride as u128;
    let total: u128 = n1 + n2;
    if room == 0 || total <= room {
        return true;
    }
    match truncation.strategy {
        TruncateStrategy::LongestFirst => match second {
            Some(_) => {
                let shorter: u128 = if n1 > n2 {
                    n2
                } else {
                    n1
                };
                let longer: u128 = if shorter > room {
                    shorter
                } else if shorter > room - shorter {
                    shorter
                } else {
                    room - shorter
                };
                let cut: (u128, u128) = if shorter + longer > room {
                    (room / 2, room / 2 + room % 2)
                } else {
                    (shorter, longer)
                };
                let cut: (u128, u128) = if n1 > n2 {
                    (cut.1, cut.0)
                } else {
                    cut
                };
                is_cut_defined(n1, cut.0, stride) && is_cut_defined(n2, cut.1, stride)
            },
            None => is_cut_defined(n1, room, stride),
        },
        TruncateStrategy::OnlyFirst => {
            if n1 > total - room {
                is_cut_defined(n1, n1 - (total - room), stride)
            } else {
                true
            }
        },
        TruncateStrategy::OnlySecond => match second {
            Some(_) => {
                if n2 > total - room {
                    is_cut_defined(n2, n2 - (total - room), stride)
                } else {
                    true
                }
            },
            None => true,
        },
    }
}

/// Whether the engine can truncate encodings of these lengths with the tokenizer.
fn truncation_fits(tokenizer: &tokenizers::Tokenizer, first: usize, second: Option<usize>, add_special_tokens: bool) -> (fits: bool)
    ensures
        fits == tokenizer_parts(*tokenizer).truncation_fits(first as nat, length_model(second), add_special_tokens),
{
    match get_truncation(tokenizer) {
        Some(truncation) => {
            let added = if add_special_tokens {
                added_tokens_of(tokenizer, second.is_some())
            } else {
                0
            };
            truncation.max_length >= added && are_cuts_defined(
                first,
                second,
                &truncation,
                truncation.max_length - added,
            )
        },
        None => true,
    }
}

/// How many tokens the engine makes of a sequence with a tokenizer that neither
/// truncates nor post-processes nor pads; nothing where it fails at the sequence.
fn length_of(probe: &tokenizers::Tokenizer, sequence: &String) -> (length: Option<usize>)
    requires
        tokenizer_parts(*probe).can_normalize(),
        tokenizer_parts(*probe).can_split(),
        tokenizer_parts(*probe).model.deterministic(),
        tokenizer_parts(*probe).truncation is None,
        tokenizer_parts(*probe).padding is None,
        tokenizer_parts(*probe).post_processor is None,
    ensures
        length_model(length) == sequence_length(*probe, sequence@),
{
    let input = EncodeInput::Single(sequence.clone());
    match encode(probe, &input, false) {
        Ok(encoding) => Some(encoding.len()),
        Err(_) => None,
    }
}

/// Whether the engine can encode an input with the tokenizer.
fn can_encode(tokenizer: &tokenizers::Tokenizer, input: &EncodeInput, add_special_tokens: bool) -> (can: bool)
    ensures
        can == encode_defined(*tokenizer, input@, add_special_tokens),
{
    let is_pair = match input {
        EncodeInput::Single(_) => false,
        EncodeInput::Dual(_, _) => true,
    };
    if !can_run(tokenizer, is_pair) {
        return false;
    }
    if !is_deterministic(&get_model(tokenizer)) {
        return can_truncate(tokenizer, is_pair, add_special_tokens);
    }
    if get_truncation(tokenizer).is_none() {
        return true;
    }
    let mut probe = tokenizer.clone();
    unset_truncation(&mut probe);
    unset_padding(&mut probe);
    unset_post_processor(&mut probe);
    match input {
        EncodeInput::Single(sequence) => match length_of(&probe, sequence) {
            Some(first) => truncation_fits(tokenizer, first, None, add_special_tokens),
            None => true,
        },
        EncodeInput::Dual(sequence, pair) => match length_of(&probe, sequence) {
            Some(first) => match length_of(&probe, pair) {
                Some(second) => truncation_fits(tokenizer, first, Some(second), add_special_tokens),
                None => true,
            },
            None => true,
        },
    }
}

/// Whether the engine can truncate, post-process and pad one encoding, or a pair, of
/// these lengths with the tokenizer.
fn can_process(tokenizer: &tokenizers::Tokenizer, first: usize, second: Option<usize>, add_special_tokens: bool) -> (can: bool)
    ensures
        can == tokenizer_parts(*tokenizer).can_process(first as nat, length_model(second), add_special_tokens),
{
    truncation_fits(tokenizer, first, second, add_special_tokens) && can_combine(tokenizer, second.is_some())
}

/// Whether the truncation of the tokenizer is sure to be defined on what it encodes.
fn can_truncate(tokenizer: &tokenizers::Tokenizer, is_pair: bool, add_special_tokens: bool) -> (can: bool)
    ensures
        can == tokenizer_parts(*tokenizer).can_truncate(is_pair, add_special_tokens),
{
    match get_truncation(tokenizer) {
        Some(truncation) => {
            let added = if add_special_tokens {
                added_tokens_of(tokenizer, is_pair)
            } else {
                0
            };
            truncation.max_length >= added && (truncation.stride == 0 || (!is_pair && truncation.stride
                < truncation.max_length - added) || (is_pair && truncation.strategy
                == TruncateStrategy::LongestFirst && truncation.stride < (truncation.max_length - added)
                / 2))
        },
        None => true,
    }
}

/// The outcome of changes to an encoding that the engine made.
pub open spec fn changed(encoding: EncodingModel, changes: Seq<TransformationElement>) -> Option<EncodingModel> {
    if encoding.aligned_throughout() && encoding.transformations_defined(changes) {
        Some(encoding.transformed(changes))
    } else {
        None
    }
}

/// Puts an encoding that the engine made behind a handle, after the changes that
/// were asked for. An encoding whose sequences differ in length is refused, and so
/// is a change that is not defined.
fn finish_encoding(encoding: tokenizers::Encoding, changes: &Vec<TransformationElement>) -> (finished: Result<
    ExTokenizersEncoding,
    ExTokenizersError,
>)
    requires
        encoding_model(encoding).ranges_in_bounds_throughout(),
    ensures
        match finished {
            Ok(finished) => changed(encoding_model(encoding), changes@) == Some(finished@),
            Err(error) => changed(encoding_model(encoding), changes@) is None && (error is Internal
                || error is Other),
        },
{
    let mut encoding = encoding;
    if !crate::encoding::is_aligned(&encoding) {
        return Err(ExTokenizersError::Internal("the sequences of an encoding differ in length".to_owned()));
    }
    match apply_transformations(&mut encoding, changes) {
        Ok(()) => Ok(ExTokenizersEncoding::new(encoding)),
        Err(error) => Err(error),
    }
}

/// Whether an outcome is what encoding an input with options comes to. Settings that
/// the engine cannot follow are refused. Else, with a deterministic
/// model, the outcome is what the engine encodes the input as, after the changes that
/// the options ask for; the engine's refusal, and a change that cannot be made, are
/// errors.
pub open spec fn is_encoding_of(
    tokenizer: ExTokenizersTokenizer,
    input: EncodeInput,
    options: Seq<EncodeOption>,
    outcome: Result<ExTokenizersEncoding, ExTokenizersError>,
) -> bool {
    if !encode_defined(tokenizer.engine(), input@, adds_special_tokens(options)) {
        outcome matches Err(ExTokenizersError::Other(_))
    } else if tokenizer@.model.deterministic() {
        match encoded(tokenizer.engine(), input@, adds_special_tokens(options)) {
            Ok(made) => match changed(made, transformations_of(options)) {
                Some(finished) => outcome matches Ok(handle) && handle@ == finished,
                None => outcome matches Err(error) && (error is Internal || error is Other),
            },
            Err(message) => outcome matches Err(ExTokenizersError::Tokenizer(text)) && text@ == message,
        }
    } else {
        true
    }
}

/// Whether the engine can encode an input with the tokenizer: see `encode_defined`.
pub fn tokenizer_can_encode(tokenizer: &ExTokenizersTokenizer, input: &EncodeInput, add_special_tokens: bool) -> (can: bool)
    ensures
        can == encode_defined(tokenizer.engine(), input@, add_special_tokens),
{
    can_encode(&tokenizer.resource.0, input, add_special_tokens)
}

/// Encoding the same input twice, with one tokenizer whose model is deterministic and
/// with the same options, gives the same tokens both times.
pub proof fn lemma_encoding_is_repeatable(
    tokenizer: ExTokenizersTokenizer,
    input: EncodeInput,
    options: Seq<EncodeOption>,
    first: Result<ExTokenizersEncoding, ExTokenizersError>,
    second: Result<ExTokenizersEncoding, ExTokenizersError>,
)
    requires
        tokenizer@.model.deterministic(),
        is_encoding_of(tokenizer, input, options, first),
        is_encoding_of(tokenizer, input, options, second),
    ensures
        first is Ok <==> second is Ok,
        first matches Ok(a) ==> second matches Ok(b) && a@ == b@,
{
}

/// The encoding of the input by the tokenizer, after the changes that the options ask
/// for. Settings that the engine cannot follow are refused before it is asked.
pub fn tokenizer_encode(tokenizer: ExTokenizersTokenizer, input: EncodeInput, options: Vec<EncodeOption>) -> (encoding: Result<
    ExTokenizersEncoding,
    ExTokenizersError,
>)
    ensures
        is_encoding_of(tokenizer, input, options@, encoding),
{
    let parsed = parse_encode_options(&options);
    let add_special_tokens = parsed.0;
    if !can_encode(&tokenizer.resource.0, &input, add_special_tokens) {
        return Err(
            ExTokenizersError::Other(
                "the tokenizer is set to normalize, to split, to truncate or to post-process in a way that cannot be followed".to_owned(),
            ),
        );
    }
    let none: Vec<TransformationElement> = Vec::new();
    let changes = match parsed.1 {
        Some(k) => match &options[k] {
            EncodeOption::EncodingTransformations(transformations) => transformations,
            _ => &none,
        },
        None => &none,
    };
    match encode(&tokenizer.resource.0, &input, add_special_tokens) {
        Ok(encoding) => finish_encoding(encoding, changes),
        Err(message) => Err(ExTokenizersError::Tokenizer(message)),
    }
}

/// Whether the engine can encode every input of a batch with the tokenizer.
pub open spec fn can_encode_all(tokenizer: tokenizers::Tokenizer, inputs: Seq<EncodeInput>, add_special_tokens: bool) -> bool {
    forall|i: int| 0 <= i < inputs.len() ==> encode_defined(tokenizer, (#[trigger] inputs[i])@, add_special_tokens)
}

/// The encodings of the inputs by the tokenizer, in the order of the inputs, padded
/// together where it pads (see `batch_of`), each after the changes that the options
/// ask for. Where the engine fails on some inputs, the error is that of one of them.
/// An encoding that cannot be finished ends the batch with its error.
pub fn tokenizer_encode_batch(tokenizer: ExTokenizersTokenizer, inputs: Vec<EncodeInput>, options: Vec<EncodeOption>) -> (encodings: Result<
    Vec<ExTokenizersEncoding>,
    ExTokenizersError,
>)
    ensures
        !can_encode_all(tokenizer.engine(), inputs@, adds_special_tokens(options@)) ==> encodings matches Err(
            ExTokenizersError::Other(_),
        ),
        encodings matches Ok(handles) ==> handles@.len() == inputs@.len(),
        can_encode_all(tokenizer.engine(), inputs@, adds_special_tokens(options@)) && tokenizer@.model.deterministic()
            ==> match encodings {
            Ok(handles) => {
                &&& all_encoded(tokenizer.engine(), input_models(inputs@), adds_special_tokens(options@))
                &&& forall|i: int|
                    0 <= i < handles@.len() ==> changed(
                        #[trigger] batch_of(
                            tokenizer.engine(),
                            input_models(inputs@),
                            adds_special_tokens(options@),
                        )[i],
                        transformations_of(options@),
                    ) == Some(handles@[i]@)
            },
            Err(ExTokenizersError::Tokenizer(message)) => is_batch_of(
                tokenizer.engine(),
                input_models(inputs@),
                adds_special_tokens(options@),
                Err(message@),
            ),
            Err(error) => {
                &&& all_encoded(tokenizer.engine(), input_models(inputs@), adds_special_tokens(options@))
                &&& exists|i: int|
                    0 <= i < inputs@.len() && changed(
                        #[trigger] batch_of(
                            tokenizer.engine(),
                            input_models(inputs@),
                            adds_special_tokens(options@),
                        )[i],
                        transformations_of(options@),
                    ) is None
                &&& error is Internal || error is Other
            },
        },
{
    let parsed = parse_encode_options(&options);
    let add_special_tokens = parsed.0;
    let mut i: usize = 0;
    while i < inputs.len()
        invariant
            i <= inputs@.len(),
            add_special_tokens == adds_special_tokens(options@),
            forall|j: int|
                0 <= j < i ==> encode_defined(tokenizer.engine(), (#[trigger] inputs@[j])@, add_special_tokens),
        decreases inputs@.len() - i,
    {
        if !can_encode(&tokenizer.resource.0, &inputs[i], add_special_tokens) {
            assert(!encode_defined(tokenizer.engine(), inputs@[i as int]@, add_special_tokens));
            return Err(
                ExTokenizersError::Other(
                    "the tokenizer is set to normalize, to split, to truncate or to post-process in a way that cannot be followed".to_owned(),
                ),
            );
        }
        i += 1;
    }
    let none: Vec<TransformationElement> = Vec::new();
    let changes = match parsed.1 {
        Some(k) => match &options[k] {
            EncodeOption::EncodingTransformations(transformations) => transformations,
            _ => &none,
        },
        None => &none,
    };
    match encode_batch(&tokenizer.resource.0, &inputs, add_special_tokens) {
        Ok(made) => {
            let mut made = made;
            let ghost models = encoding_models(made@);
            let ghost outcome = batch_of(tokenizer.engine(), input_models(inputs@), add_special_tokens);
            assert(models.len() == inputs@.len());
            let mut handles: Vec<ExTokenizersEncoding> = Vec::new();
            while made.len() > 0
                invariant
                    add_special_tokens == adds_special_tokens(options@),
                    changes@ == transformations_of(options@),
                    can_encode_all(tokenizer.engine(), inputs@, add_special_tokens),
                    outcome == batch_of(tokenizer.engine(), input_models(inputs@), add_special_tokens),
                    models.len() == inputs@.len(),
                    tokenizer@.model.deterministic() ==> outcome == models && all_encoded(
                        tokenizer.engine(),
                        input_models(inputs@),
                        add_special_tokens,
                    ),
                    handles@.len() + made@.len() == models.len(),
                    forall|j: int|
                        0 <= j < made@.len() ==> encoding_model(#[trigger] made@[j]) == models[j]
                            && models[j].ranges_in_bounds_throughout(),
                    forall|j: int|
                        0 <= j < handles@.len() ==> changed(
                            #[trigger] models[models.len() - 1 - j],
                            changes@,
                        ) == Some(handles@[j]@),
                decreases made@.len(),
            {
                let ghost place = made@.len() - 1;
                let encoding = made.pop().unwrap();
                match finish_encoding(encoding, changes) {
                    Ok(handle) => handles.push(handle),
                    Err(error) => {
                        assert(changed(models[place], changes@) is None);
                        return Err(error);
                    },
                }
            }
            let mut ordered: Vec<ExTokenizersEncoding> = Vec::new();
            while handles.len() > 0
                invariant
                    add_special_tokens == adds_special_tokens(options@),
                    changes@ == transformations_of(options@),
                    can_encode_all(tokenizer.engine(), inputs@, add_special_tokens),
                    outcome == batch_of(tokenizer.engine(), input_models(inputs@), add_special_tokens),
                    models.len() == inputs@.len(),
                    tokenizer@.model.deterministic() ==> outcome == models && all_encoded(
                        tokenizer.engine(),
                        input_models(inputs@),
                        add_special_tokens,
                    ),
                    ordered@.len() + handles@.len() == models.len(),
                    forall|j: int|
                        0 <= j < handles@.len() ==> changed(
                            #[trigger] models[models.len() - 1 - j],
                            changes@,
                        ) == Some(handles@[j]@),
                    forall|j: int|
                        0 <= j < ordered@.len() ==> changed(#[trigger] models[j], changes@) == Some(
                            ordered@[j]@,
                        ),
                decreases handles@.len(),
            {
                let ghost place = handles@.len() - 1;
                let handle = handles.pop().unwrap();
                assert(changed(models[models.len() - 1 - place], changes@) == Some(handle@));
                ordered.push(handle);
            }
            Ok(ordered)
        },
        Err(message) => Err(ExTokenizersError::Tokenizer(message)),
    }
}

/// One setting of a decoding.
pub enum DecodeOption {
    SkipSpecialTokens(bool),
}

/// Whether a list of options asks to skip special tokens: what the last option says,
/// and yes where there is none.
pub open spec fn skips_special_tokens(options: Seq<DecodeOption>) -> bool {
    if options.len() == 0 {
        true
    } else {
        match options.last() {
            DecodeOption::SkipSpecialTokens(skip) => skip,
        }
    }
}

/// Whether a list of options asks to skip special tokens.
fn parse_decode_options(options: &Vec<DecodeOption>) -> (skip: bool)
    ensures
        skip == skips_special_tokens(options@),
{
    let mut skip: bool = true;
    let mut i: usize = 0;
    while i < options.len()
        invariant
            i <= options@.len(),
            skip == skips_special_tokens(options@.take(i as int)),
        decreases options@.len() - i,
    {
        proof {
            lemma_take_step(options@, i as int);
        }
        match &options[i] {
            DecodeOption::SkipSpecialTokens(value) => skip = *value,
        }
        i += 1;
    }
    proof {
        lemma_take_all(options@);
    }
    skip
}

/// The tokens of the ids that have one, in order, without the special tokens where
/// those are skipped.
pub open spec fn kept_tokens(tokenizer: tokenizers::Tokenizer, ids: Seq<u32>, skip_special_tokens: bool) -> Seq<
    Seq<char>,
>
    decreases ids.len(),
{
    if ids.len() == 0 {
        Seq::empty()
    } else {
        let before = kept_tokens(tokenizer, ids.drop_last(), skip_special_tokens);
        match id_token(tokenizer, ids.last()) {
            Some(token) => if skip_special_tokens && special_token(tokenizer, token) {
                before
            } else {
                before.push(token)
            },
            None => before,
        }
    }
}

/// Texts put one after the other, with a separator between each two.
pub open spec fn joined(texts: Seq<Seq<char>>, separator: Seq<char>) -> Seq<char>
    decreases texts.len(),
{
    if texts.len() == 0 {
        Seq::empty()
    } else if texts.len() == 1 {
        texts[0]
    } else {
        joined(texts.drop_last(), separator) + separator + texts.last()
    }
}

/// The text that a tokenizer decodes ids to: what its decoder makes of the tokens
/// kept, and without a decoder those tokens with a space between each two.
pub open spec fn decoded_ids(tokenizer: tokenizers::Tokenizer, ids: Seq<u32>, skip_special_tokens: bool) -> Result<
    Seq<char>,
    Seq<char>,
> {
    match tokenizer_parts(tokenizer).decoder {
        Some(decoder) => decoded_text(decoder, kept_tokens(tokenizer, ids, skip_special_tokens)),
        None => Ok(joined(kept_tokens(tokenizer, ids, skip_special_tokens), " "@)),
    }
}

/// Texts put one after the other, with a space between each two.
fn join_with_spaces(tokens: &Vec<String>) -> (text: String)
    ensures
        text@ == joined(crate::util::texts(tokens@), " "@),
{
    let mut text = String::new();
    let mut i: usize = 0;
    while i < tokens.len()
        invariant
            i <= tokens@.len(),
            text@ == joined(crate::util::texts(tokens@).take(i as int), " "@),
        decreases tokens@.len() - i,
    {
        proof {
            lemma_take_step(crate::util::texts(tokens@), i as int);
        }
        if i > 0 {
            text.append(" ");
        }
        text.append(tokens[i].as_str());
        proof {
            let all = crate::util::texts(tokens@);
            if i == 0 {
                assert(text@ =~= all[0]);
                assert(all.take(1)[0] == all[0]);
            } else {
                assert(text@ =~= joined(all.take(i as int), " "@) + " "@ + all[i as int]);
            }
        }
        i += 1;
    }
    proof {
        lemma_take_all(crate::util::texts(tokens@));
    }
    text
}

/// The tokens of the ids that have one, in order, without the special tokens where
/// those are skipped.
pub(crate) fn kept(tokenizer: &tokenizers::Tokenizer, ids: &Vec<u32>, skip_special_tokens: bool) -> (tokens: Vec<
    String,
>)
    ensures
        crate::util::texts(tokens@) == kept_tokens(*tokenizer, ids@, skip_special_tokens),
{
    let mut tokens: Vec<String> = Vec::new();
    let mut i: usize = 0;
    while i < ids.len()
        invariant
            i <= ids@.len(),
            crate::util::texts(tokens@) == kept_tokens(*tokenizer, ids@.take(i as int), skip_special_tokens),
        decreases ids@.len() - i,
    {
        proof {
            lemma_take_step(ids@, i as int);
        }
        let ghost before = crate::util::texts(tokens@);
        match id_to_token(tokenizer, ids[i]) {
            Some(token) => {
                if !(skip_special_tokens && is_special_token(tokenizer, token.as_str())) {
                    let ghost text = token@;
                    tokens.push(token);
                    assert(crate::util::texts(tokens@) =~= before.push(text));
                }
            },
            None => {},
        }
        i += 1;
    }
    proof {
        lemma_take_all(ids@);
    }
    tokens
}

/// Whether the engine can decode ids with a tokenizer: it hands the tokens that are
/// kept to the decoder, also where none is kept, so the decoder has to be defined on
/// them.
pub open spec fn decodable(tokenizer: tokenizers::Tokenizer, ids: Seq<u32>, skip_special_tokens: bool) -> bool {
    match tokenizer_parts(tokenizer).decoder {
        Some(decoder) => decoder.defined_on(kept_tokens(tokenizer, ids, skip_special_tokens)),
        None => true,
    }
}

/// Whether the engine can decode ids with a tokenizer.
pub(crate) fn is_decodable(tokenizer: &tokenizers::Tokenizer, ids: &Vec<u32>, skip_special_tokens: bool) -> (can: bool)
    ensures
        can == decodable(*tokenizer, ids@, skip_special_tokens),
{
    match get_decoder(tokenizer) {
        Some(decoder) => {
            let tokens = kept(tokenizer, ids, skip_special_tokens);
            crate::decoders::defined_on(&decoder, &tokens)
        },
        None => true,
    }
}

/// The text that the tokenizer decodes ids to.
pub(crate) fn decode(tokenizer: &tokenizers::Tokenizer, ids: &Vec<u32>, skip_special_tokens: bool) -> (text: Result<
    String,
    ExTokenizersError,
>)
    ensures
        match text {
            Ok(text) => decoded_ids(*tokenizer, ids@, skip_special_tokens) == Ok::<Seq<char>, Seq<char>>(text@),
            Err(error) => error matches ExTokenizersError::Tokenizer(message) && decoded_ids(
                *tokenizer,
                ids@,
                skip_special_tokens,
            ) == Err::<Seq<char>, Seq<char>>(message@),
        },
{
    let tokens = kept(tokenizer, ids, skip_special_tokens);
    match get_decoder(tokenizer) {
        Some(decoder) => decoders_decode(ExTokenizersDecoder::new(decoder), tokens),
        None => Ok(join_with_spaces(&tokens)),
    }
}

/// The text that the tokenizer decodes the ids to: the tokens of the ids, without the
/// special ones unless an option keeps them, put together by the decoder.
pub fn tokenizer_decode(tokenizer: ExTokenizersTokenizer, ids: Vec<u32>, options: Vec<DecodeOption>) -> (text: Result<
    String,
    ExTokenizersError,
>)
    ensures
        match text {
            Ok(text) => decoded_ids(tokenizer.engine(), ids@, skips_special_tokens(options@)) == Ok::<
                Seq<char>,
                Seq<char>,
            >(text@),
            Err(error) => error matches ExTokenizersError::Tokenizer(message) && decoded_ids(
                tokenizer.engine(),
                ids@,
                skips_special_tokens(options@),
            ) == Err::<Seq<char>, Seq<char>>(message@),
        },
{
    let skip = parse_decode_options(&options);
    decode(&tokenizer.resource.0, &ids, skip)
}

/// The texts that the tokenizer decodes each list of ids to. The first list that
/// cannot be decoded ends the batch with its error.
pub fn tokenizer_decode_batch(tokenizer: ExTokenizersTokenizer, sentences: Vec<Vec<u32>>, options: Vec<DecodeOption>) -> (texts: Result<
    Vec<String>,
    ExTokenizersError,
>)
    ensures
        match texts {
            Ok(texts) => {
                &&& texts@.len() == sentences@.len()
                &&& forall|i: int|
                    0 <= i < texts@.len() ==> decoded_ids(
                        tokenizer.engine(),
                        sentences@[i]@,
                        skips_special_tokens(options@),
                    ) == Ok::<Seq<char>, Seq<char>>((#[trigger] texts@[i])@)
            },
            Err(error) => error matches ExTokenizersError::Tokenizer(message) && exists|i: int|
                0 <= i < sentences@.len() && decoded_ids(
                    tokenizer.engine(),
                    (#[trigger] sentences@[i])@,
                    skips_special_tokens(options@),
                ) == Err::<Seq<char>, Seq<char>>(message@),
        },
{
    let skip = parse_decode_options(&options);
    let mut texts: Vec<String> = Vec::new();
    let mut i: usize = 0;
    while i < sentences.len()
        invariant
            i <= sentences@.len(),
            texts@.len() == i,
            skip == skips_special_tokens(options@),
            forall|j: int|
                0 <= j < i ==> decoded_ids(tokenizer.engine(), sentences@[j]@, skip) == Ok::<
                    Seq<char>,
                    Seq<char>,
                >((#[trigger] texts@[j])@),
        decreases sentences@.len() - i,
    {
        match decode(&tokenizer.resource.0, &sentences[i], skip) {
            Ok(text) => texts.push(text),
            Err(error) => {
                return Err(error);
            },
        }
        i += 1;
    }
    Ok(texts)
}

/// The id of a token in the tokenizer, if it has one.
pub fn tokenizer_token_to_id(tokenizer: ExTokenizersTokenizer, token: &str) -> (id: Option<u32>)
    ensures
        id == token_id(tokenizer.engine(), token@),
{
    token_to_id(&tokenizer.resource.0, token)
}

/// The token of an id in the tokenizer, if it has one: an added token as the engine
/// writes it for decoding, or else the token of the model.
pub fn tokenizer_id_to_token(tokenizer: ExTokenizersTokenizer, id: u32) -> (token: Option<String>)
    ensures
        optional_text(token) == id_token(tokenizer.engine(), id),
        !added_ids(tokenizer.engine()).contains(id) ==> tokenizer@.model.is_token_of(id, optional_text(token)),
{
    id_to_token(&tokenizer.resource.0, id)
}

/// The encoding that may be missing, as mathematics.
pub open spec fn optional_handle(encoding: Option<ExTokenizersEncoding>) -> Option<EncodingModel> {
    match encoding {
        Some(encoding) => Some(encoding@),
        None => None,
    }
}

/// What the tokenizer makes of one or two encodings: it truncates them, lets its
/// post-processor put them together, and pads the result. Settings that the engine
/// cannot follow are refused before it is asked.
pub fn tokenizer_post_processing(
    tokenizer: ExTokenizersTokenizer,
    enc: ExTokenizersEncoding,
    pair: Option<ExTokenizersEncoding>,
    add_special_tokens: bool,
) -> (processed: Result<ExTokenizersEncoding, ExTokenizersError>)
    ensures
        !tokenizer@.can_process(enc@.ids.len(), optional_length(optional_handle(pair)), add_special_tokens)
            ==> processed matches Err(ExTokenizersError::Other(_)),
        tokenizer@.can_process(enc@.ids.len(), optional_length(optional_handle(pair)), add_special_tokens)
            ==> match post_processed(
            tokenizer.engine(),
            enc@,
            optional_handle(pair),
            add_special_tokens,
        ) {
            Ok(made) => if made.aligned_throughout() {
                processed matches Ok(handle) && handle@ == made
            } else {
                processed matches Err(ExTokenizersError::Internal(_))
            },
            Err(message) => processed matches Err(ExTokenizersError::Tokenizer(text)) && text@ == message,
        },
{
    let first_length = enc.encoding().len();
    let second_length = match &pair {
        Some(pair) => Some(pair.encoding().len()),
        None => None,
    };
    if !can_process(&tokenizer.resource.0, first_length, second_length, add_special_tokens) {
        return Err(
            ExTokenizersError::Other(
                "the tokenizer is set to normalize, to split, to truncate or to post-process in a way that cannot be followed".to_owned(),
            ),
        );
    }
    let first = enc.encoding().clone();
    let second = match &pair {
        Some(pair) => Some(pair.encoding().clone()),
        None => None,
    };
    match post_process(&tokenizer.resource.0, first, second, add_special_tokens) {
        Ok(processed) => ExTokenizersEncoding::try_new(processed),
        Err(message) => Err(ExTokenizersError::Tokenizer(message)),
    }
}

/// Whether training is asked of a unigram trainer: the trainer is one, or none is
/// given and the model is a unigram model.
pub open spec fn trains_unigram(model: ModelModel, trainer: Option<TrainerModel>) -> bool {
    match trainer {
        Some(trainer) => trainer is Unigram,
        None => model is Unigram,
    }
}

/// The description of a trainer that may be there.
pub open spec fn trainer_given(trainer: Option<ExTokenizersTrainer>) -> Option<TrainerModel> {
    match trainer {
        Some(trainer) => Some(trainer@),
        None => None,
    }
}

/// How many special tokens training adds: those of the trainer, and none where the
/// engine's own trainer is taken.
pub open spec fn trained_special_tokens(trainer: Option<TrainerModel>) -> int {
    match trainer {
        Some(trainer) => trainer.special_tokens().len() as int,
        None => 0,
    }
}

/// Whether training is refused before it starts: it is asked of a unigram trainer,
/// the engine cannot run the normalizer or the pre-tokenizer, or the ids of the added
/// tokens leave no room for the special tokens of the trainer.
pub open spec fn training_refused(tokenizer: tokenizers::Tokenizer, trainer: Option<TrainerModel>) -> bool {
    ||| trains_unigram(tokenizer_parts(tokenizer).model, trainer)
    ||| !tokenizer_parts(tokenizer).can_normalize()
    ||| !tokenizer_parts(tokenizer).can_split()
    ||| !ids_leave_room(tokenizer, trained_special_tokens(trainer))
}

/// The tokenizer with its model trained on the given texts, by the given trainer or
/// else by a trainer of the model's kind with the engine's settings. The tokenizer
/// that was handed over stays as it was. A trainer of another kind than the model is
/// refused. So is a unigram trainer: the engine's may stop the program on texts that
/// cannot be told beforehand, so it has to be run where that can be caught. And so
/// are a pre-tokenizer that the engine cannot run, and a trainer with more special
/// tokens than there are ids left.
pub fn tokenizer_train(tokenizer: ExTokenizersTokenizer, sequences: Vec<String>, trainer: Option<ExTokenizersTrainer>) -> (trained: Result<
    ExTokenizersTokenizer,
    ExTokenizersError,
>)
    ensures
        match trained {
            Ok(trained) => {
                &&& !training_refused(tokenizer.engine(), trainer_given(trainer))
                &&& trainer matches Some(trainer) ==> trainer_kind_matches(trainer@, tokenizer@.model)
                &&& trained@.model.kind() == tokenizer@.model.kind()
                &&& trained@ == (TokenizerParts { model: trained@.model, ..tokenizer@ })
            },
            Err(error) => if training_refused(tokenizer.engine(), trainer_given(trainer)) {
                error matches ExTokenizersError::Other(_)
            } else {
                error is Tokenizer
            },
        },
        trainer matches Some(trainer) && !trainer_kind_matches(trainer@, tokenizer@.model) ==> trained is Err,
{
    let mut new_tokenizer = tokenizer.resource.0.clone();
    let model = get_model(&new_tokenizer);
    let engine_trainer = match &trainer {
        Some(trainer) => trainer.resource.0.clone(),
        None => default_trainer(&model),
    };
    if let TrainerKind::Unigram = trainer_kind(&engine_trainer) {
        return Err(ExTokenizersError::Other("a unigram trainer is not run here".to_owned()));
    }
    if !can_normalize(&new_tokenizer) {
        return Err(ExTokenizersError::Other("a normalizer that works from a table is not run here".to_owned()));
    }
    if !can_split(&new_tokenizer) {
        return Err(ExTokenizersError::Other("a fixed length of zero cuts no pieces".to_owned()));
    }
    if !leaves_room(&new_tokenizer, special_token_count(&engine_trainer)) {
        return Err(ExTokenizersError::Other("there are no ids left for the special tokens of the trainer".to_owned()));
    }
    set_model(&mut new_tokenizer, model);
    match train(&mut new_tokenizer, engine_trainer, sequences) {
        Ok(()) => Ok(ExTokenizersTokenizer::new(new_tokenizer)),
        Err(message) => Err(ExTokenizersError::Tokenizer(message)),
    }
}

} // verus!
