//! Post-processors: they add the special tokens that a task asks for and put the
//! encodings of a pair of sequences together.

use crate::encoding::{encoding_model, EncodingModel, ExTokenizersEncoding};
use crate::error::{BadArg, ExTokenizersError};
use crate::util::{has_text, holds_text, lemma_take_all, lemma_take_step, Info, InfoValue, InfoValueModel};
use std::sync::Arc;
use tokenizers::PostProcessor;
use vstd::prelude::*;

verus! {

#[verifier::external_type_specification]
#[verifier::external_body]
pub struct ExPostProcessorWrapper(tokenizers::PostProcessorWrapper);

#[verifier::external_type_specification]
#[verifier::external_body]
pub struct ExTemplateProcessingBuilder(tokenizers::processors::template::TemplateProcessingBuilder);

/// What a template processor is made from: the template for one sequence, the template
/// for a pair, and the special tokens with their ids; each as far as it was given.
pub struct TemplateSettings {
    pub single: Option<Seq<char>>,
    pub pair: Option<Seq<char>>,
    pub special_tokens: Option<Seq<(Seq<char>, u32)>>,
}

/// A post-processor as mathematics: which post-processor it is, with its settings.
pub enum PostProcessorModel {
    Roberta { sep: (Seq<char>, u32), cls: (Seq<char>, u32), trim_offsets: bool, add_prefix_space: bool },
    Bert { sep: (Seq<char>, u32), cls: (Seq<char>, u32) },
    ByteLevel { add_prefix_space: bool, trim_offsets: bool, use_regex: bool },
    Template { settings: TemplateSettings },
    Sequence { processors: Seq<PostProcessorModel> },
}

/// The kinds of post-processor.
#[derive(Clone, Copy, Debug, PartialEq, Eq, Structural)]
pub enum PostProcessorKind {
    Roberta,
    Bert,
    ByteLevel,
    Template,
    Sequence,
}

impl PostProcessorModel {
    /// Whether the post-processor is a template processor, or a sequence that holds one
    /// at any depth.
    pub open spec fn holds_template(self) -> bool
        decreases self,
    {
        match self {
            PostProcessorModel::Template { .. } => true,
            PostProcessorModel::Sequence { processors } => exists|i: int|
                0 <= i < processors.len() && (#[trigger] processors[i]).holds_template(),
            _ => false,
        }
    }

    /// Whether the engine can run the post-processor on one sequence, or on a pair. A
    /// template processor has to be one that the engine accepts, and on one sequence
    /// its template must not name the second. A sequence can hold one template
    /// processor only, since the next would not know what to make of the pieces of the
    /// first.
    pub open spec fn fits(self, is_pair: bool) -> bool
        decreases self,
    {
        match self {
            PostProcessorModel::Template { settings } => template_accepted(settings) && (is_pair
                || !single_names_second(settings)),
            PostProcessorModel::Sequence { processors } => {
                &&& forall|i: int| 0 <= i < processors.len() ==> (#[trigger] processors[i]).fits(is_pair)
                &&& forall|i: int, j: int|
                    0 <= i < j < processors.len() ==> !((#[trigger] processors[i]).holds_template() && (
                    #[trigger] processors[j]).holds_template())
            },
            _ => true,
        }
    }

    /// The kind of the post-processor.
    pub open spec fn kind(self) -> PostProcessorKind {
        match self {
            PostProcessorModel::Roberta { .. } => PostProcessorKind::Roberta,
            PostProcessorModel::Bert { .. } => PostProcessorKind::Bert,
            PostProcessorModel::ByteLevel { .. } => PostProcessorKind::ByteLevel,
            PostProcessorModel::Template { .. } => PostProcessorKind::Template,
            PostProcessorModel::Sequence { .. } => PostProcessorKind::Sequence,
        }
    }
}

/// Which post-processor of the engine a value is, with its settings.
pub uninterp spec fn post_processor_description(post_processor: tokenizers::PostProcessorWrapper) -> PostProcessorModel;

/// What a builder of a template processor has been given so far.
pub uninterp spec fn template_builder_settings(
    builder: tokenizers::processors::template::TemplateProcessingBuilder,
) -> TemplateSettings;

/// Whether the engine can read a text as a template.
pub uninterp spec fn template_parses(template: Seq<char>) -> bool;

/// Whether the engine makes a template processor from what a builder was given: it
/// asks that a template for pairs uses both sequences, and that every special token
/// of a template is among the special tokens given.
pub uninterp spec fn template_accepted(settings: TemplateSettings) -> bool;

/// How the engine writes down the template of a template processor for one sequence:
/// its pieces, each with the sequence or the special token that it stands for.
pub uninterp spec fn single_printed(settings: TemplateSettings) -> Seq<char>;

/// Whether the template for one sequence names the second sequence, as the engine
/// writes it down; a special token whose name reads like that counts too.
pub open spec fn single_names_second(settings: TemplateSettings) -> bool {
    holds_text(single_printed(settings), "id: B"@)
}

/// How many tokens a post-processor adds to one sequence, or to a pair of sequences.
pub uninterp spec fn added_token_count(post_processor: PostProcessorModel, is_pair: bool) -> usize;

/// How many tokens the post-processors add whose count is written out here: those
/// after BERT add two tokens to one sequence and three to a pair, those after RoBERTa
/// two and four, those that work on bytes none, and a sequence of these as many as
/// all of them together. A template adds what its special tokens come to.
pub open spec fn exact_added(post_processor: PostProcessorModel, is_pair: bool) -> Option<nat>
    decreases post_processor, 0nat,
{
    match post_processor {
        PostProcessorModel::Bert { .. } => Some(
            if is_pair {
                3
            } else {
                2
            },
        ),
        PostProcessorModel::Roberta { .. } => Some(
            if is_pair {
                4
            } else {
                2
            },
        ),
        PostProcessorModel::ByteLevel { .. } => Some(0),
        PostProcessorModel::Sequence { processors } => exact_sum(processors, 0, is_pair),
        PostProcessorModel::Template { .. } => None,
    }
}

/// How many tokens the post-processors of a sequence add from one of them on, where
/// the count of each is written out.
pub open spec fn exact_sum(processors: Seq<PostProcessorModel>, from: nat, is_pair: bool) -> Option<nat>
    decreases processors, processors.len() - from,
{
    if from >= processors.len() {
        Some(0)
    } else {
        match (exact_added(processors[from as int], is_pair), exact_sum(processors, from + 1, is_pair)) {
            (Some(first), Some(others)) => Some(first + others),
            _ => None,
        }
    }
}

/// Whether a count is what the post-processor is known to add, where that is written
/// out.
pub open spec fn settled_count(post_processor: PostProcessorModel, is_pair: bool, count: usize) -> bool {
    exact_added(post_processor, is_pair) matches Some(known) ==> count == known
}

/// What the engine makes of the encodings of one sequence, or of a pair, with a
/// post-processor: the encodings afterwards, or the message of its refusal.
pub uninterp spec fn processed(
    post_processor: PostProcessorModel,
    encodings: Seq<EncodingModel>,
    add_special_tokens: bool,
) -> Result<Seq<EncodingModel>, Seq<char>>;

/// One number, a number of times.
pub open spec fn repeated(value: u32, count: nat) -> Seq<u32> {
    Seq::new(count, |i: int| value)
}

/// An encoding between the tokens that are put around a sequence after BERT, without
/// its overflowing chunks: the first sequence stands between the token that starts
/// the whole and the token that separates, the second in front of a token that
/// separates. The tokens put there are special tokens without a word or a place in
/// the text; those around the first sequence are of type 0, the one behind the second
/// of type 1. Every token counts for attention. The range of the sequence is that of
/// its own tokens.
pub open spec fn bert_framed(e: EncodingModel, sep: (Seq<char>, u32), cls: (Seq<char>, u32), second: bool) -> EncodingModel {
    if second {
        EncodingModel {
            ids: e.ids + seq![sep.1],
            type_ids: e.type_ids + seq![1u32],
            tokens: e.tokens + seq![sep.0],
            words: e.words + seq![None::<u32>],
            offsets: e.offsets + seq![(0usize, 0usize)],
            special_tokens_mask: repeated(0, e.type_ids.len()) + seq![1u32],
            attention_mask: repeated(1, e.ids.len() + 1),
            sequence_ranges: Map::<usize, (usize, usize)>::empty().insert(1, (0, e.ids.len() as usize)),
            overflowing: Seq::empty(),
        }
    } else {
        EncodingModel {
            ids: seq![cls.1] + e.ids + seq![sep.1],
            type_ids: seq![0u32] + e.type_ids + seq![0u32],
            tokens: seq![cls.0] + e.tokens + seq![sep.0],
            words: seq![None::<u32>] + e.words + seq![None::<u32>],
            offsets: seq![(0usize, 0usize)] + e.offsets + seq![(0usize, 0usize)],
            special_tokens_mask: seq![1u32] + repeated(0, e.ids.len()) + seq![1u32],
            attention_mask: repeated(1, e.ids.len() + 2),
            sequence_ranges: Map::<usize, (usize, usize)>::empty().insert(0, (1, (e.ids.len() + 1) as usize)),
            overflowing: Seq::empty(),
        }
    }
}

/// An encoding as it is processed after BERT: between its tokens, and each of its
/// overflowing chunks between them too.
pub open spec fn bert_processed(e: EncodingModel, sep: (Seq<char>, u32), cls: (Seq<char>, u32), second: bool) -> EncodingModel {
    EncodingModel {
        overflowing: Seq::new(e.overflowing.len(), |i: int| bert_framed(e.overflowing[i], sep, cls, second)),
        ..bert_framed(e, sep, cls, second)
    }
}

/// What the post-processors whose work is written out here make of encodings: after
/// BERT, each encoding between its tokens, the first as the first sequence and any
/// other as the second; and the encodings as they are where no special tokens are to
/// be added. Nothing for the other post-processors.
pub open spec fn exact_processed(
    post_processor: PostProcessorModel,
    encodings: Seq<EncodingModel>,
    add_special_tokens: bool,
) -> Option<Seq<EncodingModel>> {
    match post_processor {
        PostProcessorModel::Bert { sep, cls } => Some(
            if add_special_tokens {
                Seq::new(encodings.len(), |i: int| bert_processed(encodings[i], sep, cls, i != 0))
            } else {
                encodings
            },
        ),
        _ => None,
    }
}

/// Whether an outcome is what the post-processor is known to make of encodings, where
/// that is written out.
pub open spec fn settled_encodings(
    post_processor: PostProcessorModel,
    encodings: Seq<EncodingModel>,
    add_special_tokens: bool,
    outcome: Result<Seq<EncodingModel>, Seq<char>>,
) -> bool {
    exact_processed(post_processor, encodings, add_special_tokens) matches Some(made) ==> outcome == Ok::<
        Seq<EncodingModel>,
        Seq<char>,
    >(made)
}

/// The encodings of an outcome of the engine, or the message that came instead, as
/// mathematics.
pub open spec fn encodings_outcome(outcome: Result<Vec<tokenizers::Encoding>, String>) -> Result<
    Seq<EncodingModel>,
    Seq<char>,
> {
    match outcome {
        Ok(made) => Ok(encoding_models(made@)),
        Err(message) => Err(message@),
    }
}

/// An encoding whose sequences are of one length has sequences of one length after
/// it was processed after BERT, in itself and in its chunks.
pub proof fn lemma_bert_keeps_aligned(e: EncodingModel, sep: (Seq<char>, u32), cls: (Seq<char>, u32), second: bool)
    requires
        e.aligned_throughout(),
    ensures
        bert_processed(e, sep, cls, second).aligned_throughout(),
{
    let made = bert_processed(e, sep, cls, second);
    assert(made.aligned());
    assert forall|i: int| 0 <= i < made.overflowing.len() implies (#[trigger] made.overflowing[i]).aligned_throughout() by {
        let chunk = e.overflowing[i];
        assert(chunk.aligned_throughout());
        assert(bert_framed(chunk, sep, cls, second).aligned());
        assert(bert_framed(chunk, sep, cls, second).overflowing.len() == 0);
    }
}

/// What is written out of the work of a post-processor on encodings whose sequences
/// are of one length has sequences of one length.
pub proof fn lemma_exact_keeps_aligned(
    post_processor: PostProcessorModel,
    encodings: Seq<EncodingModel>,
    add_special_tokens: bool,
)
    requires
        all_aligned(encodings),
        exact_processed(post_processor, encodings, add_special_tokens) is Some,
    ensures
        all_aligned(exact_processed(post_processor, encodings, add_special_tokens)->Some_0),
{
    let made = exact_processed(post_processor, encodings, add_special_tokens)->Some_0;
    match post_processor {
        PostProcessorModel::Bert { sep, cls } => {
            if add_special_tokens {
                assert forall|i: int| 0 <= i < made.len() implies (#[trigger] made[i]).aligned_throughout() by {
                    assert(encodings[i].aligned_throughout());
                    lemma_bert_keeps_aligned(encodings[i], sep, cls, i != 0);
                }
            }
        },
        _ => {},
    }
}

/// What a sequence of encodings of the engine holds.
pub open spec fn encoding_models(encodings: Seq<tokenizers::Encoding>) -> Seq<EncodingModel> {
    Seq::new(encodings.len(), |i: int| encoding_model(encodings[i]))
}

/// What a sequence of handles on encodings holds.
pub open spec fn encoding_views(encodings: Seq<ExTokenizersEncoding>) -> Seq<EncodingModel> {
    Seq::new(encodings.len(), |i: int| encodings[i]@)
}

/// The descriptions of a sequence of post-processors.
pub open spec fn post_processor_descriptions(post_processors: Seq<tokenizers::PostProcessorWrapper>) -> Seq<
    PostProcessorModel,
> {
    Seq::new(post_processors.len(), |i: int| post_processor_description(post_processors[i]))
}

/// A token with its id, as mathematics.
pub open spec fn token_with_id(pair: (String, u32)) -> (Seq<char>, u32) {
    (pair.0@, pair.1)
}

/// Tokens with their ids, as mathematics.
pub open spec fn tokens_with_ids(pairs: Seq<(String, u32)>) -> Seq<(Seq<char>, u32)> {
    Seq::new(pairs.len(), |i: int| token_with_id(pairs[i]))
}

/// `Clone::clone` of `tokenizers::PostProcessorWrapper`, which is derived: the copy is
/// the same post-processor with the same settings.
pub assume_specification[ <tokenizers::PostProcessorWrapper as Clone>::clone ](
    post_processor: &tokenizers::PostProcessorWrapper,
) -> (copy: tokenizers::PostProcessorWrapper)
    ensures
        post_processor_description(copy) == post_processor_description(*post_processor),
;

/// `tokenizers::processors::bert::BertProcessing::new`, as a post-processor of any
/// kind.
#[verifier::external_body]
fn bert_post_processor(sep: (String, u32), cls: (String, u32)) -> (post_processor:
    tokenizers::PostProcessorWrapper)
    ensures
        post_processor_description(post_processor) == (PostProcessorModel::Bert {
            sep: token_with_id(sep),
            cls: token_with_id(cls),
        }),
{
    tokenizers::processors::bert::BertProcessing::new(sep, cls).into()
}

/// `tokenizers::processors::roberta::RobertaProcessing::new`, then its setters
/// `trim_offsets` and `add_prefix_space`, as a post-processor of any kind.
#[verifier::external_body]
fn roberta_post_processor(
    sep: (String, u32),
    cls: (String, u32),
    trim_offsets: bool,
    add_prefix_space: bool,
) -> (post_processor: tokenizers::PostProcessorWrapper)
    ensures
        post_processor_description(post_processor) == (PostProcessorModel::Roberta {
            sep: token_with_id(sep),
            cls: token_with_id(cls),
            trim_offsets,
            add_prefix_space,
        }),
{
    tokenizers::processors::roberta::RobertaProcessing::new(sep, cls).trim_offsets(
        trim_offsets,
    ).add_prefix_space(add_prefix_space).into()
}

/// `tokenizers::processors::byte_level::ByteLevel::new`, as a post-processor of any
/// kind.
#[verifier::external_body]
fn byte_level_post_processor(add_prefix_space: bool, trim_offsets: bool, use_regex: bool) -> (post_processor:
    tokenizers::PostProcessorWrapper)
    ensures
        post_processor_description(post_processor) == (PostProcessorModel::ByteLevel {
            add_prefix_space,
            trim_offsets,
            use_regex,
        }),
{
    tokenizers::processors::byte_level::ByteLevel::new(add_prefix_space, trim_offsets, use_regex).into()
}

/// `tokenizers::processors::template::TemplateProcessing::builder`: a builder that has
/// been given nothing.
#[verifier::external_body]
fn template_builder() -> (builder: tokenizers::processors::template::TemplateProcessingBuilder)
    ensures
        template_builder_settings(builder) == (TemplateSettings {
            single: None,
            pair: None,
            special_tokens: None,
        }),
{
    tokenizers::processors::template::TemplateProcessing::builder()
}

/// `tokenizers::processors::template::TemplateProcessingBuilder::try_single`: the
/// template for one sequence, where the engine can read it; else the builder stays as
/// it was.
#[verifier::external_body]
fn template_try_single(
    builder: &mut tokenizers::processors::template::TemplateProcessingBuilder,
    template: String,
) -> (outcome: Result<(), BadArg>)
    ensures
        outcome is Ok <==> template_parses(template@),
        template_builder_settings(*final(builder)) == if template_parses(template@) {
            TemplateSettings { single: Some(template@), ..template_builder_settings(*old(builder)) }
        } else {
            template_builder_settings(*old(builder))
        },
{
    builder.try_single(template).map(|_| ()).map_err(|_| BadArg)
}

/// `tokenizers::processors::template::TemplateProcessingBuilder::try_pair`: the
/// template for a pair, where the engine can read it; else the builder stays as it was.
#[verifier::external_body]
fn template_try_pair(
    builder: &mut tokenizers::processors::template::TemplateProcessingBuilder,
    template: String,
) -> (outcome: Result<(), BadArg>)
    ensures
        outcome is Ok <==> template_parses(template@),
        template_builder_settings(*final(builder)) == if template_parses(template@) {
            TemplateSettings { pair: Some(template@), ..template_builder_settings(*old(builder)) }
        } else {
            template_builder_settings(*old(builder))
        },
{
    builder.try_pair(template).map(|_| ()).map_err(|_| BadArg)
}

/// `tokenizers::processors::template::TemplateProcessingBuilder::special_tokens`: the
/// special tokens with their ids.
#[verifier::external_body]
fn template_special_tokens(
    builder: &mut tokenizers::processors::template::TemplateProcessingBuilder,
    special_tokens: Vec<(String, u32)>,
)
    ensures
        template_builder_settings(*final(builder)) == (TemplateSettings {
            special_tokens: Some(tokens_with_ids(special_tokens@)),
            ..template_builder_settings(*old(builder))
        }),
{
    builder.special_tokens(special_tokens);
}

/// `tokenizers::processors::template::TemplateProcessingBuilder::build`, as a
/// post-processor of any kind: the processor made from what the builder was given,
/// where the engine accepts that.
#[verifier::external_body]
fn template_build(builder: &tokenizers::processors::template::TemplateProcessingBuilder) -> (post_processor: Result<
    tokenizers::PostProcessorWrapper,
    BadArg,
>)
    ensures
        match post_processor {
            Ok(post_processor) => template_accepted(template_builder_settings(*builder))
                && post_processor_description(post_processor) == (PostProcessorModel::Template {
                settings: template_builder_settings(*builder),
            }),
            Err(_) => !template_accepted(template_builder_settings(*builder)),
        },
{
    builder.build().map(|template| template.into()).map_err(|_| BadArg)
}

/// `tokenizers::processors::sequence::Sequence::new`, as a post-processor of any kind.
#[verifier::external_body]
fn sequence_post_processor(processors: Vec<tokenizers::PostProcessorWrapper>) -> (post_processor:
    tokenizers::PostProcessorWrapper)
    ensures
        post_processor_description(post_processor) == (PostProcessorModel::Sequence {
            processors: post_processor_descriptions(processors@),
        }),
{
    tokenizers::processors::sequence::Sequence::new(processors).into()
}

/// `tokenizers::PostProcessor::added_tokens` of `tokenizers::PostProcessorWrapper`.
#[verifier::external_body]
pub(crate) fn added_tokens(post_processor: &tokenizers::PostProcessorWrapper, is_pair: bool) -> (count: usize)
    ensures
        count == added_token_count(post_processor_description(*post_processor), is_pair),
        settled_count(post_processor_description(*post_processor), is_pair, count),
{
    post_processor.added_tokens(is_pair)
}

/// `tokenizers::processors::template::TemplateProcessing::get_single` of a template
/// processor in a post-processor.
#[verifier::external_body]
fn template_single(post_processor: &tokenizers::PostProcessorWrapper) -> (printed: Option<String>)
    ensures
        match post_processor_description(*post_processor) {
            PostProcessorModel::Template { settings } => printed matches Some(text) && text@ == single_printed(
                settings,
            ),
            _ => printed is None,
        },
{
    match post_processor {
        tokenizers::PostProcessorWrapper::Template(t) => Some(t.get_single()),
        _ => None,
    }
}

/// Of a `tokenizers::processors::template::TemplateProcessing` in a post-processor:
/// whether `tokenizers::processors::template::TemplateProcessingBuilder::build`
/// accepts its templates and special tokens when they are handed to a builder again.
#[verifier::external_body]
fn template_rebuilds(post_processor: &tokenizers::PostProcessorWrapper) -> (accepted: Option<bool>)
    ensures
        match post_processor_description(*post_processor) {
            PostProcessorModel::Template { settings } => accepted == Some(template_accepted(settings)),
            _ => accepted is None,
        },
{
    match post_processor {
        tokenizers::PostProcessorWrapper::Template(t) => Some(
            tokenizers::processors::template::TemplateProcessing::builder().single(t.single.clone()).pair(
                t.get_pair().clone(),
            ).special_tokens(t.get_special_tokens().clone()).build().is_ok(),
        ),
        _ => None,
    }
}

/// The post-processors of a `tokenizers::processors::sequence::Sequence` in a
/// post-processor, copied.
#[verifier::external_body]
fn sequence_parts(post_processor: &tokenizers::PostProcessorWrapper) -> (parts: Option<Vec<tokenizers::PostProcessorWrapper>>)
    ensures
        match post_processor_description(*post_processor) {
            PostProcessorModel::Sequence { processors } => parts matches Some(found)
                && post_processor_descriptions(found@) == processors,
            _ => parts is None,
        },
{
    match post_processor {
        tokenizers::PostProcessorWrapper::Sequence(sequence) => Some(sequence.as_ref().to_vec()),
        _ => None,
    }
}

/// `tokenizers::PostProcessor::process_encodings` of `tokenizers::PostProcessorWrapper`,
/// with the engine's error as its message. A template processor knows what to make of
/// one encoding or of two only, and reads the encodings' sequences side by side: so
/// there are one or two encodings, well-formed, and the post-processor fits them. The
/// encodings that come back record, as the engine documents it, for each sequence a
/// range of their own tokens. What is made of them after BERT is written out in
/// `exact_processed`.
#[verifier::external_body]
fn process_encodings(
    post_processor: &tokenizers::PostProcessorWrapper,
    encodings: Vec<tokenizers::Encoding>,
    add_special_tokens: bool,
) -> (outcome: Result<Vec<tokenizers::Encoding>, String>)
    requires
        1 <= encodings@.len() <= 2,
        post_processor_description(*post_processor).fits(encodings@.len() == 2),
        forall|i: int| 0 <= i < encodings@.len() ==> encoding_model(#[trigger] encodings@[i]).well_formed(),
    ensures
        match outcome {
            Ok(made) => {
                &&& processed(
                    post_processor_description(*post_processor),
                    encoding_models(encodings@),
                    add_special_tokens,
                ) == Ok::<Seq<EncodingModel>, Seq<char>>(encoding_models(made@))
                &&& forall|i: int|
                    0 <= i < made@.len() ==> encoding_model(#[trigger] made@[i]).ranges_in_bounds_throughout()
            },
            Err(message) => processed(
                post_processor_description(*post_processor),
                encoding_models(encodings@),
                add_special_tokens,
            ) == Err::<Seq<EncodingModel>, Seq<char>>(message@),
        },
        settled_encodings(
            post_processor_description(*post_processor),
            encoding_models(encodings@),
            add_special_tokens,
            encodings_outcome(outcome),
        ),
{
    post_processor.process_encodings(encodings, add_special_tokens).map_err(|error| error.to_string())
}

/// Which variant of `tokenizers::PostProcessorWrapper` a post-processor is.
#[verifier::external_body]
fn post_processor_kind(post_processor: &tokenizers::PostProcessorWrapper) -> (kind: PostProcessorKind)
    ensures
        kind == post_processor_description(*post_processor).kind(),
{
    match post_processor {
        tokenizers::PostProcessorWrapper::Roberta(_) => PostProcessorKind::Roberta,
        tokenizers::PostProcessorWrapper::Bert(_) => PostProcessorKind::Bert,
        tokenizers::PostProcessorWrapper::ByteLevel(_) => PostProcessorKind::ByteLevel,
        tokenizers::PostProcessorWrapper::Template(_) => PostProcessorKind::Template,
        tokenizers::PostProcessorWrapper::Sequence(_) => PostProcessorKind::Sequence,
    }
}

/// A post-processor of the engine, owned by the library.
pub struct ExTokenizersPostProcessorRef(pub tokenizers::PostProcessorWrapper);

/// A handle on a post-processor.
#[derive(Clone)]
pub struct ExTokenizersPostProcessor {
    pub resource: Arc<ExTokenizersPostProcessorRef>,
}

impl View for ExTokenizersPostProcessorRef {
    type V = PostProcessorModel;

    open spec fn view(&self) -> PostProcessorModel {
        post_processor_description(self.0)
    }
}

impl View for ExTokenizersPostProcessor {
    type V = PostProcessorModel;

    open spec fn view(&self) -> PostProcessorModel {
        self.resource@
    }
}

impl ExTokenizersPostProcessorRef {
    /// The resource that owns the given post-processor.
    pub fn new(data: tokenizers::PostProcessorWrapper) -> (resource: Self)
        ensures
            resource@ == post_processor_description(data),
    {
        Self(data)
    }
}

/// Whether every encoding of a list is aligned, in itself and in its chunks.
pub open spec fn all_aligned(encodings: Seq<EncodingModel>) -> bool {
    forall|i: int| 0 <= i < encodings.len() ==> (#[trigger] encodings[i]).aligned_throughout()
}

impl ExTokenizersPostProcessor {
    /// What the post-processor makes of the encodings of one sequence, or of a pair:
    /// what the engine makes of them, and after BERT what `exact_processed` says: where
    /// the work is written out, it does not fail. Other numbers of encodings are
    /// refused, and so is a post-processor that the engine cannot run on them.
    pub fn process_encodings(&self, encodings: Vec<ExTokenizersEncoding>, add_special_tokens: bool) -> (outcome: Result<
        Vec<ExTokenizersEncoding>,
        ExTokenizersError,
    >)
        ensures
            !(1 <= encodings@.len() <= 2 && self@.fits(encodings@.len() == 2)) ==> outcome matches Err(
                ExTokenizersError::Other(_),
            ),
            1 <= encodings@.len() <= 2 && self@.fits(encodings@.len() == 2) ==> match processed(
                self@,
                encoding_views(encodings@),
                add_special_tokens,
            ) {
                Ok(made) => if all_aligned(made) {
                    outcome matches Ok(handles) && encoding_views(handles@) == made
                } else {
                    outcome matches Err(ExTokenizersError::Internal(_))
                },
                Err(message) => outcome matches Err(ExTokenizersError::Tokenizer(text)) && text@ == message,
            },
            outcome matches Ok(handles) ==> settled_encodings(
                self@,
                encoding_views(encodings@),
                add_special_tokens,
                Ok(encoding_views(handles@)),
            ),
            1 <= encodings@.len() <= 2 && exact_processed(self@, encoding_views(encodings@), add_special_tokens)
                is Some ==> outcome is Ok,
    {
        let n = encodings.len();
        if n < 1 || n > 2 || !fits(&self.resource.0, n == 2) {
            return Err(
                ExTokenizersError::Other("the post-processor cannot be run on these encodings".to_owned()),
            );
        }
        let mut inner: Vec<tokenizers::Encoding> = Vec::new();
        let mut i: usize = 0;
        while i < n
            invariant
                i <= n,
                n == encodings@.len(),
                inner@.len() == i,
                forall|j: int|
                    0 <= j < i ==> encoding_model(#[trigger] inner@[j]) == encodings@[j]@ && encodings@[j]@.well_formed(),
            decreases n - i,
        {
            let ghost before = inner@;
            let copy = encodings[i].encoding().clone();
            assert(encoding_model(copy) == encodings@[i as int]@);
            inner.push(copy);
            assert(forall|j: int| 0 <= j < i ==> inner@[j] == before[j]);
            i += 1;
        }
        assert(encoding_models(inner@) =~= encoding_views(encodings@));
        let ghost expected = processed(self@, encoding_views(encodings@), add_special_tokens);
        proof {
            if exact_processed(self@, encoding_views(encodings@), add_special_tokens) is Some {
                assert(all_aligned(encoding_views(encodings@)));
                lemma_exact_keeps_aligned(self@, encoding_views(encodings@), add_special_tokens);
            }
        }
        match process_encodings(&self.resource.0, inner, add_special_tokens) {
            Ok(made) => {
                let ghost models = encoding_models(made@);
                let ghost known = exact_processed(self@, encoding_views(encodings@), add_special_tokens);
                assert(known is Some ==> all_aligned(models));
                let mut made = made;
                let mut reversed: Vec<ExTokenizersEncoding> = Vec::new();
                while made.len() > 0
                    invariant
                        1 <= encodings@.len() <= 2 && self@.fits(encodings@.len() == 2),
                        known == exact_processed(self@, encoding_views(encodings@), add_special_tokens),
                        known is Some ==> all_aligned(models),
                        expected == processed(self@, encoding_views(encodings@), add_special_tokens),
                        expected == Ok::<Seq<EncodingModel>, Seq<char>>(models),
                        reversed@.len() + made@.len() == models.len(),
                        forall|j: int|
                            0 <= j < made@.len() ==> encoding_model(#[trigger] made@[j]) == models[j]
                                && models[j].ranges_in_bounds_throughout(),
                        forall|j: int|
                            0 <= j < reversed@.len() ==> (#[trigger] reversed@[j])@ == models[models.len() - 1 - j]
                                && models[models.len() - 1 - j].aligned_throughout(),
                    decreases made@.len(),
                {
                    let ghost place = made@.len() - 1;
                    let encoding = made.pop().unwrap();
                    match ExTokenizersEncoding::try_new(encoding) {
                        Ok(handle) => reversed.push(handle),
                        Err(error) => {
                            assert(!models[place].aligned_throughout());
                            return Err(error);
                        },
                    }
                }
                let mut handles: Vec<ExTokenizersEncoding> = Vec::new();
                while reversed.len() > 0
                    invariant
                        handles@.len() + reversed@.len() == models.len(),
                        forall|j: int|
                            0 <= j < reversed@.len() ==> (#[trigger] reversed@[j])@ == models[models.len() - 1 - j]
                                && models[models.len() - 1 - j].aligned_throughout(),
                        forall|j: int|
                            0 <= j < handles@.len() ==> (#[trigger] handles@[j])@ == models[j]
                                && models[j].aligned_throughout(),
                    decreases reversed@.len(),
                {
                    let ghost place = reversed@.len() - 1;
                    let handle = reversed.pop().unwrap();
                    assert(handle@ == models[models.len() - 1 - place]);
                    handles.push(handle);
                }
                assert(encoding_views(handles@) =~= models);
                Ok(handles)
            },
            Err(message) => Err(ExTokenizersError::Tokenizer(message)),
        }
    }

    /// How many tokens the post-processor adds to one sequence, or to a pair.
    pub fn added_tokens(&self, is_pair: bool) -> (count: usize)
        ensures
            count == added_token_count(self@, is_pair),
            settled_count(self@, is_pair, count),
    {
        added_tokens(&self.resource.0, is_pair)
    }

    /// A handle on the given post-processor.
    pub fn new(data: tokenizers::PostProcessorWrapper) -> (handle: Self)
        ensures
            handle@ == post_processor_description(data),
    {
        Self { resource: Arc::new(ExTokenizersPostProcessorRef::new(data)) }
    }
}

/// Whether a post-processor of the engine is a template processor, or a sequence that
/// holds one at any depth.
pub fn holds_template(post_processor: &tokenizers::PostProcessorWrapper) -> (found: bool)
    ensures
        found == post_processor_description(*post_processor).holds_template(),
    decreases post_processor_description(*post_processor),
{
    match post_processor_kind(post_processor) {
        PostProcessorKind::Template => true,
        PostProcessorKind::Sequence => {
            let parts = sequence_parts(post_processor).unwrap();
            let ghost processors = post_processor_descriptions(parts@);
            let mut i: usize = 0;
            while i < parts.len()
                invariant
                    i <= parts@.len(),
                    processors == post_processor_descriptions(parts@),
                    post_processor_description(*post_processor) == (PostProcessorModel::Sequence { processors }),
                    forall|j: int| 0 <= j < i ==> !(#[trigger] processors[j]).holds_template(),
                decreases parts@.len() - i,
            {
                proof {
                    let whole = post_processor_description(*post_processor);
                    assert(post_processor_description(parts@[i as int]) == processors[i as int]);
                    assert(whole->processors == processors);
                    assert(decreases_to!(whole => whole->processors));
                    assert(decreases_to!(processors => processors[i as int]));
                }
                if holds_template(&parts[i]) {
                    assert(processors[i as int].holds_template());
                    return true;
                }
                i += 1;
            }
            false
        },
        _ => false,
    }
}

/// Whether the engine can run a post-processor on one sequence, or on a pair.
pub fn fits(post_processor: &tokenizers::PostProcessorWrapper, is_pair: bool) -> (fit: bool)
    ensures
        fit == post_processor_description(*post_processor).fits(is_pair),
    decreases post_processor_description(*post_processor),
{
    match post_processor_kind(post_processor) {
        PostProcessorKind::Template => {
            let printed = template_single(post_processor).unwrap();
            template_rebuilds(post_processor).unwrap() && (is_pair || !has_text(printed.as_str(), "id: B"))
        },
        PostProcessorKind::Sequence => {
            let parts = sequence_parts(post_processor).unwrap();
            let ghost processors = post_processor_descriptions(parts@);
            let mut seen: bool = false;
            let mut i: usize = 0;
            while i < parts.len()
                invariant
                    i <= parts@.len(),
                    processors == post_processor_descriptions(parts@),
                    post_processor_description(*post_processor) == (PostProcessorModel::Sequence { processors }),
                    forall|j: int| 0 <= j < i ==> (#[trigger] processors[j]).fits(is_pair),
                    seen == exists|j: int| 0 <= j < i && (#[trigger] processors[j]).holds_template(),
                    forall|a: int, b: int|
                        0 <= a < b < i ==> !((#[trigger] processors[a]).holds_template() && (
                        #[trigger] processors[b]).holds_template()),
                decreases parts@.len() - i,
            {
                proof {
                    let whole = post_processor_description(*post_processor);
                    assert(post_processor_description(parts@[i as int]) == processors[i as int]);
                    assert(whole->processors == processors);
                    assert(decreases_to!(whole => whole->processors));
                    assert(decreases_to!(processors => processors[i as int]));
                }
                if !fits(&parts[i], is_pair) {
                    assert(!processors[i as int].fits(is_pair));
                    return false;
                }
                if holds_template(&parts[i]) {
                    if seen {
                        proof {
                            let j = choose|j: int| 0 <= j < i && (#[trigger] processors[j]).holds_template();
                            assert(processors[j].holds_template() && processors[i as int].holds_template());
                        }
                        return false;
                    }
                    seen = true;
                    assert(processors[i as int].holds_template());
                }
                i += 1;
            }
            true
        },
        _ => true,
    }
}

/// The name of a kind of post-processor.
pub open spec fn post_processor_kind_name(kind: PostProcessorKind) -> Seq<char> {
    match kind {
        PostProcessorKind::Roberta => "roberta"@,
        PostProcessorKind::Bert => "bert"@,
        PostProcessorKind::ByteLevel => "byte_level"@,
        PostProcessorKind::Template => "template"@,
        PostProcessorKind::Sequence => "sequence"@,
    }
}

/// The description that a post-processor gives of itself: its kind, under the name
/// `post_processor_type`.
pub open spec fn post_processor_info(post_processor: PostProcessorModel) -> Seq<(Seq<char>, InfoValueModel)> {
    seq![("post_processor_type"@, InfoValueModel::Text(post_processor_kind_name(post_processor.kind())))]
}

/// The description that the post-processor gives of itself.
pub fn post_processors_info(post_processor: ExTokenizersPostProcessor) -> (info: Info)
    ensures
        info@ == post_processor_info(post_processor@),
{
    let name = match post_processor_kind(&post_processor.resource.0) {
        PostProcessorKind::Roberta => "roberta",
        PostProcessorKind::Bert => "bert",
        PostProcessorKind::ByteLevel => "byte_level",
        PostProcessorKind::Template => "template",
        PostProcessorKind::Sequence => "sequence",
    };
    let mut info = Info::new();
    info.push("post_processor_type", InfoValue::Text(name.to_owned()));
    assert(info@ =~= post_processor_info(post_processor@));
    info
}

/// The BERT post-processor with the given separator and classifier tokens.
pub fn post_processors_bert(sep: (String, u32), cls: (String, u32)) -> (post_processor:
    ExTokenizersPostProcessor)
    ensures
        post_processor@ == (PostProcessorModel::Bert { sep: token_with_id(sep), cls: token_with_id(cls) }),
{
    ExTokenizersPostProcessor::new(bert_post_processor(sep, cls))
}

/// One setting of a RoBERTa post-processor.
pub enum RobertaOption {
    TrimOffsets(bool),
    AddPrefixSpace(bool),
}

/// The settings of a RoBERTa post-processor that options can change.
pub struct RobertaSettings {
    pub trim_offsets: bool,
    pub add_prefix_space: bool,
}

impl RobertaSettings {
    /// The settings that no option has changed: both on.
    pub open spec fn initial() -> RobertaSettings {
        RobertaSettings { trim_offsets: true, add_prefix_space: true }
    }

    /// The settings with one option applied.
    pub open spec fn with(self, option: RobertaOption) -> RobertaSettings {
        match option {
            RobertaOption::TrimOffsets(value) => RobertaSettings { trim_offsets: value, ..self },
            RobertaOption::AddPrefixSpace(value) => RobertaSettings { add_prefix_space: value, ..self },
        }
    }

    /// The settings that a list of options describes: of two options for one setting
    /// the later one counts.
    pub open spec fn from_options(options: Seq<RobertaOption>) -> RobertaSettings
        decreases options.len(),
    {
        if options.len() == 0 {
            RobertaSettings::initial()
        } else {
            RobertaSettings::from_options(options.drop_last()).with(options.last())
        }
    }
}

/// The RoBERTa post-processor with the given separator and classifier tokens, as the
/// options describe.
pub fn post_processors_roberta(sep: (String, u32), cls: (String, u32), opts: Vec<RobertaOption>) -> (post_processor:
    ExTokenizersPostProcessor)
    ensures
        post_processor@ == (PostProcessorModel::Roberta {
            sep: token_with_id(sep),
            cls: token_with_id(cls),
            trim_offsets: RobertaSettings::from_options(opts@).trim_offsets,
            add_prefix_space: RobertaSettings::from_options(opts@).add_prefix_space,
        }),
{
    let mut trim_offsets: bool = true;
    let mut add_prefix_space: bool = true;
    let mut i: usize = 0;
    while i < opts.len()
        invariant
            i <= opts@.len(),
            (RobertaSettings { trim_offsets, add_prefix_space }) == RobertaSettings::from_options(
                opts@.take(i as int),
            ),
        decreases opts@.len() - i,
    {
        proof {
            lemma_take_step(opts@, i as int);
        }
        match &opts[i] {
            RobertaOption::TrimOffsets(value) => trim_offsets = *value,
            RobertaOption::AddPrefixSpace(value) => add_prefix_space = *value,
        }
        i += 1;
    }
    proof {
        lemma_take_all(opts@);
    }
    ExTokenizersPostProcessor::new(roberta_post_processor(sep, cls, trim_offsets, add_prefix_space))
}

/// One setting of a byte-level post-processor.
pub enum ByteLevelOption {
    TrimOffsets(bool),
}

/// Whether a list of options asks to trim offsets: what the last option says, and yes
/// where there is none.
pub open spec fn byte_level_trims(options: Seq<ByteLevelOption>) -> bool {
    if options.len() == 0 {
        true
    } else {
        match options.last() {
            ByteLevelOption::TrimOffsets(trim) => trim,
        }
    }
}

/// The byte-level post-processor that the options describe; it adds a prefix space and
/// uses the regular expression.
pub fn post_processors_byte_level(opts: Vec<ByteLevelOption>) -> (post_processor: ExTokenizersPostProcessor)
    ensures
        post_processor@ == (PostProcessorModel::ByteLevel {
            add_prefix_space: true,
            trim_offsets: byte_level_trims(opts@),
            use_regex: true,
        }),
{
    let mut trim_offsets: bool = true;
    let mut i: usize = 0;
    while i < opts.len()
        invariant
            i <= opts@.len(),
            trim_offsets == byte_level_trims(opts@.take(i as int)),
        decreases opts@.len() - i,
    {
        proof {
            lemma_take_step(opts@, i as int);
        }
        match &opts[i] {
            ByteLevelOption::TrimOffsets(value) => trim_offsets = *value,
        }
        i += 1;
    }
    proof {
        lemma_take_all(opts@);
    }
    ExTokenizersPostProcessor::new(byte_level_post_processor(true, trim_offsets, true))
}

/// One setting of a template post-processor.
pub enum TemplateOption {
    /// The template for one sequence.
    Single(String),
    /// The template for a pair of sequences.
    Pair(String),
    /// The special tokens of the templates, each with its id.
    SpecialTokens(Vec<(String, u32)>),
}

impl TemplateSettings {
    /// The settings that no option has changed: nothing given.
    pub open spec fn initial() -> TemplateSettings {
        TemplateSettings { single: None, pair: None, special_tokens: None }
    }

    /// Whether an option can be applied: a template has to be one that the engine can
    /// read.
    pub open spec fn accepts(option: TemplateOption) -> bool {
        match option {
            TemplateOption::Single(template) => template_parses(template@),
            TemplateOption::Pair(template) => template_parses(template@),
            TemplateOption::SpecialTokens(_) => true,
        }
    }

    /// The settings with one option applied.
    pub open spec fn with(self, option: TemplateOption) -> TemplateSettings {
        match option {
            TemplateOption::Single(template) => TemplateSettings { single: Some(template@), ..self },
            TemplateOption::Pair(template) => TemplateSettings { pair: Some(template@), ..self },
            TemplateOption::SpecialTokens(tokens) => TemplateSettings {
                special_tokens: Some(tokens_with_ids(tokens@)),
                ..self
            },
        }
    }

    /// The settings that a list of options describes, where every option can be
    /// applied: of two options for one setting the later one counts.
    pub open spec fn from_options(options: Seq<TemplateOption>) -> Option<TemplateSettings>
        decreases options.len(),
    {
        if options.len() == 0 {
            Some(TemplateSettings::initial())
        } else {
            match TemplateSettings::from_options(options.drop_last()) {
                Some(settings) if TemplateSettings::accepts(options.last()) => Some(
                    settings.with(options.last()),
                ),
                _ => None,
            }
        }
    }
}

/// Options that are refused as a whole are refused from one of them on.
pub proof fn lemma_template_refused(options: Seq<TemplateOption>, k: int)
    requires
        0 <= k <= options.len(),
        TemplateSettings::from_options(options.take(k)) is None,
    ensures
        TemplateSettings::from_options(options) is None,
    decreases options.len() - k,
{
    if k < options.len() {
        lemma_take_step(options, k);
        lemma_template_refused(options, k + 1);
    } else {
        lemma_take_all(options);
    }
}

/// The template post-processor that the options describe. It is refused where the
/// engine cannot read one of the templates, or does not accept the whole.
pub fn post_processors_template(opts: Vec<TemplateOption>) -> (post_processor: Result<
    ExTokenizersPostProcessor,
    BadArg,
>)
    ensures
        match post_processor {
            Ok(post_processor) => TemplateSettings::from_options(opts@) matches Some(settings)
                && template_accepted(settings) && post_processor@ == (PostProcessorModel::Template {
                settings,
            }),
            Err(_) => match TemplateSettings::from_options(opts@) {
                Some(settings) => !template_accepted(settings),
                None => true,
            },
        },
{
    let mut builder = template_builder();
    let mut i: usize = 0;
    while i < opts.len()
        invariant
            i <= opts@.len(),
            TemplateSettings::from_options(opts@.take(i as int)) == Some(template_builder_settings(builder)),
        decreases opts@.len() - i,
    {
        proof {
            lemma_take_step(opts@, i as int);
        }
        match &opts[i] {
            TemplateOption::Single(template) => {
                if template_try_single(&mut builder, template.clone()).is_err() {
                    proof {
                        lemma_template_refused(opts@, i + 1);
                    }
                    return Err(BadArg);
                }
            },
            TemplateOption::Pair(template) => {
                if template_try_pair(&mut builder, template.clone()).is_err() {
                    proof {
                        lemma_template_refused(opts@, i + 1);
                    }
                    return Err(BadArg);
                }
            },
            TemplateOption::SpecialTokens(tokens) => {
                let mut copy: Vec<(String, u32)> = Vec::new();
                let mut j: usize = 0;
                while j < tokens.len()
                    invariant
                        j <= tokens@.len(),
                        copy@.len() == j,
                        forall|k: int| 0 <= k < j ==> token_with_id(#[trigger] copy@[k]) == token_with_id(tokens@[k]),
                    decreases tokens@.len() - j,
                {
                    copy.push((tokens[j].0.clone(), tokens[j].1));
                    j += 1;
                }
                assert(tokens_with_ids(copy@) =~= tokens_with_ids(tokens@));
                template_special_tokens(&mut builder, copy);
            },
        }
        i += 1;
    }
    proof {
        lemma_take_all(opts@);
    }
    match template_build(&builder) {
        Ok(post_processor) => Ok(ExTokenizersPostProcessor::new(post_processor)),
        Err(refusal) => Err(refusal),
    }
}

/// The views of a sequence of post-processor handles.
pub open spec fn post_processor_views(post_processors: Seq<ExTokenizersPostProcessor>) -> Seq<PostProcessorModel> {
    Seq::new(post_processors.len(), |i: int| post_processors[i]@)
}

/// The post-processor that runs the given post-processors one after the other.
pub fn post_processors_sequence(post_processors: Vec<ExTokenizersPostProcessor>) -> (post_processor:
    ExTokenizersPostProcessor)
    ensures
        post_processor@ == (PostProcessorModel::Sequence {
            processors: post_processor_views(post_processors@),
        }),
{
    let mut sequence: Vec<tokenizers::PostProcessorWrapper> = Vec::new();
    let mut i: usize = 0;
    while i < post_processors.len()
        invariant
            i <= post_processors@.len(),
            sequence@.len() == i,
            forall|j: int|
                0 <= j < i ==> post_processor_description(#[trigger] sequence@[j]) == post_processors@[j]@,
        decreases post_processors@.len() - i,
    {
        sequence.push(post_processors[i].resource.0.clone());
        i += 1;
    }
    assert(post_processor_descriptions(sequence@) =~= post_processor_views(post_processors@));
    ExTokenizersPostProcessor::new(sequence_post_processor(sequence))
}

} // verus!
