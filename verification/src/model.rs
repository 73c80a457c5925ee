//! The details of a model, as a list of names with their values.

use crate::error::ExTokenizersError;
use crate::models::{
    bpe_flags, bpe_texts, model_kind, wordlevel_unk_token, wordpiece_settings, ExTokenizersModel, ModelKind,
    ModelModel,
};
use vstd::prelude::*;

verus! {

/// One value among the details of a model.
#[derive(Debug)]
pub enum ModelDetailValue {
    String(String),
    OptionString(Option<String>),
    Bool(bool),
    USize(usize),
}

/// A value among the details of a model, as mathematics.
pub enum ModelDetailModel {
    String(Seq<char>),
    OptionString(Option<Seq<char>>),
    Bool(bool),
    USize(usize),
}

impl View for ModelDetailValue {
    type V = ModelDetailModel;

    open spec fn view(&self) -> ModelDetailModel {
        match *self {
            ModelDetailValue::String(text) => ModelDetailModel::String(text@),
            ModelDetailValue::OptionString(text) => ModelDetailModel::OptionString(
                match text {
                    Some(text) => Some(text@),
                    None => None,
                },
            ),
            ModelDetailValue::Bool(flag) => ModelDetailModel::Bool(flag),
            ModelDetailValue::USize(size) => ModelDetailModel::USize(size),
        }
    }
}

/// Details as mathematics.
pub open spec fn detail_models(details: Seq<(String, ModelDetailValue)>) -> Seq<(Seq<char>, ModelDetailModel)> {
    Seq::new(details.len(), |i: int| (details[i].0@, details[i].1@))
}

/// The name of a kind of model among its details.
pub open spec fn model_type(kind: ModelKind) -> Seq<char> {
    match kind {
        ModelKind::Bpe => "bpe"@,
        ModelKind::WordPiece => "wordpiece"@,
        ModelKind::WordLevel => "wordlevel"@,
        ModelKind::Unigram => "unigram"@,
    }
}

/// The details of a model: under the name `model_type` the name of its kind, and then
/// the settings of the model under their names.
pub open spec fn model_details(model: ModelModel) -> Seq<(Seq<char>, ModelDetailModel)> {
    match model {
        ModelModel::Bpe { unk_token, continuing_subword_prefix, end_of_word_suffix, fuse_unk, .. } => seq![
            ("model_type"@, ModelDetailModel::String(model_type(ModelKind::Bpe))),
            ("unk_token"@, ModelDetailModel::OptionString(unk_token)),
            ("continuing_subword_prefix"@, ModelDetailModel::OptionString(continuing_subword_prefix)),
            ("end_of_word_suffix"@, ModelDetailModel::OptionString(end_of_word_suffix)),
            ("fuse_unk"@, ModelDetailModel::Bool(fuse_unk)),
        ],
        ModelModel::WordPiece { unk_token, continuing_subword_prefix, max_input_chars_per_word, .. } => seq![
            ("model_type"@, ModelDetailModel::String(model_type(ModelKind::WordPiece))),
            ("unk_token"@, ModelDetailModel::String(unk_token)),
            ("continuing_subword_prefix"@, ModelDetailModel::String(continuing_subword_prefix)),
            ("max_input_chars_per_word"@, ModelDetailModel::USize(max_input_chars_per_word)),
        ],
        ModelModel::WordLevel { unk_token, .. } => seq![
            ("model_type"@, ModelDetailModel::String(model_type(ModelKind::WordLevel))),
            ("unk_token"@, ModelDetailModel::String(unk_token)),
        ],
        ModelModel::Unigram { .. } => seq![("model_type"@, ModelDetailModel::String(model_type(ModelKind::Unigram)))],
    }
}

/// Enters a value under a name, behind the details that are there.
fn push_detail(details: &mut Vec<(String, ModelDetailValue)>, name: &str, value: ModelDetailValue)
    ensures
        detail_models(final(details)@) == detail_models(old(details)@).push((name@, value@)),
{
    details.push((name.to_owned(), value));
    assert(detail_models(details@) =~= detail_models(old(details)@).push((name@, value@)));
}

/// The details of the model: the name of its kind, and its settings.
pub fn get_model_details(model: ExTokenizersModel) -> (details: Result<
    Vec<(String, ModelDetailValue)>,
    ExTokenizersError,
>)
    ensures
        details matches Ok(details) && detail_models(details@) == model_details(model@),
{
    let inner = &model.resource.0;
    let mut details: Vec<(String, ModelDetailValue)> = Vec::new();
    assert(detail_models(details@) =~= Seq::empty());
    let kind = model_kind(inner);
    let name = match kind {
        ModelKind::Bpe => "bpe",
        ModelKind::WordPiece => "wordpiece",
        ModelKind::WordLevel => "wordlevel",
        ModelKind::Unigram => "unigram",
    };
    assert(name@ == model_type(kind));
    push_detail(&mut details, "model_type", ModelDetailValue::String(name.to_owned()));
    match kind {
        ModelKind::Bpe => {
            let texts = bpe_texts(inner).unwrap();
            let flags = bpe_flags(inner).unwrap();
            push_detail(&mut details, "unk_token", ModelDetailValue::OptionString(texts.0));
            push_detail(&mut details, "continuing_subword_prefix", ModelDetailValue::OptionString(texts.1));
            push_detail(&mut details, "end_of_word_suffix", ModelDetailValue::OptionString(texts.2));
            push_detail(&mut details, "fuse_unk", ModelDetailValue::Bool(flags.0));
        },
        ModelKind::WordPiece => {
            let settings = wordpiece_settings(inner).unwrap();
            push_detail(&mut details, "unk_token", ModelDetailValue::String(settings.0));
            push_detail(&mut details, "continuing_subword_prefix", ModelDetailValue::String(settings.1));
            push_detail(&mut details, "max_input_chars_per_word", ModelDetailValue::USize(settings.2));
        },
        ModelKind::WordLevel => {
            push_detail(&mut details, "unk_token", ModelDetailValue::String(wordlevel_unk_token(inner).unwrap()));
        },
        ModelKind::Unigram => {},
    }
    assert(detail_models(details@) =~= model_details(model@));
    Ok(details)
}

} // verus!
