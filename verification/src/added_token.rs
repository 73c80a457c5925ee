//! Added tokens: tokens that a user puts on top of a model's vocabulary, with the
//! flags that say how they are matched.

use crate::util::{lemma_take_all, lemma_take_step, Info, InfoValue, InfoValueModel};
use std::sync::Arc;
use vstd::prelude::*;

verus! {

#[verifier::external_type_specification]
#[verifier::external_body]
pub struct ExAddedToken(tokenizers::AddedToken);

/// An added token as mathematics.
pub struct AddedTokenModel {
    pub content: Seq<char>,
    pub single_word: bool,
    pub lstrip: bool,
    pub rstrip: bool,
    pub normalized: bool,
    pub special: bool,
}

/// What an added token of the engine holds.
pub uninterp spec fn added_token_description(token: tokenizers::AddedToken) -> AddedTokenModel;

/// `Clone::clone` of `tokenizers::AddedToken`, which is derived: the copy holds what
/// the token copied holds.
pub assume_specification[ <tokenizers::AddedToken as Clone>::clone ](token: &tokenizers::AddedToken) -> (copy: tokenizers::AddedToken)
    ensures
        added_token_description(copy) == added_token_description(*token),
;

/// `tokenizers::AddedToken::from`, then its setters `single_word`, `lstrip`, `rstrip`
/// and `normalized`: the token with the given content and flags.
#[verifier::external_body]
fn make_added_token(
    content: String,
    single_word: bool,
    lstrip: bool,
    rstrip: bool,
    normalized: bool,
    special: bool,
) -> (token: tokenizers::AddedToken)
    ensures
        added_token_description(token) == (AddedTokenModel {
            content: content@,
            single_word,
            lstrip,
            rstrip,
            normalized,
            special,
        }),
{
    tokenizers::AddedToken::from(content, special).single_word(single_word).lstrip(lstrip).rstrip(
        rstrip,
    ).normalized(normalized)
}

/// The fields of a `tokenizers::AddedToken`: `content`, then `single_word`, `lstrip`,
/// `rstrip`, `normalized` and `special`.
#[verifier::external_body]
fn added_token_fields(token: &tokenizers::AddedToken) -> (fields: (String, bool, bool, bool, bool, bool))
    ensures
        added_token_description(*token) == (AddedTokenModel {
            content: fields.0@,
            single_word: fields.1,
            lstrip: fields.2,
            rstrip: fields.3,
            normalized: fields.4,
            special: fields.5,
        }),
{
    (token.content.clone(), token.single_word, token.lstrip, token.rstrip, token.normalized, token.special)
}

/// Whether no token of a list is one that the normalizer is run on.
pub open spec fn none_normalized(tokens: Seq<AddedTokenModel>) -> bool {
    forall|i: int| 0 <= i < tokens.len() ==> !(#[trigger] tokens[i]).normalized
}

/// Whether no token of a list is one that the normalizer is run on.
pub(crate) fn no_token_normalized(tokens: &Vec<tokenizers::AddedToken>) -> (none: bool)
    ensures
        none == none_normalized(added_token_descriptions(tokens@)),
{
    let mut i: usize = 0;
    while i < tokens.len()
        invariant
            i <= tokens@.len(),
            forall|j: int| 0 <= j < i ==> !(#[trigger] added_token_descriptions(tokens@)[j]).normalized,
        decreases tokens@.len() - i,
    {
        let fields = added_token_fields(&tokens[i]);
        assert(added_token_descriptions(tokens@)[i as int] == added_token_description(tokens@[i as int]));
        if fields.4 {
            return false;
        }
        i += 1;
    }
    true
}

/// An added token of the engine, owned by the library.
pub struct ExTokenizersAddedTokenRef(pub tokenizers::AddedToken);

/// A handle on an added token.
#[derive(Clone)]
pub struct ExTokenizersAddedToken {
    pub resource: Arc<ExTokenizersAddedTokenRef>,
}

impl View for ExTokenizersAddedTokenRef {
    type V = AddedTokenModel;

    open spec fn view(&self) -> AddedTokenModel {
        added_token_description(self.0)
    }
}

impl View for ExTokenizersAddedToken {
    type V = AddedTokenModel;

    open spec fn view(&self) -> AddedTokenModel {
        self.resource@
    }
}

impl ExTokenizersAddedTokenRef {
    /// The resource that owns the given token.
    pub fn new(data: tokenizers::AddedToken) -> (resource: Self)
        ensures
            resource@ == added_token_description(data),
    {
        Self(data)
    }
}

impl ExTokenizersAddedToken {
    /// A handle on the given token.
    pub fn new(data: tokenizers::AddedToken) -> (handle: Self)
        ensures
            handle@ == added_token_description(data),
    {
        Self { resource: Arc::new(ExTokenizersAddedTokenRef::new(data)) }
    }
}

/// The token that a text gives where nothing else is said: it can break words, strips
/// on neither side, and is normalized unless it is special.
pub open spec fn plain_token(content: Seq<char>, special: bool) -> AddedTokenModel {
    AddedTokenModel {
        content,
        single_word: false,
        lstrip: false,
        rstrip: false,
        normalized: !special,
        special,
    }
}

/// A token to add: one that was made before, or the text of one.
pub enum AddedTokenInput {
    AddedToken(ExTokenizersAddedToken),
    String(String),
}

/// A special token to add: one that was made before, or the text of one.
pub enum AddedSpecialTokenInput {
    AddedToken(ExTokenizersAddedToken),
    String(String),
}

impl View for AddedTokenInput {
    type V = AddedTokenModel;

    /// The token that is meant: a text means the plain token that is not special.
    open spec fn view(&self) -> AddedTokenModel {
        match *self {
            AddedTokenInput::AddedToken(token) => token@,
            AddedTokenInput::String(content) => plain_token(content@, false),
        }
    }
}

impl View for AddedSpecialTokenInput {
    type V = AddedTokenModel;

    /// The token that is meant: a text means the plain token that is special.
    open spec fn view(&self) -> AddedTokenModel {
        match *self {
            AddedSpecialTokenInput::AddedToken(token) => token@,
            AddedSpecialTokenInput::String(content) => plain_token(content@, true),
        }
    }
}

impl AddedTokenInput {
    /// The token of the engine that is meant.
    pub fn to_added_token(&self) -> (token: tokenizers::AddedToken)
        ensures
            added_token_description(token) == self@,
    {
        match self {
            AddedTokenInput::AddedToken(token) => token.resource.0.clone(),
            AddedTokenInput::String(content) => make_added_token(
                content.clone(),
                false,
                false,
                false,
                true,
                false,
            ),
        }
    }
}

impl AddedSpecialTokenInput {
    /// The token of the engine that is meant.
    pub fn to_added_token(&self) -> (token: tokenizers::AddedToken)
        ensures
            added_token_description(token) == self@,
    {
        match self {
            AddedSpecialTokenInput::AddedToken(token) => token.resource.0.clone(),
            AddedSpecialTokenInput::String(content) => make_added_token(
                content.clone(),
                false,
                false,
                false,
                false,
                true,
            ),
        }
    }
}

/// The tokens that a sequence of inputs means.
pub open spec fn added_tokens_meant(inputs: Seq<AddedTokenInput>) -> Seq<AddedTokenModel> {
    Seq::new(inputs.len(), |i: int| inputs[i]@)
}

/// The special tokens that a sequence of inputs means.
pub open spec fn special_tokens_meant(inputs: Seq<AddedSpecialTokenInput>) -> Seq<AddedTokenModel> {
    Seq::new(inputs.len(), |i: int| inputs[i]@)
}

/// What a sequence of tokens of the engine holds.
pub open spec fn added_token_descriptions(tokens: Seq<tokenizers::AddedToken>) -> Seq<AddedTokenModel> {
    Seq::new(tokens.len(), |i: int| added_token_description(tokens[i]))
}

/// The tokens of the engine that the inputs mean, in order.
pub fn added_tokens_from_inputs(inputs: &Vec<AddedTokenInput>) -> (tokens: Vec<tokenizers::AddedToken>)
    ensures
        added_token_descriptions(tokens@) == added_tokens_meant(inputs@),
{
    let mut tokens: Vec<tokenizers::AddedToken> = Vec::new();
    let mut i: usize = 0;
    while i < inputs.len()
        invariant
            i <= inputs@.len(),
            tokens@.len() == i,
            forall|j: int| 0 <= j < i ==> added_token_description(#[trigger] tokens@[j]) == inputs@[j]@,
        decreases inputs@.len() - i,
    {
        tokens.push(inputs[i].to_added_token());
        i += 1;
    }
    assert(added_token_descriptions(tokens@) =~= added_tokens_meant(inputs@));
    tokens
}

/// The special tokens of the engine that the inputs mean, in order.
pub fn special_tokens_from_inputs(inputs: &Vec<AddedSpecialTokenInput>) -> (tokens: Vec<tokenizers::AddedToken>)
    ensures
        added_token_descriptions(tokens@) == special_tokens_meant(inputs@),
{
    let mut tokens: Vec<tokenizers::AddedToken> = Vec::new();
    let mut i: usize = 0;
    while i < inputs.len()
        invariant
            i <= inputs@.len(),
            tokens@.len() == i,
            forall|j: int| 0 <= j < i ==> added_token_description(#[trigger] tokens@[j]) == inputs@[j]@,
        decreases inputs@.len() - i,
    {
        tokens.push(inputs[i].to_added_token());
        i += 1;
    }
    assert(added_token_descriptions(tokens@) =~= special_tokens_meant(inputs@));
    tokens
}

/// The special tokens of the engine with the given texts, in order.
pub fn special_tokens_from_texts(texts: &Vec<String>) -> (tokens: Vec<tokenizers::AddedToken>)
    ensures
        tokens@.len() == texts@.len(),
        forall|i: int|
            0 <= i < tokens@.len() ==> added_token_description(#[trigger] tokens@[i]) == plain_token(
                texts@[i]@,
                true,
            ),
{
    let mut tokens: Vec<tokenizers::AddedToken> = Vec::new();
    let mut i: usize = 0;
    while i < texts.len()
        invariant
            i <= texts@.len(),
            tokens@.len() == i,
            forall|j: int|
                0 <= j < i ==> added_token_description(#[trigger] tokens@[j]) == plain_token(
                    texts@[j]@,
                    true,
                ),
        decreases texts@.len() - i,
    {
        tokens.push(make_added_token(texts[i].clone(), false, false, false, false, true));
        i += 1;
    }
    tokens
}

/// The description that an added token gives of itself: its content and its flags,
/// under their names.
pub open spec fn added_token_info_of(token: AddedTokenModel) -> Seq<(Seq<char>, InfoValueModel)> {
    seq![
        ("content"@, InfoValueModel::Text(token.content)),
        ("single_word"@, InfoValueModel::Flag(token.single_word)),
        ("lstrip"@, InfoValueModel::Flag(token.lstrip)),
        ("rstrip"@, InfoValueModel::Flag(token.rstrip)),
        ("normalized"@, InfoValueModel::Flag(token.normalized)),
        ("special"@, InfoValueModel::Flag(token.special)),
    ]
}

/// The description that the added token gives of itself.
pub fn added_token_info(added_token: ExTokenizersAddedToken) -> (info: Info)
    ensures
        info@ == added_token_info_of(added_token@),
{
    let fields = added_token_fields(&added_token.resource.0);
    let mut info = Info::new();
    info.push("content", InfoValue::Text(fields.0));
    info.push("single_word", InfoValue::Flag(fields.1));
    info.push("lstrip", InfoValue::Flag(fields.2));
    info.push("rstrip", InfoValue::Flag(fields.3));
    info.push("normalized", InfoValue::Flag(fields.4));
    info.push("special", InfoValue::Flag(fields.5));
    assert(info@ =~= added_token_info_of(added_token@));
    info
}

/// One flag of an added token.
pub enum AddedTokenOption {
    Special(bool),
    SingleWord(bool),
    Lstrip(bool),
    Rstrip(bool),
    Normalized(bool),
}

/// The flags that options give to an added token; whether it is normalized may be left
/// open.
pub struct AddedTokenSettings {
    pub special: bool,
    pub single_word: bool,
    pub lstrip: bool,
    pub rstrip: bool,
    pub normalized: Option<bool>,
}

impl AddedTokenSettings {
    /// The flags that no option has changed: all off, normalization left open.
    pub open spec fn initial() -> AddedTokenSettings {
        AddedTokenSettings { special: false, single_word: false, lstrip: false, rstrip: false, normalized: None }
    }

    /// The flags with one option applied.
    pub open spec fn with(self, option: AddedTokenOption) -> AddedTokenSettings {
        match option {
            AddedTokenOption::Special(value) => AddedTokenSettings { special: value, ..self },
            AddedTokenOption::SingleWord(value) => AddedTokenSettings { single_word: value, ..self },
            AddedTokenOption::Lstrip(value) => AddedTokenSettings { lstrip: value, ..self },
            AddedTokenOption::Rstrip(value) => AddedTokenSettings { rstrip: value, ..self },
            AddedTokenOption::Normalized(value) => AddedTokenSettings { normalized: Some(value), ..self },
        }
    }

    /// The flags that a list of options describes: of two options for one flag the
    /// later one counts.
    pub open spec fn from_options(options: Seq<AddedTokenOption>) -> AddedTokenSettings
        decreases options.len(),
    {
        if options.len() == 0 {
            AddedTokenSettings::initial()
        } else {
            AddedTokenSettings::from_options(options.drop_last()).with(options.last())
        }
    }

    /// The token with this content and these flags. Where normalization was left open,
    /// the token is normalized unless it is special.
    pub open spec fn token(self, content: Seq<char>) -> AddedTokenModel {
        AddedTokenModel {
            content,
            single_word: self.single_word,
            lstrip: self.lstrip,
            rstrip: self.rstrip,
            normalized: match self.normalized {
                Some(normalized) => normalized,
                None => !self.special,
            },
            special: self.special,
        }
    }
}

/// The added token with the given text and the flags that the options describe.
pub fn added_token_new(token: String, options: Vec<AddedTokenOption>) -> (added_token: ExTokenizersAddedToken)
    ensures
        added_token@ == AddedTokenSettings::from_options(options@).token(token@),
{
    let mut special: bool = false;
    let mut single_word: bool = false;
    let mut lstrip: bool = false;
    let mut rstrip: bool = false;
    let mut normalized: Option<bool> = None;
    let mut i: usize = 0;
    while i < options.len()
        invariant
            i <= options@.len(),
            (AddedTokenSettings { special, single_word, lstrip, rstrip, normalized })
                == AddedTokenSettings::from_options(options@.take(i as int)),
        decreases options@.len() - i,
    {
        proof {
            lemma_take_step(options@, i as int);
        }
        match &options[i] {
            AddedTokenOption::Special(value) => special = *value,
            AddedTokenOption::SingleWord(value) => single_word = *value,
            AddedTokenOption::Lstrip(value) => lstrip = *value,
            AddedTokenOption::Rstrip(value) => rstrip = *value,
            AddedTokenOption::Normalized(value) => normalized = Some(*value),
        }
        i += 1;
    }
    proof {
        lemma_take_all(options@);
    }
    let normalized = match normalized {
        Some(normalized) => normalized,
        None => !special,
    };
    ExTokenizersAddedToken::new(make_added_token(token, single_word, lstrip, rstrip, normalized, special))
}

} // verus!
