//! Decoders: they turn the texts of tokens back into one text.

use crate::error::{BadArg, ExTokenizersError};
use crate::normalizers::{replace_pattern_accepted, PatternModel};
use crate::util::{
    lemma_take_all, lemma_take_step, replaced, starts_with, text_outcome, texts, Info, InfoValue, InfoValueModel,
};
use std::sync::Arc;
use tokenizers::Decoder;
use vstd::prelude::*;
use vstd::string::StrSliceExecFns;

verus! {

#[verifier::external_type_specification]
#[verifier::external_body]
pub struct ExDecoderWrapper(tokenizers::DecoderWrapper);

/// When the marker of a space is put in front of a piece.
#[derive(Clone, Copy, Debug, PartialEq, Eq, Structural)]
pub enum PrependScheme {
    /// In front of the first piece only.
    First,
    /// Never.
    Never,
    /// In front of every piece.
    Always,
}

/// A decoder as mathematics: which decoder it is, with its settings.
#[allow(inconsistent_fields)]
pub enum DecoderModel {
    Bpe { suffix: Seq<char> },
    ByteLevel { add_prefix_space: bool, trim_offsets: bool, use_regex: bool },
    WordPiece { prefix: Seq<char>, cleanup: bool },
    Metaspace { replacement: char, prepend_scheme: PrependScheme, split: bool },
    Ctc { pad_token: Seq<char>, word_delimiter_token: Seq<char>, cleanup: bool },
    Sequence { decoders: Seq<DecoderModel> },
    Replace { pattern: PatternModel, content: Seq<char> },
    Fuse,
    Strip { content: char, start: usize, stop: usize },
    ByteFallback,
}

/// Which decoder of the engine a value is, with its settings.
pub uninterp spec fn decoder_description(decoder: tokenizers::DecoderWrapper) -> DecoderModel;

/// What the engine makes of the texts of tokens with a decoder: the texts to put
/// together, or the message of its refusal.
pub uninterp spec fn decoded_chain(decoder: DecoderModel, tokens: Seq<Seq<char>>) -> Result<
    Seq<Seq<char>>,
    Seq<char>,
>;

/// Whether a text is nothing but one character, repeated.
pub open spec fn is_all(text: Seq<char>, content: char) -> bool {
    forall|i: int| 0 <= i < text.len() ==> #[trigger] text[i] == content
}

/// Whether the engine can strip a token: up to `start` copies of a character from its
/// start, and up to `stop` from its end. A token that is nothing but that character
/// has to be long enough for both cuts.
pub open spec fn strip_defined(content: char, start: usize, stop: usize, token: Seq<char>) -> bool {
    is_all(token, content) ==> (if start < token.len() {
        start as int
    } else {
        token.len() as int
    }) + stop <= token.len()
}

/// Texts put one after the other.
pub open spec fn concatenated(texts: Seq<Seq<char>>) -> Seq<char>
    decreases texts.len(),
{
    if texts.len() == 0 {
        Seq::empty()
    } else {
        concatenated(texts.drop_last()) + texts.last()
    }
}

/// The text that the engine decodes the texts of tokens to with a decoder: what the
/// decoder makes of them, put together; or the message of its refusal.
pub open spec fn decoded(decoder: DecoderModel, tokens: Seq<Seq<char>>) -> Result<Seq<char>, Seq<char>> {
    match decoded_chain(decoder, tokens) {
        Ok(chain) => Ok(concatenated(chain)),
        Err(message) => Err(message),
    }
}

/// How many characters at the start of a text, up to a limit, are one character.
pub open spec fn leading(text: Seq<char>, content: char, limit: nat) -> nat
    decreases limit,
{
    if limit == 0 || text.len() == 0 || text[0] != content {
        0
    } else {
        1 + leading(text.skip(1), content, (limit - 1) as nat)
    }
}

/// How many characters at the end of a text, up to a limit, are one character.
pub open spec fn trailing(text: Seq<char>, content: char, limit: nat) -> nat
    decreases limit,
{
    if limit == 0 || text.len() == 0 || text.last() != content {
        0
    } else {
        1 + trailing(text.drop_last(), content, (limit - 1) as nat)
    }
}

/// A token without the copies of a character that a decoder strips from its start and
/// from its end.
pub open spec fn stripped(token: Seq<char>, content: char, start: usize, stop: usize) -> Seq<char> {
    token.subrange(leading(token, content, start as nat) as int, token.len() - trailing(token, content, stop as nat))
}

/// A token with a space for each marker of a space or, where they are dropped,
/// without the markers.
pub open spec fn unmarked(token: Seq<char>, replacement: char, dropped: bool) -> Seq<char>
    decreases token.len(),
{
    if token.len() == 0 {
        Seq::empty()
    } else if token.last() != replacement {
        unmarked(token.drop_last(), replacement, dropped).push(token.last())
    } else if dropped {
        unmarked(token.drop_last(), replacement, dropped)
    } else {
        unmarked(token.drop_last(), replacement, dropped).push(' ')
    }
}

/// A piece of a word as it is joined to what stands before it: the first token as it
/// is, a later one without the prefix that marks the inside of a word, or after a
/// space where it has none.
pub open spec fn joined_piece(token: Seq<char>, prefix: Seq<char>, first: bool) -> Seq<char> {
    if first {
        token
    } else if starts_with(token, prefix) {
        token.skip(prefix.len() as int)
    } else {
        seq![' '] + token
    }
}

/// A text without the spaces that stand in front of punctuation and of the short
/// forms of English.
pub open spec fn cleaned(text: Seq<char>) -> Seq<char> {
    let text = replaced(text, " ."@, "."@);
    let text = replaced(text, " ?"@, "?"@);
    let text = replaced(text, " !"@, "!"@);
    let text = replaced(text, " ,"@, ","@);
    let text = replaced(text, " ' "@, "'"@);
    let text = replaced(text, " n't"@, "n't"@);
    let text = replaced(text, " 'm"@, "'m"@);
    let text = replaced(text, " do not"@, " don't"@);
    let text = replaced(text, " 's"@, "'s"@);
    let text = replaced(text, " 've"@, "'ve"@);
    replaced(text, " 're"@, "'re"@)
}

/// What the decoders that work token by token, or put all tokens together, make of
/// the texts of tokens; nothing for the others, whose work is not written out here.
/// A BPE decoder gives a space for the suffix that ends a word, and nothing for it in
/// the last token.
pub open spec fn exact_chain(decoder: DecoderModel, tokens: Seq<Seq<char>>) -> Option<Seq<Seq<char>>>
    decreases decoder, 0nat,
{
    match decoder {
        DecoderModel::Fuse => Some(seq![concatenated(tokens)]),
        DecoderModel::Strip { content, start, stop } => Some(
            Seq::new(tokens.len(), |i: int| stripped(tokens[i], content, start, stop)),
        ),
        DecoderModel::Metaspace { replacement, prepend_scheme, .. } => Some(
            Seq::new(
                tokens.len(),
                |i: int| unmarked(tokens[i], replacement, i == 0 && prepend_scheme != PrependScheme::Never),
            ),
        ),
        DecoderModel::WordPiece { prefix, cleanup } => Some(
            Seq::new(
                tokens.len(),
                |i: int|
                    if cleanup {
                        cleaned(joined_piece(tokens[i], prefix, i == 0))
                    } else {
                        joined_piece(tokens[i], prefix, i == 0)
                    },
            ),
        ),
        DecoderModel::Replace { pattern: PatternModel::Literal(pattern), content } => if pattern.len() == 0 {
            None
        } else {
            Some(Seq::new(tokens.len(), |i: int| replaced(tokens[i], pattern, content)))
        },
        DecoderModel::Bpe { suffix } => if suffix.len() == 0 {
            None
        } else {
            Some(
                Seq::new(
                    tokens.len(),
                    |i: int|
                        replaced(
                            tokens[i],
                            suffix,
                            if i == tokens.len() - 1 {
                                Seq::empty()
                            } else {
                                seq![' ']
                            },
                        ),
                ),
            )
        },
        DecoderModel::Sequence { decoders } => exact_from(decoders, 0, tokens),
        _ => None,
    }
}

/// What the decoders of a sequence make of the texts of tokens from one of them on,
/// each working on what the one before it made; nothing where the work of one of
/// them is not written out.
pub open spec fn exact_from(decoders: Seq<DecoderModel>, from: nat, tokens: Seq<Seq<char>>) -> Option<
    Seq<Seq<char>>,
>
    decreases decoders, decoders.len() - from,
{
    if from >= decoders.len() {
        Some(tokens)
    } else {
        match exact_chain(decoders[from as int], tokens) {
            Some(made) => exact_from(decoders, from + 1, made),
            None => None,
        }
    }
}

/// Whether a text is what the decoder is known to decode the texts of tokens to,
/// where that is written out.
pub open spec fn settled_text(decoder: DecoderModel, tokens: Seq<Seq<char>>, outcome: Result<
    Seq<char>,
    Seq<char>,
>) -> bool {
    exact_chain(decoder, tokens) matches Some(made) ==> outcome == Ok::<Seq<char>, Seq<char>>(concatenated(made))
}

/// Whether an outcome of decoding is what the decoder is known to make of the texts of
/// tokens, where that is written out.
pub open spec fn settled(decoder: DecoderModel, tokens: Seq<Seq<char>>, outcome: Result<
    Seq<Seq<char>>,
    Seq<char>,
>) -> bool {
    exact_chain(decoder, tokens) matches Some(made) ==> outcome == Ok::<Seq<Seq<char>>, Seq<char>>(made)
}

/// Whether the engine can run the decoders of a sequence from one of them on, each
/// on what the one before it makes of the texts of tokens. Where one fails, those
/// behind it are not run.
pub open spec fn defined_from(decoders: Seq<DecoderModel>, from: nat, tokens: Seq<Seq<char>>) -> bool
    decreases decoders, decoders.len() - from,
{
    if from >= decoders.len() {
        true
    } else {
        decoders[from as int].defined_on(tokens) && match decoded_chain(decoders[from as int], tokens) {
            Ok(made) => defined_from(decoders, from + 1, made),
            Err(_) => true,
        }
    }
}

/// The descriptions of a sequence of decoders.
pub open spec fn decoder_descriptions(decoders: Seq<tokenizers::DecoderWrapper>) -> Seq<DecoderModel> {
    Seq::new(decoders.len(), |i: int| decoder_description(decoders[i]))
}

/// `Clone::clone` of `tokenizers::DecoderWrapper`: the copy is the same decoder with
/// the same settings.
pub assume_specification[ <tokenizers::DecoderWrapper as Clone>::clone ](
    decoder: &tokenizers::DecoderWrapper,
) -> (copy: tokenizers::DecoderWrapper)
    ensures
        decoder_description(copy) == decoder_description(*decoder),
;

/// `tokenizers::decoders::bpe::BPEDecoder::new`, as a decoder of any kind.
#[verifier::external_body]
fn bpe_decoder(suffix: String) -> (decoder: tokenizers::DecoderWrapper)
    ensures
        decoder_description(decoder) == (DecoderModel::Bpe { suffix: suffix@ }),
{
    tokenizers::decoders::bpe::BPEDecoder::new(suffix).into()
}

/// `tokenizers::decoders::byte_level::ByteLevel::default`, as a decoder of any kind:
/// all three of its settings are on.
#[verifier::external_body]
fn byte_level_decoder() -> (decoder: tokenizers::DecoderWrapper)
    ensures
        decoder_description(decoder) == (DecoderModel::ByteLevel {
            add_prefix_space: true,
            trim_offsets: true,
            use_regex: true,
        }),
{
    tokenizers::decoders::byte_level::ByteLevel::default().into()
}

/// `tokenizers::decoders::wordpiece::WordPiece::new`, as a decoder of any kind.
#[verifier::external_body]
fn wordpiece_decoder(prefix: String, cleanup: bool) -> (decoder: tokenizers::DecoderWrapper)
    ensures
        decoder_description(decoder) == (DecoderModel::WordPiece { prefix: prefix@, cleanup }),
{
    tokenizers::decoders::wordpiece::WordPiece::new(prefix, cleanup).into()
}

/// `tokenizers::decoders::metaspace::Metaspace::new`, as a decoder of any kind, with
/// the scheme handed over in the engine's own type.
#[verifier::external_body]
fn metaspace_decoder(replacement: char, prepend_scheme: PrependScheme, split: bool) -> (decoder:
    tokenizers::DecoderWrapper)
    ensures
        decoder_description(decoder) == (DecoderModel::Metaspace { replacement, prepend_scheme, split }),
{
    let scheme = match prepend_scheme {
        PrependScheme::First => tokenizers::decoders::metaspace::PrependScheme::First,
        PrependScheme::Never => tokenizers::decoders::metaspace::PrependScheme::Never,
        PrependScheme::Always => tokenizers::decoders::metaspace::PrependScheme::Always,
    };
    tokenizers::decoders::metaspace::Metaspace::new(replacement, scheme, split).into()
}

/// `tokenizers::decoders::ctc::CTC::new`, as a decoder of any kind.
#[verifier::external_body]
fn ctc_decoder(pad_token: String, word_delimiter_token: String, cleanup: bool) -> (decoder:
    tokenizers::DecoderWrapper)
    ensures
        decoder_description(decoder) == (DecoderModel::Ctc {
            pad_token: pad_token@,
            word_delimiter_token: word_delimiter_token@,
            cleanup,
        }),
{
    tokenizers::decoders::ctc::CTC::new(pad_token, word_delimiter_token, cleanup).into()
}

/// `tokenizers::decoders::sequence::Sequence::new`, as a decoder of any kind.
#[verifier::external_body]
fn sequence_decoder(decoders: Vec<tokenizers::DecoderWrapper>) -> (decoder: tokenizers::DecoderWrapper)
    ensures
        decoder_description(decoder) == (DecoderModel::Sequence {
            decoders: decoder_descriptions(decoders@),
        }),
{
    tokenizers::decoders::sequence::Sequence::new(decoders).into()
}

/// `tokenizers::normalizers::Replace::new` with a literal pattern, as a decoder of any
/// kind. The engine compiles the pattern and may refuse it.
#[verifier::external_body]
fn replace_decoder(pattern: String, content: String) -> (decoder: Result<tokenizers::DecoderWrapper, BadArg>)
    ensures
        match decoder {
            Ok(decoder) => replace_pattern_accepted(pattern@) && decoder_description(decoder) == (
            DecoderModel::Replace { pattern: PatternModel::Literal(pattern@), content: content@ }),
            Err(_) => !replace_pattern_accepted(pattern@),
        },
{
    match tokenizers::normalizers::Replace::new(pattern, content) {
        Ok(replace) => Ok(replace.into()),
        Err(_) => Err(BadArg),
    }
}

/// `tokenizers::decoders::fuse::Fuse::new`, as a decoder of any kind.
#[verifier::external_body]
fn fuse_decoder() -> (decoder: tokenizers::DecoderWrapper)
    ensures
        decoder_description(decoder) == DecoderModel::Fuse,
{
    tokenizers::decoders::fuse::Fuse::new().into()
}

/// `tokenizers::decoders::strip::Strip::new`, as a decoder of any kind.
#[verifier::external_body]
fn strip_decoder(content: char, start: usize, stop: usize) -> (decoder: tokenizers::DecoderWrapper)
    ensures
        decoder_description(decoder) == (DecoderModel::Strip { content, start, stop }),
{
    tokenizers::decoders::strip::Strip::new(content, start, stop).into()
}

/// `tokenizers::decoders::byte_fallback::ByteFallback::new`, as a decoder of any kind.
#[verifier::external_body]
fn byte_fallback_decoder() -> (decoder: tokenizers::DecoderWrapper)
    ensures
        decoder_description(decoder) == DecoderModel::ByteFallback,
{
    tokenizers::decoders::byte_fallback::ByteFallback::new().into()
}

/// `tokenizers::Decoder::decode` of `tokenizers::DecoderWrapper`, with the engine's
/// error as its message: what `decode_chain` makes, put together. The engine's BPE
/// decoder counts down from the number of tokens that reach it, so there has to be
/// one. Its decoder that strips tokens counts down from the length of a token, and
/// cuts from both ends without a look at the other. A sequence hands each decoder what
/// the one before it made. So the decoder has to be defined on the tokens.
#[verifier::external_body]
fn decode(decoder: &tokenizers::DecoderWrapper, tokens: Vec<String>) -> (text: Result<String, String>)
    requires
        tokens@.len() > 0,
        decoder_description(*decoder).defined_on(texts(tokens@)),
    ensures
        text_outcome(text) == decoded(decoder_description(*decoder), texts(tokens@)),
        settled_text(decoder_description(*decoder), texts(tokens@), text_outcome(text)),
{
    decoder.decode(tokens).map_err(|error| error.to_string())
}

/// The texts of an outcome: of what was computed, or of the message that came instead.
pub open spec fn chain_outcome(outcome: Result<Vec<String>, String>) -> Result<Seq<Seq<char>>, Seq<char>> {
    match outcome {
        Ok(chain) => Ok(texts(chain@)),
        Err(message) => Err(message@),
    }
}

/// `tokenizers::Decoder::decode_chain` of `tokenizers::DecoderWrapper`, with the
/// engine's error as its message. As for `decode`, the decoder has to be defined on
/// the tokens. What the engine's decoders make that fuse the tokens, strip them, take
/// the markers of spaces or the suffix of words out of them, join the pieces of words
/// or replace a text as it stands, and sequences of these, is written out in
/// `exact_chain`.
#[verifier::external_body]
fn decode_chain(decoder: &tokenizers::DecoderWrapper, tokens: &Vec<String>) -> (chain: Result<Vec<String>, String>)
    requires
        decoder_description(*decoder).defined_on(texts(tokens@)),
    ensures
        chain_outcome(chain) == decoded_chain(decoder_description(*decoder), texts(tokens@)),
        settled(decoder_description(*decoder), texts(tokens@), chain_outcome(chain)),
{
    decoder.decode_chain(tokens.clone()).map_err(|error| error.to_string())
}

/// The kinds of decoder.
#[derive(Clone, Copy, Debug, PartialEq, Eq, Structural)]
pub enum DecoderKind {
    Bpe,
    ByteLevel,
    WordPiece,
    Metaspace,
    Ctc,
    Sequence,
    Replace,
    Fuse,
    Strip,
    ByteFallback,
}

impl DecoderModel {
    /// Whether the decoder is of a kind, or a sequence that holds one of that kind at
    /// any depth.
    pub open spec fn holds(self, kind: DecoderKind) -> bool
        decreases self,
    {
        self.kind() == kind || match self {
            DecoderModel::Sequence { decoders } => exists|i: int|
                0 <= i < decoders.len() && (#[trigger] decoders[i]).holds(kind),
            _ => false,
        }
    }

    /// Whether the engine can run the decoder on the texts of tokens. A BPE decoder
    /// needs a token. A decoder that strips tokens needs every token that is nothing
    /// but the character to strip to be long enough for both cuts. A sequence needs
    /// each of its decoders to be defined on what the one before it makes.
    pub open spec fn defined_on(self, tokens: Seq<Seq<char>>) -> bool
        decreases self, 0nat,
    {
        match self {
            DecoderModel::Bpe { .. } => tokens.len() > 0,
            DecoderModel::Strip { content, start, stop } => forall|i: int|
                0 <= i < tokens.len() ==> strip_defined(content, start, stop, #[trigger] tokens[i]),
            DecoderModel::Sequence { decoders } => defined_from(decoders, 0, tokens),
            _ => true,
        }
    }

    /// The kind of the decoder.
    pub open spec fn kind(self) -> DecoderKind {
        match self {
            DecoderModel::Bpe { .. } => DecoderKind::Bpe,
            DecoderModel::ByteLevel { .. } => DecoderKind::ByteLevel,
            DecoderModel::WordPiece { .. } => DecoderKind::WordPiece,
            DecoderModel::Metaspace { .. } => DecoderKind::Metaspace,
            DecoderModel::Ctc { .. } => DecoderKind::Ctc,
            DecoderModel::Sequence { .. } => DecoderKind::Sequence,
            DecoderModel::Replace { .. } => DecoderKind::Replace,
            DecoderModel::Fuse => DecoderKind::Fuse,
            DecoderModel::Strip { .. } => DecoderKind::Strip,
            DecoderModel::ByteFallback => DecoderKind::ByteFallback,
        }
    }
}

/// Which variant of `tokenizers::DecoderWrapper` a decoder is.
#[verifier::external_body]
fn decoder_kind(decoder: &tokenizers::DecoderWrapper) -> (kind: DecoderKind)
    ensures
        kind == decoder_description(*decoder).kind(),
{
    match decoder {
        tokenizers::DecoderWrapper::BPE(_) => DecoderKind::Bpe,
        tokenizers::DecoderWrapper::ByteLevel(_) => DecoderKind::ByteLevel,
        tokenizers::DecoderWrapper::WordPiece(_) => DecoderKind::WordPiece,
        tokenizers::DecoderWrapper::Metaspace(_) => DecoderKind::Metaspace,
        tokenizers::DecoderWrapper::CTC(_) => DecoderKind::Ctc,
        tokenizers::DecoderWrapper::Sequence(_) => DecoderKind::Sequence,
        tokenizers::DecoderWrapper::Replace(_) => DecoderKind::Replace,
        tokenizers::DecoderWrapper::Fuse(_) => DecoderKind::Fuse,
        tokenizers::DecoderWrapper::Strip(_) => DecoderKind::Strip,
        tokenizers::DecoderWrapper::ByteFallback(_) => DecoderKind::ByteFallback,
    }
}

/// `tokenizers::decoders::sequence::Sequence::get_decoders` of a sequence in a decoder,
/// copied.
#[verifier::external_body]
fn sequence_parts(decoder: &tokenizers::DecoderWrapper) -> (parts: Option<Vec<tokenizers::DecoderWrapper>>)
    ensures
        match decoder_description(*decoder) {
            DecoderModel::Sequence { decoders } => parts matches Some(found) && decoder_descriptions(found@)
                == decoders,
            _ => parts is None,
        },
{
    match decoder {
        tokenizers::DecoderWrapper::Sequence(sequence) => Some(sequence.get_decoders().to_vec()),
        _ => None,
    }
}

/// The field `suffix` of a `tokenizers::decoders::bpe::BPEDecoder` in a decoder.
#[verifier::external_body]
fn bpe_suffix(decoder: &tokenizers::DecoderWrapper) -> (suffix: Option<String>)
    ensures
        match decoder_description(*decoder) {
            DecoderModel::Bpe { suffix: s } => suffix matches Some(found) && found@ == s,
            _ => suffix is None,
        },
{
    match decoder {
        tokenizers::DecoderWrapper::BPE(bpe) => Some(bpe.suffix.clone()),
        _ => None,
    }
}

/// The fields `add_prefix_space`, `trim_offsets` and `use_regex` of a
/// `tokenizers::decoders::byte_level::ByteLevel` in a decoder.
#[verifier::external_body]
fn byte_level_settings(decoder: &tokenizers::DecoderWrapper) -> (settings: Option<(bool, bool, bool)>)
    ensures
        match decoder_description(*decoder) {
            DecoderModel::ByteLevel { add_prefix_space, trim_offsets, use_regex } => settings == Some(
                (add_prefix_space, trim_offsets, use_regex),
            ),
            _ => settings is None,
        },
{
    match decoder {
        tokenizers::DecoderWrapper::ByteLevel(b) => Some((b.add_prefix_space, b.trim_offsets, b.use_regex)),
        _ => None,
    }
}

/// The fields `prefix` and `cleanup` of a `tokenizers::decoders::wordpiece::WordPiece`
/// in a decoder.
#[verifier::external_body]
fn wordpiece_settings(decoder: &tokenizers::DecoderWrapper) -> (settings: Option<(String, bool)>)
    ensures
        match decoder_description(*decoder) {
            DecoderModel::WordPiece { prefix, cleanup } => settings matches Some(found) && found.0@
                == prefix && found.1 == cleanup,
            _ => settings is None,
        },
{
    match decoder {
        tokenizers::DecoderWrapper::WordPiece(w) => Some((w.prefix.clone(), w.cleanup)),
        _ => None,
    }
}

/// The field `prepend_scheme` of a `tokenizers::decoders::metaspace::Metaspace` in a
/// decoder, in the library's own type.
#[verifier::external_body]
fn metaspace_scheme(decoder: &tokenizers::DecoderWrapper) -> (scheme: Option<PrependScheme>)
    ensures
        match decoder_description(*decoder) {
            DecoderModel::Metaspace { prepend_scheme, .. } => scheme == Some(prepend_scheme),
            _ => scheme is None,
        },
{
    match decoder {
        tokenizers::DecoderWrapper::Metaspace(m) => Some(
            match m.prepend_scheme {
                tokenizers::decoders::metaspace::PrependScheme::First => PrependScheme::First,
                tokenizers::decoders::metaspace::PrependScheme::Never => PrependScheme::Never,
                tokenizers::decoders::metaspace::PrependScheme::Always => PrependScheme::Always,
            },
        ),
        _ => None,
    }
}

/// The fields `pad_token`, `word_delimiter_token` and `cleanup` of a
/// `tokenizers::decoders::ctc::CTC` in a decoder.
#[verifier::external_body]
fn ctc_settings(decoder: &tokenizers::DecoderWrapper) -> (settings: Option<(String, String, bool)>)
    ensures
        match decoder_description(*decoder) {
            DecoderModel::Ctc { pad_token, word_delimiter_token, cleanup } => settings matches Some(found)
                && found.0@ == pad_token && found.1@ == word_delimiter_token && found.2 == cleanup,
            _ => settings is None,
        },
{
    match decoder {
        tokenizers::DecoderWrapper::CTC(c) => Some(
            (c.pad_token.clone(), c.word_delimiter_token.clone(), c.cleanup),
        ),
        _ => None,
    }
}

/// The fields `content`, `start` and `stop` of a `tokenizers::decoders::strip::Strip`
/// in a decoder.
#[verifier::external_body]
fn strip_settings(decoder: &tokenizers::DecoderWrapper) -> (settings: Option<(char, usize, usize)>)
    ensures
        match decoder_description(*decoder) {
            DecoderModel::Strip { content, start, stop } => settings == Some((content, start, stop)),
            _ => settings is None,
        },
{
    match decoder {
        tokenizers::DecoderWrapper::Strip(s) => Some((s.content, s.start, s.stop)),
        _ => None,
    }
}

/// A decoder of the engine, owned by the library.
pub struct ExTokenizersDecoderRef(pub tokenizers::DecoderWrapper);

/// A handle on a decoder.
#[derive(Clone)]
pub struct ExTokenizersDecoder {
    pub resource: Arc<ExTokenizersDecoderRef>,
}

impl View for ExTokenizersDecoderRef {
    type V = DecoderModel;

    open spec fn view(&self) -> DecoderModel {
        decoder_description(self.0)
    }
}

impl View for ExTokenizersDecoder {
    type V = DecoderModel;

    open spec fn view(&self) -> DecoderModel {
        self.resource@
    }
}

impl ExTokenizersDecoderRef {
    /// The resource that owns the given decoder.
    pub fn new(data: tokenizers::DecoderWrapper) -> (resource: Self)
        ensures
            resource@ == decoder_description(data),
    {
        Self(data)
    }
}

impl ExTokenizersDecoder {
    /// The texts that the decoder makes of the texts of tokens, to be put together.
    pub fn decode_chain(&self, tokens: Vec<String>) -> (chain: Result<Vec<String>, ExTokenizersError>)
        ensures
            match chain {
                Ok(chain) => decoded_pieces(self@, texts(tokens@)) == Ok::<Seq<Seq<char>>, Seq<char>>(
                    texts(chain@),
                ),
                Err(error) => error matches ExTokenizersError::Tokenizer(message) && decoded_pieces(
                    self@,
                    texts(tokens@),
                ) == Err::<Seq<Seq<char>>, Seq<char>>(message@),
            },
            self@.defined_on(texts(tokens@)) ==> match chain {
                Ok(chain) => settled(self@, texts(tokens@), Ok(texts(chain@))),
                Err(_) => exact_chain(self@, texts(tokens@)) is None,
            },
    {
        if !defined_on(&self.resource.0, &tokens) {
            return Err(ExTokenizersError::Tokenizer("the decoder cannot be run on these tokens".to_owned()));
        }
        match decode_chain(&self.resource.0, &tokens) {
            Ok(chain) => Ok(chain),
            Err(message) => Err(ExTokenizersError::Tokenizer(message)),
        }
    }

    /// A handle on the given decoder.
    pub fn new(data: tokenizers::DecoderWrapper) -> (handle: Self)
        ensures
            handle@ == decoder_description(data),
    {
        Self { resource: Arc::new(ExTokenizersDecoderRef::new(data)) }
    }
}

/// Whether a text is nothing but one character, repeated.
fn is_all_of(token: &str, content: char) -> (all: bool)
    ensures
        all == is_all(token@, content),
{
    let n = token.unicode_len();
    let mut i: usize = 0;
    while i < n
        invariant
            i <= n,
            n == token@.len(),
            forall|j: int| 0 <= j < i ==> #[trigger] token@[j] == content,
        decreases n - i,
    {
        if token.get_char(i) != content {
            return false;
        }
        i += 1;
    }
    true
}

/// Whether the engine can strip every token of a list.
fn can_strip(tokens: &Vec<String>, content: char, start: usize, stop: usize) -> (can: bool)
    ensures
        can == forall|i: int|
            0 <= i < tokens@.len() ==> strip_defined(content, start, stop, #[trigger] texts(tokens@)[i]),
{
    let mut i: usize = 0;
    while i < tokens.len()
        invariant
            i <= tokens@.len(),
            forall|j: int| 0 <= j < i ==> strip_defined(content, start, stop, #[trigger] texts(tokens@)[j]),
        decreases tokens@.len() - i,
    {
        let token = tokens[i].as_str();
        assert(token@ == texts(tokens@)[i as int]);
        if is_all_of(token, content) {
            let n = token.unicode_len();
            let cut = if start < n {
                start
            } else {
                n
            };
            if stop > n - cut {
                assert(!strip_defined(content, start, stop, texts(tokens@)[i as int]));
                return false;
            }
        }
        i += 1;
    }
    true
}

/// Whether the engine can run a decoder on tokens.
pub fn defined_on(decoder: &tokenizers::DecoderWrapper, tokens: &Vec<String>) -> (defined: bool)
    ensures
        defined == decoder_description(*decoder).defined_on(texts(tokens@)),
    decreases decoder_description(*decoder), 0nat,
{
    match decoder_kind(decoder) {
        DecoderKind::Bpe => tokens.len() > 0,
        DecoderKind::Strip => {
            let settings = strip_settings(decoder).unwrap();
            can_strip(tokens, settings.0, settings.1, settings.2)
        },
        DecoderKind::Sequence => {
            let parts = sequence_parts(decoder).unwrap();
            proof {
                let whole = decoder_description(*decoder);
                assert(whole->decoders == decoder_descriptions(parts@));
                assert(decreases_to!(whole => whole->decoders));
            }
            defined_through(&parts, 0, tokens)
        },
        _ => true,
    }
}

/// Whether the engine can run the decoders of a list from one of them on, each on
/// what the one before it makes of the tokens.
fn defined_through(parts: &Vec<tokenizers::DecoderWrapper>, from: usize, tokens: &Vec<String>) -> (defined: bool)
    ensures
        defined == defined_from(decoder_descriptions(parts@), from as nat, texts(tokens@)),
    decreases decoder_descriptions(parts@), parts@.len() - from,
{
    if from >= parts.len() {
        return true;
    }
    proof {
        let decoders = decoder_descriptions(parts@);
        assert(decoder_description(parts@[from as int]) == decoders[from as int]);
        assert(decreases_to!(decoders => decoders[from as int]));
    }
    if !defined_on(&parts[from], tokens) {
        return false;
    }
    match decode_chain(&parts[from], tokens) {
        Ok(made) => defined_through(parts, from + 1, &made),
        Err(_) => true,
    }
}

/// Whether a decoder of the engine is of a kind, or a sequence that holds one of that
/// kind at any depth.
pub fn holds(decoder: &tokenizers::DecoderWrapper, kind: DecoderKind) -> (found: bool)
    ensures
        found == decoder_description(*decoder).holds(kind),
    decreases decoder_description(*decoder),
{
    if decoder_kind(decoder) == kind {
        return true;
    }
    match sequence_parts(decoder) {
        Some(parts) => {
            let ghost decoders = decoder_descriptions(parts@);
            let mut i: usize = 0;
            while i < parts.len()
                invariant
                    i <= parts@.len(),
                    decoders == decoder_descriptions(parts@),
                    decoder_description(*decoder) == (DecoderModel::Sequence { decoders }),
                    forall|j: int| 0 <= j < i ==> !(#[trigger] decoders[j]).holds(kind),
                decreases parts@.len() - i,
            {
                proof {
                    let whole = decoder_description(*decoder);
                    assert(decoder_description(parts@[i as int]) == decoders[i as int]);
                    assert(whole->decoders == decoders);
                    assert(decreases_to!(whole => whole->decoders));
                    assert(decreases_to!(decoders => decoders[i as int]));
                }
                if holds(&parts[i], kind) {
                    assert(decoders[i as int].holds(kind));
                    return true;
                }
                i += 1;
            }
            false
        },
        None => false,
    }
}

/// The texts that a decoder makes of the texts of tokens, to be put together: what
/// the engine makes of them; but a decoder that is not defined on the tokens is
/// refused.
pub open spec fn decoded_pieces(decoder: DecoderModel, tokens: Seq<Seq<char>>) -> Result<
    Seq<Seq<char>>,
    Seq<char>,
> {
    if !decoder.defined_on(tokens) {
        Err("the decoder cannot be run on these tokens"@)
    } else {
        decoded_chain(decoder, tokens)
    }
}

/// The text that a decoder makes of the texts of tokens: of no tokens the empty text,
/// of others what the engine makes of them; but a decoder that is not defined on the
/// tokens is refused.
pub open spec fn decoded_text(decoder: DecoderModel, tokens: Seq<Seq<char>>) -> Result<
    Seq<char>,
    Seq<char>,
> {
    if tokens.len() == 0 {
        Ok(Seq::empty())
    } else if !decoder.defined_on(tokens) {
        Err("the decoder cannot be run on these tokens"@)
    } else {
        decoded(decoder, tokens)
    }
}

/// The text that the decoder makes of the texts of tokens: see `decoded_text`, and
/// `exact_chain` for the decoders whose work is written out.
pub fn decoders_decode(decoder: ExTokenizersDecoder, tokens: Vec<String>) -> (text: Result<
    String,
    ExTokenizersError,
>)
    ensures
        match text {
            Ok(text) => decoded_text(decoder@, texts(tokens@)) == Ok::<Seq<char>, Seq<char>>(text@),
            Err(error) => error matches ExTokenizersError::Tokenizer(message) && decoded_text(
                decoder@,
                texts(tokens@),
            ) == Err::<Seq<char>, Seq<char>>(message@),
        },
        tokens@.len() > 0 && decoder@.defined_on(texts(tokens@)) ==> match text {
            Ok(text) => settled_text(decoder@, texts(tokens@), Ok(text@)),
            Err(_) => exact_chain(decoder@, texts(tokens@)) is None,
        },
{
    if tokens.len() == 0 {
        return Ok(String::new());
    }
    if !defined_on(&decoder.resource.0, &tokens) {
        return Err(ExTokenizersError::Tokenizer("the decoder cannot be run on these tokens".to_owned()));
    }
    match decode(&decoder.resource.0, tokens) {
        Ok(text) => Ok(text),
        Err(message) => Err(ExTokenizersError::Tokenizer(message)),
    }
}

/// The description that a decoder gives of itself: its kind under the name
/// `decoder_type`, then its settings under their names.
pub open spec fn decoder_info(decoder: DecoderModel) -> Seq<(Seq<char>, InfoValueModel)> {
    match decoder {
        DecoderModel::Bpe { suffix } => seq![
            ("decoder_type"@, InfoValueModel::Text("BPE"@)),
            ("suffix"@, InfoValueModel::Text(suffix)),
        ],
        DecoderModel::ByteLevel { add_prefix_space, trim_offsets, use_regex } => seq![
            ("decoder_type"@, InfoValueModel::Text("ByteLevel"@)),
            ("add_prefix_space"@, InfoValueModel::Flag(add_prefix_space)),
            ("trim_offsets"@, InfoValueModel::Flag(trim_offsets)),
            ("use_regex"@, InfoValueModel::Flag(use_regex)),
        ],
        DecoderModel::WordPiece { prefix, cleanup } => seq![
            ("decoder_type"@, InfoValueModel::Text("WordPiece"@)),
            ("prefix"@, InfoValueModel::Text(prefix)),
            ("cleanup"@, InfoValueModel::Flag(cleanup)),
        ],
        DecoderModel::Metaspace { prepend_scheme, .. } => seq![
            ("decoder_type"@, InfoValueModel::Text("Metaspace"@)),
            (
                "prepend_scheme"@,
                InfoValueModel::Text(
                    match prepend_scheme {
                        PrependScheme::First => "first"@,
                        PrependScheme::Never => "never"@,
                        PrependScheme::Always => "always"@,
                    },
                ),
            ),
        ],
        DecoderModel::Ctc { pad_token, word_delimiter_token, cleanup } => seq![
            ("decoder_type"@, InfoValueModel::Text("CTC"@)),
            ("pad_token"@, InfoValueModel::Text(pad_token)),
            ("word_delimiter_token"@, InfoValueModel::Text(word_delimiter_token)),
            ("cleanup"@, InfoValueModel::Flag(cleanup)),
        ],
        DecoderModel::Sequence { .. } => seq![("decoder_type"@, InfoValueModel::Text("Sequence"@))],
        DecoderModel::Replace { .. } => seq![("decoder_type"@, InfoValueModel::Text("Replace"@))],
        DecoderModel::Fuse => seq![("decoder_type"@, InfoValueModel::Text("Fuse"@))],
        DecoderModel::Strip { content, start, stop } => seq![
            ("decoder_type"@, InfoValueModel::Text("Strip"@)),
            ("content"@, InfoValueModel::Number(content as u32)),
            ("start"@, InfoValueModel::Size(start)),
            ("stop"@, InfoValueModel::Size(stop)),
        ],
        DecoderModel::ByteFallback => seq![("decoder_type"@, InfoValueModel::Text("ByteFallback"@))],
    }
}

/// The description that the decoder gives of itself.
pub fn decoders_info(decoder: ExTokenizersDecoder) -> (info: Info)
    ensures
        info@ == decoder_info(decoder@),
{
    let inner = &decoder.resource.0;
    let mut info = Info::new();
    match decoder_kind(inner) {
        DecoderKind::Bpe => {
            info.push("decoder_type", InfoValue::Text("BPE".to_owned()));
            info.push("suffix", InfoValue::Text(bpe_suffix(inner).unwrap()));
        },
        DecoderKind::ByteLevel => {
            let settings = byte_level_settings(inner).unwrap();
            info.push("decoder_type", InfoValue::Text("ByteLevel".to_owned()));
            info.push("add_prefix_space", InfoValue::Flag(settings.0));
            info.push("trim_offsets", InfoValue::Flag(settings.1));
            info.push("use_regex", InfoValue::Flag(settings.2));
        },
        DecoderKind::WordPiece => {
            let settings = wordpiece_settings(inner).unwrap();
            info.push("decoder_type", InfoValue::Text("WordPiece".to_owned()));
            info.push("prefix", InfoValue::Text(settings.0));
            info.push("cleanup", InfoValue::Flag(settings.1));
        },
        DecoderKind::Metaspace => {
            let scheme = match metaspace_scheme(inner).unwrap() {
                PrependScheme::First => "first",
                PrependScheme::Never => "never",
                PrependScheme::Always => "always",
            };
            info.push("decoder_type", InfoValue::Text("Metaspace".to_owned()));
            info.push("prepend_scheme", InfoValue::Text(scheme.to_owned()));
        },
        DecoderKind::Ctc => {
            let settings = ctc_settings(inner).unwrap();
            info.push("decoder_type", InfoValue::Text("CTC".to_owned()));
            info.push("pad_token", InfoValue::Text(settings.0));
            info.push("word_delimiter_token", InfoValue::Text(settings.1));
            info.push("cleanup", InfoValue::Flag(settings.2));
        },
        DecoderKind::Sequence => {
            info.push("decoder_type", InfoValue::Text("Sequence".to_owned()));
        },
        DecoderKind::Replace => {
            info.push("decoder_type", InfoValue::Text("Replace".to_owned()));
        },
        DecoderKind::Fuse => {
            info.push("decoder_type", InfoValue::Text("Fuse".to_owned()));
        },
        DecoderKind::Strip => {
            let settings = strip_settings(inner).unwrap();
            info.push("decoder_type", InfoValue::Text("Strip".to_owned()));
            info.push("content", InfoValue::Number(settings.0 as u32));
            info.push("start", InfoValue::Size(settings.1));
            info.push("stop", InfoValue::Size(settings.2));
        },
        DecoderKind::ByteFallback => {
            info.push("decoder_type", InfoValue::Text("ByteFallback".to_owned()));
        },
    }
    assert(info@ =~= decoder_info(decoder@));
    info
}

/// The byte-level decoder, with all of its settings on.
pub fn decoders_byte_level() -> (decoder: ExTokenizersDecoder)
    ensures
        decoder@ == (DecoderModel::ByteLevel { add_prefix_space: true, trim_offsets: true, use_regex: true }),
{
    ExTokenizersDecoder::new(byte_level_decoder())
}

/// A decoder that replaces what matches a literal pattern, unless the engine refuses
/// the pattern.
pub fn decoders_replace(pattern: String, content: String) -> (decoder: Result<ExTokenizersDecoder, BadArg>)
    ensures
        match decoder {
            Ok(decoder) => replace_pattern_accepted(pattern@) && decoder@ == (DecoderModel::Replace {
                pattern: PatternModel::Literal(pattern@),
                content: content@,
            }),
            Err(_) => !replace_pattern_accepted(pattern@),
        },
{
    match replace_decoder(pattern, content) {
        Ok(decoder) => Ok(ExTokenizersDecoder::new(decoder)),
        Err(refusal) => Err(refusal),
    }
}

/// One setting of a WordPiece decoder.
pub enum WordpieceOption {
    Prefix(String),
    Cleanup(bool),
}

/// The settings of a WordPiece decoder.
pub struct WordpieceSettings {
    pub prefix: Seq<char>,
    pub cleanup: bool,
}

impl WordpieceSettings {
    /// The settings that no option has changed: the prefix `##`, with cleanup.
    pub open spec fn initial() -> WordpieceSettings {
        WordpieceSettings { prefix: "##"@, cleanup: true }
    }

    /// The settings with one option applied.
    pub open spec fn with(self, option: WordpieceOption) -> WordpieceSettings {
        match option {
            WordpieceOption::Prefix(prefix) => WordpieceSettings { prefix: prefix@, ..self },
            WordpieceOption::Cleanup(cleanup) => WordpieceSettings { cleanup, ..self },
        }
    }

    /// The settings that a list of options describes: of two options for one setting
    /// the later one counts.
    pub open spec fn from_options(options: Seq<WordpieceOption>) -> WordpieceSettings
        decreases options.len(),
    {
        if options.len() == 0 {
            WordpieceSettings::initial()
        } else {
            WordpieceSettings::from_options(options.drop_last()).with(options.last())
        }
    }
}

/// The WordPiece decoder that the options describe.
pub fn decoders_wordpiece(options: Vec<WordpieceOption>) -> (decoder: ExTokenizersDecoder)
    ensures
        decoder@ == (DecoderModel::WordPiece {
            prefix: WordpieceSettings::from_options(options@).prefix,
            cleanup: WordpieceSettings::from_options(options@).cleanup,
        }),
{
    let mut prefix: String = "##".to_owned();
    let mut cleanup: bool = true;
    let mut i: usize = 0;
    while i < options.len()
        invariant
            i <= options@.len(),
            (WordpieceSettings { prefix: prefix@, cleanup }) == WordpieceSettings::from_options(
                options@.take(i as int),
            ),
        decreases options@.len() - i,
    {
        proof {
            lemma_take_step(options@, i as int);
        }
        match &options[i] {
            WordpieceOption::Prefix(value) => prefix = value.clone(),
            WordpieceOption::Cleanup(value) => cleanup = *value,
        }
        i += 1;
    }
    proof {
        lemma_take_all(options@);
    }
    ExTokenizersDecoder::new(wordpiece_decoder(prefix, cleanup))
}

/// The byte-fallback decoder.
pub fn decoders_byte_fallback() -> (decoder: ExTokenizersDecoder)
    ensures
        decoder@ == DecoderModel::ByteFallback,
{
    ExTokenizersDecoder::new(byte_fallback_decoder())
}

/// The decoder that fuses all tokens into one.
pub fn decoders_fuse() -> (decoder: ExTokenizersDecoder)
    ensures
        decoder@ == DecoderModel::Fuse,
{
    ExTokenizersDecoder::new(fuse_decoder())
}

/// The decoder that strips up to `left` and `right` copies of a character from the
/// ends of each token. The character is given as its number; a number that is not one
/// of a character is refused.
pub fn decoders_strip(content: u32, left: usize, right: usize) -> (decoder: Result<ExTokenizersDecoder, BadArg>)
    ensures
        match decoder {
            Ok(decoder) => crate::util::is_scalar_value(content) && decoder@ == (DecoderModel::Strip {
                content: content as char,
                start: left,
                stop: right,
            }),
            Err(_) => !crate::util::is_scalar_value(content),
        },
{
    match char::from_u32(content) {
        Some(content) => Ok(ExTokenizersDecoder::new(strip_decoder(content, left, right))),
        None => Err(BadArg),
    }
}

/// One setting of a Metaspace decoder.
pub enum MetaspaceOption {
    /// The marker of a space, as the number of its character.
    Replacement(u32),
    PrependScheme(PrependScheme),
}

/// The settings of a Metaspace decoder, or nothing where an option was refused.
pub struct MetaspaceSettings {
    pub replacement: char,
    pub prepend_scheme: PrependScheme,
}

impl MetaspaceSettings {
    /// The settings that no option has changed: the marker U+2581, put in front of
    /// every piece.
    pub open spec fn initial() -> MetaspaceSettings {
        MetaspaceSettings { replacement: '\u{2581}', prepend_scheme: PrependScheme::Always }
    }

    /// Whether an option can be applied: a marker has to be the number of a character.
    pub open spec fn accepts(option: MetaspaceOption) -> bool {
        match option {
            MetaspaceOption::Replacement(code) => crate::util::is_scalar_value(code),
            MetaspaceOption::PrependScheme(_) => true,
        }
    }

    /// The settings with one option applied.
    pub open spec fn with(self, option: MetaspaceOption) -> MetaspaceSettings {
        match option {
            MetaspaceOption::Replacement(code) => MetaspaceSettings { replacement: code as char, ..self },
            MetaspaceOption::PrependScheme(prepend_scheme) => MetaspaceSettings { prepend_scheme, ..self },
        }
    }

    /// The settings that a list of options describes, where every option can be
    /// applied: of two options for one setting the later one counts.
    pub open spec fn from_options(options: Seq<MetaspaceOption>) -> Option<MetaspaceSettings>
        decreases options.len(),
    {
        if options.len() == 0 {
            Some(MetaspaceSettings::initial())
        } else {
            match MetaspaceSettings::from_options(options.drop_last()) {
                Some(settings) if MetaspaceSettings::accepts(options.last()) => Some(
                    settings.with(options.last()),
                ),
                _ => None,
            }
        }
    }
}

/// Options that are refused as a whole are refused from one of them on.
pub proof fn lemma_metaspace_refused(options: Seq<MetaspaceOption>, k: int)
    requires
        0 <= k <= options.len(),
        MetaspaceSettings::from_options(options.take(k)) is None,
    ensures
        MetaspaceSettings::from_options(options) is None,
    decreases options.len() - k,
{
    if k < options.len() {
        lemma_take_step(options, k);
        lemma_metaspace_refused(options, k + 1);
    } else {
        lemma_take_all(options);
    }
}

/// The Metaspace decoder that the options describe; it splits on the marker. An
/// option whose marker is not the number of a character is refused.
pub fn decoders_metaspace(options: Vec<MetaspaceOption>) -> (decoder: Result<ExTokenizersDecoder, BadArg>)
    ensures
        match decoder {
            Ok(decoder) => MetaspaceSettings::from_options(options@) matches Some(settings) && decoder@ == (
            DecoderModel::Metaspace {
                replacement: settings.replacement,
                prepend_scheme: settings.prepend_scheme,
                split: true,
            }),
            Err(_) => MetaspaceSettings::from_options(options@) is None,
        },
{
    let mut replacement: char = '\u{2581}';
    let mut prepend_scheme: PrependScheme = PrependScheme::Always;
    let mut i: usize = 0;
    while i < options.len()
        invariant
            i <= options@.len(),
            MetaspaceSettings::from_options(options@.take(i as int)) == Some(
                MetaspaceSettings { replacement, prepend_scheme },
            ),
        decreases options@.len() - i,
    {
        proof {
            lemma_take_step(options@, i as int);
        }
        match &options[i] {
            MetaspaceOption::Replacement(code) => {
                match char::from_u32(*code) {
                    Some(c) => replacement = c,
                    None => {
                        proof {
                            lemma_metaspace_refused(options@, i + 1);
                        }
                        return Err(BadArg);
                    },
                }
            },
            MetaspaceOption::PrependScheme(scheme) => prepend_scheme = *scheme,
        }
        i += 1;
    }
    proof {
        lemma_take_all(options@);
    }
    Ok(ExTokenizersDecoder::new(metaspace_decoder(replacement, prepend_scheme, true)))
}

/// One setting of a BPE decoder.
pub enum BpeOption {
    Suffix(String),
}

/// The suffix that a list of options describes: that of the last option, and `</w>`
/// where there is none.
pub open spec fn bpe_suffix_from_options(options: Seq<BpeOption>) -> Seq<char> {
    if options.len() == 0 {
        "</w>"@
    } else {
        match options.last() {
            BpeOption::Suffix(suffix) => suffix@,
        }
    }
}

/// The BPE decoder that the options describe.
pub fn decoders_bpe(options: Vec<BpeOption>) -> (decoder: ExTokenizersDecoder)
    ensures
        decoder@ == (DecoderModel::Bpe { suffix: bpe_suffix_from_options(options@) }),
{
    let mut suffix: String = "</w>".to_owned();
    let mut i: usize = 0;
    while i < options.len()
        invariant
            i <= options@.len(),
            suffix@ == bpe_suffix_from_options(options@.take(i as int)),
        decreases options@.len() - i,
    {
        proof {
            lemma_take_step(options@, i as int);
        }
        match &options[i] {
            BpeOption::Suffix(value) => suffix = value.clone(),
        }
        i += 1;
    }
    proof {
        lemma_take_all(options@);
    }
    ExTokenizersDecoder::new(bpe_decoder(suffix))
}

/// One setting of a CTC decoder.
pub enum CTCOption {
    PadToken(String),
    WordDelimiterToken(String),
    Cleanup(bool),
}

/// The settings of a CTC decoder.
pub struct CtcSettings {
    pub pad_token: Seq<char>,
    pub word_delimiter_token: Seq<char>,
    pub cleanup: bool,
}

impl CtcSettings {
    /// The settings that no option has changed: the pad token `<pad>`, the word
    /// delimiter `|`, with cleanup.
    pub open spec fn initial() -> CtcSettings {
        CtcSettings { pad_token: "<pad>"@, word_delimiter_token: "|"@, cleanup: true }
    }

    /// The settings with one option applied.
    pub open spec fn with(self, option: CTCOption) -> CtcSettings {
        match option {
            CTCOption::PadToken(pad_token) => CtcSettings { pad_token: pad_token@, ..self },
            CTCOption::WordDelimiterToken(token) => CtcSettings { word_delimiter_token: token@, ..self },
            CTCOption::Cleanup(cleanup) => CtcSettings { cleanup, ..self },
        }
    }

    /// The settings that a list of options describes: of two options for one setting
    /// the later one counts.
    pub open spec fn from_options(options: Seq<CTCOption>) -> CtcSettings
        decreases options.len(),
    {
        if options.len() == 0 {
            CtcSettings::initial()
        } else {
            CtcSettings::from_options(options.drop_last()).with(options.last())
        }
    }
}

/// The CTC decoder that the options describe.
pub fn decoders_ctc(options: Vec<CTCOption>) -> (decoder: ExTokenizersDecoder)
    ensures
        decoder@ == (DecoderModel::Ctc {
            pad_token: CtcSettings::from_options(options@).pad_token,
            word_delimiter_token: CtcSettings::from_options(options@).word_delimiter_token,
            cleanup: CtcSettings::from_options(options@).cleanup,
        }),
{
    let mut pad_token: String = "<pad>".to_owned();
    let mut word_delimiter_token: String = "|".to_owned();
    let mut cleanup: bool = true;
    let mut i: usize = 0;
    while i < options.len()
        invariant
            i <= options@.len(),
            (CtcSettings {
                pad_token: pad_token@,
                word_delimiter_token: word_delimiter_token@,
                cleanup,
            }) == CtcSettings::from_options(options@.take(i as int)),
        decreases options@.len() - i,
    {
        proof {
            lemma_take_step(options@, i as int);
        }
        match &options[i] {
            CTCOption::PadToken(value) => pad_token = value.clone(),
            CTCOption::WordDelimiterToken(value) => word_delimiter_token = value.clone(),
            CTCOption::Cleanup(value) => cleanup = *value,
        }
        i += 1;
    }
    proof {
        lemma_take_all(options@);
    }
    ExTokenizersDecoder::new(ctc_decoder(pad_token, word_delimiter_token, cleanup))
}

/// The views of a sequence of decoder handles.
pub open spec fn decoder_views(decoders: Seq<ExTokenizersDecoder>) -> Seq<DecoderModel> {
    Seq::new(decoders.len(), |i: int| decoders[i]@)
}

/// The decoder that runs the given decoders one after the other.
pub fn decoders_sequence(decoders: Vec<ExTokenizersDecoder>) -> (decoder: ExTokenizersDecoder)
    ensures
        decoder@ == (DecoderModel::Sequence { decoders: decoder_views(decoders@) }),
{
    let mut sequence: Vec<tokenizers::DecoderWrapper> = Vec::with_capacity(decoders.len());
    let mut i: usize = 0;
    while i < decoders.len()
        invariant
            i <= decoders@.len(),
            sequence@.len() == i,
            forall|j: int| 0 <= j < i ==> decoder_description(#[trigger] sequence@[j]) == decoders@[j]@,
        decreases decoders@.len() - i,
    {
        sequence.push(decoders[i].resource.0.clone());
        i += 1;
    }
    assert(decoder_descriptions(sequence@) =~= decoder_views(decoders@));
    ExTokenizersDecoder::new(sequence_decoder(sequence))
}

} // verus!
