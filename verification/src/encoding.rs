//! Encodings: the parallel per-token sequences that tokenizing produces, and the
//! padding, truncation and index queries on them.

use crate::error::ExTokenizersError;
use crate::util::{lemma_take_all, lemma_take_step, texts, Direction};
use std::sync::Arc;
use vstd::prelude::*;
use vstd::slice::slice_to_vec;

verus! {

#[verifier::external_type_specification]
#[verifier::external_body]
pub struct ExEncoding(tokenizers::Encoding);

/// The ids of an encoding's tokens, in order.
pub uninterp spec fn encoding_ids(e: tokenizers::Encoding) -> Seq<u32>;

/// For each token, the input sequence type it was given.
pub uninterp spec fn encoding_type_ids(e: tokenizers::Encoding) -> Seq<u32>;

/// The text of each token.
pub uninterp spec fn encoding_tokens(e: tokenizers::Encoding) -> Seq<Seq<char>>;

/// For each token, the index of the word it came from, if any.
pub uninterp spec fn encoding_words(e: tokenizers::Encoding) -> Seq<Option<u32>>;

/// For each token, where it starts and ends in the text.
pub uninterp spec fn encoding_offsets(e: tokenizers::Encoding) -> Seq<(usize, usize)>;

/// For each token, 1 where it is a special token and 0 where it is not.
pub uninterp spec fn encoding_special_tokens_mask(e: tokenizers::Encoding) -> Seq<u32>;

/// For each token, 1 where it is to be attended to and 0 where it is padding.
pub uninterp spec fn encoding_attention_mask(e: tokenizers::Encoding) -> Seq<u32>;

/// For each input sequence that the encoding records, the tokens it covers: the
/// first, and one past the last.
pub uninterp spec fn encoding_sequence_ranges(e: tokenizers::Encoding) -> Map<usize, (usize, usize)>;

/// What each of the chunks holds that truncation split off.
pub uninterp spec fn encoding_overflowing(e: tokenizers::Encoding) -> Seq<EncodingModel>;

/// An encoding as mathematics: its parallel sequences, its sequence ranges and
/// its overflowing chunks.
#[verifier::ext_equal]
pub struct EncodingModel {
    pub ids: Seq<u32>,
    pub type_ids: Seq<u32>,
    pub tokens: Seq<Seq<char>>,
    pub words: Seq<Option<u32>>,
    pub offsets: Seq<(usize, usize)>,
    pub special_tokens_mask: Seq<u32>,
    pub attention_mask: Seq<u32>,
    pub sequence_ranges: Map<usize, (usize, usize)>,
    pub overflowing: Seq<EncodingModel>,
}

/// What an encoding of the engine holds.
pub open spec fn encoding_model(e: tokenizers::Encoding) -> EncodingModel {
    EncodingModel {
        ids: encoding_ids(e),
        type_ids: encoding_type_ids(e),
        tokens: encoding_tokens(e),
        words: encoding_words(e),
        offsets: encoding_offsets(e),
        special_tokens_mask: encoding_special_tokens_mask(e),
        attention_mask: encoding_attention_mask(e),
        sequence_ranges: encoding_sequence_ranges(e),
        overflowing: encoding_overflowing(e),
    }
}

/// `fill` repeated `count` times on one side of `s`.
pub open spec fn pad_sequence<T>(s: Seq<T>, count: nat, fill: T, direction: Direction) -> Seq<T> {
    match direction {
        Direction::Left => Seq::new(count, |i: int| fill) + s,
        Direction::Right => s + Seq::new(count, |i: int| fill),
    }
}

/// The distance between the starts of two neighbouring truncation windows.
pub open spec fn window_step(max_len: nat, stride: nat) -> int {
    max_len - stride
}

/// How many windows of `max_len` tokens, each overlapping the one before it by `stride`
/// tokens, it takes to cover `len` tokens.
pub open spec fn window_count(len: nat, max_len: nat, stride: nat) -> int {
    (len - max_len + window_step(max_len, stride) - 1) / window_step(max_len, stride) + 1
}

/// The tokens of window number `k`, counted from the side that is kept: the first, and
/// one past the last.
pub open spec fn window_range(
    len: nat,
    max_len: nat,
    stride: nat,
    direction: Direction,
    k: int,
) -> (int, int) {
    let shift = k * window_step(max_len, stride);
    match direction {
        Direction::Right => (shift, if shift + max_len < len { shift + max_len } else { len as int }),
        Direction::Left => (if len - shift - max_len > 0 { len - shift - max_len } else { 0 }, len - shift),
    }
}

impl EncodingModel {
    /// The number of tokens.
    pub open spec fn len(self) -> nat {
        self.ids.len()
    }

    /// The encoding with no tokens at all.
    pub open spec fn empty() -> EncodingModel {
        EncodingModel {
            ids: Seq::empty(),
            type_ids: Seq::empty(),
            tokens: Seq::empty(),
            words: Seq::empty(),
            offsets: Seq::empty(),
            special_tokens_mask: Seq::empty(),
            attention_mask: Seq::empty(),
            sequence_ranges: Map::empty(),
            overflowing: Seq::empty(),
        }
    }

    /// Every per-token sequence has one entry for each id.
    pub open spec fn aligned(self) -> bool {
        &&& self.type_ids.len() == self.ids.len()
        &&& self.tokens.len() == self.ids.len()
        &&& self.words.len() == self.ids.len()
        &&& self.offsets.len() == self.ids.len()
        &&& self.special_tokens_mask.len() == self.ids.len()
        &&& self.attention_mask.len() == self.ids.len()
    }

    /// Every recorded sequence range is a range of this encoding's tokens.
    pub open spec fn ranges_in_bounds(self) -> bool {
        &&& self.sequence_ranges.dom().finite()
        &&& forall|s: usize| #[trigger]
            self.sequence_ranges.dom().contains(s) ==> self.sequence_ranges[s].0
                <= self.sequence_ranges[s].1 <= self.ids.len()
    }

    /// Every chunk, at every depth, is aligned.
    pub open spec fn aligned_throughout(self) -> bool
        decreases self,
    {
        &&& self.aligned()
        &&& forall|i: int|
            0 <= i < self.overflowing.len() ==> (#[trigger] self.overflowing[i]).aligned_throughout()
    }

    /// Every chunk, at every depth, keeps its sequence ranges among its own tokens.
    pub open spec fn ranges_in_bounds_throughout(self) -> bool
        decreases self,
    {
        &&& self.ranges_in_bounds()
        &&& forall|i: int|
            0 <= i < self.overflowing.len() ==> (
            #[trigger] self.overflowing[i]).ranges_in_bounds_throughout()
    }

    /// The invariant of an encoding: aligned sequences and sequence ranges within
    /// bounds, in the encoding itself and in every overflowing chunk.
    pub open spec fn well_formed(self) -> bool {
        self.aligned_throughout() && self.ranges_in_bounds_throughout()
    }

    /// The number of input sequences that the encoding combines.
    pub open spec fn n_sequences(self) -> nat {
        if self.sequence_ranges.dom().len() == 0 {
            1
        } else {
            self.sequence_ranges.dom().len()
        }
    }

    /// The tokens that belong to input sequence `sequence_id`: its recorded range, or
    /// every token where none is recorded for it.
    pub open spec fn sequence_range(self, sequence_id: usize) -> (usize, usize) {
        if self.sequence_ranges.dom().contains(sequence_id) {
            self.sequence_ranges[sequence_id]
        } else {
            (0, self.ids.len() as usize)
        }
    }

    /// The encoding after input sequence `sequence_id` was made to cover every token.
    pub open spec fn with_sequence_id(self, sequence_id: usize) -> EncodingModel {
        EncodingModel {
            sequence_ranges: self.sequence_ranges.insert(sequence_id, (0, self.ids.len() as usize)),
            ..self
        }
    }

    /// The sequence ranges after `count` tokens were put in front of the others.
    pub open spec fn shifted_ranges(self, count: nat) -> Map<usize, (usize, usize)> {
        Map::new(
            |s: usize| self.sequence_ranges.dom().contains(s),
            |s: usize|
                (
                    (self.sequence_ranges[s].0 + count) as usize,
                    (self.sequence_ranges[s].1 + count) as usize,
                ),
        )
    }

    /// The encoding padded to `target` tokens. Chunks are padded like the encoding
    /// itself; an encoding that already has `target` tokens or more keeps its own.
    pub open spec fn padded(
        self,
        target: nat,
        pad_id: u32,
        pad_type_id: u32,
        pad_token: Seq<char>,
        direction: Direction,
    ) -> EncodingModel
        decreases self,
    {
        let overflowing = Seq::new(
            self.overflowing.len(),
            |i: int|
                if 0 <= i < self.overflowing.len() {
                    self.overflowing[i].padded(target, pad_id, pad_type_id, pad_token, direction)
                } else {
                    EncodingModel::empty()
                },
        );
        if self.ids.len() >= target {
            EncodingModel { overflowing, ..self }
        } else {
            let count = (target - self.ids.len()) as nat;
            EncodingModel {
                ids: pad_sequence(self.ids, count, pad_id, direction),
                type_ids: pad_sequence(self.type_ids, count, pad_type_id, direction),
                tokens: pad_sequence(self.tokens, count, pad_token, direction),
                words: pad_sequence(self.words, count, None, direction),
                offsets: pad_sequence(self.offsets, count, (0usize, 0usize), direction),
                special_tokens_mask: pad_sequence(self.special_tokens_mask, count, 1u32, direction),
                attention_mask: pad_sequence(self.attention_mask, count, 0u32, direction),
                sequence_ranges: match direction {
                    Direction::Left => self.shifted_ranges(count),
                    Direction::Right => self.sequence_ranges,
                },
                overflowing,
            }
        }
    }

    /// The tokens from `start` up to `stop`, as an encoding of their own: no sequence
    /// ranges, no chunks.
    pub open spec fn window(self, start: int, stop: int) -> EncodingModel {
        EncodingModel {
            ids: self.ids.subrange(start, stop),
            type_ids: self.type_ids.subrange(start, stop),
            tokens: self.tokens.subrange(start, stop),
            words: self.words.subrange(start, stop),
            offsets: self.offsets.subrange(start, stop),
            special_tokens_mask: self.special_tokens_mask.subrange(start, stop),
            attention_mask: self.attention_mask.subrange(start, stop),
            sequence_ranges: Map::empty(),
            overflowing: Seq::empty(),
        }
    }

    /// Window number `k` of a truncation.
    pub open spec fn truncation_window(
        self,
        max_len: nat,
        stride: nat,
        direction: Direction,
        k: int,
    ) -> EncodingModel {
        let range = window_range(self.ids.len(), max_len, stride, direction, k);
        self.window(range.0, range.1)
    }

    /// Whether a truncation to `max_len` tokens with this `stride` is defined: there is
    /// nothing to cut, or everything is cut, or the stride is shorter than a window.
    pub open spec fn truncation_defined(self, max_len: nat, stride: nat) -> bool {
        max_len >= self.ids.len() || max_len == 0 || stride < max_len
    }

    /// The encoding truncated to `max_len` tokens. An encoding that is short enough
    /// stays as it is. Cut to nothing, it becomes empty and is its own single chunk.
    /// Otherwise the first window stays, and the windows after it become the chunks.
    pub open spec fn truncated(self, max_len: nat, stride: nat, direction: Direction) -> EncodingModel {
        if max_len >= self.ids.len() {
            self
        } else if max_len == 0 {
            EncodingModel { overflowing: seq![self], ..EncodingModel::empty() }
        } else {
            EncodingModel {
                overflowing: Seq::new(
                    (window_count(self.ids.len(), max_len, stride) - 1) as nat,
                    |j: int| self.truncation_window(max_len, stride, direction, j + 1),
                ),
                ..self.truncation_window(max_len, stride, direction, 0)
            }
        }
    }
}

/// Recording a sequence that covers every token keeps an encoding well-formed.
pub proof fn lemma_with_sequence_id_well_formed(m: EncodingModel, sequence_id: usize)
    requires
        m.well_formed(),
    ensures
        m.with_sequence_id(sequence_id).well_formed(),
{
    let changed = m.with_sequence_id(sequence_id);
    assert(changed.sequence_ranges.dom() =~= m.sequence_ranges.dom().insert(sequence_id));
}

/// `tokenizers::Encoding::len`: the number of ids.
pub assume_specification[ tokenizers::Encoding::len ](e: &tokenizers::Encoding) -> (n: usize)
    ensures
        n == encoding_ids(*e).len(),
;

/// `tokenizers::Encoding::n_sequences`: the number of recorded sequence ranges, and 1
/// where none is recorded.
pub assume_specification[ tokenizers::Encoding::n_sequences ](e: &tokenizers::Encoding) -> (n:
    usize)
    ensures
        encoding_sequence_ranges(*e).dom().finite() ==> n == encoding_model(*e).n_sequences(),
;

/// `tokenizers::Encoding::set_sequence_id`: records for the given sequence the range of
/// all tokens, and changes nothing else.
pub assume_specification[ tokenizers::Encoding::set_sequence_id ](
    e: &mut tokenizers::Encoding,
    sequence_id: usize,
)
    ensures
        encoding_model(*final(e)) == encoding_model(*old(e)).with_sequence_id(sequence_id),
;

/// `tokenizers::Encoding::get_ids`: the ids.
pub assume_specification[ tokenizers::Encoding::get_ids ](e: &tokenizers::Encoding) -> (s: &[u32])
    ensures
        s@ == encoding_ids(*e),
;

/// `tokenizers::Encoding::get_type_ids`: the type ids.
pub assume_specification[ tokenizers::Encoding::get_type_ids ](e: &tokenizers::Encoding) -> (s: &[u32])
    ensures
        s@ == encoding_type_ids(*e),
;

/// `tokenizers::Encoding::get_tokens`: the tokens.
pub assume_specification[ tokenizers::Encoding::get_tokens ](e: &tokenizers::Encoding) -> (s: &[String])
    ensures
        texts(s@) == encoding_tokens(*e),
;

/// `tokenizers::Encoding::get_word_ids`: the word of each token.
pub assume_specification[ tokenizers::Encoding::get_word_ids ](e: &tokenizers::Encoding) -> (s: &[Option<u32>])
    ensures
        s@ == encoding_words(*e),
;

/// `tokenizers::Encoding::get_offsets`: the offsets of each token.
pub assume_specification[ tokenizers::Encoding::get_offsets ](e: &tokenizers::Encoding) -> (s: &[(usize, usize)])
    ensures
        s@ == encoding_offsets(*e),
;

/// `tokenizers::Encoding::get_special_tokens_mask`: the special tokens mask.
pub assume_specification[ tokenizers::Encoding::get_special_tokens_mask ](
    e: &tokenizers::Encoding,
) -> (s: &[u32])
    ensures
        s@ == encoding_special_tokens_mask(*e),
;

/// `tokenizers::Encoding::get_attention_mask`: the attention mask.
pub assume_specification[ tokenizers::Encoding::get_attention_mask ](
    e: &tokenizers::Encoding,
) -> (s: &[u32])
    ensures
        s@ == encoding_attention_mask(*e),
;

/// `tokenizers::Encoding::get_overflowing`: the chunks, in order.
pub assume_specification[ tokenizers::Encoding::get_overflowing ](e: &tokenizers::Encoding) -> (s: &Vec<tokenizers::Encoding>)
    ensures
        s@.len() == encoding_overflowing(*e).len(),
        forall|i: int| 0 <= i < s@.len() ==> encoding_model(#[trigger] s@[i]) == encoding_overflowing(*e)[i],
;

/// `Clone::clone` of `tokenizers::Encoding`, which is derived: the copy holds what the
/// encoding copied holds.
pub assume_specification[ <tokenizers::Encoding as Clone>::clone ](e: &tokenizers::Encoding) -> (copy: tokenizers::Encoding)
    ensures
        copy == *e,
;

/// A well-formed encoding of the engine, owned by the library.
pub struct ExTokenizersEncodingRef(tokenizers::Encoding);

/// A handle on an encoding. Handles are cheap to pass around and never change what
/// they point to: every operation that changes an encoding gives a new handle.
#[derive(Clone)]
pub struct ExTokenizersEncoding {
    resource: Arc<ExTokenizersEncodingRef>,
}

impl ExTokenizersEncodingRef {
    #[verifier::type_invariant]
    spec fn holds_well_formed(self) -> bool {
        encoding_model(self.0).well_formed()
    }

    /// The encoding of the engine behind the resource.
    pub fn encoding(&self) -> (inner: &tokenizers::Encoding)
        ensures
            encoding_model(*inner) == self@,
            self@.well_formed(),
    {
        proof {
            use_type_invariant(self);
        }
        &self.0
    }
}

impl View for ExTokenizersEncodingRef {
    type V = EncodingModel;

    closed spec fn view(&self) -> EncodingModel {
        encoding_model(self.0)
    }
}

impl View for ExTokenizersEncoding {
    type V = EncodingModel;

    closed spec fn view(&self) -> EncodingModel {
        self.resource@
    }
}

impl ExTokenizersEncoding {
    /// A handle on the given encoding.
    pub fn new(encoding: tokenizers::Encoding) -> (handle: Self)
        requires
            encoding_model(encoding).well_formed(),
        ensures
            handle@ == encoding_model(encoding),
    {
        Self { resource: Arc::new(ExTokenizersEncodingRef(encoding)) }
    }

    /// The encoding of the engine behind the handle.
    pub fn encoding(&self) -> (inner: &tokenizers::Encoding)
        ensures
            encoding_model(*inner) == self@,
            self@.well_formed(),
    {
        self.resource.encoding()
    }
}

/// The number of tokens.
pub fn encoding_get_length(encoding: ExTokenizersEncoding) -> (n: usize)
    ensures
        n == encoding@.len(),
{
    encoding.encoding().len()
}

/// The number of input sequences that the encoding combines.
pub fn encoding_get_n_sequences(encoding: ExTokenizersEncoding) -> (n: usize)
    ensures
        n == encoding@.n_sequences(),
{
    encoding.encoding().n_sequences()
}

/// The encoding with input sequence `seq_id` covering every token.
pub fn encoding_set_sequence_id(encoding: ExTokenizersEncoding, seq_id: usize) -> (changed:
    ExTokenizersEncoding)
    ensures
        changed@ == encoding@.with_sequence_id(seq_id),
        changed@.well_formed(),
{
    let mut inner = encoding.encoding().clone();
    inner.set_sequence_id(seq_id);
    proof {
        lemma_with_sequence_id_well_formed(encoding@, seq_id);
    }
    ExTokenizersEncoding::new(inner)
}

/// The ids of the tokens.
pub fn encoding_get_ids(encoding: ExTokenizersEncoding) -> (ids: Vec<u32>)
    ensures
        ids@ == encoding@.ids,
{
    slice_to_vec(encoding.encoding().get_ids())
}

/// The type id of each token.
pub fn encoding_get_type_ids(encoding: ExTokenizersEncoding) -> (type_ids: Vec<u32>)
    ensures
        type_ids@ == encoding@.type_ids,
{
    slice_to_vec(encoding.encoding().get_type_ids())
}

/// The attention mask.
pub fn encoding_get_attention_mask(encoding: ExTokenizersEncoding) -> (mask: Vec<u32>)
    ensures
        mask@ == encoding@.attention_mask,
{
    slice_to_vec(encoding.encoding().get_attention_mask())
}

/// The special tokens mask.
pub fn encoding_get_special_tokens_mask(encoding: ExTokenizersEncoding) -> (mask: Vec<u32>)
    ensures
        mask@ == encoding@.special_tokens_mask,
{
    slice_to_vec(encoding.encoding().get_special_tokens_mask())
}

/// The text of each token.
pub fn encoding_get_tokens(encoding: ExTokenizersEncoding) -> (tokens: Vec<String>)
    ensures
        texts(tokens@) == encoding@.tokens,
{
    let source = encoding.encoding().get_tokens();
    let mut tokens: Vec<String> = Vec::new();
    let mut i: usize = 0;
    while i < source.len()
        invariant
            i <= source@.len(),
            tokens@ == source@.take(i as int),
        decreases source@.len() - i,
    {
        tokens.push(source[i].clone());
        assert(tokens@ =~= source@.take(i + 1));
        i += 1;
    }
    assert(tokens@ =~= source@);
    tokens
}

/// The word of each token.
pub fn encoding_get_word_ids(encoding: ExTokenizersEncoding) -> (words: Vec<Option<u32>>)
    ensures
        words@ == encoding@.words,
{
    slice_to_vec(encoding.encoding().get_word_ids())
}

/// The offsets of each token.
pub fn encoding_get_offsets(encoding: ExTokenizersEncoding) -> (offsets: Vec<(usize, usize)>)
    ensures
        offsets@ == encoding@.offsets,
{
    slice_to_vec(encoding.encoding().get_offsets())
}

/// The chunks that truncation split off, each behind a handle of its own.
pub fn encoding_get_overflowing(encoding: ExTokenizersEncoding) -> (chunks: Vec<ExTokenizersEncoding>)
    ensures
        chunks@.len() == encoding@.overflowing.len(),
        forall|i: int| 0 <= i < chunks@.len() ==> (#[trigger] chunks@[i])@ == encoding@.overflowing[i],
{
    let source = encoding.encoding().get_overflowing();
    let mut chunks: Vec<ExTokenizersEncoding> = Vec::new();
    let mut i: usize = 0;
    while i < source.len()
        invariant
            i <= source@.len(),
            chunks@.len() == i,
            encoding@.well_formed(),
            source@.len() == encoding@.overflowing.len(),
            forall|j: int| 0 <= j < source@.len() ==> encoding_model(#[trigger] source@[j]) == encoding@.overflowing[j],
            forall|j: int| 0 <= j < i ==> (#[trigger] chunks@[j])@ == encoding@.overflowing[j],
        decreases source@.len() - i,
    {
        assert(encoding@.overflowing[i as int].well_formed());
        chunks.push(ExTokenizersEncoding::new(source[i].clone()));
        i += 1;
    }
    chunks
}

/// One setting of a padding.
pub enum PadOption {
    PadId(u32),
    PadTypeId(u32),
    PadToken(String),
    Direction(Direction),
}

/// How to pad: what stands in for the id, the type id and the token of each added
/// position, and on which side the positions are added.
pub struct Padding {
    pub pad_id: u32,
    pub pad_type_id: u32,
    pub pad_token: String,
    pub direction: Direction,
}

/// A padding as mathematics.
pub struct PaddingModel {
    pub pad_id: u32,
    pub pad_type_id: u32,
    pub pad_token: Seq<char>,
    pub direction: Direction,
}

impl View for Padding {
    type V = PaddingModel;

    open spec fn view(&self) -> PaddingModel {
        PaddingModel {
            pad_id: self.pad_id,
            pad_type_id: self.pad_type_id,
            pad_token: self.pad_token@,
            direction: self.direction,
        }
    }
}

impl PaddingModel {
    /// The padding that no option has changed: id 0, type id 0, the token `[PAD]`, on
    /// the right.
    pub open spec fn initial() -> PaddingModel {
        PaddingModel { pad_id: 0, pad_type_id: 0, pad_token: "[PAD]"@, direction: Direction::Right }
    }

    /// The padding with one option applied: the option replaces the setting it names.
    pub open spec fn with(self, option: PadOption) -> PaddingModel {
        match option {
            PadOption::PadId(id) => PaddingModel { pad_id: id, ..self },
            PadOption::PadTypeId(id) => PaddingModel { pad_type_id: id, ..self },
            PadOption::PadToken(token) => PaddingModel { pad_token: token@, ..self },
            PadOption::Direction(direction) => PaddingModel { direction, ..self },
        }
    }

    /// The padding that a list of options describes: the options are applied in order,
    /// so of two options for one setting the later one counts.
    pub open spec fn from_options(options: Seq<PadOption>) -> PaddingModel
        decreases options.len(),
    {
        if options.len() == 0 {
            PaddingModel::initial()
        } else {
            PaddingModel::from_options(options.drop_last()).with(options.last())
        }
    }
}

/// The padding that a list of options describes.
pub fn parse_pad_options(opts: &Vec<PadOption>) -> (padding: Padding)
    ensures
        padding@ == PaddingModel::from_options(opts@),
{
    let mut padding = Padding {
        pad_id: 0,
        pad_type_id: 0,
        pad_token: "[PAD]".to_owned(),
        direction: Direction::Right,
    };
    let mut i: usize = 0;
    while i < opts.len()
        invariant
            i <= opts@.len(),
            padding@ == PaddingModel::from_options(opts@.take(i as int)),
        decreases opts@.len() - i,
    {
        proof {
            lemma_take_step(opts@, i as int);
        }
        match &opts[i] {
            PadOption::PadId(id) => padding.pad_id = *id,
            PadOption::PadTypeId(id) => padding.pad_type_id = *id,
            PadOption::PadToken(token) => padding.pad_token = token.clone(),
            PadOption::Direction(direction) => padding.direction = *direction,
        }
        i += 1;
    }
    proof {
        lemma_take_all(opts@);
    }
    padding
}

/// One setting of a truncation.
pub enum TruncationOption {
    Stride(usize),
    Direction(Direction),
}

/// How to truncate: by how many tokens neighbouring windows overlap, and from which
/// side tokens are removed.
#[derive(Clone, Copy, Debug, PartialEq, Eq, Structural)]
pub struct Truncation {
    pub stride: usize,
    pub direction: Direction,
}

impl Truncation {
    /// The truncation that no option has changed: no overlap, tokens removed on the
    /// right.
    pub open spec fn initial() -> Truncation {
        Truncation { stride: 0, direction: Direction::Right }
    }

    /// The truncation with one option applied: the option replaces the setting it names.
    pub open spec fn with(self, option: TruncationOption) -> Truncation {
        match option {
            TruncationOption::Stride(stride) => Truncation { stride, ..self },
            TruncationOption::Direction(direction) => Truncation { direction, ..self },
        }
    }

    /// The truncation that a list of options describes: the options are applied in
    /// order, so of two options for one setting the later one counts.
    pub open spec fn from_options(options: Seq<TruncationOption>) -> Truncation
        decreases options.len(),
    {
        if options.len() == 0 {
            Truncation::initial()
        } else {
            Truncation::from_options(options.drop_last()).with(options.last())
        }
    }
}

/// The truncation that a list of options describes.
pub fn parse_truncation_options(opts: &Vec<TruncationOption>) -> (truncation: Truncation)
    ensures
        truncation == Truncation::from_options(opts@),
{
    let mut truncation = Truncation { stride: 0, direction: Direction::Right };
    let mut i: usize = 0;
    while i < opts.len()
        invariant
            i <= opts@.len(),
            truncation == Truncation::from_options(opts@.take(i as int)),
        decreases opts@.len() - i,
    {
        proof {
            lemma_take_step(opts@, i as int);
        }
        match &opts[i] {
            TruncationOption::Stride(stride) => truncation.stride = *stride,
            TruncationOption::Direction(direction) => truncation.direction = *direction,
        }
        i += 1;
    }
    proof {
        lemma_take_all(opts@);
    }
    truncation
}

impl EncodingModel {
    /// The encoding padded as `padding` says.
    pub open spec fn padded_with(self, target: nat, padding: PaddingModel) -> EncodingModel {
        self.padded(target, padding.pad_id, padding.pad_type_id, padding.pad_token, padding.direction)
    }

    /// The encoding truncated as `truncation` says.
    pub open spec fn truncated_with(self, max_len: nat, truncation: Truncation) -> EncodingModel {
        self.truncated(max_len, truncation.stride as nat, truncation.direction)
    }
}

/// `tokenizers::Encoding::pad`, with the direction handed over in the engine's own
/// type. Every chunk is padded first. Then an encoding with fewer ids than the target
/// gets the missing positions on the given side of each of its sequences; on the left,
/// its sequence ranges move along, which is why they must lie among the tokens. Memory
/// for the new positions is taken to be there.
#[verifier::external_body]
fn pad(encoding: &mut tokenizers::Encoding, target_length: usize, padding: &Padding)
    requires
        padding.direction == Direction::Left ==> encoding_model(*old(encoding)).ranges_in_bounds_throughout(),
    ensures
        encoding_model(*final(encoding)) == encoding_model(*old(encoding)).padded_with(
            target_length as nat,
            padding@,
        ),
{
    let direction = match padding.direction {
        Direction::Left => tokenizers::PaddingDirection::Left,
        Direction::Right => tokenizers::PaddingDirection::Right,
    };
    encoding.pad(target_length, padding.pad_id, padding.pad_type_id, &padding.pad_token, direction)
}

/// `tokenizers::Encoding::truncate`, with the direction handed over in the engine's own
/// type. The engine slices every sequence by the ids' length, so the sequences must be
/// aligned, and it stops the program on a stride that is not shorter than a window.
#[verifier::external_body]
fn truncate(encoding: &mut tokenizers::Encoding, max_len: usize, truncation: Truncation)
    requires
        encoding_model(*old(encoding)).aligned(),
        encoding_model(*old(encoding)).truncation_defined(max_len as nat, truncation.stride as nat),
    ensures
        encoding_model(*final(encoding)) == encoding_model(*old(encoding)).truncated_with(
            max_len as nat,
            truncation,
        ),
{
    let direction = match truncation.direction {
        Direction::Left => tokenizers::TruncationDirection::Left,
        Direction::Right => tokenizers::TruncationDirection::Right,
    };
    encoding.truncate(max_len, truncation.stride, direction)
}

/// Padding a second time to the same length, in the same way, changes nothing.
pub proof fn lemma_pad_idempotent(m: EncodingModel, target: nat, padding: PaddingModel)
    ensures
        m.padded_with(target, padding).padded_with(target, padding) == m.padded_with(target, padding),
    decreases m,
{
    let once = m.padded_with(target, padding);
    let twice = once.padded_with(target, padding);
    assert forall|i: int| 0 <= i < once.overflowing.len() implies twice.overflowing[i]
        == once.overflowing[i] by {
        lemma_pad_idempotent(m.overflowing[i], target, padding);
    }
    assert(twice.overflowing =~= once.overflowing);
    assert(once.ids.len() >= target);
}

/// Padding keeps an encoding well-formed.
pub proof fn lemma_pad_well_formed(m: EncodingModel, target: nat, padding: PaddingModel)
    requires
        m.well_formed(),
        target <= usize::MAX,
    ensures
        m.padded_with(target, padding).well_formed(),
    decreases m,
{
    let padded = m.padded_with(target, padding);
    assert forall|i: int| 0 <= i < padded.overflowing.len() implies (
    #[trigger] padded.overflowing[i]).well_formed() by {
        lemma_pad_well_formed(m.overflowing[i], target, padding);
    }
    if m.ids.len() < target {
        let count = (target - m.ids.len()) as nat;
        if padding.direction == Direction::Left {
            assert(padded.sequence_ranges.dom() =~= m.sequence_ranges.dom());
        }
    }
}

/// Padding to a length that the encoding already has leaves its own tokens as they
/// are; only chunks that are shorter grow.
pub proof fn lemma_pad_short_target(m: EncodingModel, target: nat, padding: PaddingModel)
    requires
        m.len() >= target,
    ensures
        m.padded_with(target, padding) == (EncodingModel {
            overflowing: m.padded_with(target, padding).overflowing,
            ..m
        }),
{
}

/// A padded encoding has at least the target length, and exactly that length where it
/// was shorter before.
pub proof fn lemma_pad_len(m: EncodingModel, target: nat, padding: PaddingModel)
    ensures
        m.padded_with(target, padding).len() == if m.len() < target {
            target
        } else {
            m.len()
        },
{
}

/// A truncated encoding never has more than `max_len` tokens, and keeps its length
/// where it was short enough before.
pub proof fn lemma_truncate_len(m: EncodingModel, max_len: nat, truncation: Truncation)
    ensures
        m.truncated_with(max_len, truncation).len() == if m.len() <= max_len {
            m.len()
        } else {
            max_len
        },
{
}

/// Truncation keeps an encoding well-formed.
pub proof fn lemma_truncate_well_formed(m: EncodingModel, max_len: nat, truncation: Truncation)
    requires
        m.well_formed(),
        m.truncation_defined(max_len, truncation.stride as nat),
    ensures
        m.truncated_with(max_len, truncation).well_formed(),
{
    let truncated = m.truncated_with(max_len, truncation);
    let len = m.ids.len();
    let stride = truncation.stride as nat;
    if max_len >= len {
    } else if max_len == 0 {
        assert(truncated.overflowing[0] == m);
    } else {
        let step = window_step(max_len, stride);
        let count = window_count(len, max_len, stride);
        assert forall|k: int| 0 <= k < count implies ({
            let range = #[trigger] window_range(len, max_len, stride, truncation.direction, k);
            0 <= range.0 <= range.1 <= len
        }) by {
            lemma_window_in_bounds(len, max_len, stride, truncation.direction, k);
        }
        assert(truncated.sequence_ranges.dom() =~= Set::<usize>::empty());
        assert forall|j: int| 0 <= j < truncated.overflowing.len() implies (
        #[trigger] truncated.overflowing[j]).well_formed() by {
            let range = window_range(len, max_len, stride, truncation.direction, j + 1);
            let chunk = truncated.overflowing[j];
            assert(chunk == m.truncation_window(max_len, stride, truncation.direction, j + 1));
            assert(chunk.sequence_ranges.dom() =~= Set::<usize>::empty());
        }
        let first = window_range(len, max_len, stride, truncation.direction, 0);
        assert(0 <= first.0 <= first.1 <= len);
    }
}

/// Every window of a truncation lies among the tokens.
pub proof fn lemma_window_in_bounds(len: nat, max_len: nat, stride: nat, direction: Direction, k: int)
    requires
        0 < max_len < len,
        stride < max_len,
        0 <= k < window_count(len, max_len, stride),
    ensures
        0 <= window_range(len, max_len, stride, direction, k).0,
        window_range(len, max_len, stride, direction, k).0 < window_range(len, max_len, stride, direction, k).1,
        window_range(len, max_len, stride, direction, k).1 <= len,
{
    let step = window_step(max_len, stride);
    let rest = len - max_len;
    let last = (rest + step - 1) / step;
    assert(k <= last);
    assert(last * step <= rest + step - 1) by (nonlinear_arith)
        requires
            step > 0,
            rest > 0,
            last == (rest + step - 1) / step,
    ;
    assert(k * step <= last * step) by (nonlinear_arith)
        requires
            0 <= k <= last,
            step > 0,
    ;
    assert(0 <= k * step) by (nonlinear_arith)
        requires
            0 <= k,
            step > 0,
    ;
}

/// Whether every per-token sequence of the encoding, and of each of its chunks at
/// every depth, has one entry for each id.
pub fn is_aligned(encoding: &tokenizers::Encoding) -> (aligned: bool)
    ensures
        aligned == encoding_model(*encoding).aligned_throughout(),
    decreases encoding_model(*encoding),
{
    let n = encoding.len();
    if encoding.get_type_ids().len() != n || encoding.get_tokens().len() != n
        || encoding.get_word_ids().len() != n || encoding.get_offsets().len() != n
        || encoding.get_special_tokens_mask().len() != n || encoding.get_attention_mask().len()
        != n {
        return false;
    }
    let chunks = encoding.get_overflowing();
    let mut i: usize = 0;
    while i < chunks.len()
        invariant
            i <= chunks@.len(),
            chunks@.len() == encoding_model(*encoding).overflowing.len(),
            encoding_model(*encoding).aligned(),
            forall|j: int|
                0 <= j < chunks@.len() ==> encoding_model(#[trigger] chunks@[j]) == encoding_model(
                    *encoding,
                ).overflowing[j],
            forall|j: int|
                0 <= j < i ==> (#[trigger] encoding_model(*encoding).overflowing[j]).aligned_throughout(),
        decreases chunks@.len() - i,
    {
        if !is_aligned(&chunks[i]) {
            assert(!encoding_model(*encoding).overflowing[i as int].aligned_throughout());
            return false;
        }
        i += 1;
    }
    true
}

impl ExTokenizersEncoding {
    /// A handle on an encoding that the engine has made, after a look at its sequences:
    /// an encoding whose sequences differ in length is refused.
    pub fn try_new(encoding: tokenizers::Encoding) -> (handle: Result<Self, ExTokenizersError>)
        requires
            encoding_model(encoding).ranges_in_bounds_throughout(),
        ensures
            match handle {
                Ok(handle) => encoding_model(encoding).aligned_throughout() && handle@
                    == encoding_model(encoding),
                Err(error) => {
                    &&& !encoding_model(encoding).aligned_throughout()
                    &&& error matches ExTokenizersError::Internal(message)
                    &&& message@ == "the sequences of an encoding differ in length"@
                },
            },
    {
        if is_aligned(&encoding) {
            Ok(ExTokenizersEncoding::new(encoding))
        } else {
            Err(ExTokenizersError::Internal("the sequences of an encoding differ in length".to_owned()))
        }
    }
}

/// The encoding padded to `target_length` tokens as the options say. An encoding that
/// already has that many tokens keeps its own; its chunks are padded all the same.
pub fn encoding_pad(encoding: ExTokenizersEncoding, target_length: usize, opts: Vec<PadOption>) -> (padded:
    ExTokenizersEncoding)
    ensures
        padded@ == encoding@.padded_with(target_length as nat, PaddingModel::from_options(opts@)),
        padded@.well_formed(),
        padded@.len() >= target_length,
        encoding@.len() >= target_length ==> padded@.len() == encoding@.len(),
{
    let padding = parse_pad_options(&opts);
    let mut inner = encoding.encoding().clone();
    pad(&mut inner, target_length, &padding);
    proof {
        lemma_pad_well_formed(encoding@, target_length as nat, padding@);
    }
    ExTokenizersEncoding::new(inner)
}

/// The encoding truncated to `max_len` tokens as the options say. The stride has to be
/// shorter than `max_len` wherever tokens are cut and some are left.
pub fn encoding_truncate(encoding: ExTokenizersEncoding, max_len: usize, opts: Vec<TruncationOption>) -> (truncated:
    ExTokenizersEncoding)
    requires
        encoding@.truncation_defined(max_len as nat, Truncation::from_options(opts@).stride as nat),
    ensures
        truncated@ == encoding@.truncated_with(max_len as nat, Truncation::from_options(opts@)),
        truncated@.well_formed(),
        truncated@.len() <= max_len,
{
    let truncation = parse_truncation_options(&opts);
    let mut inner = encoding.encoding().clone();
    truncate(&mut inner, max_len, truncation);
    proof {
        lemma_truncate_well_formed(encoding@, max_len as nat, truncation);
    }
    ExTokenizersEncoding::new(inner)
}

/// One change to an encoding.
pub enum TransformationElement {
    /// Pad to a length, with options.
    Pad((usize, Vec<PadOption>)),
    /// Truncate to a length, with options.
    Truncate((usize, Vec<TruncationOption>)),
    /// Let one input sequence cover every token.
    SetSequenceId(usize),
}

impl EncodingModel {
    /// Whether a change is defined on the encoding: all are, but a truncation whose
    /// stride is too long.
    pub open spec fn transformation_defined(self, change: TransformationElement) -> bool {
        match change {
            TransformationElement::Truncate((max_len, options)) => self.truncation_defined(
                max_len as nat,
                Truncation::from_options(options@).stride as nat,
            ),
            _ => true,
        }
    }

    /// The encoding after one change.
    pub open spec fn transformed_by(self, change: TransformationElement) -> EncodingModel {
        match change {
            TransformationElement::Pad((target_length, options)) => self.padded_with(
                target_length as nat,
                PaddingModel::from_options(options@),
            ),
            TransformationElement::Truncate((max_len, options)) => self.truncated_with(
                max_len as nat,
                Truncation::from_options(options@),
            ),
            TransformationElement::SetSequenceId(sequence_id) => self.with_sequence_id(sequence_id),
        }
    }

    /// The encoding after a list of changes, each made to the result of the one before.
    pub open spec fn transformed(self, changes: Seq<TransformationElement>) -> EncodingModel
        decreases changes.len(),
    {
        if changes.len() == 0 {
            self
        } else {
            self.transformed(changes.drop_last()).transformed_by(changes.last())
        }
    }

    /// Whether each change of a list is defined on the result of the changes before it.
    pub open spec fn transformations_defined(self, changes: Seq<TransformationElement>) -> bool
        decreases changes.len(),
    {
        if changes.len() == 0 {
            true
        } else {
            &&& self.transformations_defined(changes.drop_last())
            &&& self.transformed(changes.drop_last()).transformation_defined(changes.last())
        }
    }
}

/// A list of changes that is defined as a whole is defined up to each of its steps.
pub proof fn lemma_transformations_defined_prefix(
    m: EncodingModel,
    changes: Seq<TransformationElement>,
    k: int,
)
    requires
        0 <= k <= changes.len(),
        m.transformations_defined(changes),
    ensures
        m.transformations_defined(changes.take(k)),
    decreases changes.len(),
{
    if k < changes.len() {
        assert(changes.drop_last().take(k) =~= changes.take(k));
        lemma_transformations_defined_prefix(m, changes.drop_last(), k);
    } else {
        assert(changes.take(k) =~= changes);
    }
}

/// Makes the changes to the encoding, in order. It stops before the first change that
/// is not defined on what the changes before it have made, and says so.
pub fn apply_transformations(
    encoding: &mut tokenizers::Encoding,
    transformations: &Vec<TransformationElement>,
) -> (outcome: Result<(), ExTokenizersError>)
    requires
        encoding_model(*old(encoding)).well_formed(),
    ensures
        encoding_model(*final(encoding)).well_formed(),
        outcome is Ok <==> encoding_model(*old(encoding)).transformations_defined(transformations@),
        outcome is Ok ==> encoding_model(*final(encoding)) == encoding_model(*old(encoding)).transformed(
            transformations@,
        ),
        outcome matches Err(error) ==> {
            &&& error matches ExTokenizersError::Other(message)
            &&& message@ == "`stride` must be strictly less than `max_len`"@
            &&& exists|k: int|
                {
                    &&& 0 <= k < transformations@.len()
                    &&& encoding_model(*old(encoding)).transformations_defined(
                        #[trigger] transformations@.take(k),
                    )
                    &&& !encoding_model(*old(encoding)).transformed(
                        transformations@.take(k),
                    ).transformation_defined(transformations@[k])
                    &&& encoding_model(*final(encoding)) == encoding_model(*old(encoding)).transformed(
                        transformations@.take(k),
                    )
                }
        },
{
    let ghost start = encoding_model(*encoding);
    let mut i: usize = 0;
    while i < transformations.len()
        invariant
            i <= transformations@.len(),
            start == encoding_model(*old(encoding)),
            encoding_model(*encoding).well_formed(),
            start.transformations_defined(transformations@.take(i as int)),
            encoding_model(*encoding) == start.transformed(transformations@.take(i as int)),
        decreases transformations@.len() - i,
    {
        let ghost before = encoding_model(*encoding);
        proof {
            lemma_take_step(transformations@, i as int);
        }
        match &transformations[i] {
            TransformationElement::Pad((target_length, opts)) => {
                let padding = parse_pad_options(opts);
                pad(encoding, *target_length, &padding);
                proof {
                    lemma_pad_well_formed(before, *target_length as nat, padding@);
                }
            },
            TransformationElement::Truncate((max_len, opts)) => {
                let truncation = parse_truncation_options(opts);
                let cuts = *max_len < encoding.len() && *max_len != 0;
                if cuts && truncation.stride >= *max_len {
                    proof {
                        assert(!before.transformation_defined(transformations@[i as int]));
                        if start.transformations_defined(transformations@) {
                            lemma_transformations_defined_prefix(start, transformations@, i + 1);
                        }
                    }
                    return Err(
                        ExTokenizersError::Other(
                            "`stride` must be strictly less than `max_len`".to_owned(),
                        ),
                    );
                }
                truncate(encoding, *max_len, truncation);
                proof {
                    lemma_truncate_well_formed(before, *max_len as nat, truncation);
                }
            },
            TransformationElement::SetSequenceId(seq_id) => {
                encoding.set_sequence_id(*seq_id);
                proof {
                    lemma_with_sequence_id_well_formed(before, *seq_id);
                }
            },
        }
        i += 1;
    }
    proof {
        lemma_take_all(transformations@);
    }
    Ok(())
}

/// The encoding after a list of changes, or the reason why one of them is not defined.
pub fn encoding_transform(
    encoding: ExTokenizersEncoding,
    transformations: Vec<TransformationElement>,
) -> (outcome: Result<ExTokenizersEncoding, ExTokenizersError>)
    ensures
        match outcome {
            Ok(changed) => encoding@.transformations_defined(transformations@) && changed@
                == encoding@.transformed(transformations@) && changed@.well_formed(),
            Err(error) => {
                &&& !encoding@.transformations_defined(transformations@)
                &&& error matches ExTokenizersError::Other(message)
                &&& message@ == "`stride` must be strictly less than `max_len`"@
            },
        },
{
    let mut inner = encoding.encoding().clone();
    match apply_transformations(&mut inner, &transformations) {
        Ok(()) => Ok(ExTokenizersEncoding::new(inner)),
        Err(error) => Err(error),
    }
}

impl EncodingModel {
    /// Whether token `token` lies in the range of input sequence `sequence_id`.
    pub open spec fn range_holds(self, sequence_id: usize, token: int) -> bool {
        self.sequence_range(sequence_id).0 <= token < self.sequence_range(sequence_id).1
    }

    /// The input sequence with the greatest number below `below` whose range holds the
    /// token, if there is one.
    pub open spec fn covering_sequence(self, token: int, below: nat) -> Option<usize>
        decreases below,
    {
        if below == 0 {
            None
        } else if self.range_holds((below - 1) as usize, token) {
            Some((below - 1) as usize)
        } else {
            self.covering_sequence(token, (below - 1) as nat)
        }
    }

    /// For each token, the input sequence it belongs to.
    pub open spec fn sequence_ids(self) -> Seq<Option<usize>> {
        Seq::new(self.ids.len(), |i: int| self.covering_sequence(i, self.n_sequences()))
    }

    /// Whether `found` is an answer to the question which input sequence holds token
    /// `token`. Where recorded ranges overlap, each sequence that holds the token is one.
    pub open spec fn is_sequence_of(self, token: usize, found: Option<usize>) -> bool {
        if token > self.ids.len() {
            found is None
        } else if self.sequence_ranges.dom().len() == 0 {
            found == Some(0usize)
        } else {
            match found {
                Some(s) => self.sequence_ranges.dom().contains(s) && self.sequence_ranges[s].0 <= token
                    < self.sequence_ranges[s].1,
                None => forall|s: usize| #[trigger]
                    self.sequence_ranges.dom().contains(s) ==> !(self.sequence_ranges[s].0 <= token
                        < self.sequence_ranges[s].1),
            }
        }
    }

    /// Whether token `i` counts as a token of word `word` in input sequence
    /// `sequence_id`: it lies in the sequence's range and belongs to the word, and no
    /// token before it in the range belongs to a later word.
    pub open spec fn counts_for_word(self, word: u32, sequence_id: usize, i: int) -> bool {
        &&& self.range_holds(sequence_id, i)
        &&& self.words[i] == Some(word)
        &&& forall|j: int|
            self.sequence_range(sequence_id).0 <= j < i ==> !(#[trigger] self.words[j] matches Some(w)
                && w > word)
    }

    /// Whether `found` is the span of the tokens that count for the word: the first of
    /// them, and one past the last.
    pub open spec fn is_word_tokens(self, word: u32, sequence_id: usize, found: Option<(usize, usize)>) -> bool {
        let range = self.sequence_range(sequence_id);
        if !(range.0 <= range.1 <= self.words.len()) {
            found is None
        } else {
            match found {
                Some((start, end)) => {
                    &&& start < end
                    &&& self.counts_for_word(word, sequence_id, start as int)
                    &&& self.counts_for_word(word, sequence_id, end - 1)
                    &&& forall|i: int| #[trigger]
                        self.counts_for_word(word, sequence_id, i) ==> start <= i < end
                },
                None => forall|i: int| !#[trigger] self.counts_for_word(word, sequence_id, i),
            }
        }
    }

    /// Whether `found` is the span of text that the word's tokens cover: from where the
    /// first starts to where the last ends.
    pub open spec fn is_word_chars(self, word: u32, sequence_id: usize, found: Option<(usize, usize)>) -> bool {
        exists|tokens: Option<(usize, usize)>|
            {
                &&& #[trigger] self.is_word_tokens(word, sequence_id, tokens)
                &&& found == match tokens {
                    Some((start, end)) => Some((self.offsets[start as int].0, self.offsets[end - 1].1)),
                    None => None,
                }
            }
    }

    /// Whether `found` is an answer to the question where token `token` lies: in which
    /// input sequence, and from where to where in its text.
    pub open spec fn is_token_chars(self, token: usize, found: Option<(usize, (usize, usize))>) -> bool {
        match found {
            Some((sequence_id, span)) => {
                &&& self.is_sequence_of(token, Some(sequence_id))
                &&& token < self.offsets.len()
                &&& span == self.offsets[token as int]
            },
            None => self.is_sequence_of(token, None) || token >= self.offsets.len(),
        }
    }

    /// Whether `found` is an answer to the question which word token `token` belongs
    /// to, and in which input sequence.
    pub open spec fn is_token_word(self, token: usize, found: Option<(usize, u32)>) -> bool {
        match found {
            Some((sequence_id, word)) => {
                &&& self.is_sequence_of(token, Some(sequence_id))
                &&& token < self.words.len()
                &&& self.words[token as int] == Some(word)
            },
            None => self.is_sequence_of(token, None) || token >= self.words.len()
                || self.words[token as int] is None,
        }
    }

    /// Whether the text of token `token` holds position `position`.
    pub open spec fn holds_char(self, token: int, position: usize) -> bool {
        self.offsets[token].0 <= position < self.offsets[token].1
    }

    /// Whether `found` is the first token of input sequence `sequence_id` whose text
    /// holds the position.
    pub open spec fn is_char_token(self, position: usize, sequence_id: usize, found: Option<usize>) -> bool {
        let range = self.sequence_range(sequence_id);
        if !(range.0 <= range.1 <= self.offsets.len()) {
            found is None
        } else {
            match found {
                Some(token) => {
                    &&& self.range_holds(sequence_id, token as int)
                    &&& self.holds_char(token as int, position)
                    &&& forall|j: int| range.0 <= j < token ==> !#[trigger] self.holds_char(j, position)
                },
                None => forall|j: int| range.0 <= j < range.1 ==> !#[trigger] self.holds_char(j, position),
            }
        }
    }

    /// Whether `found` is the word of the first token of input sequence `sequence_id`
    /// whose text holds the position.
    pub open spec fn is_char_word(self, position: usize, sequence_id: usize, found: Option<u32>) -> bool {
        exists|token: Option<usize>|
            {
                &&& #[trigger] self.is_char_token(position, sequence_id, token)
                &&& match token {
                    Some(token) => if self.is_sequence_of(token, None) || token >= self.words.len() {
                        found is None
                    } else {
                        found == self.words[token as int]
                    },
                    None => found is None,
                }
            }
    }
}

/// `tokenizers::Encoding::get_sequence_ids`: starting with no sequence for any token,
/// it goes through the sequences from 0 up to the number of sequences, and writes each
/// one's number over the tokens of its range. It stops the program on a range that
/// is not among the tokens.
pub assume_specification[ tokenizers::Encoding::get_sequence_ids ](e: &tokenizers::Encoding) -> (ids: Vec<Option<usize>>)
    requires
        encoding_model(*e).ranges_in_bounds(),
    ensures
        ids@ == encoding_model(*e).sequence_ids(),
;

/// `tokenizers::Encoding::token_to_sequence`: nothing for a token past the end;
/// sequence 0 where no range is recorded; else some sequence whose recorded range
/// holds the token, or nothing where none does.
pub assume_specification[ tokenizers::Encoding::token_to_sequence ](
    e: &tokenizers::Encoding,
    token: usize,
) -> (found: Option<usize>)
    ensures
        encoding_sequence_ranges(*e).dom().finite() ==> encoding_model(*e).is_sequence_of(token, found),
;

/// `tokenizers::Encoding::word_to_tokens`: in the range of the sequence, it reads the
/// words up to the first that is later than the given one, and answers with the span
/// from the first to the last token of the given word among those read.
pub assume_specification[ tokenizers::Encoding::word_to_tokens ](
    e: &tokenizers::Encoding,
    word: u32,
    sequence_id: usize,
) -> (found: Option<(usize, usize)>)
    ensures
        encoding_model(*e).is_word_tokens(word, sequence_id, found),
;

/// `tokenizers::Encoding::word_to_chars`: the start of the first and the end of the
/// last token that `word_to_tokens` finds. It reads the offsets at the tokens found
/// among the words, so the two sequences must be aligned.
pub assume_specification[ tokenizers::Encoding::word_to_chars ](
    e: &tokenizers::Encoding,
    word: u32,
    sequence_id: usize,
) -> (found: Option<(usize, usize)>)
    requires
        encoding_model(*e).aligned(),
    ensures
        encoding_model(*e).is_word_chars(word, sequence_id, found),
;

/// `tokenizers::Encoding::token_to_chars`: the sequence that `token_to_sequence` finds,
/// with the offsets of the token; nothing where either is missing.
pub assume_specification[ tokenizers::Encoding::token_to_chars ](
    e: &tokenizers::Encoding,
    token: usize,
) -> (found: Option<(usize, (usize, usize))>)
    ensures
        encoding_sequence_ranges(*e).dom().finite() ==> encoding_model(*e).is_token_chars(token, found),
;

/// `tokenizers::Encoding::token_to_word`: the sequence that `token_to_sequence` finds,
/// with the word of the token; nothing where either is missing.
pub assume_specification[ tokenizers::Encoding::token_to_word ](
    e: &tokenizers::Encoding,
    token: usize,
) -> (found: Option<(usize, u32)>)
    ensures
        encoding_sequence_ranges(*e).dom().finite() ==> encoding_model(*e).is_token_word(token, found),
;

/// `tokenizers::Encoding::char_to_token`: the first token in the range of the sequence
/// whose offsets hold the position.
pub assume_specification[ tokenizers::Encoding::char_to_token ](
    e: &tokenizers::Encoding,
    pos: usize,
    sequence_id: usize,
) -> (found: Option<usize>)
    ensures
        encoding_model(*e).is_char_token(pos, sequence_id, found),
;

/// `tokenizers::Encoding::char_to_word`: the word that `token_to_word` finds for the
/// token that `char_to_token` finds.
pub assume_specification[ tokenizers::Encoding::char_to_word ](
    e: &tokenizers::Encoding,
    pos: usize,
    sequence_id: usize,
) -> (found: Option<u32>)
    ensures
        encoding_sequence_ranges(*e).dom().finite() ==> encoding_model(*e).is_char_word(
            pos,
            sequence_id,
            found,
        ),
;

/// For each token, the input sequence it belongs to: the one with the greatest number
/// among those whose range holds it.
pub fn encoding_get_sequence_ids(encoding: ExTokenizersEncoding) -> (ids: Vec<Option<usize>>)
    ensures
        ids@ == encoding@.sequence_ids(),
{
    encoding.encoding().get_sequence_ids()
}

/// The span of tokens that belong to a word of an input sequence.
pub fn encoding_word_to_tokens(encoding: ExTokenizersEncoding, word: u32, seq_id: usize) -> (found: Option<
    (usize, usize),
>)
    ensures
        encoding@.is_word_tokens(word, seq_id, found),
{
    encoding.encoding().word_to_tokens(word, seq_id)
}

/// The span of text that a word of an input sequence covers.
pub fn encoding_word_to_chars(encoding: ExTokenizersEncoding, word: u32, seq_id: usize) -> (found: Option<
    (usize, usize),
>)
    ensures
        encoding@.is_word_chars(word, seq_id, found),
{
    encoding.encoding().word_to_chars(word, seq_id)
}

/// The input sequence that holds a token.
pub fn encoding_token_to_sequence(encoding: ExTokenizersEncoding, token: usize) -> (found: Option<usize>)
    ensures
        encoding@.is_sequence_of(token, found),
{
    encoding.encoding().token_to_sequence(token)
}

/// The input sequence that holds a token, and the span of text that the token covers.
pub fn encoding_token_to_chars(encoding: ExTokenizersEncoding, token: usize) -> (found: Option<
    (usize, (usize, usize)),
>)
    ensures
        encoding@.is_token_chars(token, found),
{
    encoding.encoding().token_to_chars(token)
}

/// The input sequence that holds a token, and the word that the token belongs to.
pub fn encoding_token_to_word(encoding: ExTokenizersEncoding, token: usize) -> (found: Option<(usize, u32)>)
    ensures
        encoding@.is_token_word(token, found),
{
    encoding.encoding().token_to_word(token)
}

/// The first token of an input sequence whose text holds a position.
pub fn encoding_char_to_token(encoding: ExTokenizersEncoding, position: usize, seq_id: usize) -> (found: Option<
    usize,
>)
    ensures
        encoding@.is_char_token(position, seq_id, found),
{
    encoding.encoding().char_to_token(position, seq_id)
}

/// The word of the first token of an input sequence whose text holds a position.
pub fn encoding_char_to_word(encoding: ExTokenizersEncoding, position: usize, seq_id: usize) -> (found: Option<
    u32,
>)
    ensures
        encoding@.is_char_word(position, seq_id, found),
{
    encoding.encoding().char_to_word(position, seq_id)
}

/// The four bytes of a number, the lowest first.
pub open spec fn low_first(x: u32) -> Seq<u8> {
    seq![(x % 256) as u8, (x / 256 % 256) as u8, (x / 65536 % 256) as u8, (x / 16777216) as u8]
}

/// The four bytes of a number, the highest first.
pub open spec fn high_first(x: u32) -> Seq<u8> {
    seq![(x / 16777216) as u8, (x / 65536 % 256) as u8, (x / 256 % 256) as u8, (x % 256) as u8]
}

/// The bytes of a sequence of numbers, four for each, in one byte order throughout.
pub open spec fn bytes_of(numbers: Seq<u32>, lowest_first: bool) -> Seq<u8>
    decreases numbers.len(),
{
    if numbers.len() == 0 {
        Seq::empty()
    } else {
        bytes_of(numbers.drop_last(), lowest_first) + (if lowest_first {
            low_first(numbers.last())
        } else {
            high_first(numbers.last())
        })
    }
}

/// `u32::to_ne_bytes` of the number 1: its four bytes as this machine lays them out.
/// The answer is the machine's, so nothing is promised of it.
#[verifier::external_body]
fn bytes_of_one() -> [u8; 4] {
    1u32.to_ne_bytes()
}

/// The numbers as bytes, as this machine lays them out in memory.
pub fn slice_u32_to_u8(slice: &[u32]) -> (bytes: Vec<u8>)
    ensures
        bytes@ == bytes_of(slice@, true) || bytes@ == bytes_of(slice@, false),
{
    let lowest_first = bytes_of_one()[0] == 1;
    let mut bytes: Vec<u8> = Vec::new();
    let mut i: usize = 0;
    while i < slice.len()
        invariant
            i <= slice@.len(),
            bytes@ == bytes_of(slice@.take(i as int), lowest_first),
        decreases slice@.len() - i,
    {
        proof {
            lemma_take_step(slice@, i as int);
        }
        let x: u32 = slice[i];
        let ghost before = bytes@;
        if lowest_first {
            bytes.push((x % 256) as u8);
            bytes.push((x / 256 % 256) as u8);
            bytes.push((x / 65536 % 256) as u8);
            bytes.push((x / 16777216) as u8);
            assert(bytes@ =~= before + low_first(x));
        } else {
            bytes.push((x / 16777216) as u8);
            bytes.push((x / 65536 % 256) as u8);
            bytes.push((x / 256 % 256) as u8);
            bytes.push((x % 256) as u8);
            assert(bytes@ =~= before + high_first(x));
        }
        i += 1;
    }
    proof {
        lemma_take_all(slice@);
    }
    bytes
}

/// The ids as bytes, as this machine lays them out in memory.
pub fn encoding_get_u32_ids(encoding: ExTokenizersEncoding) -> (bytes: Vec<u8>)
    ensures
        bytes@ == bytes_of(encoding@.ids, true) || bytes@ == bytes_of(encoding@.ids, false),
{
    slice_u32_to_u8(encoding.encoding().get_ids())
}

/// The type ids as bytes, as this machine lays them out in memory.
pub fn encoding_get_u32_type_ids(encoding: ExTokenizersEncoding) -> (bytes: Vec<u8>)
    ensures
        bytes@ == bytes_of(encoding@.type_ids, true) || bytes@ == bytes_of(encoding@.type_ids, false),
{
    slice_u32_to_u8(encoding.encoding().get_type_ids())
}

/// The attention mask as bytes, as this machine lays them out in memory.
pub fn encoding_get_u32_attention_mask(encoding: ExTokenizersEncoding) -> (bytes: Vec<u8>)
    ensures
        bytes@ == bytes_of(encoding@.attention_mask, true) || bytes@ == bytes_of(
            encoding@.attention_mask,
            false,
        ),
{
    slice_u32_to_u8(encoding.encoding().get_attention_mask())
}

/// The special tokens mask as bytes, as this machine lays them out in memory.
pub fn encoding_get_u32_special_tokens_mask(encoding: ExTokenizersEncoding) -> (bytes: Vec<u8>)
    ensures
        bytes@ == bytes_of(encoding@.special_tokens_mask, true) || bytes@ == bytes_of(
            encoding@.special_tokens_mask,
            false,
        ),
{
    slice_u32_to_u8(encoding.encoding().get_special_tokens_mask())
}

} // verus!
