//! Decoding ids one at a time: a stream keeps the ids and the text that it has
//! already given out, so that each step gives out only what is new.

use crate::error::ExTokenizersError;
use crate::models::byte_len;
use crate::tokenizer::{decodable, decode, decoded_ids, is_decodable, ExTokenizersTokenizer};
use crate::util::{characters, starts_with, starts_with_text, Info, InfoValue, InfoValueModel};
use vstd::prelude::*;
use vstd::string::StrSliceExecFns;

verus! {

/// The state of a stream: whether it skips special tokens, the ids that it still
/// needs, the text that it gave out for them, and how many of the ids that text
/// stands for.
#[derive(Clone, Debug)]
pub struct ExTokenizersDecodeStreamRef {
    skip_special_tokens: bool,
    ids: Vec<u32>,
    prefix: String,
    prefix_index: usize,
    read_index: usize,
}

/// The state of a stream as mathematics.
pub struct DecodeStreamModel {
    pub skip_special_tokens: bool,
    pub ids: Seq<u32>,
    pub prefix: Seq<char>,
    pub prefix_index: usize,
    pub read_index: usize,
}

impl DecodeStreamModel {
    /// The invariant of a stream: the text that it gave out stands for ids that it
    /// holds.
    pub open spec fn well_formed(self) -> bool {
        self.prefix_index <= self.ids.len()
    }

    /// The state of a stream that has seen no id.
    pub open spec fn initial(skip_special_tokens: bool) -> DecodeStreamModel {
        DecodeStreamModel {
            skip_special_tokens,
            ids: Seq::empty(),
            prefix: Seq::empty(),
            prefix_index: 0,
            read_index: 0,
        }
    }
}

/// What a step of the engine makes of the ids that a stream holds, the text that it
/// gave out, the place that this text stands for, and one more id, with a tokenizer:
/// the ids, the text and the place afterwards, and the text that is new, if any is;
/// or the message of its refusal.
pub uninterp spec fn stepped(
    tokenizer: tokenizers::Tokenizer,
    skip_special_tokens: bool,
    ids: Seq<u32>,
    prefix: Seq<char>,
    prefix_index: usize,
    id: u32,
) -> Result<(Seq<u32>, Seq<char>, usize, Option<Seq<char>>), Seq<char>>;

impl DecodeStreamModel {
    /// What a step makes of the stream and one more id: the stream afterwards and the
    /// text that is new, if any is; or the message of the engine's refusal.
    pub open spec fn step(self, tokenizer: tokenizers::Tokenizer, id: u32) -> Result<
        (DecodeStreamModel, Option<Seq<char>>),
        Seq<char>,
    > {
        match stepped(tokenizer, self.skip_special_tokens, self.ids, self.prefix, self.prefix_index, id) {
            Ok((ids, prefix, prefix_index, text)) => Ok(
                (DecodeStreamModel { ids, prefix, prefix_index, ..self }, text),
            ),
            Err(message) => Err(message),
        }
    }
}

impl DecodeStreamModel {
    /// Whether the engine can make a step of the stream with one more id: see the
    /// function of the same name.
    pub open spec fn step_defined(self, tokenizer: tokenizers::Tokenizer, id: u32) -> bool {
        step_defined(tokenizer, self.skip_special_tokens, self.ids, self.prefix, self.prefix_index, id)
    }

    /// Whether a step with one more id takes the stream to another state and gives
    /// out a text, or nothing, or fails with a message: see `is_step`.
    pub open spec fn steps_to(
        self,
        tokenizer: tokenizers::Tokenizer,
        id: u32,
        after: DecodeStreamModel,
        text: Result<Option<Seq<char>>, Seq<char>>,
    ) -> bool {
        is_step(
            tokenizer,
            self.skip_special_tokens,
            self.ids,
            self.prefix,
            self.prefix_index,
            id,
            match text {
                Ok(text) => Ok((after.ids, after.prefix, after.prefix_index, text)),
                Err(message) => Err(message),
            },
        )
    }
}

impl View for ExTokenizersDecodeStreamRef {
    type V = DecodeStreamModel;

    closed spec fn view(&self) -> DecodeStreamModel {
        DecodeStreamModel {
            skip_special_tokens: self.skip_special_tokens,
            ids: self.ids@,
            prefix: self.prefix@,
            prefix_index: self.prefix_index,
            read_index: self.read_index,
        }
    }
}

/// The new text that may be missing, as mathematics.
pub open spec fn new_text(text: Option<String>) -> Option<Seq<char>> {
    match text {
        Some(text) => Some(text@),
        None => None,
    }
}

/// Whether a text ends in the character that stands for bytes that are not, or not
/// yet, the whole of a character.
pub open spec fn ends_unfinished(text: Seq<char>) -> bool {
    text.len() > 0 && text.last() == '\u{FFFD}'
}

/// Whether a text ends in the character that stands for bytes that are not, or not
/// yet, the whole of a character.
fn ends_unfinished_text(text: &str) -> (ends: bool)
    ensures
        ends == ends_unfinished(text@),
{
    let chars = characters(text);
    chars.len() > 0 && chars[chars.len() - 1] == '\u{FFFD}'
}

/// The text that a step starts from, and the place among the ids that it stands for:
/// what the stream holds; but where it holds ids and has given out no text for them,
/// the text of those ids and the place behind them, unless that text ends unfinished.
pub open spec fn step_start(
    tokenizer: tokenizers::Tokenizer,
    skip_special_tokens: bool,
    ids: Seq<u32>,
    prefix: Seq<char>,
    prefix_index: usize,
) -> Result<(Seq<char>, int), Seq<char>> {
    if prefix.len() == 0 && ids.len() > 0 {
        match decoded_ids(tokenizer, ids, skip_special_tokens) {
            Ok(text) => if ends_unfinished(text) {
                Ok((prefix, prefix_index as int))
            } else {
                Ok((text, ids.len() as int))
            },
            Err(message) => Err(message),
        }
    } else {
        Ok((prefix, prefix_index as int))
    }
}

/// Whether an outcome is what a step makes of a stream and one more id. The id is
/// put behind the ids, and all of them are decoded. Where the text is longer than
/// the one that the step starts from, and does not end unfinished, it has to start
/// with that text: what comes behind is new and is given out, the ids in front of the
/// place are let go, and the text of the others is kept. Else nothing is given out.
/// A text that cannot be decoded ends the step with the message of that failure.
pub open spec fn is_step(
    tokenizer: tokenizers::Tokenizer,
    skip_special_tokens: bool,
    ids: Seq<u32>,
    prefix: Seq<char>,
    prefix_index: usize,
    id: u32,
    outcome: Result<(Seq<u32>, Seq<char>, usize, Option<Seq<char>>), Seq<char>>,
) -> bool {
    match step_start(tokenizer, skip_special_tokens, ids, prefix, prefix_index) {
        Err(message) => outcome == Err::<(Seq<u32>, Seq<char>, usize, Option<Seq<char>>), Seq<char>>(message),
        Ok((start, place)) => match decoded_ids(tokenizer, ids.push(id), skip_special_tokens) {
            Err(message) => outcome == Err::<(Seq<u32>, Seq<char>, usize, Option<Seq<char>>), Seq<char>>(message),
            Ok(text) => if byte_len(text) > byte_len(start) && !ends_unfinished(text) {
                if !starts_with(text, start) {
                    outcome is Err
                } else {
                    match decoded_ids(tokenizer, ids.push(id).skip(place), skip_special_tokens) {
                        Err(message) => outcome == Err::<
                            (Seq<u32>, Seq<char>, usize, Option<Seq<char>>),
                            Seq<char>,
                        >(message),
                        Ok(kept) => outcome matches Ok(made) && {
                            &&& made.0 == ids.push(id).skip(place)
                            &&& made.1 == kept
                            &&& made.2 == ids.len() + 1 - place
                            &&& made.3 == Some(text.skip(start.len() as int))
                        },
                    }
                }
            } else {
                outcome matches Ok(made) && {
                    &&& made.0 == ids.push(id)
                    &&& made.1 == start
                    &&& made.2 == place
                    &&& made.3 is None
                }
            },
        },
    }
}

/// What a step gives out is what is new: the text that the step started from, with
/// the text given out behind it, is the text that all the ids are decoded to, the
/// new one with them. Nothing is given out twice, and nothing is left out.
pub proof fn lemma_step_gives_what_is_new(
    tokenizer: tokenizers::Tokenizer,
    skip_special_tokens: bool,
    ids: Seq<u32>,
    prefix: Seq<char>,
    prefix_index: usize,
    id: u32,
    outcome: Result<(Seq<u32>, Seq<char>, usize, Option<Seq<char>>), Seq<char>>,
)
    requires
        is_step(tokenizer, skip_special_tokens, ids, prefix, prefix_index, id, outcome),
        outcome matches Ok(made) && made.3 is Some,
    ensures
        step_start(tokenizer, skip_special_tokens, ids, prefix, prefix_index) matches Ok(start) && decoded_ids(
            tokenizer,
            ids.push(id),
            skip_special_tokens,
        ) == Ok::<Seq<char>, Seq<char>>(start.0 + outcome->Ok_0.3->Some_0),
{
    let start = step_start(tokenizer, skip_special_tokens, ids, prefix, prefix_index)->Ok_0.0;
    let text = decoded_ids(tokenizer, ids.push(id), skip_special_tokens)->Ok_0;
    assert(text.take(start.len() as int) + text.skip(start.len() as int) =~= text);
}

/// The outcome of a step of the engine as mathematics: the ids, the text and the
/// place afterwards with the text that is new, or the message that came instead.
pub open spec fn step_outcome(
    text: Result<Option<String>, String>,
    ids: Seq<u32>,
    prefix: Seq<char>,
    prefix_index: usize,
) -> Result<(Seq<u32>, Seq<char>, usize, Option<Seq<char>>), Seq<char>> {
    match text {
        Ok(text) => Ok((ids, prefix, prefix_index, new_text(text))),
        Err(message) => Err(message@),
    }
}

/// Whether a step gives out text: the text of all the ids is longer than the one
/// that the step starts from, does not end unfinished, and starts with that one.
pub open spec fn gives_out(text: Seq<char>, start: Seq<char>) -> bool {
    byte_len(text) > byte_len(start) && !ends_unfinished(text) && starts_with(text, start)
}

/// Whether the engine can make a step: it can decode each list of ids that the step
/// has it decode. Those are the ids that the stream holds, where it has given out no
/// text for them; then these with the new id behind them; and, where the step gives
/// out text, the ids from the place on that the text it started from stands for.
pub open spec fn step_defined(
    tokenizer: tokenizers::Tokenizer,
    skip_special_tokens: bool,
    ids: Seq<u32>,
    prefix: Seq<char>,
    prefix_index: usize,
    id: u32,
) -> bool {
    &&& prefix.len() == 0 && ids.len() > 0 ==> decodable(tokenizer, ids, skip_special_tokens)
    &&& match step_start(tokenizer, skip_special_tokens, ids, prefix, prefix_index) {
        Err(_) => true,
        Ok((start, place)) => {
            &&& decodable(tokenizer, ids.push(id), skip_special_tokens)
            &&& match decoded_ids(tokenizer, ids.push(id), skip_special_tokens) {
                Ok(text) => gives_out(text, start) ==> decodable(
                    tokenizer,
                    ids.push(id).skip(place),
                    skip_special_tokens,
                ),
                Err(_) => true,
            }
        },
    }
}

/// `tokenizers::step_decode_stream` with one id, with the engine's error as its
/// message: see `is_step`. The engine cuts the ids that it holds at the place that the
/// text given out stands for, so that place has to be among them; where it succeeds,
/// it keeps to that itself. It decodes up to three lists of ids, whatever tokens they
/// have, which may be none or short: so the decoder has to be defined on the tokens
/// of each list that the step comes to (see `step_defined`).
#[verifier::external_body]
fn step_decode_stream(
    tokenizer: &tokenizers::Tokenizer,
    id: u32,
    skip_special_tokens: bool,
    ids: &mut Vec<u32>,
    prefix: &mut String,
    prefix_index: &mut usize,
) -> (text: Result<Option<String>, String>)
    requires
        *old(prefix_index) <= old(ids)@.len(),
        step_defined(*tokenizer, skip_special_tokens, old(ids)@, old(prefix)@, *old(prefix_index), id),
    ensures
        match text {
            Ok(text) => {
                &&& *final(prefix_index) <= final(ids)@.len()
                &&& stepped(*tokenizer, skip_special_tokens, old(ids)@, old(prefix)@, *old(prefix_index), id)
                    == Ok::<(Seq<u32>, Seq<char>, usize, Option<Seq<char>>), Seq<char>>(
                    (final(ids)@, final(prefix)@, *final(prefix_index), new_text(text)),
                )
            },
            Err(message) => stepped(
                *tokenizer,
                skip_special_tokens,
                old(ids)@,
                old(prefix)@,
                *old(prefix_index),
                id,
            ) == Err::<(Seq<u32>, Seq<char>, usize, Option<Seq<char>>), Seq<char>>(message@),
        },
        is_step(
            *tokenizer,
            skip_special_tokens,
            old(ids)@,
            old(prefix)@,
            *old(prefix_index),
            id,
            step_outcome(text, final(ids)@, final(prefix)@, *final(prefix_index)),
        ),
{
    tokenizers::step_decode_stream(
        tokenizer,
        vec![id],
        skip_special_tokens,
        ids,
        prefix,
        prefix_index,
    ).map_err(|error| error.to_string())
}

impl ExTokenizersDecodeStreamRef {
    /// A stream that has seen no id.
    pub fn new(skip_special_tokens: bool) -> (stream: Self)
        ensures
            stream@ == DecodeStreamModel::initial(skip_special_tokens),
            stream@.well_formed(),
    {
        ExTokenizersDecodeStreamRef {
            skip_special_tokens,
            ids: Vec::new(),
            prefix: String::new(),
            prefix_index: 0,
            read_index: 0,
        }
    }

    /// Whether the stream skips special tokens.
    pub fn skip_special_tokens(&self) -> (skip: bool)
        ensures
            skip == self@.skip_special_tokens,
    {
        self.skip_special_tokens
    }

    /// Whether the engine can make a step with one more id.
    fn can_step(&self, tokenizer: &tokenizers::Tokenizer, id: u32) -> (can: bool)
        requires
            self@.well_formed(),
        ensures
            can == self@.step_defined(*tokenizer, id),
    {
        let skip = self.skip_special_tokens;
        let mut start = self.prefix.clone();
        let mut place = self.prefix_index;
        if self.prefix.as_str().unicode_len() == 0 && self.ids.len() > 0 {
            if !is_decodable(tokenizer, &self.ids, skip) {
                return false;
            }
            match decode(tokenizer, &self.ids, skip) {
                Ok(text) => {
                    if !ends_unfinished_text(text.as_str()) {
                        start = text;
                        place = self.ids.len();
                    }
                },
                Err(_) => {
                    return true;
                },
            }
        }
        let mut all = self.ids.clone();
        all.push(id);
        assert(all@ =~= self.ids@.push(id));
        if !is_decodable(tokenizer, &all, skip) {
            return false;
        }
        match decode(tokenizer, &all, skip) {
            Ok(text) => {
                let longer = text.as_str().as_bytes().len() > start.as_str().as_bytes().len();
                assert(longer == (byte_len(text@) > byte_len(start@)));
                if longer && !ends_unfinished_text(text.as_str()) && starts_with_text(text.as_str(), start.as_str()) {
                    let mut rest: Vec<u32> = Vec::new();
                    let mut i: usize = place;
                    while i < all.len()
                        invariant
                            place <= i <= all@.len(),
                            rest@ == all@.subrange(place as int, i as int),
                        decreases all@.len() - i,
                    {
                        rest.push(all[i]);
                        assert(rest@ =~= all@.subrange(place as int, i + 1));
                        i += 1;
                    }
                    assert(rest@ =~= all@.skip(place as int));
                    is_decodable(tokenizer, &rest, skip)
                } else {
                    true
                }
            },
            Err(_) => true,
        }
    }

    /// Takes one more id into the stream and gives out the text that is new with it,
    /// if any is: see `is_step`. A stream that a failed step has left out of order is
    /// refused and stays as it is, and so is a step that the engine cannot make (see
    /// `step_defined`).
    pub fn step(&mut self, tokenizer: &ExTokenizersTokenizer, id: u32) -> (text: Result<
        Option<String>,
        ExTokenizersError,
    >)
        ensures
            final(self)@.skip_special_tokens == old(self)@.skip_special_tokens,
            final(self)@.read_index == old(self)@.read_index,
            !old(self)@.well_formed() ==> (text matches Err(ExTokenizersError::Internal(_))) && final(self)@
                == old(self)@,
            old(self)@.well_formed() && !old(self)@.step_defined(tokenizer.engine(), id) ==> (text matches Err(
                ExTokenizersError::Other(_),
            )) && final(self)@ == old(self)@,
            old(self)@.well_formed() && old(self)@.step_defined(tokenizer.engine(), id) ==> match text {
                Ok(text) => final(self)@.well_formed() && old(self)@.step(tokenizer.engine(), id) == Ok::<
                    (DecodeStreamModel, Option<Seq<char>>),
                    Seq<char>,
                >((final(self)@, new_text(text))),
                Err(error) => error matches ExTokenizersError::Tokenizer(message) && old(self)@.step(
                    tokenizer.engine(),
                    id,
                ) == Err::<(DecodeStreamModel, Option<Seq<char>>), Seq<char>>(message@),
            },
            old(self)@.well_formed() && old(self)@.step_defined(tokenizer.engine(), id) ==> match text {
                Ok(text) => old(self)@.steps_to(tokenizer.engine(), id, final(self)@, Ok(new_text(text))),
                Err(error) => error matches ExTokenizersError::Tokenizer(message) && old(self)@.steps_to(
                    tokenizer.engine(),
                    id,
                    final(self)@,
                    Err(message@),
                ),
            },
    {
        if self.prefix_index > self.ids.len() {
            return Err(ExTokenizersError::Internal("the decode stream is out of order".to_owned()));
        }
        if !self.can_step(&tokenizer.resource.0, id) {
            return Err(ExTokenizersError::Other("the decoder cannot be run on the tokens of this step".to_owned()));
        }
        let skip_special_tokens = self.skip_special_tokens;
        match step_decode_stream(
            &tokenizer.resource.0,
            id,
            skip_special_tokens,
            &mut self.ids,
            &mut self.prefix,
            &mut self.prefix_index,
        ) {
            Ok(text) => Ok(text),
            Err(message) => Err(ExTokenizersError::Tokenizer(message)),
        }
    }
}

/// A stream that has seen no id.
pub fn decoder_stream_new(skip_special_tokens: bool) -> (stream: ExTokenizersDecodeStreamRef)
    ensures
        stream@ == DecodeStreamModel::initial(skip_special_tokens),
        stream@.well_formed(),
{
    ExTokenizersDecodeStreamRef::new(skip_special_tokens)
}

/// Takes one more id into the stream and gives out the text that is new with it, if
/// any is.
pub fn decoder_stream_step(
    decode_stream: &mut ExTokenizersDecodeStreamRef,
    tokenizer: ExTokenizersTokenizer,
    id: u32,
) -> (text: Result<Option<String>, ExTokenizersError>)
    ensures
        final(decode_stream)@.skip_special_tokens == old(decode_stream)@.skip_special_tokens,
        !old(decode_stream)@.well_formed() ==> (text matches Err(ExTokenizersError::Internal(_)))
            && final(decode_stream)@ == old(decode_stream)@,
        old(decode_stream)@.well_formed() && !old(decode_stream)@.step_defined(tokenizer.engine(), id) ==> (text matches Err(
            ExTokenizersError::Other(_),
        )) && final(decode_stream)@ == old(decode_stream)@,
        old(decode_stream)@.well_formed() && old(decode_stream)@.step_defined(tokenizer.engine(), id) ==> match text {
            Ok(text) => final(decode_stream)@.well_formed() && old(decode_stream)@.step(
                tokenizer.engine(),
                id,
            ) == Ok::<(DecodeStreamModel, Option<Seq<char>>), Seq<char>>((final(decode_stream)@, new_text(text))),
            Err(error) => error matches ExTokenizersError::Tokenizer(message) && old(decode_stream)@.step(
                tokenizer.engine(),
                id,
            ) == Err::<(DecodeStreamModel, Option<Seq<char>>), Seq<char>>(message@),
        },
        old(decode_stream)@.well_formed() && old(decode_stream)@.step_defined(tokenizer.engine(), id) ==> match text {
            Ok(text) => old(decode_stream)@.steps_to(
                tokenizer.engine(),
                id,
                final(decode_stream)@,
                Ok(new_text(text)),
            ),
            Err(error) => error matches ExTokenizersError::Tokenizer(message) && old(decode_stream)@.steps_to(
                tokenizer.engine(),
                id,
                final(decode_stream)@,
                Err(message@),
            ),
        },
{
    decode_stream.step(&tokenizer, id)
}

/// The description that a stream gives of itself: whether it skips special tokens.
pub open spec fn decode_stream_info(stream: DecodeStreamModel) -> Seq<(Seq<char>, InfoValueModel)> {
    seq![("skip_special_tokens"@, InfoValueModel::Flag(stream.skip_special_tokens))]
}

/// The description that the stream gives of itself.
pub fn decoder_stream_info(decode_stream: &ExTokenizersDecodeStreamRef) -> (info: Info)
    ensures
        info@ == decode_stream_info(decode_stream@),
{
    let mut info = Info::new();
    info.push("skip_special_tokens", InfoValue::Flag(decode_stream.skip_special_tokens));
    assert(info@ =~= decode_stream_info(decode_stream@));
    info
}

} // verus!
