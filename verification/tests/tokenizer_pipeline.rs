use ex_tokenizers::added_token::{added_token_new, AddedSpecialTokenInput, AddedTokenInput, AddedTokenOption};
use ex_tokenizers::decode_stream::{decoder_stream_info, decoder_stream_new, decoder_stream_step};
use ex_tokenizers::decoders::{
    decoders_bpe, decoders_byte_fallback, decoders_fuse, decoders_info, decoders_sequence, decoders_strip,
    decoders_wordpiece,
};
use ex_tokenizers::encoding::{
    encoding_get_attention_mask, encoding_get_ids, encoding_get_length, encoding_get_offsets,
    encoding_get_overflowing, encoding_get_sequence_ids, encoding_get_special_tokens_mask,
    encoding_get_tokens, encoding_get_type_ids, encoding_get_word_ids, ExTokenizersEncoding, PadOption,
    TransformationElement, TruncationOption as EncodingTruncationOption,
};
use ex_tokenizers::models::{
    models_bpe_init, models_info, models_unigram_empty, models_wordlevel_init, models_wordpiece_init,
    BPEOption, ExTokenizersModel, WordLevelOption, WordPieceOption,
};
use ex_tokenizers::normalizers::{normalizers_info, normalizers_lowercase};
use ex_tokenizers::post_processors::{
    fits, holds_template, post_processors_bert, post_processors_info, post_processors_roberta,
    post_processors_sequence, post_processors_template, TemplateOption,
};
use ex_tokenizers::pre_tokenizers::{pre_tokenizers_info, pre_tokenizers_whitespace, pre_tokenizers_whitespace_split};
use ex_tokenizers::tokenizer::{
    apply_load_options, term_to_encode_input, tokenizer_add_special_tokens, tokenizer_add_tokens,
    tokenizer_decode, tokenizer_decode_batch, tokenizer_disable_padding, tokenizer_disable_truncation,
    tokenizer_encode, tokenizer_encode_batch, tokenizer_get_decoder,
    tokenizer_get_model, tokenizer_get_normalizer, tokenizer_get_post_processor,
    tokenizer_get_pre_tokenizer, tokenizer_get_vocab, tokenizer_get_vocab_size, tokenizer_id_to_token,
    tokenizer_init, tokenizer_post_processing, tokenizer_save, tokenizer_set_decoder, tokenizer_set_model,
    tokenizer_set_normalizer, tokenizer_set_padding, tokenizer_set_post_processor,
    tokenizer_set_pre_tokenizer, tokenizer_set_truncation, tokenizer_token_to_id, tokenizer_train,
    DecodeOption, EncodeInput, EncodeOption, ExTokenizersTokenizer, LoadOption, PadStrategy, PaddingOption,
    SaveOption, TruncateStrategy, TruncationOption,
};
use ex_tokenizers::trainers::{
    trainers_bpe_trainer, trainers_unigram_trainer, trainers_wordlevel_trainer, trainers_wordpiece_trainer, BPEOption as BpeTrainerOption,
    WordLevelOption as WordLevelTrainerOption, WordPieceOption as WordPieceTrainerOption,
};
use ex_tokenizers::util::{Direction, Info, InfoValue};
use ex_tokenizers::ExTokenizersError;

fn strings(items: &[&str]) -> Vec<String> {
    items.iter().map(|s| s.to_string()).collect()
}

fn vocab(items: &[(&str, u32)]) -> Vec<(String, u32)> {
    items.iter().map(|(s, i)| (s.to_string(), *i)).collect()
}

fn text(info: &Info, name: &str) -> Option<String> {
    info.0.iter().find(|(key, _)| key == name).and_then(|(_, value)| match value {
        InfoValue::Text(text) => Some(text.clone()),
        _ => None,
    })
}

fn tokenizer_from_buffer(text: String, options: Vec<LoadOption>) -> Result<ExTokenizersTokenizer, String> {
    let read: tokenizers::Tokenizer = text.parse().map_err(|error: tokenizers::Error| error.to_string())?;
    Ok(ExTokenizersTokenizer::new(apply_load_options(read, options).0))
}

fn same(tokenizer: &ExTokenizersTokenizer) -> ExTokenizersTokenizer {
    ExTokenizersTokenizer::new(tokenizer.resource.0.clone())
}

fn copy(encoding: &ExTokenizersEncoding) -> ExTokenizersEncoding {
    ExTokenizersEncoding::new(encoding.encoding().clone())
}

fn single(text: &str) -> EncodeInput {
    EncodeInput::Single(text.to_string())
}

fn pair(first: &str, second: &str) -> EncodeInput {
    EncodeInput::Dual(first.to_string(), second.to_string())
}

fn words() -> ExTokenizersTokenizer {
    let model = models_wordlevel_init(
        vocab(&[("<unk>", 0), ("hello", 1), ("world", 2), ("a", 3), ("b", 4), ("c", 5), ("d", 6), ("[CLS]", 7), ("[SEP]", 8)]),
        vec![],
    )
    .unwrap();
    tokenizer_set_pre_tokenizer(tokenizer_init(model).unwrap(), pre_tokenizers_whitespace())
}

fn wordpiece() -> ExTokenizersTokenizer {
    let model = models_wordpiece_init(vocab(&[("a", 0), ("b", 1), ("ab", 2), ("##c", 3)]), vec![]).unwrap();
    tokenizer_init(model).unwrap()
}

#[test]
fn wordpiece_takes_the_longest_piece_first() {
    let encoding = tokenizer_encode(wordpiece(), single("abc"), vec![]).unwrap();
    assert_eq!(encoding_get_tokens(copy(&encoding)), strings(&["ab", "##c"]));
    assert_eq!(encoding_get_ids(encoding), vec![2, 3]);
}

#[test]
fn wordpiece_gives_up_on_a_word_without_pieces() {
    let model = models_wordpiece_init(
        vocab(&[("a", 0), ("b", 1), ("ab", 2), ("##c", 3), ("[UNK]", 4)]),
        vec![WordPieceOption::MaxInputCharsPerWord(3)],
    )
    .unwrap();
    let tokenizer = tokenizer_init(model).unwrap();
    let encoding = tokenizer_encode(same(&tokenizer), single("abd"), vec![]).unwrap();
    assert_eq!(encoding_get_ids(encoding), vec![4]);
    let encoding = tokenizer_encode(same(&tokenizer), single("abcc"), vec![]).unwrap();
    assert_eq!(encoding_get_ids(encoding), vec![4]);
    let encoding = tokenizer_encode(tokenizer, single("abc"), vec![]).unwrap();
    assert_eq!(encoding_get_ids(encoding), vec![2, 3]);
}

#[test]
fn unigram_takes_the_likeliest_pieces() {
    let unigram = tokenizers::models::unigram::Unigram::from(
        vec![
            ("<unk>".to_string(), 0.0),
            ("ab".to_string(), -1.0),
            ("a".to_string(), -2.0),
            ("b".to_string(), -2.0),
        ],
        Some(0),
        false,
    )
    .unwrap();
    let tokenizer = tokenizer_init(ExTokenizersModel::new(unigram.into())).unwrap();
    let encoding = tokenizer_encode(tokenizer, single("ab"), vec![]).unwrap();
    assert_eq!(encoding_get_tokens(copy(&encoding)), strings(&["ab"]));
    assert_eq!(encoding_get_ids(encoding), vec![1]);
}

#[test]
fn bpe_gives_the_same_tokens_every_time() {
    let entries = vocab(&[("a", 0), ("b", 1), ("c", 2), ("ab", 3), ("abc", 4)]);
    let merges = vec![("a".to_string(), "b".to_string()), ("ab".to_string(), "c".to_string())];
    let cached = tokenizer_init(models_bpe_init(entries.clone(), merges.clone(), vec![]).unwrap()).unwrap();
    let uncached = tokenizer_init(
        models_bpe_init(entries, merges, vec![BPEOption::CacheCapacity(0)]).unwrap(),
    )
    .unwrap();
    let first = tokenizer_encode(same(&cached), single("abcab"), vec![]).unwrap();
    let second = tokenizer_encode(same(&cached), single("abcab"), vec![]).unwrap();
    let third = tokenizer_encode(uncached, single("abcab"), vec![]).unwrap();
    assert_eq!(encoding_get_tokens(copy(&first)), strings(&["abc", "ab"]));
    assert_eq!(encoding_get_ids(copy(&first)), vec![4, 3]);
    assert_eq!(first.encoding(), second.encoding());
    assert_eq!(first.encoding(), third.encoding());
}

#[test]
fn bert_post_processing_wraps_one_sequence() {
    let tokenizer = tokenizer_set_post_processor(
        words(),
        post_processors_bert(("[SEP]".to_string(), 1), ("[CLS]".to_string(), 0)),
    );
    let encoded = ExTokenizersEncoding::new(tokenizers::Encoding::new(
        vec![5, 6],
        vec![0, 0],
        strings(&["c", "d"]),
        vec![Some(0), Some(1)],
        vec![(0, 1), (2, 3)],
        vec![0, 0],
        vec![1, 1],
        vec![],
        Default::default(),
    ));
    let processed = tokenizer_post_processing(same(&tokenizer), copy(&encoded), None, true).unwrap();
    assert_eq!(encoding_get_ids(copy(&processed)), vec![0, 5, 6, 1]);
    assert_eq!(encoding_get_type_ids(copy(&processed)), vec![0, 0, 0, 0]);
    assert_eq!(encoding_get_tokens(copy(&processed)), strings(&["[CLS]", "c", "d", "[SEP]"]));
    assert_eq!(encoding_get_special_tokens_mask(copy(&processed)), vec![1, 0, 0, 1]);
    assert_eq!(encoding_get_sequence_ids(copy(&processed)), vec![None, Some(0), Some(0), None]);
    let plain = tokenizer_post_processing(same(&tokenizer), copy(&encoded), None, false).unwrap();
    assert_eq!(encoding_get_ids(plain), vec![5, 6]);
    let both = tokenizer_post_processing(tokenizer, copy(&encoded), Some(encoded), true).unwrap();
    assert_eq!(encoding_get_ids(copy(&both)), vec![0, 5, 6, 1, 5, 6, 1]);
    assert_eq!(encoding_get_type_ids(copy(&both)), vec![0, 0, 0, 0, 1, 1, 1]);
    assert_eq!(
        encoding_get_sequence_ids(both),
        vec![None, Some(0), Some(0), None, Some(1), Some(1), None]
    );
}

fn template(single: &str) -> ex_tokenizers::post_processors::ExTokenizersPostProcessor {
    post_processors_template(vec![
        TemplateOption::Single(single.to_string()),
        TemplateOption::Pair("[CLS] $A [SEP] $B:1 [SEP]:1".to_string()),
        TemplateOption::SpecialTokens(vec![("[CLS]".to_string(), 7), ("[SEP]".to_string(), 8)]),
    ])
    .unwrap()
}

#[test]
fn a_template_wraps_what_is_encoded() {
    let tokenizer = tokenizer_set_post_processor(words(), template("[CLS] $A [SEP]"));
    let encoding = tokenizer_encode(same(&tokenizer), single("a b"), vec![]).unwrap();
    assert_eq!(encoding_get_ids(copy(&encoding)), vec![7, 3, 4, 8]);
    assert_eq!(encoding_get_special_tokens_mask(encoding), vec![1, 0, 0, 1]);
    let encoding = tokenizer_encode(same(&tokenizer), pair("a", "b"), vec![]).unwrap();
    assert_eq!(encoding_get_ids(copy(&encoding)), vec![7, 3, 8, 4, 8]);
    assert_eq!(encoding_get_type_ids(encoding), vec![0, 0, 0, 1, 1]);
    let encoding =
        tokenizer_encode(same(&tokenizer), single("a b"), vec![EncodeOption::AddSpecialTokens(false)]).unwrap();
    assert_eq!(encoding_get_ids(encoding), vec![3, 4]);
    let text = tokenizer_save(same(&tokenizer), vec![]).unwrap();
    let loaded = tokenizer_from_buffer(text, vec![]).unwrap();
    assert_eq!(encoding_get_ids(tokenizer_encode(loaded, single("a b"), vec![]).unwrap()), vec![7, 3, 4, 8]);
}

#[test]
fn a_template_that_names_a_missing_sequence_is_refused_at_encoding() {
    let risky = template("[CLS] $B [SEP]");
    assert!(holds_template(&risky.resource.0));
    assert!(!fits(&risky.resource.0, false));
    assert!(fits(&risky.resource.0, true));
    let tokenizer = tokenizer_set_post_processor(words(), risky);
    match tokenizer_encode(same(&tokenizer), single("a b"), vec![]) {
        Err(ExTokenizersError::Other(message)) => assert_eq!(
            message,
            "the tokenizer is set to normalize, to split, to truncate or to post-process in a way that cannot be followed"
        ),
        _ => panic!("the input should have been refused"),
    }
    assert!(matches!(
        tokenizer_encode_batch(same(&tokenizer), vec![pair("a", "b"), single("a")], vec![]),
        Err(ExTokenizersError::Other(_))
    ));
    let encoding = tokenizer_encode(tokenizer, pair("a", "b"), vec![]).unwrap();
    assert_eq!(encoding_get_ids(encoding), vec![7, 3, 8, 4, 8]);
}

#[test]
fn two_templates_in_a_row_are_refused_at_encoding() {
    let twice = post_processors_sequence(vec![
        template("[CLS] $A [SEP]"),
        post_processors_sequence(vec![template("$A")]),
    ]);
    assert!(holds_template(&twice.resource.0));
    assert!(!fits(&twice.resource.0, false));
    assert!(!fits(&twice.resource.0, true));
    let tokenizer = tokenizer_set_post_processor(words(), twice);
    assert!(matches!(
        tokenizer_encode(tokenizer, single("a"), vec![]),
        Err(ExTokenizersError::Other(_))
    ));
    let once = post_processors_sequence(vec![
        post_processors_bert(("[SEP]".to_string(), 8), ("[CLS]".to_string(), 7)),
        post_processors_sequence(vec![template("$A")]),
    ]);
    assert!(holds_template(&once.resource.0));
    assert!(fits(&once.resource.0, false));
    let plain = post_processors_sequence(vec![post_processors_bert(("[SEP]".to_string(), 8), ("[CLS]".to_string(), 7))]);
    assert!(!holds_template(&plain.resource.0));
    let tokenizer = tokenizer_set_post_processor(words(), once);
    let encoding = tokenizer_encode(tokenizer, single("a"), vec![]).unwrap();
    assert_eq!(encoding_get_ids(encoding), vec![7, 3, 8]);
}

#[test]
fn encoding_a_pair_puts_the_sequences_side_by_side() {
    let encoding = tokenizer_encode(words(), pair("hello a", "world"), vec![]).unwrap();
    assert_eq!(encoding_get_ids(copy(&encoding)), vec![1, 3, 2]);
    assert_eq!(encoding_get_type_ids(copy(&encoding)), vec![0, 0, 1]);
    assert_eq!(encoding_get_offsets(copy(&encoding)), vec![(0, 5), (6, 7), (0, 5)]);
    assert_eq!(encoding_get_word_ids(copy(&encoding)), vec![Some(0), Some(1), Some(0)]);
    assert_eq!(encoding_get_sequence_ids(copy(&encoding)), vec![Some(0), Some(0), Some(1)]);
    assert_eq!(encoding_get_attention_mask(encoding), vec![1, 1, 1]);
}

#[test]
fn decoding_gives_back_what_was_encoded() {
    let tokenizer = words();
    for text in ["hello world", "a b c d", "hello", ""] {
        let encoding = tokenizer_encode(same(&tokenizer), single(text), vec![]).unwrap();
        let ids = encoding_get_ids(encoding);
        assert_eq!(tokenizer_decode(same(&tokenizer), ids, vec![]).unwrap(), text);
    }
    let pieces = tokenizer_set_decoder(wordpiece(), decoders_wordpiece(vec![]));
    let encoding = tokenizer_encode(same(&pieces), single("abc"), vec![]).unwrap();
    assert_eq!(tokenizer_decode(pieces, encoding_get_ids(encoding), vec![]).unwrap(), "abc");
}

#[test]
fn decoding_skips_unknown_ids_and_special_tokens() {
    let tokenizer = tokenizer_add_special_tokens(
        words(),
        vec![AddedSpecialTokenInput::String("[CLS]".to_string()), AddedSpecialTokenInput::String("<new>".to_string())],
    );
    assert_eq!(tokenizer_token_to_id(same(&tokenizer), "<new>"), Some(9));
    assert_eq!(tokenizer_decode(same(&tokenizer), vec![7, 1, 99, 9, 2], vec![]).unwrap(), "hello world");
    assert_eq!(
        tokenizer_decode(same(&tokenizer), vec![7, 1, 99, 9, 2], vec![DecodeOption::SkipSpecialTokens(false)]).unwrap(),
        "[CLS] hello <new> world"
    );
    assert_eq!(
        tokenizer_decode(
            same(&tokenizer),
            vec![7, 1],
            vec![DecodeOption::SkipSpecialTokens(false), DecodeOption::SkipSpecialTokens(true)]
        )
        .unwrap(),
        "hello"
    );
    assert_eq!(tokenizer_decode(same(&tokenizer), vec![], vec![]).unwrap(), "");
    assert_eq!(tokenizer_decode(same(&tokenizer), vec![99], vec![]).unwrap(), "");
    assert_eq!(
        tokenizer_decode_batch(tokenizer, vec![vec![1, 2], vec![], vec![7, 3]], vec![]).unwrap(),
        strings(&["hello world", "", "a"])
    );
}

#[test]
fn decoding_agrees_with_the_engine() {
    let tokenizer = tokenizer_set_decoder(
        tokenizer_add_special_tokens(words(), vec![AddedSpecialTokenInput::String("[SEP]".to_string())]),
        decoders_fuse(),
    );
    for ids in [vec![], vec![1u32], vec![1, 8, 2, 55, 3], vec![8, 8]] {
        for skip in [true, false] {
            assert_eq!(
                tokenizer_decode(same(&tokenizer), ids.clone(), vec![DecodeOption::SkipSpecialTokens(skip)]).unwrap(),
                tokenizer.resource.0.decode(&ids, skip).unwrap()
            );
        }
    }
    let bpe = tokenizer_set_decoder(words(), decoders_bpe(vec![]));
    assert_eq!(tokenizer_decode(same(&bpe), vec![], vec![]).unwrap(), "");
    assert_eq!(tokenizer_decode(bpe, vec![1, 2], vec![]).unwrap(), "helloworld");
}

#[test]
fn a_stream_gives_out_what_decoding_the_whole_gives() {
    let tokenizer = words();
    let ids = encoding_get_ids(tokenizer_encode(same(&tokenizer), single("hello world"), vec![]).unwrap());
    let whole = tokenizer_decode(same(&tokenizer), ids.clone(), vec![]).unwrap();
    assert_eq!(whole, "hello world");
    let mut stream = decoder_stream_new(true);
    let mut given = String::new();
    let mut chunks = Vec::new();
    for id in ids {
        if let Some(chunk) = decoder_stream_step(&mut stream, same(&tokenizer), id).unwrap() {
            given.push_str(&chunk);
            chunks.push(chunk);
        }
    }
    assert_eq!(given, whole);
    assert_eq!(chunks, strings(&["hello", " world"]));
}

#[test]
fn a_stream_waits_for_the_bytes_of_a_character() {
    let model = models_wordlevel_init(vocab(&[("<0xC3>", 0), ("<0xA9>", 1), ("a", 2)]), vec![]).unwrap();
    let tokenizer = tokenizer_set_decoder(
        tokenizer_init(model).unwrap(),
        decoders_sequence(vec![decoders_byte_fallback(), decoders_fuse()]),
    );
    let mut stream = decoder_stream_new(false);
    assert_eq!(decoder_stream_step(&mut stream, same(&tokenizer), 2).unwrap(), Some("a".to_string()));
    assert_eq!(decoder_stream_step(&mut stream, same(&tokenizer), 0).unwrap(), None);
    assert_eq!(decoder_stream_step(&mut stream, same(&tokenizer), 1).unwrap(), Some("\u{e9}".to_string()));
    assert_eq!(decoder_stream_step(&mut stream, same(&tokenizer), 2).unwrap(), Some("a".to_string()));
}

#[test]
fn a_stream_is_decoded_with_a_bpe_decoder_while_a_token_reaches_it() {
    let tokenizer = tokenizer_set_decoder(words(), decoders_bpe(vec![]));
    let mut stream = decoder_stream_new(true);
    match decoder_stream_step(&mut stream, same(&tokenizer), 999) {
        Err(ExTokenizersError::Other(message)) => {
            assert_eq!(message, "the decoder cannot be run on the tokens of this step")
        }
        _ => panic!("the step should have been refused"),
    }
    assert_eq!(decoder_stream_step(&mut stream, same(&tokenizer), 1).unwrap(), Some("hello".to_string()));
    assert_eq!(decoder_stream_step(&mut stream, same(&tokenizer), 999).unwrap(), None);
    assert_eq!(decoder_stream_step(&mut stream, same(&tokenizer), 2).unwrap(), Some("world".to_string()));
    assert_eq!(tokenizer_decode(tokenizer, vec![1, 999, 2], vec![]).unwrap(), "helloworld");
}

#[test]
fn a_stream_describes_itself() {
    let info = decoder_stream_info(&decoder_stream_new(true));
    assert_eq!(info.0.len(), 1);
    assert_eq!(info.0[0].0, "skip_special_tokens");
    assert!(matches!(info.0[0].1, InfoValue::Flag(true)));
    let stream = decoder_stream_new(false);
    assert!(!stream.skip_special_tokens());
    assert!(matches!(decoder_stream_info(&stream).0[0].1, InfoValue::Flag(false)));
}

#[test]
fn a_stream_skips_special_tokens_when_asked() {
    let tokenizer = tokenizer_add_special_tokens(words(), vec![AddedSpecialTokenInput::String("[CLS]".to_string())]);
    let mut skipping = decoder_stream_new(true);
    assert_eq!(decoder_stream_step(&mut skipping, same(&tokenizer), 7).unwrap(), None);
    assert_eq!(decoder_stream_step(&mut skipping, same(&tokenizer), 1).unwrap(), Some("hello".to_string()));
    let mut keeping = decoder_stream_new(false);
    assert_eq!(decoder_stream_step(&mut keeping, same(&tokenizer), 7).unwrap(), Some("[CLS]".to_string()));
    assert_eq!(decoder_stream_step(&mut keeping, same(&tokenizer), 1).unwrap(), Some(" hello".to_string()));
}

#[test]
fn stages_are_set_and_got() {
    let tokenizer = tokenizer_init(models_unigram_empty().unwrap()).unwrap();
    assert!(tokenizer_get_normalizer(same(&tokenizer)).is_none());
    assert!(tokenizer_get_pre_tokenizer(same(&tokenizer)).is_none());
    assert!(tokenizer_get_post_processor(same(&tokenizer)).is_none());
    assert!(tokenizer_get_decoder(same(&tokenizer)).is_none());
    assert_eq!(text(&models_info(tokenizer_get_model(same(&tokenizer))), "model_type").unwrap(), "unigram");
    let changed = tokenizer_set_model(same(&tokenizer), models_wordlevel_init(vec![], vec![WordLevelOption::UnkToken("?".to_string())]).unwrap());
    let info = models_info(tokenizer_get_model(same(&changed)));
    assert_eq!(text(&info, "model_type").unwrap(), "wordlevel");
    assert_eq!(text(&info, "unk_token").unwrap(), "?");
    assert_eq!(text(&models_info(tokenizer_get_model(same(&tokenizer))), "model_type").unwrap(), "unigram");
    let changed = tokenizer_set_normalizer(changed, normalizers_lowercase()).unwrap();
    let changed = tokenizer_set_pre_tokenizer(changed, pre_tokenizers_whitespace_split());
    let changed = tokenizer_set_post_processor(
        changed,
        post_processors_roberta(("</s>".to_string(), 2), ("<s>".to_string(), 0), vec![]),
    );
    let changed = tokenizer_set_decoder(changed, decoders_fuse());
    assert_eq!(
        text(&normalizers_info(tokenizer_get_normalizer(same(&changed)).unwrap()), "normalizer_type").unwrap(),
        "Lowercase"
    );
    assert_eq!(
        text(&pre_tokenizers_info(tokenizer_get_pre_tokenizer(same(&changed)).unwrap()), "pre_tokenizer_type").unwrap(),
        "WhitespaceSplit"
    );
    assert_eq!(
        text(&post_processors_info(tokenizer_get_post_processor(same(&changed)).unwrap()), "post_processor_type")
            .unwrap(),
        "roberta"
    );
    assert_eq!(text(&decoders_info(tokenizer_get_decoder(same(&changed)).unwrap()), "decoder_type").unwrap(), "Fuse");
    assert_eq!(text(&models_info(tokenizer_get_model(changed)), "model_type").unwrap(), "wordlevel");
    assert!(tokenizer_get_decoder(tokenizer).is_none());
}

#[test]
fn the_normalizer_runs_before_the_model() {
    let tokenizer = tokenizer_set_normalizer(words(), normalizers_lowercase()).unwrap();
    let encoding = tokenizer_encode(tokenizer, single("Hello WORLD"), vec![]).unwrap();
    assert_eq!(encoding_get_ids(encoding), vec![1, 2]);
    let encoding = tokenizer_encode(words(), single("Hello world"), vec![]).unwrap();
    assert_eq!(encoding_get_ids(encoding), vec![0, 2]);
}

#[test]
fn the_vocabulary_holds_each_token_once() {
    let tokenizer = tokenizer_add_tokens(
        words(),
        vec![
            AddedTokenInput::String("extra".to_string()),
            AddedTokenInput::AddedToken(added_token_new("hello".to_string(), vec![AddedTokenOption::SingleWord(true)])),
            AddedTokenInput::String("".to_string()),
        ],
    );
    let mut without = tokenizer_get_vocab(same(&tokenizer), false);
    without.sort();
    let mut expected = vocab(&[("<unk>", 0), ("hello", 1), ("world", 2), ("a", 3), ("b", 4), ("c", 5), ("d", 6), ("[CLS]", 7), ("[SEP]", 8)]);
    expected.sort();
    assert_eq!(without, expected);
    let mut with = tokenizer_get_vocab(same(&tokenizer), true);
    with.sort();
    expected.push(("extra".to_string(), 9));
    expected.sort();
    assert_eq!(with, expected);
    assert_eq!(tokenizer_get_vocab_size(same(&tokenizer), false), 9);
    assert_eq!(tokenizer_get_vocab_size(same(&tokenizer), true), 10);
    assert_eq!(tokenizer_token_to_id(same(&tokenizer), "extra"), Some(9));
    assert_eq!(tokenizer_token_to_id(same(&tokenizer), "world"), Some(2));
    assert_eq!(tokenizer_token_to_id(same(&tokenizer), "nothing"), None);
    assert_eq!(tokenizer_id_to_token(same(&tokenizer), 9), Some("extra".to_string()));
    assert_eq!(tokenizer_id_to_token(same(&tokenizer), 1), Some("hello".to_string()));
    assert_eq!(tokenizer_id_to_token(tokenizer, 77), None);
    assert_eq!(tokenizer_token_to_id(words(), "extra"), None);
}

#[test]
fn truncation_settings_are_taken_or_refused() {
    let tokenizer = tokenizer_set_truncation(words(), vec![TruncationOption::MaxLength(2)]).unwrap();
    let encoding = tokenizer_encode(same(&tokenizer), single("a b c d"), vec![]).unwrap();
    assert_eq!(encoding_get_ids(copy(&encoding)), vec![3, 4]);
    assert_eq!(encoding_get_length(encoding), 2);
    let tokenizer = tokenizer_set_truncation(
        tokenizer,
        vec![
            TruncationOption::MaxLength(3),
            TruncationOption::Stride(1),
            TruncationOption::Direction(Direction::Left),
            TruncationOption::Strategy(TruncateStrategy::OnlyFirst),
        ],
    )
    .unwrap();
    let encoding = tokenizer_encode(same(&tokenizer), single("a b c d"), vec![]).unwrap();
    assert_eq!(encoding_get_ids(encoding), vec![4, 5, 6]);
    let off = tokenizer_disable_truncation(same(&tokenizer));
    assert_eq!(encoding_get_length(tokenizer_encode(off, single("a b c d"), vec![]).unwrap()), 4);

    let default = tokenizer_set_truncation(words(), vec![]).unwrap();
    assert_eq!(default.resource.0.get_truncation().unwrap().max_length, 512);
    assert_eq!(default.resource.0.get_truncation().unwrap().stride, 0);

    match tokenizer_set_truncation(words(), vec![TruncationOption::MaxLength(2), TruncationOption::Stride(3)]) {
        Err(ExTokenizersError::Tokenizer(message)) => {
            assert_eq!(message, "the stride is too long for the greatest length and the added special tokens")
        }
        _ => panic!("the settings should have been refused"),
    }
    let with_bert = tokenizer_set_post_processor(
        words(),
        post_processors_bert(("[SEP]".to_string(), 8), ("[CLS]".to_string(), 7)),
    );
    assert!(tokenizer_set_truncation(same(&with_bert), vec![TruncationOption::MaxLength(1)]).is_err());
    assert!(tokenizer_set_truncation(
        same(&with_bert),
        vec![TruncationOption::MaxLength(3), TruncationOption::Stride(2)]
    )
    .is_err());
    assert!(tokenizer_set_truncation(
        same(&with_bert),
        vec![TruncationOption::MaxLength(3), TruncationOption::Stride(1)]
    )
    .is_ok());
    assert!(tokenizer_set_truncation(with_bert, vec![TruncationOption::MaxLength(2)]).is_ok());
}

#[test]
fn truncation_that_may_leave_no_room_is_refused_at_encoding() {
    let tokenizer = tokenizer_set_truncation(
        words(),
        vec![TruncationOption::MaxLength(2), TruncationOption::Stride(2)],
    )
    .unwrap();
    assert!(matches!(
        tokenizer_encode(same(&tokenizer), single("a b c d"), vec![]),
        Err(ExTokenizersError::Other(_))
    ));
    assert!(matches!(
        tokenizer_encode_batch(same(&tokenizer), vec![single("a"), single("a b c")], vec![]),
        Err(ExTokenizersError::Other(_))
    ));
    let fitting = tokenizer_encode_batch(same(&tokenizer), vec![single("a"), single("a b")], vec![]).unwrap();
    assert_eq!(encoding_get_ids(copy(&fitting[1])), vec![3, 4]);
    let tokenizer = tokenizer_set_truncation(
        words(),
        vec![TruncationOption::MaxLength(4), TruncationOption::Stride(1)],
    )
    .unwrap();
    let encoding = tokenizer_encode(same(&tokenizer), pair("a b c d", "a b c d"), vec![]).unwrap();
    assert_eq!(encoding_get_ids(encoding), vec![3, 4, 3, 4]);
    let tokenizer = tokenizer_set_truncation(
        tokenizer,
        vec![TruncationOption::MaxLength(4), TruncationOption::Stride(2)],
    )
    .unwrap();
    assert!(matches!(
        tokenizer_encode(same(&tokenizer), pair("a b c d", "a b c d"), vec![]),
        Err(ExTokenizersError::Other(_))
    ));
    assert!(tokenizer_encode(same(&tokenizer), single("a b c d a"), vec![]).is_ok());
    let encoding = tokenizer_encode(tokenizer, pair("a", "a b c d"), vec![]).unwrap();
    assert_eq!(encoding_get_ids(encoding), vec![3, 3, 4, 5]);
}

#[test]
fn a_pair_is_cut_on_one_side_while_the_stride_is_shorter_than_what_is_left() {
    let second = tokenizer_set_truncation(
        words(),
        vec![
            TruncationOption::MaxLength(4),
            TruncationOption::Stride(1),
            TruncationOption::Strategy(TruncateStrategy::OnlySecond),
        ],
    )
    .unwrap();
    let encoding = tokenizer_encode(same(&second), pair("a b", "a b c d"), vec![]).unwrap();
    assert_eq!(encoding_get_ids(encoding), vec![3, 4, 3, 4]);
    assert!(matches!(
        tokenizer_encode(same(&second), pair("a b c d", "a"), vec![]),
        Err(ExTokenizersError::Tokenizer(_))
    ));
    assert!(matches!(
        tokenizer_encode(same(&second), single("a b c d a"), vec![]),
        Err(ExTokenizersError::Tokenizer(_))
    ));
    let wide = tokenizer_set_truncation(
        second,
        vec![
            TruncationOption::MaxLength(4),
            TruncationOption::Stride(2),
            TruncationOption::Strategy(TruncateStrategy::OnlySecond),
        ],
    )
    .unwrap();
    assert!(matches!(
        tokenizer_encode(same(&wide), pair("a b", "a b c d"), vec![]),
        Err(ExTokenizersError::Other(_))
    ));
    let encoding = tokenizer_encode(wide, pair("a", "a b c d"), vec![]).unwrap();
    assert_eq!(encoding_get_ids(encoding), vec![3, 3, 4, 5]);
    let first = tokenizer_set_truncation(
        words(),
        vec![
            TruncationOption::MaxLength(4),
            TruncationOption::Stride(1),
            TruncationOption::Strategy(TruncateStrategy::OnlyFirst),
        ],
    )
    .unwrap();
    let encoding = tokenizer_encode(first, pair("a b c d", "a"), vec![]).unwrap();
    assert_eq!(encoding_get_ids(encoding), vec![3, 4, 5, 3]);
}

#[test]
fn padding_settings_are_taken() {
    let tokenizer = tokenizer_set_padding(
        words(),
        vec![
            PaddingOption::Strategy(PadStrategy::Fixed(4)),
            PaddingOption::PadId(9),
            PaddingOption::PadTypeId(1),
            PaddingOption::PadToken("<p>".to_string()),
            PaddingOption::Direction(Direction::Left),
        ],
    );
    let encoding = tokenizer_encode(same(&tokenizer), single("a b"), vec![]).unwrap();
    assert_eq!(encoding_get_ids(copy(&encoding)), vec![9, 9, 3, 4]);
    assert_eq!(encoding_get_type_ids(copy(&encoding)), vec![1, 1, 0, 0]);
    assert_eq!(encoding_get_tokens(copy(&encoding)), strings(&["<p>", "<p>", "a", "b"]));
    assert_eq!(encoding_get_attention_mask(encoding), vec![0, 0, 1, 1]);
    let off = tokenizer_disable_padding(tokenizer);
    assert_eq!(encoding_get_ids(tokenizer_encode(off, single("a b"), vec![]).unwrap()), vec![3, 4]);

    let tokenizer = tokenizer_set_padding(words(), vec![PaddingOption::PadToMultipleOf(3)]);
    let batch = tokenizer_encode_batch(tokenizer, vec![single("a b c d"), single("a"), pair("a", "b")], vec![]).unwrap();
    let ids: Vec<Vec<u32>> = batch.iter().map(|e| encoding_get_ids(copy(e))).collect();
    assert_eq!(ids, vec![vec![3, 4, 5, 6, 0, 0], vec![3, 0, 0, 0, 0, 0], vec![3, 4, 0, 0, 0, 0]]);
    assert_eq!(encoding_get_tokens(copy(&batch[1]))[1], "[PAD]");
}

#[test]
fn a_batch_comes_back_in_the_order_of_its_inputs() {
    let batch = tokenizer_encode_batch(
        words(),
        vec![single("a"), single("b c"), single("d"), pair("hello", "world")],
        vec![EncodeOption::EncodingTransformations(vec![TransformationElement::Pad((2, vec![PadOption::PadId(9)]))])],
    )
    .unwrap();
    let ids: Vec<Vec<u32>> = batch.iter().map(|e| encoding_get_ids(copy(e))).collect();
    assert_eq!(ids, vec![vec![6 - 3, 9], vec![4, 5], vec![6, 9], vec![1, 2]]);
    assert!(tokenizer_encode_batch(words(), vec![], vec![]).unwrap().is_empty());
}

#[test]
fn encode_options_keep_the_last_of_each_kind() {
    let tokenizer = tokenizer_set_post_processor(
        words(),
        post_processors_bert(("[SEP]".to_string(), 8), ("[CLS]".to_string(), 7)),
    );
    let encoding = tokenizer_encode(same(&tokenizer), single("a"), vec![]).unwrap();
    assert_eq!(encoding_get_ids(encoding), vec![7, 3, 8]);
    let encoding = tokenizer_encode(
        same(&tokenizer),
        single("a"),
        vec![
            EncodeOption::EncodingTransformations(vec![TransformationElement::Pad((9, vec![]))]),
            EncodeOption::AddSpecialTokens(true),
            EncodeOption::EncodingTransformations(vec![
                TransformationElement::Pad((4, vec![])),
                TransformationElement::Truncate((3, vec![EncodingTruncationOption::Direction(Direction::Left)])),
            ]),
            EncodeOption::AddSpecialTokens(false),
        ],
    )
    .unwrap();
    assert_eq!(encoding_get_ids(encoding), vec![0, 0, 0]);
    let outcome = tokenizer_encode(
        tokenizer,
        single("a b c"),
        vec![EncodeOption::EncodingTransformations(vec![TransformationElement::Truncate((
            2,
            vec![EncodingTruncationOption::Stride(2)],
        ))])],
    );
    assert!(matches!(outcome, Err(ExTokenizersError::Other(_))));
}

#[test]
fn an_input_is_one_sequence_or_a_pair() {
    assert!(matches!(
        term_to_encode_input(Some("a".to_string()), None),
        Ok(EncodeInput::Single(s)) if s == "a"
    ));
    assert!(matches!(
        term_to_encode_input(None, Some(("a".to_string(), "b".to_string()))),
        Ok(EncodeInput::Dual(a, b)) if a == "a" && b == "b"
    ));
    assert!(matches!(
        term_to_encode_input(Some("x".to_string()), Some(("a".to_string(), "b".to_string()))),
        Ok(EncodeInput::Single(s)) if s == "x"
    ));
    match term_to_encode_input(None, None) {
        Err(ExTokenizersError::Other(message)) => assert_eq!(message, "input must be either a string or a tuple"),
        _ => panic!("the input should have been refused"),
    }
}

#[test]
fn a_tokenizer_is_written_and_read_again() {
    let tokenizer = tokenizer_set_truncation(
        tokenizer_set_padding(words(), vec![PaddingOption::Strategy(PadStrategy::Fixed(3))]),
        vec![TruncationOption::MaxLength(2)],
    )
    .unwrap();
    let plain = tokenizer_save(same(&tokenizer), vec![]).unwrap();
    let pretty = tokenizer_save(same(&tokenizer), vec![SaveOption::Pretty(false), SaveOption::Pretty(true)]).unwrap();
    assert!(!plain.contains('\n'));
    assert!(pretty.contains('\n'));
    assert_eq!(plain, tokenizer.resource.0.to_string(false).unwrap());
    assert_eq!(pretty, tokenizer.resource.0.to_string(true).unwrap());

    let loaded = tokenizer_from_buffer(pretty.clone(), vec![]).unwrap();
    assert!(loaded.resource.0.get_padding().is_some());
    assert!(loaded.resource.0.get_truncation().is_some());
    assert_eq!(encoding_get_ids(tokenizer_encode(loaded, single("a"), vec![]).unwrap()), vec![3, 0, 0]);

    let loaded = tokenizer_from_buffer(pretty.clone(), vec![LoadOption::Padding]).unwrap();
    assert!(loaded.resource.0.get_padding().is_none());
    assert!(loaded.resource.0.get_truncation().is_some());
    let loaded = tokenizer_from_buffer(plain.clone(), vec![LoadOption::Truncation]).unwrap();
    assert!(loaded.resource.0.get_padding().is_some());
    assert!(loaded.resource.0.get_truncation().is_none());
    let loaded = tokenizer_from_buffer(
        plain,
        vec![
            LoadOption::AdditionalSpecialTokens(vec![AddedSpecialTokenInput::String("<x>".to_string())]),
            LoadOption::Truncation,
            LoadOption::AdditionalSpecialTokens(vec![AddedSpecialTokenInput::String("<y>".to_string())]),
            LoadOption::Padding,
        ],
    )
    .unwrap();
    assert!(loaded.resource.0.get_padding().is_none());
    assert!(loaded.resource.0.get_truncation().is_none());
    assert_eq!(tokenizer_token_to_id(same(&loaded), "<y>"), Some(9));
    assert_eq!(tokenizer_token_to_id(loaded, "<x>"), None);

    assert!(tokenizer_from_buffer("{".to_string(), vec![]).is_err());
    let bare = apply_load_options(tokenizer.resource.0.clone(), vec![LoadOption::Padding, LoadOption::Truncation]).0;
    assert!(bare.get_padding().is_none() && bare.get_truncation().is_none());
}

#[test]
fn training_builds_the_vocabulary_of_a_copy() {
    let start = tokenizer_set_pre_tokenizer(
        tokenizer_init(models_wordlevel_init(vec![], vec![]).unwrap()).unwrap(),
        pre_tokenizers_whitespace(),
    );
    let trainer = trainers_wordlevel_trainer(vec![
        WordLevelTrainerOption::ShowProgress(false),
        WordLevelTrainerOption::SpecialTokens(strings(&["<unk>"])),
    ])
    .unwrap();
    let trained = tokenizer_train(
        same(&start),
        strings(&["b a a\n", "a b c\n", "a"]),
        Some(trainer),
    )
    .unwrap();
    let mut learned = tokenizer_get_vocab(same(&trained), false);
    learned.sort_by_key(|(_, id)| *id);
    assert_eq!(learned, vocab(&[("<unk>", 0), ("a", 1), ("b", 2), ("c", 3)]));
    assert_eq!(tokenizer_get_vocab_size(same(&start), false), 0);
    assert_eq!(encoding_get_ids(tokenizer_encode(trained, single("c a x"), vec![]).unwrap()), vec![3, 1, 0]);
}

#[test]
fn training_without_a_trainer_uses_one_of_the_kind_of_the_model() {
    let start = tokenizer_set_pre_tokenizer(
        tokenizer_init(models_wordlevel_init(vec![], vec![]).unwrap()).unwrap(),
        pre_tokenizers_whitespace(),
    );
    let trained = tokenizer_train(start, strings(&["x y", "x"]), None).unwrap();
    assert_eq!(tokenizer_token_to_id(same(&trained), "x"), Some(0));
    assert_eq!(tokenizer_token_to_id(trained, "y"), Some(1));
}

#[test]
fn a_trainer_of_another_kind_is_refused() {
    let start = tokenizer_init(models_wordlevel_init(vec![], vec![]).unwrap()).unwrap();
    let bpe = trainers_bpe_trainer(vec![BpeTrainerOption::ShowProgress(false)]).unwrap();
    assert!(matches!(
        tokenizer_train(same(&start), strings(&["a b"]), Some(bpe)),
        Err(ExTokenizersError::Tokenizer(_))
    ));
    let wordpiece = trainers_wordpiece_trainer(vec![WordPieceTrainerOption::ShowProgress(false)]).unwrap();
    assert!(matches!(
        tokenizer_train(start, strings(&["a b"]), Some(wordpiece)),
        Err(ExTokenizersError::Tokenizer(_))
    ));
}

#[test]
fn bpe_training_learns_merges() {
    let start = tokenizer_set_pre_tokenizer(
        tokenizer_init(models_bpe_init(vec![], vec![], vec![]).unwrap()).unwrap(),
        pre_tokenizers_whitespace(),
    );
    let trainer = trainers_bpe_trainer(vec![
        BpeTrainerOption::ShowProgress(false),
        BpeTrainerOption::VocabSize(4),
    ])
    .unwrap();
    let trained = tokenizer_train(start, strings(&["ab ab ab", "ab c"]), Some(trainer)).unwrap();
    assert_eq!(tokenizer_get_vocab_size(same(&trained), false), 4);
    assert!(tokenizer_token_to_id(same(&trained), "ab").is_some());
    let encoding = tokenizer_encode(trained, single("ab"), vec![]).unwrap();
    assert_eq!(encoding_get_tokens(encoding), strings(&["ab"]));
}

#[test]
fn a_stream_is_decoded_with_a_decoder_that_strips_while_the_tokens_are_long_enough() {
    let tokenizer = tokenizer_set_decoder(words(), decoders_strip('a' as u32, 0, 2).unwrap());
    let mut stream = decoder_stream_new(true);
    assert_eq!(decoder_stream_step(&mut stream, same(&tokenizer), 1).unwrap(), Some("hello".to_string()));
    match decoder_stream_step(&mut stream, same(&tokenizer), 3) {
        Err(ExTokenizersError::Other(message)) => {
            assert_eq!(message, "the decoder cannot be run on the tokens of this step")
        }
        _ => panic!("the step should have been refused"),
    }
    assert_eq!(decoder_stream_step(&mut stream, same(&tokenizer), 2).unwrap(), Some("world".to_string()));
    let gentle = tokenizer_set_decoder(tokenizer, decoders_strip('a' as u32, 0, 1).unwrap());
    assert_eq!(decoder_stream_step(&mut stream, gentle, 3).unwrap(), None);
}

#[test]
fn a_unigram_trainer_is_not_run() {
    let start = tokenizer_init(models_unigram_empty().unwrap()).unwrap();
    assert!(matches!(
        tokenizer_train(same(&start), strings(&["a b"]), None),
        Err(ExTokenizersError::Other(_))
    ));
    let trainer = trainers_unigram_trainer(vec![]).unwrap();
    assert!(matches!(
        tokenizer_train(start, strings(&["a b"]), Some(trainer)),
        Err(ExTokenizersError::Other(_))
    ));
    let words = tokenizer_init(models_wordlevel_init(vec![], vec![]).unwrap()).unwrap();
    let trainer = trainers_unigram_trainer(vec![]).unwrap();
    assert!(matches!(
        tokenizer_train(words, strings(&["a b"]), Some(trainer)),
        Err(ExTokenizersError::Other(_))
    ));
}

fn at_the_last_id() -> ExTokenizersTokenizer {
    let model = models_wordlevel_init(vocab(&[("<unk>", 0), ("x", u32::MAX)]), vec![]).unwrap();
    tokenizer_add_tokens(tokenizer_init(model).unwrap(), vec![AddedTokenInput::String("x".to_string())])
}

#[test]
fn added_tokens_get_ids_and_known_tokens_keep_theirs() {
    let tokenizer = tokenizer_add_special_tokens(
        words(),
        vec![
            AddedSpecialTokenInput::String("<new>".to_string()),
            AddedSpecialTokenInput::String("world".to_string()),
        ],
    );
    assert_eq!(tokenizer_token_to_id(same(&tokenizer), "<new>"), Some(9));
    assert_eq!(tokenizer_token_to_id(same(&tokenizer), "world"), Some(2));
    assert_eq!(tokenizer_token_to_id(same(&tokenizer), "hello"), Some(1));
    assert_eq!(tokenizer_decode(same(&tokenizer), vec![1, 9, 2], vec![]).unwrap(), "hello");
    let tokenizer = tokenizer_add_tokens(tokenizer, vec![AddedTokenInput::String("more".to_string())]);
    assert_eq!(tokenizer_token_to_id(same(&tokenizer), "more"), Some(10));
    assert_eq!(tokenizer_token_to_id(same(&tokenizer), "<new>"), Some(9));
    assert_eq!(tokenizer_decode(tokenizer, vec![10, 9, 1], vec![]).unwrap(), "more hello");
}

#[test]
fn nothing_is_added_where_the_ids_have_run_out() {
    let full = at_the_last_id();
    assert_eq!(tokenizer_token_to_id(same(&full), "x"), Some(u32::MAX));
    let more = tokenizer_add_tokens(same(&full), vec![AddedTokenInput::String("y".to_string())]);
    assert_eq!(tokenizer_token_to_id(same(&more), "y"), None);
    assert_eq!(tokenizer_token_to_id(same(&more), "x"), Some(u32::MAX));
    let more = tokenizer_add_special_tokens(same(&full), vec![AddedSpecialTokenInput::String("y".to_string())]);
    assert_eq!(tokenizer_token_to_id(same(&more), "y"), None);
    let more = tokenizer_add_tokens(same(&full), vec![]);
    assert_eq!(tokenizer_get_vocab_size(more, true), 2);
    let (loaded, left) = apply_load_options(
        full.resource.0.clone(),
        vec![LoadOption::AdditionalSpecialTokens(vec![AddedSpecialTokenInput::String("y".to_string())])],
    );
    assert_eq!(left.len(), 1);
    assert_eq!(left[0].content, "y");
    assert!(left[0].special);
    assert_eq!(loaded.token_to_id("y"), None);
    assert_eq!(loaded.token_to_id("x"), Some(u32::MAX));
}

#[test]
fn a_trainer_with_more_special_tokens_than_ids_are_left_is_refused() {
    let trainer = trainers_wordlevel_trainer(vec![
        WordLevelTrainerOption::ShowProgress(false),
        WordLevelTrainerOption::SpecialTokens(strings(&["<unk>"])),
    ])
    .unwrap();
    assert!(matches!(
        tokenizer_train(at_the_last_id(), strings(&["a b"]), Some(trainer)),
        Err(ExTokenizersError::Other(_))
    ));
    assert!(matches!(
        tokenizer_train(at_the_last_id(), strings(&["a b"]), None),
        Err(ExTokenizersError::Other(_))
    ));
}

#[test]
fn loading_adds_the_special_tokens_of_the_last_option_that_names_some() {
    let (loaded, left) = apply_load_options(
        words().resource.0.clone(),
        vec![
            LoadOption::AdditionalSpecialTokens(vec![AddedSpecialTokenInput::String("<x>".to_string())]),
            LoadOption::Padding,
            LoadOption::AdditionalSpecialTokens(vec![
                AddedSpecialTokenInput::String("<y>".to_string()),
                AddedSpecialTokenInput::String("hello".to_string()),
            ]),
        ],
    );
    assert!(left.is_empty());
    assert_eq!(loaded.token_to_id("<x>"), None);
    assert_eq!(loaded.token_to_id("<y>"), Some(9));
    assert_eq!(loaded.token_to_id("hello"), Some(1));
    assert!(loaded.get_added_vocabulary().is_special_token("<y>"));
    assert!(loaded.get_added_vocabulary().is_special_token("hello"));
    assert!(!loaded.get_added_vocabulary().is_special_token("world"));
}

fn with_fixed_length(length: usize) -> ExTokenizersTokenizer {
    let text = tokenizer_save(words(), vec![]).unwrap();
    let stage = "\"pre_tokenizer\":{\"type\":\"Whitespace\"}";
    assert!(text.contains(stage));
    let text = text.replace(stage, &format!("\"pre_tokenizer\":{{\"type\":\"FixedLength\",\"length\":{}}}", length));
    tokenizer_from_buffer(text, vec![]).unwrap()
}

#[test]
fn a_fixed_length_of_zero_is_refused_where_it_would_be_run() {
    let tokenizer = with_fixed_length(1);
    let encoding = tokenizer_encode(same(&tokenizer), single("abz"), vec![]).unwrap();
    assert_eq!(encoding_get_ids(encoding), vec![3, 4, 0]);
    let pre_tokenizer = tokenizer_get_pre_tokenizer(tokenizer).unwrap();
    assert_eq!(
        ex_tokenizers::pre_tokenizers::pre_tokenizers_pre_tokenize(pre_tokenizer, "ab".to_string()).unwrap(),
        vec![("a".to_string(), (0, 1)), ("b".to_string(), (1, 2))]
    );

    let tokenizer = with_fixed_length(0);
    assert!(matches!(
        tokenizer_encode(same(&tokenizer), single("ab"), vec![]),
        Err(ExTokenizersError::Other(_))
    ));
    assert!(matches!(
        tokenizer_encode_batch(same(&tokenizer), vec![single("ab")], vec![]),
        Err(ExTokenizersError::Other(_))
    ));
    assert!(matches!(
        tokenizer_train(same(&tokenizer), strings(&["a b"]), None),
        Err(ExTokenizersError::Other(_))
    ));
    let pre_tokenizer = tokenizer_get_pre_tokenizer(same(&tokenizer)).unwrap();
    match ex_tokenizers::pre_tokenizers::pre_tokenizers_pre_tokenize(pre_tokenizer, "ab".to_string()) {
        Err(ExTokenizersError::Tokenizer(message)) => assert_eq!(message, "a fixed length of zero cuts no pieces"),
        _ => panic!("the pre-tokenizer should have been refused"),
    }
    let inside = ex_tokenizers::pre_tokenizers::pre_tokenizers_sequence(vec![
        pre_tokenizers_whitespace(),
        tokenizer_get_pre_tokenizer(tokenizer).unwrap(),
    ]);
    assert!(matches!(
        ex_tokenizers::pre_tokenizers::pre_tokenizers_pre_tokenize(inside, "ab".to_string()),
        Err(ExTokenizersError::Tokenizer(_))
    ));
}

#[test]
fn a_tokenizer_with_the_greatest_id_is_not_written() {
    assert!(matches!(tokenizer_save(at_the_last_id(), vec![]), Err(ExTokenizersError::Other(_))));
    let below = tokenizer_init(models_wordlevel_init(vocab(&[("<unk>", 0), ("x", 3)]), vec![]).unwrap()).unwrap();
    let text = tokenizer_save(below, vec![]).unwrap();
    assert!(text.contains("\"vocab\":{\"<unk>\":0,\"x\":3}"));
    let pieces = tokenizer_save(tokenizer_init(models_unigram_empty().unwrap()).unwrap(), vec![]).unwrap();
    assert!(pieces.contains("\"type\":\"Unigram\""));
}

fn table() -> ex_tokenizers::normalizers::ExTokenizersNormalizer {
    ex_tokenizers::normalizers::normalizers_precompiled(vec![0, 0, 0, 0]).unwrap()
}

#[test]
fn a_normalizer_that_works_from_a_table_is_not_run() {
    match ex_tokenizers::normalizers::normalizers_normalize(table(), "a".to_string()) {
        Err(ExTokenizersError::Tokenizer(message)) => {
            assert_eq!(message, "a normalizer that works from a table is not run here")
        }
        _ => panic!("the normalizer should have been refused"),
    }
    let inside = ex_tokenizers::normalizers::normalizers_sequence(vec![normalizers_lowercase(), table()]);
    assert!(matches!(
        ex_tokenizers::normalizers::normalizers_normalize(inside, "a".to_string()),
        Err(ExTokenizersError::Tokenizer(_))
    ));

    let tokenizer = tokenizer_set_normalizer(words(), table()).unwrap();
    assert_eq!(text(&normalizers_info(tokenizer_get_normalizer(same(&tokenizer)).unwrap()), "normalizer_type").unwrap(), "Precompiled");
    match tokenizer_encode(same(&tokenizer), single("hello"), vec![]) {
        Err(ExTokenizersError::Other(message)) => assert_eq!(
            message,
            "the tokenizer is set to normalize, to split, to truncate or to post-process in a way that cannot be followed"
        ),
        _ => panic!("the input should have been refused"),
    }
    assert!(matches!(
        tokenizer_encode_batch(same(&tokenizer), vec![single("hello")], vec![]),
        Err(ExTokenizersError::Other(_))
    ));
    assert!(matches!(
        tokenizer_train(same(&tokenizer), strings(&["a b"]), None),
        Err(ExTokenizersError::Other(_))
    ));

    let plain = tokenizer_add_tokens(same(&tokenizer), vec![AddedTokenInput::String("new".to_string())]);
    assert_eq!(tokenizer_token_to_id(plain, "new"), None);
    let special = tokenizer_add_special_tokens(
        same(&tokenizer),
        vec![AddedSpecialTokenInput::String("<new>".to_string())],
    );
    assert_eq!(tokenizer_token_to_id(same(&special), "<new>"), Some(9));
    assert_eq!(tokenizer_id_to_token(same(&special), 9), Some("<new>".to_string()));
    assert_eq!(tokenizer_decode(same(&tokenizer), vec![1, 2], vec![]).unwrap(), "hello world");

    let with_added = tokenizer_add_tokens(words(), vec![AddedTokenInput::String("new".to_string())]);
    assert_eq!(tokenizer_token_to_id(same(&with_added), "new"), Some(9));
    assert!(matches!(tokenizer_set_normalizer(same(&with_added), table()), Err(ExTokenizersError::Other(_))));
    assert!(tokenizer_set_normalizer(with_added, normalizers_lowercase()).is_ok());
}

#[test]
fn adding_no_token_leaves_the_added_tokens_as_they_are() {
    let start = tokenizer_add_special_tokens(words(), vec![AddedSpecialTokenInput::String("<new>".to_string())]);
    let loaded = apply_load_options(start.resource.0.clone(), vec![LoadOption::Padding]).0;
    assert_eq!(loaded.get_vocab(true), start.resource.0.get_vocab(true));
    assert_eq!(loaded.token_to_id("<new>"), Some(9));
    assert_eq!(loaded.id_to_token(9), Some("<new>".to_string()));
    assert!(loaded.get_added_vocabulary().is_special_token("<new>"));
    assert_eq!(loaded.decode(&[1, 9, 2], true).unwrap(), "hello world");
    let same_again = tokenizer_add_tokens(same(&start), vec![]);
    assert_eq!(same_again.resource.0.get_vocab(true), start.resource.0.get_vocab(true));
}

#[test]
fn loading_hands_back_the_tokens_that_a_table_would_be_run_on() {
    let start = tokenizer_set_normalizer(words(), table()).unwrap();
    let normalized = added_token_new(
        "<n>".to_string(),
        vec![AddedTokenOption::Special(true), AddedTokenOption::Normalized(true)],
    );
    let (loaded, left) = apply_load_options(
        start.resource.0.clone(),
        vec![LoadOption::AdditionalSpecialTokens(vec![
            AddedSpecialTokenInput::String("<s>".to_string()),
            AddedSpecialTokenInput::AddedToken(normalized),
        ])],
    );
    assert_eq!(loaded.token_to_id("<s>"), None);
    assert_eq!(loaded.token_to_id("<n>"), None);
    let contents: Vec<&str> = left.iter().map(|token| token.content.as_str()).collect();
    assert_eq!(contents, vec!["<s>", "<n>"]);
    assert!(left[1].normalized && !left[0].normalized);
    let (loaded, left) = apply_load_options(
        start.resource.0.clone(),
        vec![LoadOption::AdditionalSpecialTokens(vec![AddedSpecialTokenInput::String("<s>".to_string())])],
    );
    assert!(left.is_empty());
    assert_eq!(loaded.token_to_id("<s>"), Some(9));
}

#[test]
fn a_batch_that_fails_fails_as_one_of_its_inputs_does() {
    let model = models_wordlevel_init(vocab(&[("a", 0)]), vec![]).unwrap();
    let tokenizer = tokenizer_set_truncation(
        tokenizer_set_pre_tokenizer(tokenizer_init(model).unwrap(), pre_tokenizers_whitespace()),
        vec![
            TruncationOption::MaxLength(1),
            TruncationOption::Stride(0),
            TruncationOption::Strategy(TruncateStrategy::OnlySecond),
        ],
    )
    .unwrap();
    let message = |outcome: Result<ExTokenizersEncoding, ExTokenizersError>| match outcome {
        Err(ExTokenizersError::Tokenizer(message)) => message,
        _ => panic!("the input should have failed in the engine"),
    };
    let unknown = message(tokenizer_encode(same(&tokenizer), single("zzz"), vec![]));
    let uncut = message(tokenizer_encode(same(&tokenizer), single("a a a"), vec![]));
    assert_ne!(unknown, uncut);
    match tokenizer_encode_batch(same(&tokenizer), vec![single("zzz"), single("a a a")], vec![]) {
        Err(ExTokenizersError::Tokenizer(message)) => assert!(message == unknown || message == uncut),
        _ => panic!("the batch should have failed in the engine"),
    }
    let fine = tokenizer_encode_batch(tokenizer, vec![single("a"), single("a")], vec![]).unwrap();
    assert_eq!(fine.len(), 2);
}

#[test]
fn a_batch_is_padded_to_its_longest_and_up_to_a_multiple() {
    let tokenizer = tokenizer_set_padding(
        words(),
        vec![PaddingOption::PadId(9), PaddingOption::PadToMultipleOf(4)],
    );
    let made = tokenizer_encode_batch(
        tokenizer,
        vec![single("a"), single("a b c d a"), single("")],
        vec![],
    )
    .unwrap();
    let ids: Vec<Vec<u32>> = made.iter().map(|encoding| encoding_get_ids(copy(encoding))).collect();
    assert_eq!(
        ids,
        vec![vec![3, 9, 9, 9, 9, 9, 9, 9], vec![3, 4, 5, 6, 3, 9, 9, 9], vec![9, 9, 9, 9, 9, 9, 9, 9]]
    );
}
