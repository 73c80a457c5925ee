use ex_tokenizers::decoders::{
    decoders_bpe, decoders_byte_level, decoders_ctc, decoders_fuse, decoders_sequence, decoders_wordpiece,
    holds, DecoderKind,
};
use ex_tokenizers::encoding::{
    encoding_get_ids, encoding_get_offsets, encoding_get_sequence_ids, encoding_get_special_tokens_mask,
    encoding_get_tokens, encoding_get_type_ids, encoding_get_word_ids, ExTokenizersEncoding,
};
use ex_tokenizers::models::{
    models_bpe_init, models_unigram_empty, models_wordlevel_init, models_wordpiece_init, ExTokenizersModel,
    WordPieceOption,
};
use ex_tokenizers::post_processors::{
    post_processors_bert, post_processors_byte_level, post_processors_roberta, post_processors_template,
    TemplateOption,
};
use ex_tokenizers::trainers::{
    trainers_bpe_trainer, trainers_info, trainers_unigram_trainer, trainers_wordlevel_trainer,
    trainers_wordpiece_trainer, BPEOption, UnigramOption, WordLevelOption, WordPieceOption as WordPieceTrainerOption,
};
use ex_tokenizers::util::InfoValue;
use ex_tokenizers::ExTokenizersError;

fn strings(items: &[&str]) -> Vec<String> {
    items.iter().map(|s| s.to_string()).collect()
}

fn vocab(items: &[(&str, u32)]) -> Vec<(String, u32)> {
    items.iter().map(|(s, i)| (s.to_string(), *i)).collect()
}

fn encoded(ids: Vec<u32>) -> ExTokenizersEncoding {
    let n = ids.len();
    ExTokenizersEncoding::new(tokenizers::Encoding::new(
        ids.clone(),
        vec![0; n],
        ids.iter().map(|i| format!("t{i}")).collect(),
        (0..n as u32).map(Some).collect(),
        (0..n).map(|i| (i, i + 1)).collect(),
        vec![0; n],
        vec![1; n],
        vec![],
        Default::default(),
    ))
}

#[test]
fn a_wordpiece_model_tokenizes_by_longest_match() {
    let model = models_wordpiece_init(vocab(&[("a", 0), ("b", 1), ("ab", 2), ("##c", 3)]), vec![]).unwrap();
    let tokens = model.tokenize("abc").unwrap();
    let values: Vec<&str> = tokens.iter().map(|t| t.value.as_str()).collect();
    let ids: Vec<u32> = tokens.iter().map(|t| t.id).collect();
    let offsets: Vec<(usize, usize)> = tokens.iter().map(|t| t.offsets).collect();
    assert_eq!(values, vec!["ab", "##c"]);
    assert_eq!(ids, vec![2, 3]);
    assert_eq!(offsets, vec![(0, 2), (2, 3)]);
    assert!(matches!(model.tokenize("abd"), Err(ExTokenizersError::Tokenizer(_))));
    let with_unknown = models_wordpiece_init(
        vocab(&[("a", 0), ("[UNK]", 1)]),
        vec![WordPieceOption::MaxInputCharsPerWord(2)],
    )
    .unwrap();
    let ids: Vec<u32> = with_unknown.tokenize("aaa").unwrap().iter().map(|t| t.id).collect();
    assert_eq!(ids, vec![1]);
}

#[test]
fn a_bpe_model_merges_in_the_order_of_its_merges() {
    let model = models_bpe_init(
        vocab(&[("a", 0), ("b", 1), ("c", 2), ("ab", 3), ("bc", 4), ("abc", 5)]),
        vec![("b".to_string(), "c".to_string()), ("a".to_string(), "b".to_string())],
        vec![],
    )
    .unwrap();
    let values: Vec<String> = model.tokenize("abc").unwrap().into_iter().map(|t| t.value).collect();
    assert_eq!(values, strings(&["a", "bc"]));
    let again: Vec<String> = model.tokenize("abc").unwrap().into_iter().map(|t| t.value).collect();
    assert_eq!(values, again);
}

#[test]
fn a_wordlevel_model_knows_whole_words_only() {
    let model = models_wordlevel_init(vocab(&[("<unk>", 0), ("hello", 1)]), vec![]).unwrap();
    let ids: Vec<u32> = model.tokenize("hello").unwrap().iter().map(|t| t.id).collect();
    assert_eq!(ids, vec![1]);
    let ids: Vec<u32> = model.tokenize("hell").unwrap().iter().map(|t| t.id).collect();
    assert_eq!(ids, vec![0]);
}

#[test]
fn a_model_looks_tokens_and_ids_up_in_its_vocabulary() {
    let model = models_wordlevel_init(vocab(&[("a", 4), ("b", 7), ("a", 5)]), vec![]).unwrap();
    assert_eq!(model.token_to_id("a"), Some(5));
    assert_eq!(model.token_to_id("b"), Some(7));
    assert_eq!(model.token_to_id("c"), None);
    assert_eq!(model.id_to_token(5), Some("a".to_string()));
    assert_eq!(model.id_to_token(7), Some("b".to_string()));
    assert_eq!(model.id_to_token(4), None);
    assert_eq!(model.get_vocab_size(), 2);
    let mut listed = model.get_vocab();
    listed.sort();
    assert_eq!(listed, vocab(&[("a", 5), ("b", 7)]));

    let shared = models_wordpiece_init(vocab(&[("x", 1), ("y", 1)]), vec![]).unwrap();
    let found = shared.id_to_token(1).unwrap();
    assert!(found == "x" || found == "y");
    assert_eq!(shared.get_vocab_size(), 2);

    let unigram = models_unigram_empty().unwrap();
    assert_eq!(unigram.token_to_id("<unk>"), Some(0));
    assert_eq!(unigram.id_to_token(0), Some("<unk>".to_string()));
    assert_eq!(unigram.id_to_token(1), None);
    assert_eq!(unigram.get_vocab_size(), 1);
    assert_eq!(unigram.get_vocab(), vocab(&[("<unk>", 0)]));

    let pieces = ExTokenizersModel::new(
        tokenizers::models::unigram::Unigram::from(
            vec![("<unk>".to_string(), 0.0), ("a".to_string(), -1.0), ("a".to_string(), -2.0)],
            Some(0),
            false,
        )
        .unwrap()
        .into(),
    );
    assert_eq!(pieces.token_to_id("a"), Some(2));
    assert_eq!(pieces.id_to_token(1), Some("a".to_string()));
    assert_eq!(pieces.get_vocab_size(), 3);
    assert_eq!(pieces.get_vocab().len(), 2);
}

#[test]
fn a_model_gives_a_trainer_of_its_kind() {
    let kinds = [
        (models_bpe_init(vec![], vec![], vec![]).unwrap(), "bpe"),
        (models_wordpiece_init(vec![], vec![]).unwrap(), "wordpiece"),
        (models_wordlevel_init(vec![], vec![]).unwrap(), "wordlevel"),
        (models_unigram_empty().unwrap(), "unigram"),
    ];
    for (model, kind) in kinds {
        let info = trainers_info(model.get_trainer());
        assert!(matches!(&info.0[0].1, InfoValue::Text(found) if found == kind));
    }
}

#[test]
fn a_trainer_says_whether_it_shows_progress() {
    assert!(trainers_bpe_trainer(vec![]).unwrap().should_show_progress());
    assert!(!trainers_bpe_trainer(vec![BPEOption::ShowProgress(false)]).unwrap().should_show_progress());
    assert!(trainers_wordpiece_trainer(vec![]).unwrap().should_show_progress());
    assert!(!trainers_wordpiece_trainer(vec![WordPieceTrainerOption::ShowProgress(false)])
        .unwrap()
        .should_show_progress());
    assert!(trainers_wordlevel_trainer(vec![]).unwrap().should_show_progress());
    assert!(!trainers_wordlevel_trainer(vec![WordLevelOption::ShowProgress(false)])
        .unwrap()
        .should_show_progress());
    assert!(trainers_unigram_trainer(vec![]).unwrap().should_show_progress());
    assert!(!trainers_unigram_trainer(vec![UnigramOption::ShowProgress(false)])
        .unwrap()
        .should_show_progress());
}

#[test]
fn a_decoder_gives_the_pieces_that_are_put_together() {
    assert_eq!(
        decoders_wordpiece(vec![]).decode_chain(strings(&["hel", "##lo", "you"])).unwrap(),
        strings(&["hel", "lo", " you"])
    );
    assert_eq!(decoders_fuse().decode_chain(strings(&["a", "b"])).unwrap(), strings(&["ab"]));
    assert_eq!(decoders_fuse().decode_chain(vec![]).unwrap(), strings(&[""]));
    assert_eq!(decoders_byte_level().decode_chain(vec![]).unwrap(), strings(&[""]));
    assert_eq!(decoders_wordpiece(vec![]).decode_chain(vec![]).unwrap(), Vec::<String>::new());
    assert_eq!(decoders_ctc(vec![]).decode_chain(strings(&["<pad>", "<pad>"])).unwrap(), Vec::<String>::new());
    assert_eq!(
        decoders_bpe(vec![]).decode_chain(strings(&["a</w>", "b</w>"])).unwrap(),
        strings(&["a ", "b"])
    );
    match decoders_bpe(vec![]).decode_chain(vec![]) {
        Err(ExTokenizersError::Tokenizer(message)) => {
            assert_eq!(message, "the decoder cannot be run on these tokens")
        }
        _ => panic!("the decoder should have been refused"),
    }
    let chain = decoders_sequence(vec![decoders_ctc(vec![]), decoders_bpe(vec![])]);
    assert_eq!(chain.decode_chain(strings(&["a", "a", "b</w>"])).unwrap(), strings(&["a", "b"]));
    assert!(chain.decode_chain(strings(&["<pad>"])).is_err());
}

#[test]
fn a_decoder_is_searched_for_a_kind() {
    let nested = decoders_sequence(vec![decoders_fuse(), decoders_sequence(vec![decoders_bpe(vec![])])]);
    assert!(holds(&nested.resource.0, DecoderKind::Bpe));
    assert!(holds(&nested.resource.0, DecoderKind::Fuse));
    assert!(holds(&nested.resource.0, DecoderKind::Sequence));
    assert!(!holds(&nested.resource.0, DecoderKind::Ctc));
    assert!(!holds(&decoders_fuse().resource.0, DecoderKind::Bpe));
    assert!(!holds(&decoders_sequence(vec![]).resource.0, DecoderKind::Bpe));
}

#[test]
fn bert_processing_wraps_the_encoded_sequence() {
    let bert = post_processors_bert(("[SEP]".to_string(), 1), ("[CLS]".to_string(), 0));
    let made = bert.process_encodings(vec![encoded(vec![5, 6])], true).unwrap();
    assert_eq!(made.len(), 1);
    assert_eq!(encoding_get_ids(made[0].clone()), vec![0, 5, 6, 1]);
    assert_eq!(encoding_get_type_ids(made[0].clone()), vec![0, 0, 0, 0]);
    assert_eq!(encoding_get_tokens(made[0].clone()), strings(&["[CLS]", "t5", "t6", "[SEP]"]));
    assert_eq!(encoding_get_word_ids(made[0].clone()), vec![None, Some(0), Some(1), None]);
    assert_eq!(encoding_get_offsets(made[0].clone()), vec![(0, 0), (0, 1), (1, 2), (0, 0)]);
    assert_eq!(encoding_get_special_tokens_mask(made[0].clone()), vec![1, 0, 0, 1]);
    assert_eq!(encoding_get_sequence_ids(made[0].clone()), vec![None, Some(0), Some(0), None]);

    let kept = bert.process_encodings(vec![encoded(vec![5, 6])], false).unwrap();
    assert_eq!(encoding_get_ids(kept[0].clone()), vec![5, 6]);

    let both = bert.process_encodings(vec![encoded(vec![5]), encoded(vec![6, 7])], true).unwrap();
    let ids: Vec<Vec<u32>> = both.iter().map(|e| encoding_get_ids(e.clone())).collect();
    assert_eq!(ids, vec![vec![0, 5, 1], vec![6, 7, 1]]);
    assert_eq!(encoding_get_type_ids(both[1].clone()), vec![0, 0, 1]);
}

#[test]
fn other_post_processors_process_as_the_engine_does() {
    let roberta = post_processors_roberta(("</s>".to_string(), 2), ("<s>".to_string(), 0), vec![]);
    let both = roberta.process_encodings(vec![encoded(vec![5]), encoded(vec![6])], true).unwrap();
    let ids: Vec<Vec<u32>> = both.iter().map(|e| encoding_get_ids(e.clone())).collect();
    assert_eq!(ids, vec![vec![0, 5, 2], vec![2, 6, 2]]);
    let byte_level = post_processors_byte_level(vec![]);
    let same = byte_level.process_encodings(vec![encoded(vec![5, 6])], true).unwrap();
    assert_eq!(encoding_get_ids(same[0].clone()), vec![5, 6]);
    let template = post_processors_template(vec![
        TemplateOption::Single("$A [E]".to_string()),
        TemplateOption::SpecialTokens(vec![("[E]".to_string(), 9)]),
    ])
    .unwrap();
    let pieces = template.process_encodings(vec![encoded(vec![5, 6])], true).unwrap();
    let ids: Vec<Vec<u32>> = pieces.iter().map(|e| encoding_get_ids(e.clone())).collect();
    assert_eq!(ids, vec![vec![5, 6], vec![9]]);
}

#[test]
fn a_post_processor_takes_one_encoding_or_two() {
    let bert = post_processors_bert(("[SEP]".to_string(), 1), ("[CLS]".to_string(), 0));
    match bert.process_encodings(vec![], true) {
        Err(ExTokenizersError::Other(message)) => {
            assert_eq!(message, "the post-processor cannot be run on these encodings")
        }
        _ => panic!("the encodings should have been refused"),
    }
    assert!(matches!(
        bert.process_encodings(vec![encoded(vec![1]), encoded(vec![2]), encoded(vec![3])], true),
        Err(ExTokenizersError::Other(_))
    ));
    let risky = post_processors_template(vec![TemplateOption::Single("$B".to_string())]).unwrap();
    assert!(matches!(
        risky.process_encodings(vec![encoded(vec![1])], true),
        Err(ExTokenizersError::Other(_))
    ));
    assert!(risky.process_encodings(vec![encoded(vec![1]), encoded(vec![2])], true).is_ok());
}

#[test]
fn a_wordlevel_token_stands_for_the_whole_text() {
    let model = models_wordlevel_init(vocab(&[("<unk>", 0), ("h\u{e9}", 1), ("", 2)]), vec![]).unwrap();
    let tokens = model.tokenize("h\u{e9}").unwrap();
    assert_eq!(tokens.len(), 1);
    assert_eq!((tokens[0].id, tokens[0].value.as_str(), tokens[0].offsets), (1, "h\u{e9}", (0, 3)));
    let tokens = model.tokenize("\u{e9}\u{e9} x").unwrap();
    assert_eq!(tokens.len(), 1);
    assert_eq!((tokens[0].id, tokens[0].value.as_str(), tokens[0].offsets), (0, "<unk>", (0, 6)));
    let tokens = model.tokenize("").unwrap();
    assert_eq!((tokens[0].id, tokens[0].value.as_str(), tokens[0].offsets), (2, "", (0, 0)));
    let bare = models_wordlevel_init(vocab(&[("a", 0)]), vec![]).unwrap();
    assert_eq!(bare.tokenize("a").unwrap()[0].id, 0);
    match bare.tokenize("b") {
        Err(ExTokenizersError::Tokenizer(message)) => {
            assert_eq!(message, "WordLevel error: Missing [UNK] token from the vocabulary")
        }
        _ => panic!("the text should have been refused"),
    }
}

fn with_chunk(ids: Vec<u32>, chunk: Vec<u32>, type_id: u32, attention: u32) -> ExTokenizersEncoding {
    let n = ids.len();
    let rest = encoded(chunk).encoding().clone();
    ExTokenizersEncoding::new(tokenizers::Encoding::new(
        ids.clone(),
        vec![type_id; n],
        ids.iter().map(|i| format!("t{i}")).collect(),
        (0..n as u32).map(Some).collect(),
        (0..n).map(|i| (i, i + 1)).collect(),
        vec![0; n],
        vec![attention; n],
        vec![rest],
        Default::default(),
    ))
}

#[test]
fn bert_processing_frames_every_part_of_an_encoding() {
    let bert = post_processors_bert(("[SEP]".to_string(), 1), ("[CLS]".to_string(), 0));
    let made = bert
        .process_encodings(vec![with_chunk(vec![5, 6], vec![7], 3, 0), with_chunk(vec![8], vec![9, 4], 2, 0)], true)
        .unwrap();
    assert_eq!(made.len(), 2);
    let first = made[0].encoding();
    assert_eq!(first.get_ids(), &[0, 5, 6, 1]);
    assert_eq!(first.get_type_ids(), &[0, 3, 3, 0]);
    assert_eq!(first.get_tokens(), &strings(&["[CLS]", "t5", "t6", "[SEP]"])[..]);
    assert_eq!(first.get_word_ids(), &[None, Some(0), Some(1), None]);
    assert_eq!(first.get_offsets(), &[(0, 0), (0, 1), (1, 2), (0, 0)]);
    assert_eq!(first.get_special_tokens_mask(), &[1, 0, 0, 1]);
    assert_eq!(first.get_attention_mask(), &[1, 1, 1, 1]);
    assert_eq!(first.get_sequence_ids(), vec![None, Some(0), Some(0), None]);
    assert_eq!(first.n_sequences(), 1);
    assert_eq!(first.get_overflowing().len(), 1);
    let chunk = &first.get_overflowing()[0];
    assert_eq!(chunk.get_ids(), &[0, 7, 1]);
    assert_eq!(chunk.get_type_ids(), &[0, 0, 0]);
    assert_eq!(chunk.get_tokens(), &strings(&["[CLS]", "t7", "[SEP]"])[..]);
    assert_eq!(chunk.get_special_tokens_mask(), &[1, 0, 1]);
    assert_eq!(chunk.get_attention_mask(), &[1, 1, 1]);
    assert_eq!(chunk.get_sequence_ids(), vec![None, Some(0), None]);
    assert!(chunk.get_overflowing().is_empty());

    let second = made[1].encoding();
    assert_eq!(second.get_ids(), &[8, 1]);
    assert_eq!(second.get_type_ids(), &[2, 1]);
    assert_eq!(second.get_tokens(), &strings(&["t8", "[SEP]"])[..]);
    assert_eq!(second.get_word_ids(), &[Some(0), None]);
    assert_eq!(second.get_offsets(), &[(0, 1), (0, 0)]);
    assert_eq!(second.get_special_tokens_mask(), &[0, 1]);
    assert_eq!(second.get_attention_mask(), &[1, 1]);
    assert_eq!((second.token_to_sequence(0), second.token_to_sequence(1)), (Some(1), None));
    let chunk = &second.get_overflowing()[0];
    assert_eq!(chunk.get_ids(), &[9, 4, 1]);
    assert_eq!(chunk.get_type_ids(), &[0, 0, 1]);
    assert_eq!(chunk.get_word_ids(), &[Some(0), Some(1), None]);
    assert_eq!(chunk.get_special_tokens_mask(), &[0, 0, 1]);
    assert_eq!(
        (chunk.token_to_sequence(0), chunk.token_to_sequence(1), chunk.token_to_sequence(2)),
        (Some(1), Some(1), None)
    );
    assert!(chunk.get_overflowing().is_empty());

    let kept = bert.process_encodings(vec![with_chunk(vec![5, 6], vec![7], 3, 0)], false).unwrap();
    assert_eq!(kept[0].encoding(), with_chunk(vec![5, 6], vec![7], 3, 0).encoding());
    let empty = bert.process_encodings(vec![encoded(vec![])], true).unwrap();
    assert_eq!(empty[0].encoding().get_ids(), &[0, 1]);
    assert_eq!(empty[0].encoding().get_sequence_ids(), vec![None, None]);
}
