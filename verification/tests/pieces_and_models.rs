use ex_tokenizers::error::BadArg;
use ex_tokenizers::model::{get_model_details, ModelDetailValue};
use ex_tokenizers::models::{
    models_bpe_empty, models_bpe_init, models_info, models_save_prefix, models_unigram_empty,
    models_wordlevel_empty, models_wordlevel_init, models_wordpiece_empty, models_wordpiece_init,
    populate_bpe_options_to_builder, unigram_settings, BPEOption, ModelSaveOption, UnigramOption,
    UnigramSettings, WordLevelOption, WordPieceOption,
};
use ex_tokenizers::post_processors::{
    post_processors_bert, post_processors_byte_level, post_processors_info, post_processors_roberta,
    post_processors_sequence, post_processors_template, ByteLevelOption as PostByteLevelOption,
    ExTokenizersPostProcessor, RobertaOption, TemplateOption,
};
use ex_tokenizers::pre_tokenizers::{
    pre_tokenizers_bert, pre_tokenizers_byte_level, pre_tokenizers_byte_level_alphabet,
    pre_tokenizers_char_delimiter_split, pre_tokenizers_digits, pre_tokenizers_info,
    pre_tokenizers_metaspace, pre_tokenizers_pre_tokenize, pre_tokenizers_punctuation,
    pre_tokenizers_sequence, pre_tokenizers_split, pre_tokenizers_whitespace,
    pre_tokenizers_whitespace_split, ByteLevelOption, DigitsOption, ExTokenizersPreTokenizer,
    LocalSplitPattern, MetaspaceOption, SplitDelimiterBehavior, SplitOption,
};
use ex_tokenizers::trainers::{
    populate_wordlevel_options_to_builder, trainers_bpe_trainer, trainers_info, trainers_unigram_trainer,
    trainers_wordlevel_trainer, trainers_wordpiece_trainer, BPEOption as BpeTrainerOption,
    UnigramOption as UnigramTrainerOption, WordLevelOption as WordLevelTrainerOption,
    WordPieceOption as WordPieceTrainerOption,
};
use ex_tokenizers::added_token::AddedTokenInput;
use ex_tokenizers::util::{chars_from_codes, Info, InfoValue};
use ex_tokenizers::ExTokenizersError;

fn strings(items: &[&str]) -> Vec<String> {
    items.iter().map(|s| s.to_string()).collect()
}

fn pieces(items: &[(&str, (usize, usize))]) -> Vec<(String, (usize, usize))> {
    items.iter().map(|(s, o)| (s.to_string(), *o)).collect()
}

fn vocab(items: &[(&str, u32)]) -> Vec<(String, u32)> {
    items.iter().map(|(s, i)| (s.to_string(), *i)).collect()
}

fn merges(items: &[(&str, &str)]) -> Vec<(String, String)> {
    items.iter().map(|(a, b)| (a.to_string(), b.to_string())).collect()
}

fn text(info: &Info, name: &str) -> Option<String> {
    info.0.iter().find(|(key, _)| key == name).and_then(|(_, value)| match value {
        InfoValue::Text(text) => Some(text.clone()),
        _ => None,
    })
}

fn names(info: &Info) -> Vec<String> {
    info.0.iter().map(|(key, _)| key.clone()).collect()
}

#[test]
fn whitespace_splits_words_and_punctuation() {
    assert_eq!(
        pre_tokenizers_pre_tokenize(pre_tokenizers_whitespace(), "Hey, you!".to_string()).unwrap(),
        pieces(&[("Hey", (0, 3)), (",", (3, 4)), ("you", (5, 8)), ("!", (8, 9))])
    );
    assert_eq!(
        pre_tokenizers_pre_tokenize(pre_tokenizers_whitespace_split(), "Hey, you!".to_string()).unwrap(),
        pieces(&[("Hey,", (0, 4)), ("you!", (5, 9))])
    );
    assert_eq!(
        pre_tokenizers_pre_tokenize(pre_tokenizers_bert(), "a-b c".to_string()).unwrap(),
        pieces(&[("a", (0, 1)), ("-", (1, 2)), ("b", (2, 3)), ("c", (4, 5))])
    );
}

#[test]
fn offsets_count_characters_not_bytes() {
    assert_eq!(
        pre_tokenizers_pre_tokenize(pre_tokenizers_whitespace_split(), "\u{e9}t\u{e9} ici".to_string()).unwrap(),
        pieces(&[("\u{e9}t\u{e9}", (0, 3)), ("ici", (4, 7))])
    );
}

#[test]
fn other_pre_tokenizers_split_as_the_engine_does() {
    assert_eq!(
        pre_tokenizers_pre_tokenize(pre_tokenizers_char_delimiter_split('-' as u32).unwrap(), "a-b-c".to_string())
            .unwrap(),
        pieces(&[("a", (0, 1)), ("b", (2, 3)), ("c", (4, 5))])
    );
    assert_eq!(
        pre_tokenizers_pre_tokenize(pre_tokenizers_digits(vec![]), "ab123c".to_string()).unwrap(),
        pieces(&[("ab", (0, 2)), ("123", (2, 5)), ("c", (5, 6))])
    );
    assert_eq!(
        pre_tokenizers_pre_tokenize(
            pre_tokenizers_digits(vec![DigitsOption::IndividualDigits(false), DigitsOption::IndividualDigits(true)]),
            "ab12".to_string()
        )
        .unwrap(),
        pieces(&[("ab", (0, 2)), ("1", (2, 3)), ("2", (3, 4))])
    );
    assert_eq!(
        pre_tokenizers_pre_tokenize(pre_tokenizers_punctuation(SplitDelimiterBehavior::Removed), "a.b".to_string())
            .unwrap(),
        pieces(&[("a", (0, 1)), ("b", (2, 3))])
    );
    assert_eq!(
        pre_tokenizers_pre_tokenize(
            pre_tokenizers_punctuation(SplitDelimiterBehavior::MergedWithPrevious),
            "a.b".to_string()
        )
        .unwrap(),
        pieces(&[("a.", (0, 2)), ("b", (2, 3))])
    );
    assert_eq!(
        pre_tokenizers_pre_tokenize(
            pre_tokenizers_punctuation(SplitDelimiterBehavior::MergedWithNext),
            "a.b".to_string()
        )
        .unwrap(),
        pieces(&[("a", (0, 1)), (".b", (1, 3))])
    );
    assert_eq!(
        pre_tokenizers_pre_tokenize(
            pre_tokenizers_punctuation(SplitDelimiterBehavior::Contiguous),
            "a..b".to_string()
        )
        .unwrap(),
        pieces(&[("a", (0, 1)), ("..", (1, 3)), ("b", (3, 4))])
    );
    assert_eq!(
        pre_tokenizers_pre_tokenize(
            pre_tokenizers_punctuation(SplitDelimiterBehavior::Isolated),
            "a..b".to_string()
        )
        .unwrap(),
        pieces(&[("a", (0, 1)), (".", (1, 2)), (".", (2, 3)), ("b", (3, 4))])
    );
    assert_eq!(
        pre_tokenizers_pre_tokenize(pre_tokenizers_metaspace(vec![]).unwrap(), "Hey you".to_string()).unwrap(),
        pieces(&[("\u{2581}Hey", (0, 3)), ("\u{2581}you", (3, 7))])
    );
    assert_eq!(
        pre_tokenizers_pre_tokenize(
            pre_tokenizers_metaspace(vec![MetaspaceOption::Replacement('_' as u32), MetaspaceOption::AddPrefixSpace(false)])
                .unwrap(),
            "Hey you".to_string()
        )
        .unwrap(),
        pieces(&[("Hey", (0, 3)), ("_you", (3, 7))])
    );
    assert_eq!(
        pre_tokenizers_pre_tokenize(
            pre_tokenizers_sequence(vec![pre_tokenizers_whitespace_split(), pre_tokenizers_digits(vec![])]),
            "a1 b".to_string()
        )
        .unwrap(),
        pieces(&[("a", (0, 1)), ("1", (1, 2)), ("b", (3, 4))])
    );
}

#[test]
fn split_follows_pattern_behavior_and_inversion() {
    let split = pre_tokenizers_split(
        LocalSplitPattern::String("-".to_string()),
        SplitDelimiterBehavior::Removed,
        vec![],
    )
    .unwrap();
    assert_eq!(
        pre_tokenizers_pre_tokenize(split, "a-b".to_string()).unwrap(),
        pieces(&[("a", (0, 1)), ("b", (2, 3))])
    );
    let split = pre_tokenizers_split(
        LocalSplitPattern::Regex("[0-9]+".to_string()),
        SplitDelimiterBehavior::Isolated,
        vec![],
    )
    .unwrap();
    assert_eq!(
        pre_tokenizers_pre_tokenize(split, "a12b".to_string()).unwrap(),
        pieces(&[("a", (0, 1)), ("12", (1, 3)), ("b", (3, 4))])
    );
    let split = pre_tokenizers_split(
        LocalSplitPattern::Regex("[0-9]+".to_string()),
        SplitDelimiterBehavior::Removed,
        vec![SplitOption::Invert(false), SplitOption::Invert(true)],
    )
    .unwrap();
    assert_eq!(
        pre_tokenizers_pre_tokenize(split, "a12b".to_string()).unwrap(),
        pieces(&[("12", (1, 3))])
    );
    let split = pre_tokenizers_split(
        LocalSplitPattern::String("[".to_string()),
        SplitDelimiterBehavior::Isolated,
        vec![],
    )
    .unwrap();
    assert_eq!(
        pre_tokenizers_pre_tokenize(split, "a[b".to_string()).unwrap(),
        pieces(&[("a", (0, 1)), ("[", (1, 2)), ("b", (2, 3))])
    );
    assert!(matches!(
        pre_tokenizers_split(LocalSplitPattern::Regex("[".to_string()), SplitDelimiterBehavior::Removed, vec![]),
        Err(BadArg)
    ));
}

#[test]
fn byte_level_follows_its_options() {
    assert_eq!(
        pre_tokenizers_pre_tokenize(pre_tokenizers_byte_level(vec![]), "Hi you".to_string()).unwrap(),
        pieces(&[("\u{120}Hi", (0, 2)), ("\u{120}you", (2, 6))])
    );
    assert_eq!(
        pre_tokenizers_pre_tokenize(
            pre_tokenizers_byte_level(vec![ByteLevelOption::AddPrefixSpace(false)]),
            "Hi you".to_string()
        )
        .unwrap(),
        pieces(&[("Hi", (0, 2)), ("\u{120}you", (2, 6))])
    );
    assert_eq!(
        pre_tokenizers_pre_tokenize(
            pre_tokenizers_byte_level(vec![ByteLevelOption::AddPrefixSpace(false), ByteLevelOption::UseRegex(false)]),
            "Hi you".to_string()
        )
        .unwrap(),
        pieces(&[("Hi\u{120}you", (0, 6))])
    );
}

#[test]
fn the_byte_level_alphabet_has_256_characters() {
    let mut alphabet = pre_tokenizers_byte_level_alphabet();
    assert_eq!(alphabet.len(), 256);
    alphabet.sort();
    alphabet.dedup();
    assert_eq!(alphabet.len(), 256);
    let expected: Vec<u32> = (33..=126).chain(161..=172).chain(174..=323).collect();
    assert_eq!(alphabet, expected);
}

#[test]
fn pre_tokenizers_describe_themselves() {
    let kinds: Vec<(ExTokenizersPreTokenizer, &str)> = vec![
        (pre_tokenizers_bert(), "BertPreTokenizer"),
        (pre_tokenizers_byte_level(vec![]), "ByteLevel"),
        (pre_tokenizers_char_delimiter_split(0x20).unwrap(), "Delimiter"),
        (pre_tokenizers_metaspace(vec![]).unwrap(), "Metaspace"),
        (pre_tokenizers_whitespace(), "Whitespace"),
        (pre_tokenizers_sequence(vec![]), "Sequence"),
        (
            pre_tokenizers_split(LocalSplitPattern::String("a".to_string()), SplitDelimiterBehavior::Removed, vec![])
                .unwrap(),
            "Split",
        ),
        (pre_tokenizers_punctuation(SplitDelimiterBehavior::Isolated), "Punctuation"),
        (pre_tokenizers_whitespace_split(), "WhitespaceSplit"),
        (pre_tokenizers_digits(vec![]), "Digits"),
    ];
    for (pre_tokenizer, kind) in kinds {
        let info = pre_tokenizers_info(pre_tokenizer);
        assert_eq!(names(&info), strings(&["pre_tokenizer_type"]));
        assert_eq!(text(&info, "pre_tokenizer_type").unwrap(), kind);
    }
    let scripts = ExTokenizersPreTokenizer::new(tokenizers::pre_tokenizers::unicode_scripts::UnicodeScripts::new().into());
    assert_eq!(text(&pre_tokenizers_info(scripts), "pre_tokenizer_type").unwrap(), "UnicodeScripts");
    let fixed = ExTokenizersPreTokenizer::new(tokenizers::pre_tokenizers::fixed_length::FixedLength::new(2).into());
    assert_eq!(text(&pre_tokenizers_info(fixed), "pre_tokenizer_type").unwrap(), "FixedLength");
}

#[test]
fn a_delimiter_that_is_no_character_is_a_bad_argument() {
    assert!(matches!(pre_tokenizers_char_delimiter_split(0xD800), Err(BadArg)));
    assert!(matches!(
        pre_tokenizers_metaspace(vec![MetaspaceOption::AddPrefixSpace(true), MetaspaceOption::Replacement(0x110000)]),
        Err(BadArg)
    ));
}

#[test]
fn post_processors_describe_themselves() {
    let sep = || ("[SEP]".to_string(), 1u32);
    let cls = || ("[CLS]".to_string(), 0u32);
    let kinds: Vec<(ExTokenizersPostProcessor, &str)> = vec![
        (post_processors_bert(sep(), cls()), "bert"),
        (post_processors_roberta(sep(), cls(), vec![]), "roberta"),
        (post_processors_byte_level(vec![]), "byte_level"),
        (post_processors_template(vec![]).unwrap(), "template"),
        (post_processors_sequence(vec![]), "sequence"),
    ];
    for (post_processor, kind) in kinds {
        let info = post_processors_info(post_processor);
        assert_eq!(names(&info), strings(&["post_processor_type"]));
        assert_eq!(text(&info, "post_processor_type").unwrap(), kind);
    }
}

#[test]
fn post_processors_hold_what_they_were_made_from() {
    let bert = post_processors_bert(("[S]".to_string(), 5), ("[C]".to_string(), 6));
    assert_eq!(
        bert.resource.0,
        tokenizers::processors::bert::BertProcessing::new(("[S]".to_string(), 5), ("[C]".to_string(), 6)).into()
    );
    assert_eq!(bert.added_tokens(false), 2);
    assert_eq!(bert.added_tokens(true), 3);
    let roberta = post_processors_roberta(
        ("</s>".to_string(), 2),
        ("<s>".to_string(), 0),
        vec![RobertaOption::TrimOffsets(false), RobertaOption::AddPrefixSpace(false), RobertaOption::TrimOffsets(true)],
    );
    assert_eq!(
        roberta.resource.0,
        tokenizers::processors::roberta::RobertaProcessing::new(("</s>".to_string(), 2), ("<s>".to_string(), 0))
            .trim_offsets(true)
            .add_prefix_space(false)
            .into()
    );
    assert_eq!(roberta.added_tokens(true), 4);
    let byte_level = post_processors_byte_level(vec![PostByteLevelOption::TrimOffsets(false)]);
    assert_eq!(
        byte_level.resource.0,
        tokenizers::processors::byte_level::ByteLevel::new(true, false, true).into()
    );
    assert_eq!(byte_level.added_tokens(true), 0);
    let sequence = post_processors_sequence(vec![
        post_processors_byte_level(vec![]),
        post_processors_bert(("[S]".to_string(), 5), ("[C]".to_string(), 6)),
    ]);
    assert_eq!(sequence.added_tokens(false), 2);
}

#[test]
fn a_template_needs_its_special_tokens() {
    let template = post_processors_template(vec![
        TemplateOption::Single("[CLS] $A [SEP]".to_string()),
        TemplateOption::Pair("[CLS] $A [SEP] $B:1 [SEP]:1".to_string()),
        TemplateOption::SpecialTokens(vec![("[CLS]".to_string(), 1), ("[SEP]".to_string(), 2)]),
    ])
    .unwrap();
    assert_eq!(template.added_tokens(false), 2);
    assert_eq!(template.added_tokens(true), 3);
    assert!(matches!(
        post_processors_template(vec![TemplateOption::Single("[CLS] $A [SEP]".to_string())]),
        Err(BadArg)
    ));
    assert!(matches!(
        post_processors_template(vec![
            TemplateOption::Single("[CLS] $A".to_string()),
            TemplateOption::SpecialTokens(vec![("[CLS]".to_string(), 1)]),
            TemplateOption::Pair("$A".to_string()),
        ]),
        Err(BadArg)
    ));
    assert!(matches!(
        post_processors_template(vec![
            TemplateOption::Single("$A:x".to_string()),
            TemplateOption::Single("$A".to_string()),
        ]),
        Err(BadArg)
    ));
}

#[test]
fn models_describe_themselves() {
    let info = models_info(models_bpe_empty().unwrap());
    assert_eq!(
        names(&info),
        strings(&[
            "model_type",
            "unk_token",
            "continuing_subword_prefix",
            "end_of_word_suffix",
            "fuse_unk",
            "byte_fallback"
        ])
    );
    assert_eq!(text(&info, "model_type").unwrap(), "bpe");
    assert!(matches!(info.0[1].1, InfoValue::OptionalText(None)));
    assert!(matches!(info.0[4].1, InfoValue::Flag(false)));
    let info = models_info(
        models_bpe_init(
            vocab(&[("a", 0), ("##b", 1), ("ab", 2), ("<unk>", 3)]),
            merges(&[("a", "##b")]),
            vec![
                BPEOption::UnkToken("<unk>".to_string()),
                BPEOption::ContinuingSubwordPrefix("##".to_string()),
                BPEOption::EndOfWordSuffix("</w>".to_string()),
                BPEOption::FuseUnk(true),
                BPEOption::ByteFallback(true),
                BPEOption::CacheCapacity(0),
            ],
        )
        .unwrap(),
    );
    assert!(matches!(&info.0[1].1, InfoValue::OptionalText(Some(t)) if t == "<unk>"));
    assert!(matches!(&info.0[2].1, InfoValue::OptionalText(Some(t)) if t == "##"));
    assert!(matches!(&info.0[3].1, InfoValue::OptionalText(Some(t)) if t == "</w>"));
    assert!(matches!(info.0[4].1, InfoValue::Flag(true)));
    assert!(matches!(info.0[5].1, InfoValue::Flag(true)));

    let info = models_info(models_wordpiece_empty().unwrap());
    assert_eq!(
        names(&info),
        strings(&["model_type", "unk_token", "continuing_subword_prefix", "max_input_chars_per_word"])
    );
    assert_eq!(text(&info, "model_type").unwrap(), "wordpiece");
    assert_eq!(text(&info, "unk_token").unwrap(), "[UNK]");
    assert_eq!(text(&info, "continuing_subword_prefix").unwrap(), "##");
    assert!(matches!(info.0[3].1, InfoValue::Size(100)));
    let info = models_info(
        models_wordpiece_init(
            vec![],
            vec![
                WordPieceOption::MaxInputCharsPerWord(7),
                WordPieceOption::UnkToken("?".to_string()),
                WordPieceOption::ContinuingSubwordPrefix("@@".to_string()),
                WordPieceOption::MaxInputCharsPerWord(9),
            ],
        )
        .unwrap(),
    );
    assert_eq!(text(&info, "unk_token").unwrap(), "?");
    assert_eq!(text(&info, "continuing_subword_prefix").unwrap(), "@@");
    assert!(matches!(info.0[3].1, InfoValue::Size(9)));

    let info = models_info(models_wordlevel_empty().unwrap());
    assert_eq!(names(&info), strings(&["model_type", "unk_token"]));
    assert_eq!(text(&info, "model_type").unwrap(), "wordlevel");
    assert_eq!(text(&info, "unk_token").unwrap(), "<unk>");
    let info = models_info(
        models_wordlevel_init(vec![], vec![WordLevelOption::UnkToken("[UNK]".to_string())]).unwrap(),
    );
    assert_eq!(text(&info, "unk_token").unwrap(), "[UNK]");

    let info = models_info(models_unigram_empty().unwrap());
    assert_eq!(names(&info), strings(&["model_type", "byte_fallback"]));
    assert_eq!(text(&info, "model_type").unwrap(), "unigram");
    assert!(matches!(info.0[1].1, InfoValue::Flag(false)));
}

#[test]
fn the_details_of_a_model_name_its_kind() {
    let details = get_model_details(models_wordpiece_empty().unwrap()).unwrap();
    let keys: Vec<&str> = details.iter().map(|(k, _)| k.as_str()).collect();
    assert_eq!(keys, vec!["model_type", "unk_token", "continuing_subword_prefix", "max_input_chars_per_word"]);
    assert!(matches!(&details[0].1, ModelDetailValue::String(t) if t == "wordpiece"));
    assert!(matches!(&details[1].1, ModelDetailValue::String(t) if t == "[UNK]"));
    assert!(matches!(&details[2].1, ModelDetailValue::String(t) if t == "##"));
    assert!(matches!(details[3].1, ModelDetailValue::USize(100)));
    let details = get_model_details(models_bpe_empty().unwrap()).unwrap();
    let keys: Vec<&str> = details.iter().map(|(k, _)| k.as_str()).collect();
    assert_eq!(
        keys,
        vec!["model_type", "unk_token", "continuing_subword_prefix", "end_of_word_suffix", "fuse_unk"]
    );
    assert!(matches!(&details[0].1, ModelDetailValue::String(t) if t == "bpe"));
    assert!(matches!(&details[1].1, ModelDetailValue::OptionString(None)));
    assert!(matches!(details[4].1, ModelDetailValue::Bool(false)));
    let details = get_model_details(models_wordlevel_empty().unwrap()).unwrap();
    assert_eq!(details.len(), 2);
    assert!(matches!(&details[0].1, ModelDetailValue::String(t) if t == "wordlevel"));
    assert!(matches!(&details[1].1, ModelDetailValue::String(t) if t == "<unk>"));
    let details = get_model_details(models_unigram_empty().unwrap()).unwrap();
    assert_eq!(details.len(), 1);
    assert!(matches!(&details[0].1, ModelDetailValue::String(t) if t == "unigram"));
}

#[test]
fn bpe_merges_must_be_in_the_vocabulary() {
    assert!(models_bpe_init(vocab(&[("a", 0), ("b", 1), ("ab", 2)]), merges(&[("a", "b")]), vec![]).is_ok());
    assert!(matches!(
        models_bpe_init(vocab(&[("a", 0), ("b", 1), ("abc", 2)]), merges(&[("a", "b")]), vec![]),
        Err(ExTokenizersError::Tokenizer(_))
    ));
    assert!(matches!(
        models_bpe_init(vocab(&[("a", 0), ("abc", 2)]), merges(&[("a", "b")]), vec![]),
        Err(ExTokenizersError::Tokenizer(_))
    ));
    assert!(matches!(
        models_bpe_init(vocab(&[("b", 0), ("abc", 2)]), merges(&[("a", "b")]), vec![]),
        Err(ExTokenizersError::Tokenizer(_))
    ));
}

#[test]
fn a_bpe_merge_longer_than_every_token_is_refused() {
    match models_bpe_init(vocab(&[("a", 0), ("b", 1)]), merges(&[("a", "b")]), vec![]) {
        Err(ExTokenizersError::Other(message)) => {
            assert_eq!(message, "a merge makes a token longer than any token of the vocabulary")
        }
        _ => panic!("the merge should have been refused"),
    }
    assert!(matches!(
        models_bpe_init(vec![], merges(&[("a", "b")]), vec![]),
        Err(ExTokenizersError::Other(_))
    ));
    assert!(matches!(
        models_bpe_init(
            vocab(&[("a", 0), ("b", 1), ("ab", 2)]),
            merges(&[("a", "b")]),
            vec![BPEOption::ContinuingSubwordPrefix("##".to_string())]
        ),
        Err(ExTokenizersError::Other(_))
    ));
    assert!(matches!(
        models_bpe_init(
            vocab(&[("\u{e9}", 0), ("b", 1), ("\u{e9}b", 2)]),
            merges(&[("\u{e9}", "b"), ("\u{e9}b", "b")]),
            vec![]
        ),
        Err(ExTokenizersError::Other(_))
    ));
    assert!(models_bpe_init(
        vocab(&[("\u{e9}", 0), ("##b", 1), ("\u{e9}b", 2)]),
        merges(&[("\u{e9}", "##b")]),
        vec![BPEOption::ContinuingSubwordPrefix("##".to_string())]
    )
    .is_ok());
}

#[test]
fn bpe_settings_keep_the_last_option() {
    let settings = populate_bpe_options_to_builder(&vec![]);
    assert_eq!(settings.cache_capacity, None);
    assert_eq!(settings.unk_token, None);
    assert_eq!(settings.continuing_subword_prefix, None);
    assert_eq!(settings.end_of_word_suffix, None);
    assert!(!settings.fuse_unk && !settings.byte_fallback);
    let settings = populate_bpe_options_to_builder(&vec![
        BPEOption::CacheCapacity(3),
        BPEOption::UnkToken("a".to_string()),
        BPEOption::FuseUnk(true),
        BPEOption::UnkToken("b".to_string()),
        BPEOption::CacheCapacity(4),
        BPEOption::FuseUnk(false),
        BPEOption::ByteFallback(true),
    ]);
    assert_eq!(settings.cache_capacity, Some(4));
    assert_eq!(settings.unk_token.as_deref(), Some("b"));
    assert!(!settings.fuse_unk && settings.byte_fallback);
}

#[test]
fn unigram_settings_keep_the_first_option_and_need_both() {
    assert_eq!(unigram_settings(&vec![]), None);
    assert_eq!(unigram_settings(&vec![UnigramOption::UnkId(3)]), None);
    assert_eq!(unigram_settings(&vec![UnigramOption::ByteFallback(true)]), None);
    assert_eq!(
        unigram_settings(&vec![
            UnigramOption::ByteFallback(true),
            UnigramOption::UnkId(3),
            UnigramOption::UnkId(4),
            UnigramOption::ByteFallback(false),
        ]),
        Some(UnigramSettings { unk_id: 3, byte_fallback: true })
    );
}

#[test]
fn the_prefix_for_saving_is_that_of_the_last_option() {
    assert_eq!(models_save_prefix(&vec![]), None);
    assert_eq!(
        models_save_prefix(&vec![ModelSaveOption::Prefix("a".to_string()), ModelSaveOption::Prefix("b".to_string())]),
        Some("b".to_string())
    );
}

#[test]
fn characters_come_from_their_numbers() {
    assert_eq!(chars_from_codes(&vec![]).unwrap(), Vec::<char>::new());
    assert_eq!(chars_from_codes(&vec![0x61, 0xe9, 0x1F600]).unwrap(), vec!['a', '\u{e9}', '\u{1F600}']);
    assert!(matches!(chars_from_codes(&vec![0x61, 0xD800, 0x62]), Err(ExTokenizersError::InvalidChar)));
    assert!(matches!(chars_from_codes(&vec![0x110000]), Err(ExTokenizersError::InvalidChar)));
}

#[test]
fn trainers_describe_themselves() {
    let info = trainers_info(trainers_bpe_trainer(vec![]).unwrap());
    assert_eq!(
        names(&info),
        strings(&[
            "trainer_type",
            "min_frequency",
            "vocab_size",
            "show_progress",
            "special_tokens",
            "limit_alphabet",
            "initial_alphabet",
            "continuing_subword_prefix",
            "end_of_word_suffix"
        ])
    );
    assert_eq!(text(&info, "trainer_type").unwrap(), "bpe");
    assert!(matches!(info.0[1].1, InfoValue::Count(0)));
    assert!(matches!(info.0[2].1, InfoValue::Size(30000)));
    assert!(matches!(info.0[3].1, InfoValue::Flag(true)));
    assert!(matches!(info.0[4].1, InfoValue::Size(0)));
    assert!(matches!(info.0[5].1, InfoValue::OptionalSize(None)));
    assert!(matches!(info.0[6].1, InfoValue::Size(0)));
    assert!(matches!(info.0[7].1, InfoValue::OptionalText(None)));
    assert!(matches!(info.0[8].1, InfoValue::OptionalText(None)));

    let info = trainers_info(
        trainers_bpe_trainer(vec![
            BpeTrainerOption::VocabSize(10),
            BpeTrainerOption::MinFrequency(2),
            BpeTrainerOption::SpecialTokens(vec![
                AddedTokenInput::String("<a>".to_string()),
                AddedTokenInput::String("<b>".to_string()),
            ]),
            BpeTrainerOption::LimitAlphabet(5),
            BpeTrainerOption::InitialAlphabet(vec![0x61, 0x62, 0x61]),
            BpeTrainerOption::ShowProgress(false),
            BpeTrainerOption::ContinuingSubwordPrefix("##".to_string()),
            BpeTrainerOption::EndOfWordSuffix("</w>".to_string()),
            BpeTrainerOption::VocabSize(11),
        ])
        .unwrap(),
    );
    assert!(matches!(info.0[1].1, InfoValue::Count(2)));
    assert!(matches!(info.0[2].1, InfoValue::Size(11)));
    assert!(matches!(info.0[3].1, InfoValue::Flag(false)));
    assert!(matches!(info.0[4].1, InfoValue::Size(2)));
    assert!(matches!(info.0[5].1, InfoValue::OptionalSize(Some(5))));
    assert!(matches!(info.0[6].1, InfoValue::Size(2)));
    assert!(matches!(&info.0[7].1, InfoValue::OptionalText(Some(t)) if t == "##"));
    assert!(matches!(&info.0[8].1, InfoValue::OptionalText(Some(t)) if t == "</w>"));

    let info = trainers_info(trainers_wordpiece_trainer(vec![WordPieceTrainerOption::VocabSize(5)]).unwrap());
    assert_eq!(names(&info), strings(&["trainer_type"]));
    assert_eq!(text(&info, "trainer_type").unwrap(), "wordpiece");

    let info = trainers_info(
        trainers_wordlevel_trainer(vec![
            WordLevelTrainerOption::VocabSize(5),
            WordLevelTrainerOption::MinFrequency(3),
            WordLevelTrainerOption::SpecialTokens(strings(&["<a>"])),
            WordLevelTrainerOption::ShowProgress(false),
        ])
        .unwrap(),
    );
    assert_eq!(
        names(&info),
        strings(&["trainer_type", "min_frequency", "vocab_size", "show_progress", "special_tokens"])
    );
    assert_eq!(text(&info, "trainer_type").unwrap(), "wordlevel");
    assert!(matches!(info.0[1].1, InfoValue::Count(3)));
    assert!(matches!(info.0[2].1, InfoValue::Size(5)));
    assert!(matches!(info.0[3].1, InfoValue::Flag(false)));
    assert!(matches!(info.0[4].1, InfoValue::Size(1)));
    let info = trainers_info(trainers_wordlevel_trainer(vec![]).unwrap());
    assert!(matches!(info.0[1].1, InfoValue::Count(0)));
    assert!(matches!(info.0[2].1, InfoValue::Size(30000)));
    assert!(matches!(info.0[3].1, InfoValue::Flag(true)));

    let info = trainers_info(trainers_unigram_trainer(vec![]).unwrap());
    assert_eq!(
        names(&info),
        strings(&[
            "trainer_type",
            "show_progress",
            "vocab_size",
            "n_sub_iterations",
            "special_tokens",
            "initial_alphabet",
            "unk_token",
            "max_piece_length"
        ])
    );
    assert_eq!(text(&info, "trainer_type").unwrap(), "unigram");
    assert!(matches!(info.0[1].1, InfoValue::Flag(true)));
    assert!(matches!(info.0[2].1, InfoValue::Number(8000)));
    assert!(matches!(info.0[3].1, InfoValue::Number(2)));
    assert!(matches!(info.0[6].1, InfoValue::OptionalText(None)));
    assert!(matches!(info.0[7].1, InfoValue::Size(16)));
    let info = trainers_info(
        trainers_unigram_trainer(vec![
            UnigramTrainerOption::VocabSize(9),
            UnigramTrainerOption::NSubIterations(4),
            UnigramTrainerOption::SpecialTokens(strings(&["<a>", "<b>", "<c>"])),
            UnigramTrainerOption::InitialAlphabet(vec![0x61]),
            UnigramTrainerOption::UniToken("<unk>".to_string()),
            UnigramTrainerOption::MaxPieceLength(3),
            UnigramTrainerOption::SeedSize(100),
            UnigramTrainerOption::ShowProgress(false),
        ])
        .unwrap(),
    );
    assert!(matches!(info.0[1].1, InfoValue::Flag(false)));
    assert!(matches!(info.0[2].1, InfoValue::Number(9)));
    assert!(matches!(info.0[3].1, InfoValue::Number(4)));
    assert!(matches!(info.0[4].1, InfoValue::Size(3)));
    assert!(matches!(info.0[5].1, InfoValue::Size(1)));
    assert!(matches!(&info.0[6].1, InfoValue::OptionalText(Some(t)) if t == "<unk>"));
    assert!(matches!(info.0[7].1, InfoValue::Size(3)));
}

#[test]
fn an_alphabet_with_a_number_that_is_no_character_is_refused() {
    assert!(matches!(
        trainers_bpe_trainer(vec![BpeTrainerOption::InitialAlphabet(vec![0x61, 0xD800])]),
        Err(ExTokenizersError::InvalidChar)
    ));
    assert!(matches!(
        trainers_bpe_trainer(vec![
            BpeTrainerOption::InitialAlphabet(vec![0xDFFF]),
            BpeTrainerOption::InitialAlphabet(vec![0x61]),
        ]),
        Err(ExTokenizersError::InvalidChar)
    ));
    assert!(matches!(
        trainers_wordpiece_trainer(vec![WordPieceTrainerOption::InitialAlphabet(vec![0x110000])]),
        Err(ExTokenizersError::InvalidChar)
    ));
    match trainers_unigram_trainer(vec![UnigramTrainerOption::InitialAlphabet(vec![0xD800])]) {
        Err(ExTokenizersError::Unknown(message)) => assert_eq!(message, "Invalid Char"),
        _ => panic!("the alphabet should have been refused"),
    }
}

#[test]
fn wordlevel_trainer_settings_keep_the_last_option() {
    let settings = populate_wordlevel_options_to_builder(&vec![
        WordLevelTrainerOption::SpecialTokens(strings(&["a", "b"])),
        WordLevelTrainerOption::SpecialTokens(strings(&["c"])),
    ]);
    assert_eq!(settings.special_tokens, vec![tokenizers::AddedToken::from("c", true)]);
    assert_eq!(settings.vocab_size, 30000);
    assert_eq!(settings.min_frequency, 0);
    assert!(settings.show_progress);
}

#[test]
fn errors_have_their_messages() {
    assert_eq!(ExTokenizersError::InvalidChar.message(), "Invalid Char");
    assert_eq!(ExTokenizersError::Tokenizer("x".to_string()).message(), "Tokenizer Error");
    assert_eq!(ExTokenizersError::Io("x".to_string()).message(), "IO Error");
    assert_eq!(ExTokenizersError::Internal("x".to_string()).message(), "Internal Error: x");
    assert_eq!(ExTokenizersError::Other("y".to_string()).message(), "Other error: y");
    assert_eq!(ExTokenizersError::Unknown("z".to_string()).message(), "z");
}
