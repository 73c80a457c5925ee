use ex_tokenizers::added_token::{
    added_token_info, added_token_new, AddedSpecialTokenInput, AddedTokenInput, AddedTokenOption,
};
use ex_tokenizers::decoders::{
    decoders_bpe, decoders_byte_fallback, decoders_byte_level, decoders_ctc, decoders_decode, decoders_fuse,
    decoders_info, decoders_metaspace, decoders_replace, decoders_sequence, decoders_strip,
    decoders_wordpiece, BpeOption, CTCOption, ExTokenizersDecoder, MetaspaceOption, PrependScheme,
    WordpieceOption,
};
use ex_tokenizers::error::BadArg;
use ex_tokenizers::normalizers::{
    normalizers_bert_normalizer, normalizers_info, normalizers_lowercase, normalizers_nfc, normalizers_nfd,
    normalizers_nfkc, normalizers_nfkd, normalizers_nmt, normalizers_normalize, normalizers_precompiled,
    normalizers_prepend, normalizers_replace, normalizers_sequence, normalizers_strip,
    normalizers_strip_accents, BertOption, ExTokenizersNormalizer, StripOption,
};
use ex_tokenizers::util::{Info, InfoValue};

fn strings(items: &[&str]) -> Vec<String> {
    items.iter().map(|s| s.to_string()).collect()
}

fn text(info: &Info, name: &str) -> Option<String> {
    info.0.iter().find(|(key, _)| key == name).and_then(|(_, value)| match value {
        InfoValue::Text(text) => Some(text.clone()),
        _ => None,
    })
}

fn flag(info: &Info, name: &str) -> Option<bool> {
    info.0.iter().find(|(key, _)| key == name).and_then(|(_, value)| match value {
        InfoValue::Flag(flag) => Some(*flag),
        _ => None,
    })
}

fn names(info: &Info) -> Vec<String> {
    info.0.iter().map(|(key, _)| key.clone()).collect()
}

fn same_decoder(decoder: &ExTokenizersDecoder) -> ExTokenizersDecoder {
    ExTokenizersDecoder::new(decoder.resource.0.clone())
}

fn same_normalizer(normalizer: &ExTokenizersNormalizer) -> ExTokenizersNormalizer {
    ExTokenizersNormalizer::new(normalizer.resource.0.clone())
}

#[test]
fn wordpiece_decoder_joins_continuations() {
    let decoder = decoders_wordpiece(vec![]);
    assert_eq!(decoders_decode(decoder, strings(&["hel", "##lo", "world", "!"])).unwrap(), "hello world!");
    let decoder = decoders_wordpiece(vec![
        WordpieceOption::Prefix("__".to_string()),
        WordpieceOption::Cleanup(false),
    ]);
    assert_eq!(decoders_decode(decoder, strings(&["hel", "__lo", "world", "!"])).unwrap(), "hello world !");
}

#[test]
fn wordpiece_decoder_describes_itself() {
    let info = decoders_info(decoders_wordpiece(vec![
        WordpieceOption::Cleanup(false),
        WordpieceOption::Prefix("@@".to_string()),
        WordpieceOption::Cleanup(true),
    ]));
    assert_eq!(names(&info), strings(&["decoder_type", "prefix", "cleanup"]));
    assert_eq!(text(&info, "decoder_type").unwrap(), "WordPiece");
    assert_eq!(text(&info, "prefix").unwrap(), "@@");
    assert_eq!(flag(&info, "cleanup"), Some(true));
    let info = decoders_info(decoders_wordpiece(vec![]));
    assert_eq!(text(&info, "prefix").unwrap(), "##");
    assert_eq!(flag(&info, "cleanup"), Some(true));
}

#[test]
fn decoding_no_tokens_gives_the_empty_text() {
    assert_eq!(decoders_decode(decoders_bpe(vec![]), vec![]).unwrap(), "");
    assert_eq!(decoders_decode(decoders_fuse(), vec![]).unwrap(), "");
    assert_eq!(decoders_decode(decoders_byte_level(), vec![]).unwrap(), "");
    assert_eq!(decoders_decode(decoders_wordpiece(vec![]), vec![]).unwrap(), "");
}

#[test]
fn bpe_decoder_turns_the_suffix_into_spaces() {
    let decoder = decoders_bpe(vec![]);
    assert_eq!(decoders_decode(same_decoder(&decoder), strings(&["my</w>", "na", "me</w>"])).unwrap(), "my name");
    let info = decoders_info(decoder);
    assert_eq!(text(&info, "decoder_type").unwrap(), "BPE");
    assert_eq!(text(&info, "suffix").unwrap(), "</w>");
    let decoder = decoders_bpe(vec![BpeOption::Suffix("_".to_string()), BpeOption::Suffix("$".to_string())]);
    assert_eq!(decoders_decode(same_decoder(&decoder), strings(&["a$", "b$"])).unwrap(), "a b");
    assert_eq!(text(&decoders_info(decoder), "suffix").unwrap(), "$");
}

#[test]
fn other_decoders_decode_as_the_engine_does() {
    assert_eq!(decoders_decode(decoders_fuse(), strings(&["a", "b", "c"])).unwrap(), "abc");
    assert_eq!(
        decoders_decode(decoders_byte_fallback(), strings(&["<0x61>", "b", "<0xC3>", "<0xA9>"])).unwrap(),
        "ab\u{e9}"
    );
    assert_eq!(decoders_decode(decoders_byte_level(), strings(&["\u{120}hello"])).unwrap(), " hello");
    assert_eq!(
        decoders_decode(decoders_strip('_' as u32, 1, 2).unwrap(), strings(&["__a__", "_b___"])).unwrap(),
        "_ab_"
    );
    assert_eq!(
        decoders_decode(decoders_replace("_".to_string(), " ".to_string()).unwrap(), strings(&["a_b", "_c"]))
            .unwrap(),
        "a b c"
    );
    assert_eq!(
        decoders_decode(decoders_ctc(vec![]), strings(&["<pad>", "h", "h", "e", "<pad>", "l", "l", "<pad>", "l", "o", "|", "a"]))
            .unwrap(),
        "hello a"
    );
    assert_eq!(
        decoders_decode(
            decoders_ctc(vec![
                CTCOption::PadToken("-".to_string()),
                CTCOption::WordDelimiterToken("/".to_string()),
                CTCOption::Cleanup(true),
            ]),
            strings(&["-", "a", "a", "-", "a", "/", "b"])
        )
        .unwrap(),
        "aa b"
    );
    assert_eq!(
        decoders_decode(decoders_metaspace(vec![]).unwrap(), strings(&["\u{2581}Hey", "\u{2581}friend"])).unwrap(),
        "Hey friend"
    );
    assert_eq!(
        decoders_decode(
            decoders_metaspace(vec![
                MetaspaceOption::Replacement('_' as u32),
                MetaspaceOption::PrependScheme(PrependScheme::Never),
            ])
            .unwrap(),
            strings(&["_Hey", "_friend"])
        )
        .unwrap(),
        " Hey friend"
    );
}

#[test]
fn a_sequence_of_decoders_runs_them_in_order() {
    let sequence = decoders_sequence(vec![
        decoders_replace("_".to_string(), " ".to_string()).unwrap(),
        decoders_fuse(),
        decoders_strip(' ' as u32, 1, 0).unwrap(),
    ]);
    assert_eq!(decoders_decode(same_decoder(&sequence), strings(&["_a", "_b"])).unwrap(), "a b");
    let info = decoders_info(sequence);
    assert_eq!(names(&info), strings(&["decoder_type"]));
    assert_eq!(text(&info, "decoder_type").unwrap(), "Sequence");
}

#[test]
fn a_bpe_decoder_is_refused_where_no_token_reaches_it() {
    let risky = decoders_sequence(vec![decoders_ctc(vec![]), decoders_bpe(vec![])]);
    match decoders_decode(same_decoder(&risky), strings(&["<pad>"])) {
        Err(ex_tokenizers::ExTokenizersError::Tokenizer(message)) => {
            assert_eq!(message, "the decoder cannot be run on these tokens")
        }
        _ => panic!("the decoder should have been refused"),
    }
    assert_eq!(decoders_decode(same_decoder(&risky), vec![]).unwrap(), "");
    let nested = decoders_sequence(vec![
        decoders_sequence(vec![decoders_fuse(), decoders_bpe(vec![])]),
        decoders_sequence(vec![decoders_sequence(vec![decoders_ctc(vec![])])]),
    ]);
    assert_eq!(decoders_decode(nested, strings(&["a"])).unwrap(), "a");
    assert_eq!(decoders_decode(same_decoder(&risky), strings(&["<pad>", "a</w>", "a</w>", "b"])).unwrap(), "a b");
    let fine = decoders_sequence(vec![decoders_ctc(vec![]), decoders_fuse()]);
    assert_eq!(decoders_decode(fine, strings(&["<pad>"])).unwrap(), "");
    let fine = decoders_sequence(vec![decoders_fuse(), decoders_bpe(vec![])]);
    assert_eq!(decoders_decode(fine, strings(&["a</w>", "b"])).unwrap(), "ab");
}

#[test]
fn decoders_describe_themselves() {
    let info = decoders_info(decoders_byte_level());
    assert_eq!(names(&info), strings(&["decoder_type", "add_prefix_space", "trim_offsets", "use_regex"]));
    assert_eq!(text(&info, "decoder_type").unwrap(), "ByteLevel");
    assert_eq!(flag(&info, "add_prefix_space"), Some(true));
    assert_eq!(flag(&info, "trim_offsets"), Some(true));
    assert_eq!(flag(&info, "use_regex"), Some(true));
    assert_eq!(text(&decoders_info(decoders_fuse()), "decoder_type").unwrap(), "Fuse");
    assert_eq!(text(&decoders_info(decoders_byte_fallback()), "decoder_type").unwrap(), "ByteFallback");
    assert_eq!(
        text(&decoders_info(decoders_replace("a".to_string(), "b".to_string()).unwrap()), "decoder_type").unwrap(),
        "Replace"
    );
    let info = decoders_info(decoders_strip(0x41, 2, 3).unwrap());
    assert_eq!(names(&info), strings(&["decoder_type", "content", "start", "stop"]));
    assert!(matches!(info.0[1].1, InfoValue::Number(0x41)));
    assert!(matches!(info.0[2].1, InfoValue::Size(2)));
    assert!(matches!(info.0[3].1, InfoValue::Size(3)));
    let info = decoders_info(decoders_ctc(vec![CTCOption::Cleanup(false)]));
    assert_eq!(names(&info), strings(&["decoder_type", "pad_token", "word_delimiter_token", "cleanup"]));
    assert_eq!(text(&info, "decoder_type").unwrap(), "CTC");
    assert_eq!(text(&info, "pad_token").unwrap(), "<pad>");
    assert_eq!(text(&info, "word_delimiter_token").unwrap(), "|");
    assert_eq!(flag(&info, "cleanup"), Some(false));
    let info = decoders_info(decoders_metaspace(vec![]).unwrap());
    assert_eq!(text(&info, "decoder_type").unwrap(), "Metaspace");
    assert_eq!(text(&info, "prepend_scheme").unwrap(), "always");
    let info = decoders_info(
        decoders_metaspace(vec![
            MetaspaceOption::PrependScheme(PrependScheme::Never),
            MetaspaceOption::PrependScheme(PrependScheme::First),
        ])
        .unwrap(),
    );
    assert_eq!(text(&info, "prepend_scheme").unwrap(), "first");
}

#[test]
fn a_number_that_is_no_character_is_a_bad_argument() {
    assert!(matches!(decoders_strip(0xD800, 0, 0), Err(BadArg)));
    assert!(matches!(decoders_strip(0x110000, 0, 0), Err(BadArg)));
    assert!(decoders_strip(0xD7FF, 0, 0).is_ok());
    assert!(decoders_strip(0xE000, 0, 0).is_ok());
    assert!(decoders_strip(0x10FFFF, 0, 0).is_ok());
    assert!(matches!(
        decoders_metaspace(vec![MetaspaceOption::Replacement(0xDFFF), MetaspaceOption::Replacement(0x5F)]),
        Err(BadArg)
    ));
    assert!(decoders_metaspace(vec![MetaspaceOption::Replacement(0x5F)]).is_ok());
}

#[test]
fn normalizers_normalize_as_the_engine_does() {
    assert_eq!(normalizers_normalize(normalizers_lowercase(), "HeLLo".to_string()).unwrap(), "hello");
    assert_eq!(normalizers_normalize(normalizers_prepend("_".to_string()), "a".to_string()).unwrap(), "_a");
    assert_eq!(normalizers_normalize(normalizers_strip(vec![]), "  a b  ".to_string()).unwrap(), "a b");
    assert_eq!(
        normalizers_normalize(normalizers_strip(vec![StripOption::Left(false)]), "  a  ".to_string()).unwrap(),
        "  a"
    );
    assert_eq!(
        normalizers_normalize(
            normalizers_strip(vec![StripOption::Right(false), StripOption::Left(true)]),
            "  a  ".to_string()
        )
        .unwrap(),
        "a  "
    );
    assert_eq!(normalizers_normalize(normalizers_nfd(), "\u{e9}".to_string()).unwrap(), "e\u{301}");
    assert_eq!(normalizers_normalize(normalizers_nfc(), "e\u{301}".to_string()).unwrap(), "\u{e9}");
    assert_eq!(normalizers_normalize(normalizers_nfkc(), "\u{fb01}".to_string()).unwrap(), "fi");
    assert_eq!(normalizers_normalize(normalizers_nfkd(), "\u{fb01}\u{e9}".to_string()).unwrap(), "fie\u{301}");
    assert_eq!(
        normalizers_normalize(
            normalizers_sequence(vec![normalizers_nfd(), normalizers_strip_accents()]),
            "caf\u{e9}".to_string()
        )
        .unwrap(),
        "cafe"
    );
    assert_eq!(
        normalizers_normalize(normalizers_replace("a".to_string(), "bb".to_string()).unwrap(), "banana".to_string())
            .unwrap(),
        "bbbnbbnbb"
    );
    assert_eq!(normalizers_normalize(normalizers_nmt(), "a\u{200b}b".to_string()).unwrap(), "a b");
}

#[test]
fn bert_normalizer_follows_its_options() {
    let normalizer = normalizers_bert_normalizer(vec![]);
    assert_eq!(normalizers_normalize(same_normalizer(&normalizer), "H\u{e9}llo\tW".to_string()).unwrap(), "hello w");
    let normalizer = normalizers_bert_normalizer(vec![BertOption::Lowercase(false)]);
    assert_eq!(normalizers_normalize(normalizer, "H\u{e9}llo".to_string()).unwrap(), "H\u{e9}llo");
    let normalizer = normalizers_bert_normalizer(vec![
        BertOption::Lowercase(false),
        BertOption::StripAccents(true),
        BertOption::CleanText(false),
        BertOption::HandleChineseChars(false),
    ]);
    assert_eq!(normalizers_normalize(normalizer, "H\u{e9}\u{4e2d}".to_string()).unwrap(), "He\u{4e2d}");
    let normalizer = normalizers_bert_normalizer(vec![BertOption::StripAccents(false)]);
    assert_eq!(normalizers_normalize(normalizer, "H\u{e9}\u{4e2d}".to_string()).unwrap(), "h\u{e9} \u{4e2d} ");
}

#[test]
fn normalizers_describe_themselves() {
    let kinds: Vec<(ExTokenizersNormalizer, &str)> = vec![
        (normalizers_bert_normalizer(vec![]), "BertNormalizer"),
        (normalizers_strip(vec![]), "StripNormalizer"),
        (normalizers_strip_accents(), "StripAccents"),
        (normalizers_nfc(), "NFC"),
        (normalizers_nfd(), "NFD"),
        (normalizers_nfkc(), "NFKC"),
        (normalizers_nfkd(), "NFKD"),
        (normalizers_sequence(vec![]), "Sequence"),
        (normalizers_lowercase(), "Lowercase"),
        (normalizers_nmt(), "Nmt"),
        (normalizers_replace("a".to_string(), "b".to_string()).unwrap(), "Replace"),
        (normalizers_prepend("a".to_string()), "Prepend"),
    ];
    for (normalizer, kind) in kinds {
        let info = normalizers_info(normalizer);
        assert_eq!(names(&info), strings(&["normalizer_type"]));
        assert_eq!(text(&info, "normalizer_type").unwrap(), kind);
    }
    let byte_level = ExTokenizersNormalizer::new(tokenizers::normalizers::ByteLevel::new().into());
    assert_eq!(text(&normalizers_info(byte_level), "normalizer_type").unwrap(), "ByteLevel");
}

#[test]
fn a_table_that_cannot_be_read_is_an_unknown_error() {
    assert!(matches!(
        normalizers_precompiled(vec![1, 2, 3]),
        Err(ex_tokenizers::ExTokenizersError::Unknown(_))
    ));
}

#[test]
fn added_tokens_follow_their_options() {
    let info = added_token_info(added_token_new("<x>".to_string(), vec![]));
    assert_eq!(
        names(&info),
        strings(&["content", "single_word", "lstrip", "rstrip", "normalized", "special"])
    );
    assert_eq!(text(&info, "content").unwrap(), "<x>");
    assert_eq!(flag(&info, "single_word"), Some(false));
    assert_eq!(flag(&info, "lstrip"), Some(false));
    assert_eq!(flag(&info, "rstrip"), Some(false));
    assert_eq!(flag(&info, "normalized"), Some(true));
    assert_eq!(flag(&info, "special"), Some(false));

    let info = added_token_info(added_token_new("<x>".to_string(), vec![AddedTokenOption::Special(true)]));
    assert_eq!(flag(&info, "normalized"), Some(false));
    assert_eq!(flag(&info, "special"), Some(true));

    let info = added_token_info(added_token_new(
        "<x>".to_string(),
        vec![
            AddedTokenOption::Normalized(true),
            AddedTokenOption::Special(true),
            AddedTokenOption::SingleWord(true),
            AddedTokenOption::Lstrip(true),
            AddedTokenOption::Rstrip(true),
            AddedTokenOption::Lstrip(false),
        ],
    ));
    assert_eq!(flag(&info, "normalized"), Some(true));
    assert_eq!(flag(&info, "special"), Some(true));
    assert_eq!(flag(&info, "single_word"), Some(true));
    assert_eq!(flag(&info, "lstrip"), Some(false));
    assert_eq!(flag(&info, "rstrip"), Some(true));
}

#[test]
fn a_text_means_a_plain_token() {
    let token = AddedTokenInput::String("abc".to_string()).to_added_token();
    assert_eq!(token, tokenizers::AddedToken::from("abc", false));
    assert!(token.normalized && !token.special);
    let token = AddedSpecialTokenInput::String("abc".to_string()).to_added_token();
    assert_eq!(token, tokenizers::AddedToken::from("abc", true));
    assert!(!token.normalized && token.special);
    let made = added_token_new("x".to_string(), vec![AddedTokenOption::Rstrip(true)]);
    let token = AddedTokenInput::AddedToken(made).to_added_token();
    assert_eq!(token, tokenizers::AddedToken::from("x", false).rstrip(true));
}

fn refused(result: Result<String, ex_tokenizers::ExTokenizersError>) -> bool {
    match result {
        Err(ex_tokenizers::ExTokenizersError::Tokenizer(message)) => {
            message == "the decoder cannot be run on these tokens"
        }
        _ => false,
    }
}

#[test]
fn a_strip_decoder_cuts_tokens_that_are_long_enough() {
    let both = decoders_strip('H' as u32, 2, 2).unwrap();
    assert_eq!(decoders_decode(same_decoder(&both), strings(&["HHHH"])).unwrap(), "");
    assert_eq!(decoders_decode(same_decoder(&both), strings(&["HHHHH"])).unwrap(), "H");
    assert_eq!(decoders_decode(same_decoder(&both), strings(&["HHa", "aHH", "HaH"])).unwrap(), "aaa");
    let start = decoders_strip('H' as u32, 3, 0).unwrap();
    assert_eq!(decoders_decode(same_decoder(&start), strings(&["H", "", "HHHH", "Hey"])).unwrap(), "Hey");
    let end = decoders_strip('y' as u32, 0, 1).unwrap();
    assert_eq!(decoders_decode(same_decoder(&end), strings(&["Hey", "y", " friend!"])).unwrap(), "He friend!");
}

#[test]
fn a_strip_decoder_is_refused_on_tokens_too_short_for_its_cuts() {
    let both = decoders_strip('H' as u32, 2, 2).unwrap();
    assert!(refused(decoders_decode(same_decoder(&both), strings(&["HH"]))));
    assert!(refused(decoders_decode(same_decoder(&both), strings(&["HHH"]))));
    assert!(refused(decoders_decode(same_decoder(&both), strings(&["Hey", "H"]))));
    assert!(refused(decoders_decode(same_decoder(&both), strings(&["a", ""]))));
    let end = decoders_strip('y' as u32, 0, 2).unwrap();
    assert!(refused(decoders_decode(same_decoder(&end), strings(&["y"]))));
    assert_eq!(decoders_decode(same_decoder(&end), strings(&["yy", "ay"])).unwrap(), "a");
    assert!(refused(decoders_decode(same_decoder(&end), strings(&[""]))));
}

#[test]
fn a_sequence_strips_what_reaches_the_decoder_that_strips() {
    let inside = decoders_sequence(vec![decoders_fuse(), decoders_strip('y' as u32, 0, 2).unwrap()]);
    assert_eq!(decoders_decode(same_decoder(&inside), strings(&["He", "yy"])).unwrap(), "He");
    assert_eq!(decoders_decode(same_decoder(&inside), strings(&["y", "y"])).unwrap(), "");
    assert!(refused(decoders_decode(same_decoder(&inside), strings(&["y"]))));
    let cut_first = decoders_sequence(vec![decoders_strip('y' as u32, 0, 2).unwrap(), decoders_fuse()]);
    assert!(refused(decoders_decode(cut_first, strings(&["He", "y"]))));
    let at_start = decoders_sequence(vec![decoders_strip('H' as u32, 1, 0).unwrap(), decoders_fuse()]);
    assert_eq!(decoders_decode(at_start, strings(&["Hey", "H", ""])).unwrap(), "ey");
}

#[test]
fn a_metaspace_decoder_takes_the_markers_out() {
    let always = decoders_metaspace(vec![MetaspaceOption::Replacement('_' as u32)]).unwrap();
    assert_eq!(
        always.decode_chain(strings(&["_a_b", "_my_friend", "_", ""])).unwrap(),
        strings(&["ab", " my friend", " ", ""])
    );
    let first = decoders_metaspace(vec![
        MetaspaceOption::Replacement('_' as u32),
        MetaspaceOption::PrependScheme(PrependScheme::First),
    ])
    .unwrap();
    assert_eq!(first.decode_chain(strings(&["_a_", "b_"])).unwrap(), strings(&["a", "b "]));
    let never = decoders_metaspace(vec![
        MetaspaceOption::Replacement('_' as u32),
        MetaspaceOption::PrependScheme(PrependScheme::Never),
    ])
    .unwrap();
    assert_eq!(never.decode_chain(strings(&["_a_", "b_"])).unwrap(), strings(&[" a ", "b "]));
}

#[test]
fn a_wordpiece_decoder_joins_the_pieces_of_words() {
    let decoder = decoders_wordpiece(vec![WordpieceOption::Cleanup(false)]);
    assert_eq!(
        decoder.decode_chain(strings(&["##a", "b", "##c", "##", "#d", " ."])).unwrap(),
        strings(&["##a", " b", "c", "", " #d", "  ."])
    );
    let bare = decoders_wordpiece(vec![WordpieceOption::Cleanup(false), WordpieceOption::Prefix("".to_string())]);
    assert_eq!(bare.decode_chain(strings(&["a", "b", ""])).unwrap(), strings(&["a", "b", ""]));
}

#[test]
fn fusing_and_stripping_are_done_token_by_token() {
    assert_eq!(decoders_fuse().decode_chain(strings(&["a", "", "bc"])).unwrap(), strings(&["abc"]));
    assert_eq!(decoders_fuse().decode_chain(vec![]).unwrap(), strings(&[""]));
    let strip = decoders_strip('H' as u32, 1, 2).unwrap();
    assert_eq!(
        strip.decode_chain(strings(&["HHaHHH", "aH", "HHH", "Ha"])).unwrap(),
        strings(&["HaH", "a", "", "a"])
    );
    let chain = decoders_sequence(vec![
        decoders_strip('_' as u32, 1, 0).unwrap(),
        decoders_wordpiece(vec![WordpieceOption::Cleanup(false)]),
        decoders_fuse(),
        decoders_metaspace(vec![MetaspaceOption::Replacement('a' as u32)]).unwrap(),
    ]);
    assert_eq!(chain.decode_chain(strings(&["_ab", "__c", "##ad"])).unwrap(), strings(&["b _cd"]));
}

#[test]
fn prepending_leaves_an_empty_text_alone() {
    assert_eq!(normalizers_normalize(normalizers_prepend("_".to_string()), "ab".to_string()).unwrap(), "_ab");
    assert_eq!(normalizers_normalize(normalizers_prepend("_".to_string()), "".to_string()).unwrap(), "");
    assert_eq!(normalizers_normalize(normalizers_prepend("\u{2581}x".to_string()), "\u{e9}b".to_string()).unwrap(), "\u{2581}x\u{e9}b");
    assert_eq!(normalizers_normalize(normalizers_prepend("".to_string()), "ab".to_string()).unwrap(), "ab");
    assert_eq!(normalizers_normalize(normalizers_prepend("".to_string()), "".to_string()).unwrap(), "");
    let twice = normalizers_sequence(vec![normalizers_prepend("b".to_string()), normalizers_prepend("a".to_string())]);
    assert_eq!(normalizers_normalize(twice, "c".to_string()).unwrap(), "abc");
    assert_eq!(normalizers_normalize(normalizers_sequence(vec![]), "c".to_string()).unwrap(), "c");
}

#[test]
fn a_bpe_decoder_gives_a_space_for_each_suffix_but_the_last() {
    let decoder = decoders_bpe(vec![]);
    assert_eq!(
        decoder.decode_chain(strings(&["a</w></w>b</w>", "</w", "</w></w>"])).unwrap(),
        strings(&["a  b ", "</w", ""])
    );
    let short = decoders_bpe(vec![BpeOption::Suffix("aa".to_string())]);
    assert_eq!(short.decode_chain(strings(&["aaa", "baaaa", "aaa"])).unwrap(), strings(&[" a", "b  ", "a"]));
}

#[test]
fn a_wordpiece_decoder_cleans_each_piece_up() {
    let decoder = decoders_wordpiece(vec![]);
    assert_eq!(
        decoder
            .decode_chain(strings(&["I", "do not", "##.", ".", "do", "n't", "you ' re", "it 's  .", " ' s 've"]))
            .unwrap(),
        strings(&["I", " don't", ".", ".", " do", "n't", " you're", " it's .", "'s've"])
    );
}

#[test]
fn a_text_as_it_stands_is_replaced_from_the_left() {
    let decoder = decoders_replace("aa".to_string(), "b".to_string()).unwrap();
    assert_eq!(
        decoder.decode_chain(strings(&["aaa", "caaaa", "", "a", "a.a"])).unwrap(),
        strings(&["ba", "cbb", "", "a", "a.a"])
    );
    let dots = decoders_replace(".".to_string(), "".to_string()).unwrap();
    assert_eq!(dots.decode_chain(strings(&["a.b.", "..", "ab"])).unwrap(), strings(&["ab", "", "ab"]));
    let normalizer = normalizers_replace("aa".to_string(), "b".to_string()).unwrap();
    assert_eq!(normalizers_normalize(same_normalizer(&normalizer), "aaa caaaa".to_string()).unwrap(), "ba cbb");
    assert_eq!(normalizers_normalize(same_normalizer(&normalizer), "".to_string()).unwrap(), "");
    assert_eq!(normalizers_normalize(normalizer, "xaa".to_string()).unwrap(), "xb");
    let widening = normalizers_replace("+".to_string(), "\u{e9}\u{e9}".to_string()).unwrap();
    assert_eq!(normalizers_normalize(widening, "+a+".to_string()).unwrap(), "\u{e9}\u{e9}a\u{e9}\u{e9}");
    let removing = normalizers_replace("\u{e9}".to_string(), "".to_string()).unwrap();
    assert_eq!(normalizers_normalize(removing, "\u{e9}a\u{e9}\u{e9}".to_string()).unwrap(), "a");
}
