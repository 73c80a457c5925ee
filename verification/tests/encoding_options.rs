use ex_tokenizers::encoding::{parse_pad_options, parse_truncation_options, PadOption, TruncationOption};
use ex_tokenizers::util::Direction;

#[test]
fn pad_options_default() {
    let padding = parse_pad_options(&vec![]);
    assert_eq!(padding.pad_id, 0);
    assert_eq!(padding.pad_type_id, 0);
    assert_eq!(padding.pad_token, "[PAD]");
    assert_eq!(padding.direction, Direction::Right);
}

#[test]
fn pad_options_last_one_counts() {
    let padding = parse_pad_options(&vec![
        PadOption::PadId(3),
        PadOption::PadToken("<pad>".to_string()),
        PadOption::Direction(Direction::Left),
        PadOption::PadId(7),
        PadOption::PadTypeId(1),
    ]);
    assert_eq!(padding.pad_id, 7);
    assert_eq!(padding.pad_type_id, 1);
    assert_eq!(padding.pad_token, "<pad>");
    assert_eq!(padding.direction, Direction::Left);
}

#[test]
fn truncation_options_default_and_override() {
    let truncation = parse_truncation_options(&vec![]);
    assert_eq!(truncation.stride, 0);
    assert_eq!(truncation.direction, Direction::Right);
    let truncation = parse_truncation_options(&vec![
        TruncationOption::Stride(2),
        TruncationOption::Direction(Direction::Left),
        TruncationOption::Stride(1),
    ]);
    assert_eq!(truncation.stride, 1);
    assert_eq!(truncation.direction, Direction::Left);
}
