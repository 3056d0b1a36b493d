use course_catalog::scrape::timetable::{
    decode_day, decode_range_token, decode_timetable, expand_range, slots_for_group, Day, Period,
    TimeTable,
};
use course_catalog::scrape::ExtractError;

fn chars(s: &str) -> Vec<char> {
    s.chars().collect()
}

fn slot(day: Day, period: Period, room: &str) -> TimeTable {
    TimeTable { day, period, room: room.to_string() }
}

#[test]
fn day_characters_name_their_days() {
    assert_eq!(decode_day('月'), Day::Monday);
    assert_eq!(decode_day('火'), Day::Tuesday);
    assert_eq!(decode_day('水'), Day::Wednesday);
    assert_eq!(decode_day('木'), Day::Thursday);
    assert_eq!(decode_day('金'), Day::Friday);
    assert_eq!(decode_day('土'), Day::Saturday);
    assert_eq!(decode_day('日'), Day::Sunday);
}

#[test]
fn unknown_day_character_is_monday() {
    assert_eq!(decode_day('X'), Day::Monday);
    assert_eq!(decode_day('1'), Day::Monday);
}

#[test]
fn range_token_follows_the_day_character() {
    assert_eq!(decode_range_token(&chars("月3-4(W621)")), chars("3-4"));
    assert_eq!(decode_range_token(&chars("火11-12")), chars("11-12"));
    assert_eq!(decode_range_token(&chars("水(H101)")), chars(""));
    assert_eq!(decode_range_token(&chars("木")), chars(""));
    assert_eq!(decode_range_token(&chars("金1--2x3")), chars("1--2"));
    assert_eq!(decode_range_token(&chars("")), chars(""));
}

#[test]
fn single_block_ranges_give_one_period() {
    assert_eq!(expand_range(&chars("1-2")), vec![Period::First]);
    assert_eq!(expand_range(&chars("3-4")), vec![Period::Second]);
    assert_eq!(expand_range(&chars("5-6")), vec![Period::Third]);
    assert_eq!(expand_range(&chars("7-8")), vec![Period::Fourth]);
    assert_eq!(expand_range(&chars("9-10")), vec![Period::Fifth]);
    assert_eq!(expand_range(&chars("11-12")), vec![Period::Sixth]);
}

#[test]
fn two_block_ranges_give_two_periods() {
    assert_eq!(expand_range(&chars("1-4")), vec![Period::First, Period::Second]);
    assert_eq!(expand_range(&chars("3-6")), vec![Period::Second, Period::Third]);
    assert_eq!(expand_range(&chars("5-8")), vec![Period::Third, Period::Fourth]);
    assert_eq!(expand_range(&chars("7-10")), vec![Period::Fourth, Period::Fifth]);
    assert_eq!(expand_range(&chars("9-12")), vec![Period::Fifth, Period::Sixth]);
}

#[test]
fn three_block_ranges_give_three_periods() {
    assert_eq!(expand_range(&chars("1-6")), vec![Period::First, Period::Second, Period::Third]);
    assert_eq!(expand_range(&chars("3-8")), vec![Period::Second, Period::Third, Period::Fourth]);
    assert_eq!(expand_range(&chars("5-10")), vec![Period::Third, Period::Fourth, Period::Fifth]);
    assert_eq!(expand_range(&chars("7-12")), vec![Period::Fourth, Period::Fifth, Period::Sixth]);
}

#[test]
fn four_block_ranges_give_four_periods() {
    assert_eq!(
        expand_range(&chars("1-8")),
        vec![Period::First, Period::Second, Period::Third, Period::Fourth]
    );
    assert_eq!(
        expand_range(&chars("3-10")),
        vec![Period::Second, Period::Third, Period::Fourth, Period::Fifth]
    );
}

#[test]
fn irregular_ranges_give_two_periods() {
    assert_eq!(expand_range(&chars("2-4")), vec![Period::First, Period::Second]);
    assert_eq!(expand_range(&chars("5-7")), vec![Period::Third, Period::Fourth]);
}

#[test]
fn unlisted_ranges_give_the_first_period() {
    assert_eq!(expand_range(&chars("")), vec![Period::First]);
    assert_eq!(expand_range(&chars("5-12")), vec![Period::First]);
    assert_eq!(expand_range(&chars("1-10")), vec![Period::First]);
    assert_eq!(expand_range(&chars("01-2")), vec![Period::First]);
    assert_eq!(expand_range(&chars("13-14")), vec![Period::First]);
}

#[test]
fn group_slots_share_day_and_room() {
    let slots = slots_for_group(&chars("水1-8(S2-204)"), "S2-204");
    assert_eq!(
        slots,
        vec![
            slot(Day::Wednesday, Period::First, "S2-204"),
            slot(Day::Wednesday, Period::Second, "S2-204"),
            slot(Day::Wednesday, Period::Third, "S2-204"),
            slot(Day::Wednesday, Period::Fourth, "S2-204"),
        ]
    );
}

#[test]
fn empty_group_has_no_slots() {
    assert_eq!(slots_for_group(&chars(""), "W1"), Vec::<TimeTable>::new());
}

#[test]
fn timetable_with_one_single_block_group() {
    assert_eq!(
        decode_timetable("\n  月3-4(W621)  \n"),
        Ok(vec![slot(Day::Monday, Period::Second, "W621")])
    );
}

#[test]
fn timetable_with_merged_range() {
    assert_eq!(
        decode_timetable("火1-4(H101)"),
        Ok(vec![slot(Day::Tuesday, Period::First, "H101"), slot(Day::Tuesday, Period::Second, "H101")])
    );
    assert_eq!(
        decode_timetable("金3-6(W9-324)"),
        Ok(vec![
            slot(Day::Friday, Period::Second, "W9-324"),
            slot(Day::Friday, Period::Third, "W9-324")
        ])
    );
}

#[test]
fn timetable_with_several_groups() {
    assert_eq!(
        decode_timetable("月3-4(W621)&nbsp;&nbsp;木5-8(W621, W631)"),
        Ok(vec![
            slot(Day::Monday, Period::Second, "W621"),
            slot(Day::Thursday, Period::Third, "W621, W631"),
            slot(Day::Thursday, Period::Fourth, "W621, W631"),
        ])
    );
}

#[test]
fn timetable_room_ends_at_the_next_parenthesis() {
    assert_eq!(
        decode_timetable("土9-10(G1(annex))"),
        Ok(vec![slot(Day::Saturday, Period::Fifth, "G1")])
    );
}

#[test]
fn timetable_stops_at_the_first_empty_group() {
    assert_eq!(decode_timetable(""), Ok(vec![]));
    assert_eq!(decode_timetable("   "), Ok(vec![]));
    assert_eq!(
        decode_timetable("月1-2(A)&nbsp;&nbsp;&nbsp;&nbsp;火1-2(B)"),
        Ok(vec![slot(Day::Monday, Period::First, "A")])
    );
}

#[test]
fn timetable_group_without_room_is_refused() {
    assert_eq!(decode_timetable("月3-4"), Err(ExtractError::MissingRoom));
    assert_eq!(decode_timetable("月3-4(W621)&nbsp;&nbsp;火5-6"), Err(ExtractError::MissingRoom));
    assert_eq!(decode_timetable("月3-4(W621"), Err(ExtractError::MissingRoom));
}

#[test]
fn timetable_with_unknown_day_and_range_falls_back() {
    assert_eq!(
        decode_timetable("集中講義等(未定)"),
        Ok(vec![slot(Day::Monday, Period::First, "未定")])
    );
}
