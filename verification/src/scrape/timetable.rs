//! The weekly timetable of a course.
//!
//! The timetable cell holds groups such as `月3-4(W621)`, separated by two
//! non-breaking-space entities. A group names a day by its first character,
//! a range of class hours after it, and a room in parentheses. A range that
//! covers more than one two-hour block yields one slot for each block.

use vstd::prelude::*;
use vstd::string::StringExecFns;
use crate::pattern::{capture, capture_of, compile, pattern_accepted, pattern_of};
use crate::scrape::ExtractError;
use crate::text::{
    equals, from_chars, is_digit, split, split_on, texts, to_chars, trim, trimmed_text, digit,
};

verus! {

/// A day of the week.
#[derive(Debug, Clone, Copy, PartialEq, Eq, Structural)]
pub enum Day {
    Monday,
    Tuesday,
    Wednesday,
    Thursday,
    Friday,
    Saturday,
    Sunday,
}

/// A two-hour block of the day: the first covers class hours 1-2, the sixth
/// class hours 11-12.
#[derive(Debug, Clone, Copy, PartialEq, Eq, Structural)]
pub enum Period {
    First,
    Second,
    Third,
    Fourth,
    Fifth,
    Sixth,
}

/// One block of the week in which a course meets, and where.
#[derive(Debug, Clone, PartialEq, Eq)]
pub struct TimeTable {
    pub day: Day,
    pub period: Period,
    pub room: String,
}

/// The mathematical value of a [`TimeTable`].
pub struct TimeTableView {
    pub day: Day,
    pub period: Period,
    pub room: Seq<char>,
}

impl View for TimeTable {
    type V = TimeTableView;

    open spec fn view(&self) -> TimeTableView {
        TimeTableView { day: self.day, period: self.period, room: self.room@ }
    }
}

impl DeepView for TimeTable {
    type V = TimeTableView;

    open spec fn deep_view(&self) -> TimeTableView {
        self@
    }
}

/// What separates two groups in the timetable cell.
pub const GROUP_SEPARATOR: &'static str = "&nbsp;&nbsp;";

/// The pattern whose first capture group is the room of a timetable group:
/// the text between the first opening parenthesis and the next parenthesis.
pub const ROOM_PATTERN: &'static str = "\\(([^()]*)([()])";

// ---------------------------------------------------------------------------
// Day
// ---------------------------------------------------------------------------

/// The day that a group's first character names. A character that names no
/// day stands for Monday.
pub open spec fn day_of(c: char) -> Day {
    if c == '\u{6708}' {
        Day::Monday
    } else if c == '\u{706b}' {
        Day::Tuesday
    } else if c == '\u{6c34}' {
        Day::Wednesday
    } else if c == '\u{6728}' {
        Day::Thursday
    } else if c == '\u{91d1}' {
        Day::Friday
    } else if c == '\u{571f}' {
        Day::Saturday
    } else if c == '\u{65e5}' {
        Day::Sunday
    } else {
        Day::Monday
    }
}

/// Reads the day that a group's first character names.
pub fn decode_day(c: char) -> (d: Day)
    ensures
        d == day_of(c),
{
    if c == '\u{6708}' {
        Day::Monday
    } else if c == '\u{706b}' {
        Day::Tuesday
    } else if c == '\u{6c34}' {
        Day::Wednesday
    } else if c == '\u{6728}' {
        Day::Thursday
    } else if c == '\u{91d1}' {
        Day::Friday
    } else if c == '\u{571f}' {
        Day::Saturday
    } else if c == '\u{65e5}' {
        Day::Sunday
    } else {
        Day::Monday
    }
}

// ---------------------------------------------------------------------------
// Range of class hours
// ---------------------------------------------------------------------------

/// Whether `c` can stand in a range of class hours.
pub open spec fn is_range_char(c: char) -> bool {
    is_digit(c) || c == '-'
}

/// The longest prefix of `s` made of digits and hyphens.
pub open spec fn range_prefix(s: Seq<char>) -> Seq<char>
    decreases s.len(),
{
    if s.len() > 0 && is_range_char(s[0]) {
        seq![s[0]] + range_prefix(s.drop_first())
    } else {
        Seq::empty()
    }
}

/// The range of class hours of a group: the digits and hyphens that follow
/// its first character. An empty group has none.
pub open spec fn range_token(group: Seq<char>) -> Seq<char> {
    if group.len() == 0 {
        Seq::empty()
    } else {
        range_prefix(group.skip(1))
    }
}

/// Reads the range of class hours of a group.
pub fn decode_range_token(group: &Vec<char>) -> (token: Vec<char>)
    ensures
        token@ == range_token(group@),
{
    let mut token: Vec<char> = Vec::new();
    if group.len() == 0 {
        return token;
    }
    let mut i: usize = 1;
    while i < group.len() && (digit(group[i]) || group[i] == '-')
        invariant
            1 <= i <= group.len(),
            range_token(group@) == token@ + range_prefix(group@.skip(i as int)),
        decreases group.len() - i,
    {
        proof {
            let rest = group@.skip(i as int);
            assert(rest.drop_first() == group@.skip(i + 1));
        }
        token.push(group[i]);
        i += 1;
    }
    token
}

/// The blocks that a range of class hours covers, in order.
///
/// The ranges are those that the catalogue writes; each is listed with its
/// blocks. A range that is not listed stands for the first block.
pub open spec fn expand(token: Seq<char>) -> Seq<Period> {
    if token == "1-2"@ {
        seq![Period::First]
    } else if token == "3-4"@ {
        seq![Period::Second]
    } else if token == "5-6"@ {
        seq![Period::Third]
    } else if token == "7-8"@ {
        seq![Period::Fourth]
    } else if token == "9-10"@ {
        seq![Period::Fifth]
    } else if token == "11-12"@ {
        seq![Period::Sixth]
    } else if token == "1-4"@ {
        seq![Period::First, Period::Second]
    } else if token == "3-6"@ {
        seq![Period::Second, Period::Third]
    } else if token == "5-8"@ {
        seq![Period::Third, Period::Fourth]
    } else if token == "7-10"@ {
        seq![Period::Fourth, Period::Fifth]
    } else if token == "9-12"@ {
        seq![Period::Fifth, Period::Sixth]
    } else if token == "1-6"@ {
        seq![Period::First, Period::Second, Period::Third]
    } else if token == "3-8"@ {
        seq![Period::Second, Period::Third, Period::Fourth]
    } else if token == "5-10"@ {
        seq![Period::Third, Period::Fourth, Period::Fifth]
    } else if token == "7-12"@ {
        seq![Period::Fourth, Period::Fifth, Period::Sixth]
    } else if token == "1-8"@ {
        seq![Period::First, Period::Second, Period::Third, Period::Fourth]
    } else if token == "3-10"@ {
        seq![Period::Second, Period::Third, Period::Fourth, Period::Fifth]
    } else if token == "2-4"@ {
        seq![Period::First, Period::Second]
    } else if token == "5-7"@ {
        seq![Period::Third, Period::Fourth]
    } else {
        seq![Period::First]
    }
}

/// Whether `token` is one of the six ranges that cover exactly one block.
pub open spec fn is_single_block(token: Seq<char>) -> bool {
    token == "1-2"@ || token == "3-4"@ || token == "5-6"@ || token == "7-8"@ || token == "9-10"@
        || token == "11-12"@
}

/// The blocks that a range of class hours covers, in order.
pub fn expand_range(token: &Vec<char>) -> (periods: Vec<Period>)
    ensures
        periods@ == expand(token@),
{
    let mut out: Vec<Period> = Vec::new();
    if equals(token, "1-2") {
        out.push(Period::First);
    } else if equals(token, "3-4") {
        out.push(Period::Second);
    } else if equals(token, "5-6") {
        out.push(Period::Third);
    } else if equals(token, "7-8") {
        out.push(Period::Fourth);
    } else if equals(token, "9-10") {
        out.push(Period::Fifth);
    } else if equals(token, "11-12") {
        out.push(Period::Sixth);
    } else if equals(token, "1-4") {
        out.push(Period::First);
        out.push(Period::Second);
    } else if equals(token, "3-6") {
        out.push(Period::Second);
        out.push(Period::Third);
    } else if equals(token, "5-8") {
        out.push(Period::Third);
        out.push(Period::Fourth);
    } else if equals(token, "7-10") {
        out.push(Period::Fourth);
        out.push(Period::Fifth);
    } else if equals(token, "9-12") {
        out.push(Period::Fifth);
        out.push(Period::Sixth);
    } else if equals(token, "1-6") {
        out.push(Period::First);
        out.push(Period::Second);
        out.push(Period::Third);
    } else if equals(token, "3-8") {
        out.push(Period::Second);
        out.push(Period::Third);
        out.push(Period::Fourth);
    } else if equals(token, "5-10") {
        out.push(Period::Third);
        out.push(Period::Fourth);
        out.push(Period::Fifth);
    } else if equals(token, "7-12") {
        out.push(Period::Fourth);
        out.push(Period::Fifth);
        out.push(Period::Sixth);
    } else if equals(token, "1-8") {
        out.push(Period::First);
        out.push(Period::Second);
        out.push(Period::Third);
        out.push(Period::Fourth);
    } else if equals(token, "3-10") {
        out.push(Period::Second);
        out.push(Period::Third);
        out.push(Period::Fourth);
        out.push(Period::Fifth);
    } else if equals(token, "2-4") {
        out.push(Period::First);
        out.push(Period::Second);
    } else if equals(token, "5-7") {
        out.push(Period::Third);
        out.push(Period::Fourth);
    } else {
        out.push(Period::First);
    }
    out
}

// ---------------------------------------------------------------------------
// Groups
// ---------------------------------------------------------------------------

/// One slot for each of `periods`, all on `day` and in `room`.
pub open spec fn slots_on(day: Day, periods: Seq<Period>, room: Seq<char>) -> Seq<TimeTableView> {
    Seq::new(periods.len(), |i: int| TimeTableView { day, period: periods[i], room })
}

/// The slots of one group, given the room that it names: one for each block
/// that its range covers, in order, all on the group's day and in its room.
/// An empty group has no slots.
pub open spec fn group_slots(group: Seq<char>, room: Seq<char>) -> Seq<TimeTableView> {
    if group.len() == 0 {
        Seq::empty()
    } else {
        slots_on(day_of(group[0]), expand(range_token(group)), room)
    }
}

/// The slots of the groups from the first up to the first empty group, each
/// with the room that `pattern` captures in it. A group without a room fails
/// the whole timetable.
pub open spec fn groups_slots(groups: Seq<Seq<char>>, pattern: Seq<char>) -> Result<
    Seq<TimeTableView>,
    ExtractError,
>
    decreases groups.len(),
{
    if groups.len() == 0 || groups[0].len() == 0 {
        Ok(Seq::empty())
    } else {
        match capture_of(pattern, groups[0], 1) {
            None => Err(ExtractError::MissingRoom),
            Some(room) => prepend(
                group_slots(groups[0], room),
                groups_slots(groups.drop_first(), pattern),
            ),
        }
    }
}

/// `head` in front of the slots of `tail`, where `tail` has any.
pub open spec fn prepend(
    head: Seq<TimeTableView>,
    tail: Result<Seq<TimeTableView>, ExtractError>,
) -> Result<Seq<TimeTableView>, ExtractError> {
    match tail {
        Ok(rest) => Ok(head + rest),
        Err(e) => Err(e),
    }
}

/// The timetable that a trimmed cell text writes, with rooms captured by
/// `pattern`.
pub open spec fn timetable_of(text: Seq<char>, pattern: Seq<char>) -> Result<
    Seq<TimeTableView>,
    ExtractError,
> {
    groups_slots(split(text, GROUP_SEPARATOR@), pattern)
}

/// The mathematical value of a decoding result.
pub open spec fn slots_view(r: Result<Vec<TimeTable>, ExtractError>) -> Result<
    Seq<TimeTableView>,
    ExtractError,
> {
    match r {
        Ok(v) => Ok(v.deep_view()),
        Err(e) => Err(e),
    }
}

/// A group whose range covers exactly one block yields exactly one slot.
pub proof fn lemma_single_block_one_slot(group: Seq<char>, room: Seq<char>)
    requires
        group.len() > 0,
        is_single_block(range_token(group)),
    ensures
        group_slots(group, room).len() == 1,
{
}

/// Every group yields at least one and at most four slots, and every slot of
/// a group is on the group's day and in the group's room.
pub proof fn lemma_slots_share_day_and_room(group: Seq<char>, room: Seq<char>)
    requires
        group.len() > 0,
    ensures
        1 <= group_slots(group, room).len() <= 4,
        forall|i: int|
            0 <= i < group_slots(group, room).len() ==> (#[trigger] group_slots(group, room)[i]).day
                == day_of(group[0]) && group_slots(group, room)[i].room == room,
{
}

/// The place of a block in the day, counted from 1.
pub open spec fn block_number(period: Period) -> int {
    match period {
        Period::First => 1,
        Period::Second => 2,
        Period::Third => 3,
        Period::Fourth => 4,
        Period::Fifth => 5,
        Period::Sixth => 6,
    }
}

/// Whatever the range, its blocks are at least one and at most four, and
/// each block is the one that follows the block before it: a range is never
/// left unexpanded, and its last block comes last.
pub proof fn lemma_expansion_is_a_run(token: Seq<char>)
    ensures
        1 <= expand(token).len() <= 4,
        forall|i: int|
            0 < i < expand(token).len() ==> block_number(#[trigger] expand(token)[i])
                == block_number(expand(token)[i - 1]) + 1,
{
}

/// The blocks of each range that the catalogue writes.
pub proof fn lemma_expand_table()
    ensures
        expand("1-2"@) == seq![Period::First],
        expand("3-4"@) == seq![Period::Second],
        expand("5-6"@) == seq![Period::Third],
        expand("7-8"@) == seq![Period::Fourth],
        expand("9-10"@) == seq![Period::Fifth],
        expand("11-12"@) == seq![Period::Sixth],
        expand("1-4"@) == seq![Period::First, Period::Second],
        expand("3-6"@) == seq![Period::Second, Period::Third],
        expand("5-8"@) == seq![Period::Third, Period::Fourth],
        expand("7-10"@) == seq![Period::Fourth, Period::Fifth],
        expand("9-12"@) == seq![Period::Fifth, Period::Sixth],
        expand("1-6"@) == seq![Period::First, Period::Second, Period::Third],
        expand("3-8"@) == seq![Period::Second, Period::Third, Period::Fourth],
        expand("5-10"@) == seq![Period::Third, Period::Fourth, Period::Fifth],
        expand("7-12"@) == seq![Period::Fourth, Period::Fifth, Period::Sixth],
        expand("1-8"@) == seq![Period::First, Period::Second, Period::Third, Period::Fourth],
        expand("3-10"@) == seq![Period::Second, Period::Third, Period::Fourth, Period::Fifth],
        expand("2-4"@) == seq![Period::First, Period::Second],
        expand("5-7"@) == seq![Period::Third, Period::Fourth],
{
    // Two ranges differ where they differ in length or in one character.
    reveal_strlit("1-2");
    assert("1-2"@.len() == 3 && "1-2"@[0] == '1' && "1-2"@[1] == '-' && "1-2"@[2] == '2');
    reveal_strlit("3-4");
    assert("3-4"@.len() == 3 && "3-4"@[0] == '3' && "3-4"@[1] == '-' && "3-4"@[2] == '4');
    reveal_strlit("5-6");
    assert("5-6"@.len() == 3 && "5-6"@[0] == '5' && "5-6"@[1] == '-' && "5-6"@[2] == '6');
    reveal_strlit("7-8");
    assert("7-8"@.len() == 3 && "7-8"@[0] == '7' && "7-8"@[1] == '-' && "7-8"@[2] == '8');
    reveal_strlit("9-10");
    assert("9-10"@.len() == 4 && "9-10"@[0] == '9' && "9-10"@[1] == '-'
        && "9-10"@[2] == '1' && "9-10"@[3] == '0');
    reveal_strlit("11-12");
    assert("11-12"@.len() == 5 && "11-12"@[0] == '1' && "11-12"@[1] == '1'
        && "11-12"@[2] == '-' && "11-12"@[3] == '1' && "11-12"@[4] == '2');
    reveal_strlit("1-4");
    assert("1-4"@.len() == 3 && "1-4"@[0] == '1' && "1-4"@[1] == '-' && "1-4"@[2] == '4');
    reveal_strlit("3-6");
    assert("3-6"@.len() == 3 && "3-6"@[0] == '3' && "3-6"@[1] == '-' && "3-6"@[2] == '6');
    reveal_strlit("5-8");
    assert("5-8"@.len() == 3 && "5-8"@[0] == '5' && "5-8"@[1] == '-' && "5-8"@[2] == '8');
    reveal_strlit("7-10");
    assert("7-10"@.len() == 4 && "7-10"@[0] == '7' && "7-10"@[1] == '-'
        && "7-10"@[2] == '1' && "7-10"@[3] == '0');
    reveal_strlit("9-12");
    assert("9-12"@.len() == 4 && "9-12"@[0] == '9' && "9-12"@[1] == '-'
        && "9-12"@[2] == '1' && "9-12"@[3] == '2');
    reveal_strlit("1-6");
    assert("1-6"@.len() == 3 && "1-6"@[0] == '1' && "1-6"@[1] == '-' && "1-6"@[2] == '6');
    reveal_strlit("3-8");
    assert("3-8"@.len() == 3 && "3-8"@[0] == '3' && "3-8"@[1] == '-' && "3-8"@[2] == '8');
    reveal_strlit("5-10");
    assert("5-10"@.len() == 4 && "5-10"@[0] == '5' && "5-10"@[1] == '-'
        && "5-10"@[2] == '1' && "5-10"@[3] == '0');
    reveal_strlit("7-12");
    assert("7-12"@.len() == 4 && "7-12"@[0] == '7' && "7-12"@[1] == '-'
        && "7-12"@[2] == '1' && "7-12"@[3] == '2');
    reveal_strlit("1-8");
    assert("1-8"@.len() == 3 && "1-8"@[0] == '1' && "1-8"@[1] == '-' && "1-8"@[2] == '8');
    reveal_strlit("3-10");
    assert("3-10"@.len() == 4 && "3-10"@[0] == '3' && "3-10"@[1] == '-'
        && "3-10"@[2] == '1' && "3-10"@[3] == '0');
    reveal_strlit("2-4");
    assert("2-4"@.len() == 3 && "2-4"@[0] == '2' && "2-4"@[1] == '-' && "2-4"@[2] == '4');
    reveal_strlit("5-7");
    assert("5-7"@.len() == 3 && "5-7"@[0] == '5' && "5-7"@[1] == '-' && "5-7"@[2] == '7');
}

/// The slots of one group, given the room that it names.
pub fn slots_for_group(group: &Vec<char>, room: &str) -> (slots: Vec<TimeTable>)
    ensures
        slots.deep_view() == group_slots(group@, room@),
{
    let mut out: Vec<TimeTable> = Vec::new();
    if group.len() == 0 {
        return out;
    }
    let day = decode_day(group[0]);
    let token = decode_range_token(group);
    let periods = expand_range(&token);
    let mut i: usize = 0;
    while i < periods.len()
        invariant
            i <= periods.len(),
            out.deep_view() == slots_on(day, periods@.take(i as int), room@),
        decreases periods.len() - i,
    {
        let ghost before = out.deep_view();
        out.push(TimeTable { day, period: periods[i], room: String::from_str(room) });
        proof {
            assert(out.deep_view() == before.push(
                TimeTableView { day, period: periods@[i as int], room: room@ },
            ));
        }
        i += 1;
    }
    out
}

/// Decodes a timetable cell with a compiled room pattern.
pub(crate) fn decode_timetable_with(text: &str, room: &regex::Regex) -> (r: Result<
    Vec<TimeTable>,
    ExtractError,
>)
    ensures
        slots_view(r) == timetable_of(trim(text@), pattern_of(*room)),
        !(r matches Err(ExtractError::Engine)),
{
    let cell = trimmed_text(text);
    let separator = to_chars(GROUP_SEPARATOR);
    let groups = split_on(&cell, &separator);
    let ghost all = texts(groups@);
    let ghost pattern = pattern_of(*room);
    let mut out: Vec<TimeTable> = Vec::new();
    let mut i: usize = 0;
    proof {
        assert(all.skip(0) == all);
    }
    while i < groups.len()
        invariant
            i <= groups.len(),
            all == texts(groups@),
            pattern == pattern_of(*room),
            timetable_of(trim(text@), pattern) == prepend(
                out.deep_view(),
                groups_slots(all.skip(i as int), pattern),
            ),
        decreases groups.len() - i,
    {
        let group = &groups[i];
        let ghost rest = all.skip(i as int);
        proof {
            assert(rest.drop_first() == all.skip(i + 1));
        }
        if group.len() == 0 {
            return Ok(out);
        }
        let group_text = from_chars(group);
        match capture(room, group_text.as_str(), 1) {
            None => {
                return Err(ExtractError::MissingRoom);
            },
            Some(name) => {
                let mut slots = slots_for_group(group, name.as_str());
                let ghost before = out.deep_view();
                let ghost added = slots.deep_view();
                out.append(&mut slots);
                proof {
                    assert(out.deep_view() == before + added);
                    match groups_slots(all.skip(i + 1), pattern) {
                        Ok(tail) => {
                            assert(before + (added + tail) == (before + added) + tail);
                        },
                        Err(_) => {},
                    }
                }
            },
        }
        i += 1;
    }
    Ok(out)
}

/// Decodes the timetable cell of a detail page.
///
/// The cell text is trimmed and cut into groups. Each group up to the first
/// empty one gives its slots; a group that names no room fails the page.
/// `Engine` is returned where, and only where, the pattern compiler refuses
/// the room pattern.
pub fn decode_timetable(text: &str) -> (r: Result<Vec<TimeTable>, ExtractError>)
    ensures
        r matches Err(ExtractError::Engine) <==> !pattern_accepted(ROOM_PATTERN@),
        pattern_accepted(ROOM_PATTERN@) ==> slots_view(r) == timetable_of(
            trim(text@),
            ROOM_PATTERN@,
        ),
{
    match compile(ROOM_PATTERN) {
        Some(room) => decode_timetable_with(text, &room),
        None => Err(ExtractError::Engine),
    }
}

} // verus!
