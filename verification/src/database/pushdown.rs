//! The part of a search that the store can decide by comparing stored
//! values: for each of university, department, year and quarter that the
//! query asks for, the stored value is to be one of the values asked for.
//!
//! The conditions are data, with their values apart from their text, so that
//! a store that speaks SQL can be given the text with placeholders and the
//! values to bind to them.

use vstd::prelude::*;
use crate::database::codes::{
    day_code, day_number, period_code, period_number, semester_code, semester_number,
};
use crate::database::rows::CourseRowView;
use crate::database::search::{
    held_in, meets_stored_values, quarter_listed, text_listed, year_listed, SearchQuery,
    SearchQueryView, TimetableQuery,
};
use crate::database::store::Tables;
use crate::scrape::sub::Semester;
use crate::text::{from_chars, join, joined, parse_i32, texts, to_chars, to_i32};

verus! {

/// What a condition compares.
#[derive(Debug, Clone, Copy, PartialEq, Eq, Structural)]
pub enum Column {
    University,
    Department,
    Year,
    Quarter,
}

/// A value to compare a stored value with.
#[derive(Debug, Clone, PartialEq, Eq)]
pub enum SqlValue {
    Text(String),
    Integer(i32),
}

/// The mathematical value of a [`SqlValue`].
pub enum SqlValueView {
    Text(Seq<char>),
    Integer(i32),
}

impl View for SqlValue {
    type V = SqlValueView;

    open spec fn view(&self) -> SqlValueView {
        match self {
            SqlValue::Text(text) => SqlValueView::Text(text@),
            SqlValue::Integer(n) => SqlValueView::Integer(*n),
        }
    }
}

impl DeepView for SqlValue {
    type V = SqlValueView;

    open spec fn deep_view(&self) -> SqlValueView {
        self@
    }
}

/// The condition that what `column` names is one of `values`.
#[derive(Debug, Clone, PartialEq, Eq)]
pub struct Membership {
    pub column: Column,
    pub values: Vec<SqlValue>,
}

/// The mathematical value of a [`Membership`].
pub struct MembershipView {
    pub column: Column,
    pub values: Seq<SqlValueView>,
}

impl View for Membership {
    type V = MembershipView;

    open spec fn view(&self) -> MembershipView {
        MembershipView { column: self.column, values: self.values.deep_view() }
    }
}

impl DeepView for Membership {
    type V = MembershipView;

    open spec fn deep_view(&self) -> MembershipView {
        self@
    }
}

// ---------------------------------------------------------------------------
// From a query to conditions
// ---------------------------------------------------------------------------

/// Each text as a value.
pub open spec fn text_values(items: Seq<Seq<char>>) -> Seq<SqlValueView> {
    Seq::new(items.len(), |i: int| SqlValueView::Text(items[i]))
}

/// The numbers that the texts write, in order; a text that writes no number
/// gives no value.
pub open spec fn year_values(years: Seq<Seq<char>>) -> Seq<SqlValueView>
    decreases years.len(),
{
    if years.len() == 0 {
        Seq::empty()
    } else {
        match parse_i32(years.last()) {
            Some(year) => year_values(years.drop_last()).push(SqlValueView::Integer(year)),
            None => year_values(years.drop_last()),
        }
    }
}

/// The number of each quarter as a value.
pub open spec fn quarter_values(quarters: Seq<Semester>) -> Seq<SqlValueView> {
    Seq::new(quarters.len(), |i: int| SqlValueView::Integer(semester_number(quarters[i])))
}

/// The condition on `column`, where the query asks for something in that
/// dimension, and no condition where it does not.
pub open spec fn condition_on(column: Column, asked: bool, values: Seq<SqlValueView>) -> Seq<
    MembershipView,
> {
    if asked {
        seq![MembershipView { column, values }]
    } else {
        Seq::empty()
    }
}

/// The conditions that a query puts on stored values: one for each of
/// university, department, year and quarter that the query asks for, in
/// this order. All of them are to hold.
pub open spec fn memberships_of(q: SearchQueryView) -> Seq<MembershipView> {
    condition_on(Column::University, q.university.len() > 0, text_values(q.university))
        + condition_on(Column::Department, q.department.len() > 0, text_values(q.department))
        + condition_on(Column::Year, q.year.len() > 0, year_values(q.year)) + condition_on(
        Column::Quarter,
        q.quarter.len() > 0,
        quarter_values(q.quarter),
    )
}

/// Whether the course that `row` stands for meets the condition `m`: whether
/// its university, department or year is one of the values, or whether it
/// is held in a quarter whose number is one of the values.
pub open spec fn holds_of(m: MembershipView, s: Tables, row: CourseRowView) -> bool {
    match m.column {
        Column::University => m.values.contains(SqlValueView::Text(row.university)),
        Column::Department => m.values.contains(SqlValueView::Text(row.department)),
        Column::Year => m.values.contains(SqlValueView::Integer(row.year)),
        Column::Quarter => exists|r: int|
            0 <= r < s.semesters.len() && (#[trigger] s.semesters[r]).course_id == row.id
                && m.values.contains(SqlValueView::Integer(s.semesters[r].semester)),
    }
}

/// Whether the course that `row` stands for meets every one of the
/// conditions.
pub open spec fn all_hold_of(ms: Seq<MembershipView>, s: Tables, row: CourseRowView) -> bool {
    forall|i: int| 0 <= i < ms.len() ==> holds_of(#[trigger] ms[i], s, row)
}

/// A text is one of the values exactly when it is one of the texts.
pub proof fn lemma_text_values(items: Seq<Seq<char>>, text: Seq<char>)
    ensures
        text_values(items).contains(SqlValueView::Text(text)) == text_listed(items, text),
{
    if text_listed(items, text) {
        let i = choose|i: int| 0 <= i < items.len() && #[trigger] items[i] == text;
        assert(text_values(items)[i] == SqlValueView::Text(text));
    }
}

/// A number is one of the values exactly when one of the texts writes it.
pub proof fn lemma_year_values(years: Seq<Seq<char>>, year: i32)
    ensures
        year_values(years).contains(SqlValueView::Integer(year)) == year_listed(years, year),
    decreases years.len(),
{
    let wanted = SqlValueView::Integer(year);
    if years.len() > 0 {
        let init = years.drop_last();
        lemma_year_values(init, year);
        if year_listed(years, year) {
            let i = choose|i: int| 0 <= i < years.len() && parse_i32(#[trigger] years[i]) == Some(year);
            if i < years.len() - 1 {
                assert(init[i] == years[i]);
                let k = choose|k: int|
                    0 <= k < year_values(init).len() && year_values(init)[k] == wanted;
                assert(year_values(years)[k] == wanted);
            } else {
                assert(year_values(years).last() == wanted);
            }
        }
    }
}

/// A number is one of the values exactly when it stands for one of the
/// quarters.
pub proof fn lemma_quarter_values(quarters: Seq<Semester>, number: i32)
    ensures
        quarter_values(quarters).contains(SqlValueView::Integer(number)) == quarter_listed(
            quarters,
            number,
        ),
{
    let wanted = SqlValueView::Integer(number);
    if quarter_listed(quarters, number) {
        let i = choose|i: int|
            0 <= i < quarters.len() && semester_number(#[trigger] quarters[i]) == number;
        assert(quarter_values(quarters)[i] == wanted);
    }
}

/// The conditions of a query say what the query asks of stored values: a
/// course meets all of them exactly when, in each of university, department,
/// year and quarter that the query asks for, it has one of the values asked
/// for.
pub proof fn lemma_memberships_mean_the_query(s: Tables, q: SearchQueryView, row: CourseRowView)
    ensures
        all_hold_of(memberships_of(q), s, row) == meets_stored_values(s, q, row),
{
    let ms = memberships_of(q);
    let university = condition_on(
        Column::University,
        q.university.len() > 0,
        text_values(q.university),
    );
    let department = condition_on(
        Column::Department,
        q.department.len() > 0,
        text_values(q.department),
    );
    let year = condition_on(Column::Year, q.year.len() > 0, year_values(q.year));
    let quarter = condition_on(Column::Quarter, q.quarter.len() > 0, quarter_values(q.quarter));
    lemma_text_values(q.university, row.university);
    lemma_text_values(q.department, row.department);
    lemma_year_values(q.year, row.year);
    assert(q.quarter.len() > 0 ==> (holds_of(quarter[0], s, row) == held_in(
        q.quarter,
        s.semesters,
        row.id,
    ))) by {
        if q.quarter.len() > 0 {
            if held_in(q.quarter, s.semesters, row.id) {
                let r = choose|r: int|
                    0 <= r < s.semesters.len() && (#[trigger] s.semesters[r]).course_id == row.id
                        && quarter_listed(q.quarter, s.semesters[r].semester);
                lemma_quarter_values(q.quarter, s.semesters[r].semester);
            }
        }
    }
    let a = university.len() as int;
    let b = a + department.len();
    let c = b + year.len();
    if all_hold_of(ms, s, row) {
        if q.university.len() > 0 {
            assert(ms[0] == university[0]);
        }
        if q.department.len() > 0 {
            assert(ms[a] == department[0]);
        }
        if q.year.len() > 0 {
            assert(ms[b] == year[0]);
        }
        if q.quarter.len() > 0 {
            assert(ms[c] == quarter[0]);
        }
    }
}

/// Each text as a value.
pub fn values_of_texts(items: &Vec<String>) -> (r: Vec<SqlValue>)
    ensures
        r.deep_view() == text_values(items.deep_view()),
{
    let mut r: Vec<SqlValue> = Vec::new();
    let mut i: usize = 0;
    while i < items.len()
        invariant
            i <= items.len(),
            r.deep_view() == text_values(items.deep_view().take(i as int)),
        decreases items.len() - i,
    {
        let ghost so_far = r.deep_view();
        r.push(SqlValue::Text(items[i].clone()));
        proof {
            assert(r.deep_view() == so_far.push(SqlValueView::Text(items.deep_view()[i as int])));
        }
        i += 1;
    }
    r
}

/// The numbers that the texts write.
pub fn values_of_years(years: &Vec<String>) -> (r: Vec<SqlValue>)
    ensures
        r.deep_view() == year_values(years.deep_view()),
{
    let ghost all = years.deep_view();
    let mut r: Vec<SqlValue> = Vec::new();
    let mut i: usize = 0;
    while i < years.len()
        invariant
            i <= years.len(),
            all == years.deep_view(),
            r.deep_view() == year_values(all.take(i as int)),
        decreases years.len() - i,
    {
        proof {
            assert(all.take(i + 1).drop_last() == all.take(i as int));
        }
        let written = to_chars(years[i].as_str());
        match to_i32(&written) {
            Some(year) => {
                r.push(SqlValue::Integer(year));
            },
            None => {},
        }
        i += 1;
    }
    assert(all.take(years.len() as int) == all);
    r
}

/// The number of each quarter as a value.
pub fn values_of_quarters(quarters: &Vec<Semester>) -> (r: Vec<SqlValue>)
    ensures
        r.deep_view() == quarter_values(quarters@),
{
    let mut r: Vec<SqlValue> = Vec::new();
    let mut i: usize = 0;
    while i < quarters.len()
        invariant
            i <= quarters.len(),
            r.deep_view() == quarter_values(quarters@.take(i as int)),
        decreases quarters.len() - i,
    {
        let ghost so_far = r.deep_view();
        r.push(SqlValue::Integer(semester_code(quarters[i])));
        proof {
            assert(r.deep_view() == so_far.push(
                SqlValueView::Integer(semester_number(quarters@[i as int])),
            ));
        }
        i += 1;
    }
    r
}

/// The conditions that a query puts on stored values.
pub fn memberships(query: &SearchQuery) -> (r: Vec<Membership>)
    ensures
        r.deep_view() == memberships_of(query@),
{
    let mut r: Vec<Membership> = Vec::new();
    if query.university.len() > 0 {
        let condition = Membership {
            column: Column::University,
            values: values_of_texts(&query.university),
        };
        r.push(condition);
    }
    if query.department.len() > 0 {
        let condition = Membership {
            column: Column::Department,
            values: values_of_texts(&query.department),
        };
        r.push(condition);
    }
    if query.year.len() > 0 {
        let condition = Membership { column: Column::Year, values: values_of_years(&query.year) };
        r.push(condition);
    }
    if query.quarter.len() > 0 {
        let condition = Membership {
            column: Column::Quarter,
            values: values_of_quarters(&query.quarter),
        };
        r.push(condition);
    }
    r
}

// ---------------------------------------------------------------------------
// From conditions to text
// ---------------------------------------------------------------------------

/// What stands for one value in the text of a condition.
pub const PLACEHOLDER: &'static str = "?";

/// What stands between two placeholders.
pub const VALUE_SEPARATOR: &'static str = ",";

/// What stands between two conditions.
pub const CONJUNCTION: &'static str = " AND ";

/// What stands in front of the conditions.
pub const WHERE: &'static str = "WHERE ";

/// What closes the list of values of a condition on a column of the table
/// of courses.
pub const CLOSE: &'static str = ")";

/// What closes the list of values of a condition on the quarters.
pub const CLOSE_NESTED: &'static str = "))";

/// `n` placeholders with commas between them.
pub open spec fn placeholders(n: nat) -> Seq<char> {
    join(Seq::new(n, |i: int| PLACEHOLDER@), VALUE_SEPARATOR@)
}

/// The text that opens a condition on `column`, up to its list of values.
pub open spec fn opening_of(column: Column) -> Seq<char> {
    match column {
        Column::University => "university IN ("@,
        Column::Department => "department IN ("@,
        Column::Year => "year IN ("@,
        Column::Quarter => "id IN (SELECT course_id FROM semesters WHERE semester IN ("@,
    }
}

/// The text that closes a condition on `column`.
pub open spec fn closing_of(column: Column) -> Seq<char> {
    match column {
        Column::Quarter => CLOSE_NESTED@,
        _ => CLOSE@,
    }
}

/// The text of a condition, with one placeholder for each of its values.
pub open spec fn condition_text(m: MembershipView) -> Seq<char> {
    opening_of(m.column) + placeholders(m.values.len()) + closing_of(m.column)
}

/// The text of each condition.
pub open spec fn condition_texts(ms: Seq<MembershipView>) -> Seq<Seq<char>> {
    Seq::new(ms.len(), |i: int| condition_text(ms[i]))
}

/// The text that restricts a selection of courses to those that meet every
/// condition: nothing where there is no condition, and else the conditions
/// joined by `AND` behind `WHERE`.
pub open spec fn where_clause_of(ms: Seq<MembershipView>) -> Seq<char> {
    if ms.len() == 0 {
        Seq::empty()
    } else {
        WHERE@ + join(condition_texts(ms), CONJUNCTION@)
    }
}

/// The values of all conditions, in the order of their placeholders.
pub open spec fn parameters_of(ms: Seq<MembershipView>) -> Seq<SqlValueView>
    decreases ms.len(),
{
    if ms.len() == 0 {
        Seq::empty()
    } else {
        parameters_of(ms.drop_last()) + ms.last().values
    }
}

/// Writes `n` placeholders with commas between them.
pub fn placeholder_list(n: usize) -> (r: Vec<char>)
    ensures
        r@ == placeholders(n as nat),
{
    let mark = to_chars(PLACEHOLDER);
    let mut marks: Vec<Vec<char>> = Vec::new();
    let mut i: usize = 0;
    while i < n
        invariant
            i <= n,
            mark@ == PLACEHOLDER@,
            texts(marks@) == Seq::new(i as nat, |k: int| PLACEHOLDER@),
        decreases n - i,
    {
        let ghost so_far = texts(marks@);
        marks.push(mark.clone());
        proof {
            assert(texts(marks@) == so_far.push(PLACEHOLDER@));
        }
        i += 1;
    }
    let separator = to_chars(VALUE_SEPARATOR);
    joined(&marks, &separator)
}

/// Writes the text of a condition.
pub fn write_condition(m: &Membership) -> (r: Vec<char>)
    ensures
        r@ == condition_text(m@),
{
    let mut out = match m.column {
        Column::University => to_chars("university IN ("),
        Column::Department => to_chars("department IN ("),
        Column::Year => to_chars("year IN ("),
        Column::Quarter => to_chars("id IN (SELECT course_id FROM semesters WHERE semester IN ("),
    };
    let mut marks = placeholder_list(m.values.len());
    let mut close = match m.column {
        Column::Quarter => to_chars(CLOSE_NESTED),
        _ => to_chars(CLOSE),
    };
    out.append(&mut marks);
    out.append(&mut close);
    out
}

/// Writes the text that restricts a selection of courses to those that meet
/// every condition.
pub fn where_clause(ms: &Vec<Membership>) -> (r: String)
    ensures
        r@ == where_clause_of(ms.deep_view()),
{
    if ms.len() == 0 {
        return String::new();
    }
    let mut conditions: Vec<Vec<char>> = Vec::new();
    let mut i: usize = 0;
    while i < ms.len()
        invariant
            i <= ms.len(),
            texts(conditions@) == condition_texts(ms.deep_view().take(i as int)),
        decreases ms.len() - i,
    {
        let ghost so_far = texts(conditions@);
        let condition = write_condition(&ms[i]);
        conditions.push(condition);
        proof {
            assert(texts(conditions@) == so_far.push(condition_text(ms.deep_view()[i as int])));
        }
        i += 1;
    }
    assert(ms.deep_view().take(ms.len() as int) == ms.deep_view());
    let conjunction = to_chars(CONJUNCTION);
    let mut out = to_chars(WHERE);
    let mut body = joined(&conditions, &conjunction);
    out.append(&mut body);
    from_chars(&out)
}

/// The values of all conditions, in the order of their placeholders.
pub fn parameters(ms: &Vec<Membership>) -> (r: Vec<SqlValue>)
    ensures
        r.deep_view() == parameters_of(ms.deep_view()),
{
    let ghost all = ms.deep_view();
    let mut r: Vec<SqlValue> = Vec::new();
    let mut i: usize = 0;
    while i < ms.len()
        invariant
            i <= ms.len(),
            all == ms.deep_view(),
            r.deep_view() == parameters_of(all.take(i as int)),
        decreases ms.len() - i,
    {
        let values = &ms[i].values;
        let ghost before = r.deep_view();
        proof {
            assert(all.take(i + 1).drop_last() == all.take(i as int));
        }
        let mut k: usize = 0;
        while k < values.len()
            invariant
                k <= values.len(),
                r.deep_view() == before + values.deep_view().take(k as int),
            decreases values.len() - k,
        {
            let ghost so_far = r.deep_view();
            let value = match &values[k] {
                SqlValue::Text(text) => SqlValue::Text(text.clone()),
                SqlValue::Integer(n) => SqlValue::Integer(*n),
            };
            r.push(value);
            proof {
                assert(r.deep_view() == so_far.push(values.deep_view()[k as int]));
            }
            k += 1;
        }
        i += 1;
    }
    assert(all.take(ms.len() as int) == all);
    r
}

// ---------------------------------------------------------------------------
// The slots of a query
// ---------------------------------------------------------------------------

/// The text of the condition that a timetable slot is on one day and in one
/// period.
pub const SLOT_CONDITION: &'static str = "(day = ? AND periods = ?)";

/// What stands between two alternatives.
pub const ALTERNATIVE: &'static str = " OR ";

/// The text of the condition that a timetable slot is one of `n` slots: one
/// condition on day and period for each of them, joined by `OR`.
pub open spec fn slot_conditions_of(n: nat) -> Seq<char> {
    join(Seq::new(n, |i: int| SLOT_CONDITION@), ALTERNATIVE@)
}

/// The numbers of the day and the period of each slot, slot after slot, in
/// the order of the placeholders of [`slot_conditions_of`].
pub open spec fn slot_values(slots: Seq<TimetableQuery>) -> Seq<SqlValueView>
    decreases slots.len(),
{
    if slots.len() == 0 {
        Seq::empty()
    } else {
        slot_values(slots.drop_last()).push(
            SqlValueView::Integer(day_number(slots.last().day)),
        ).push(SqlValueView::Integer(period_number(slots.last().period)))
    }
}

/// Writes the condition that a timetable slot is one of `n` slots.
pub fn slot_conditions(n: usize) -> (r: String)
    ensures
        r@ == slot_conditions_of(n as nat),
{
    let condition = to_chars(SLOT_CONDITION);
    let mut conditions: Vec<Vec<char>> = Vec::new();
    let mut i: usize = 0;
    while i < n
        invariant
            i <= n,
            condition@ == SLOT_CONDITION@,
            texts(conditions@) == Seq::new(i as nat, |k: int| SLOT_CONDITION@),
        decreases n - i,
    {
        let ghost so_far = texts(conditions@);
        conditions.push(condition.clone());
        proof {
            assert(texts(conditions@) == so_far.push(SLOT_CONDITION@));
        }
        i += 1;
    }
    let alternative = to_chars(ALTERNATIVE);
    let text = joined(&conditions, &alternative);
    from_chars(&text)
}

/// The numbers of the day and the period of each slot that a query asks
/// for, slot after slot.
pub fn slot_parameters(slots: &Vec<TimetableQuery>) -> (r: Vec<SqlValue>)
    ensures
        r.deep_view() == slot_values(slots@),
{
    let mut r: Vec<SqlValue> = Vec::new();
    let mut i: usize = 0;
    assert(slots@.take(0) == Seq::<TimetableQuery>::empty());
    assert(r.deep_view() == slot_values(slots@.take(0)));
    while i < slots.len()
        invariant
            i <= slots.len(),
            r.deep_view() == slot_values(slots@.take(i as int)),
        decreases slots.len() - i,
    {
        let ghost so_far = r.deep_view();
        let ghost day = SqlValueView::Integer(day_number(slots@[i as int].day));
        let ghost period = SqlValueView::Integer(period_number(slots@[i as int].period));
        r.push(SqlValue::Integer(day_code(slots[i].day)));
        r.push(SqlValue::Integer(period_code(slots[i].period)));
        proof {
            assert(slots@.take(i + 1).drop_last() == slots@.take(i as int));
            assert(r.deep_view() == so_far.push(day).push(period));
        }
        i += 1;
    }
    assert(slots@.take(slots.len() as int) == slots@);
    r
}

} // verus!
