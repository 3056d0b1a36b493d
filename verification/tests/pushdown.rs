use course_catalog::database::pushdown::{
    memberships, parameters, placeholder_list, slot_conditions, slot_parameters,
    values_of_quarters, values_of_texts, values_of_years, where_clause, write_condition, Column,
    Membership, SqlValue,
};
use course_catalog::database::search::{is_id_listed, TimetableQuery};
use course_catalog::database::SearchQuery;
use course_catalog::{Day, Period, Semester};

fn words(parts: &[&str]) -> Vec<String> {
    parts.iter().map(|p| p.to_string()).collect()
}

fn text(s: &str) -> SqlValue {
    SqlValue::Text(s.to_string())
}

fn string(chars: Vec<char>) -> String {
    chars.into_iter().collect()
}

fn query() -> SearchQuery {
    SearchQuery {
        university: Vec::new(),
        department: Vec::new(),
        year: Vec::new(),
        title: Vec::new(),
        lecturer: Vec::new(),
        grade: Vec::new(),
        quarter: Vec::new(),
        timetable: Vec::new(),
    }
}

#[test]
fn query_without_values_has_no_condition() {
    let conditions = memberships(&query());
    assert_eq!(conditions, Vec::<Membership>::new());
    assert_eq!(where_clause(&conditions), String::new());
    assert_eq!(parameters(&conditions), Vec::<SqlValue>::new());
}

#[test]
fn only_stored_values_become_conditions() {
    let mut q = query();
    q.title = words(&["力学"]);
    q.lecturer = words(&["山田"]);
    q.grade = words(&["200"]);
    q.timetable = vec![TimetableQuery { day: Day::Monday, period: Period::First }];
    assert_eq!(memberships(&q), Vec::<Membership>::new());
}

#[test]
fn conditions_follow_the_order_of_the_dimensions() {
    let mut q = query();
    q.quarter = vec![Semester::Second, Semester::Fourth];
    q.year = words(&["2023", "soon", "2024"]);
    q.department = words(&["機械系"]);
    q.university = words(&["東京工業大学", "O'Neil"]);
    let conditions = memberships(&q);
    assert_eq!(
        conditions,
        vec![
            Membership { column: Column::University, values: vec![text("東京工業大学"), text("O'Neil")] },
            Membership { column: Column::Department, values: vec![text("機械系")] },
            Membership {
                column: Column::Year,
                values: vec![SqlValue::Integer(2023), SqlValue::Integer(2024)]
            },
            Membership {
                column: Column::Quarter,
                values: vec![SqlValue::Integer(2), SqlValue::Integer(4)]
            },
        ]
    );
    assert_eq!(
        where_clause(&conditions),
        "WHERE university IN (?,?) AND department IN (?) AND year IN (?,?) AND \
         id IN (SELECT course_id FROM semesters WHERE semester IN (?,?))"
            .to_string()
    );
    assert_eq!(
        parameters(&conditions),
        vec![
            text("東京工業大学"),
            text("O'Neil"),
            text("機械系"),
            SqlValue::Integer(2023),
            SqlValue::Integer(2024),
            SqlValue::Integer(2),
            SqlValue::Integer(4),
        ]
    );
}

#[test]
fn values_never_enter_the_text() {
    let mut q = query();
    q.department = words(&["x') OR 1=1 --"]);
    let conditions = memberships(&q);
    assert_eq!(where_clause(&conditions), "WHERE department IN (?)".to_string());
    assert_eq!(parameters(&conditions), vec![text("x') OR 1=1 --")]);
}

#[test]
fn years_that_write_no_number_leave_an_empty_list() {
    let mut q = query();
    q.year = words(&["next"]);
    let conditions = memberships(&q);
    assert_eq!(conditions, vec![Membership { column: Column::Year, values: Vec::new() }]);
    assert_eq!(where_clause(&conditions), "WHERE year IN ()".to_string());
}

#[test]
fn single_conditions_are_written_alone() {
    let university = Membership { column: Column::University, values: vec![text("a")] };
    assert_eq!(string(write_condition(&university)), "university IN (?)");
    let quarter = Membership {
        column: Column::Quarter,
        values: vec![SqlValue::Integer(1), SqlValue::Integer(2), SqlValue::Integer(3)],
    };
    assert_eq!(
        string(write_condition(&quarter)),
        "id IN (SELECT course_id FROM semesters WHERE semester IN (?,?,?))"
    );
    assert_eq!(where_clause(&vec![quarter]), "WHERE id IN (SELECT course_id FROM semesters WHERE semester IN (?,?,?))");
}

#[test]
fn placeholders_are_separated_by_commas() {
    assert_eq!(string(placeholder_list(0)), "");
    assert_eq!(string(placeholder_list(1)), "?");
    assert_eq!(string(placeholder_list(4)), "?,?,?,?");
}

#[test]
fn values_of_each_dimension() {
    assert_eq!(values_of_texts(&words(&["a", ""])), vec![text("a"), text("")]);
    assert_eq!(
        values_of_years(&words(&["2023", "", "-1", "20x"])),
        vec![SqlValue::Integer(2023), SqlValue::Integer(-1)]
    );
    assert_eq!(
        values_of_quarters(&vec![Semester::First, Semester::Third, Semester::First]),
        vec![SqlValue::Integer(1), SqlValue::Integer(3), SqlValue::Integer(1)]
    );
}

#[test]
fn slots_are_asked_for_as_pairs() {
    let slots = vec![
        TimetableQuery { day: Day::Sunday, period: Period::Sixth },
        TimetableQuery { day: Day::Wednesday, period: Period::First },
    ];
    assert_eq!(
        slot_conditions(slots.len()),
        "(day = ? AND periods = ?) OR (day = ? AND periods = ?)".to_string()
    );
    assert_eq!(
        slot_parameters(&slots),
        vec![
            SqlValue::Integer(0),
            SqlValue::Integer(6),
            SqlValue::Integer(3),
            SqlValue::Integer(1),
        ]
    );
    assert_eq!(slot_conditions(1), "(day = ? AND periods = ?)".to_string());
    assert_eq!(slot_conditions(0), String::new());
    assert_eq!(slot_parameters(&Vec::new()), Vec::<SqlValue>::new());
}

#[test]
fn identities_are_looked_up_in_a_list() {
    assert!(is_id_listed(&vec![4, 7, 9], 7));
    assert!(!is_id_listed(&vec![4, 7, 9], 5));
    assert!(!is_id_listed(&Vec::new(), 1));
}
