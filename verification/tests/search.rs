use course_catalog::database::search::{
    does_hold_one_of, does_meet_at, grade_digit, is_grade_listed, is_held_in, is_slot_listed,
    is_text_listed, is_year_listed, list_item, listed_text, meets_derived, search_courses,
    CourseListItem, SearchQuery, TimetableQuery,
};
use course_catalog::database::{insert_course, Store};
use course_catalog::{
    Course, CourseDetail, Day, Lecturer, Period, Semester, TimeTable,
};

fn words(parts: &[&str]) -> Vec<String> {
    parts.iter().map(|p| p.to_string()).collect()
}

fn course(
    code: &str,
    title: &str,
    department: &str,
    year: i32,
    lecturers: &[&str],
    slots: &[(Day, Period)],
    quarters: &[Semester],
) -> Course {
    Course {
        university: "東京工業大学".to_string(),
        title: title.to_string(),
        english_title: String::new(),
        department: department.to_string(),
        lecturer: lecturers
            .iter()
            .map(|name| Lecturer { name: name.to_string(), url: String::new() })
            .collect(),
        lecture_type: String::new(),
        time_table: slots
            .iter()
            .map(|(day, period)| TimeTable { day: *day, period: *period, room: "R".to_string() })
            .collect(),
        code: code.to_string(),
        credit: 2,
        year,
        semester: quarters.to_vec(),
        language: String::new(),
        url: String::new(),
        sylbs_update: String::new(),
        course_detail: CourseDetail {
            abst: String::new(),
            goal: String::new(),
            experience: false,
            keyword: Vec::new(),
            competencies: Vec::new(),
            flow: String::new(),
            schedule: Vec::new(),
            out_of_class: String::new(),
            textbook: String::new(),
            reference_book: String::new(),
            assessment: String::new(),
            related_course: Vec::new(),
            prerequisite: String::new(),
            contact: String::new(),
            office_hour: String::new(),
            note: String::new(),
        },
    }
}

fn catalogue() -> Store {
    let mut store = Store::new();
    let courses = vec![
        course(
            "MEC.A201",
            "機械力学",
            "機械系",
            2023,
            &["山田 太郎", "鈴木 花子"],
            &[(Day::Monday, Period::Second), (Day::Thursday, Period::First)],
            &[Semester::Third, Semester::Fourth],
        ),
        course(
            "MEC.B331",
            "制御工学",
            "機械系",
            2024,
            &["佐藤 次郎"],
            &[(Day::Tuesday, Period::Third)],
            &[Semester::First],
        ),
        course("CSC.T102", "計算機入門", "情報工学系", 2023, &[], &[], &[]),
        course(
            "ABC12345",
            "特別講義",
            "情報工学系",
            2024,
            &["鈴木 一郎"],
            &[(Day::Monday, Period::Third), (Day::Tuesday, Period::Second)],
            &[Semester::Second],
        ),
        course("X", "短い符号", "機械系", 2022, &["山田 太郎"], &[], &[Semester::Fourth]),
    ];
    for c in &courses {
        insert_course(&mut store, c).unwrap();
    }
    store
}

fn query() -> SearchQuery {
    SearchQuery {
        university: Vec::new(),
        department: Vec::new(),
        year: Vec::new(),
        title: Vec::new(),
        lecturer: Vec::new(),
        grade: Vec::new(),
        quarter: Vec::new(),
        timetable: Vec::new(),
    }
}

fn ids(found: &[CourseListItem]) -> Vec<i32> {
    found.iter().map(|item| item.id).collect()
}

#[test]
fn empty_query_lists_every_course() {
    let store = catalogue();
    assert_eq!(ids(&search_courses(&store, query())), vec![1, 2, 3, 4, 5]);
    assert_eq!(search_courses(&Store::new(), query()), Vec::<CourseListItem>::new());
}

#[test]
fn listing_joins_lecturers_slots_and_quarters() {
    let store = catalogue();
    let found = search_courses(&store, query());
    assert_eq!(
        found[0],
        CourseListItem {
            id: 1,
            university: "東京工業大学".to_string(),
            code: "MEC.A201".to_string(),
            title: "機械力学".to_string(),
            lecturer: "山田 太郎, 鈴木 花子".to_string(),
            timetable: "月3-4, 木1-2".to_string(),
            semester: "3Q, 4Q".to_string(),
            department: "機械系".to_string(),
            credit: 2,
        }
    );
    assert_eq!(found[2].lecturer, "");
    assert_eq!(found[2].timetable, "");
    assert_eq!(found[2].semester, "");
    assert_eq!(found[1].timetable, "火5-6");
    assert_eq!(list_item(&store, &store.courses()[3]), found[3]);
}

#[test]
fn listed_text_uses_comma_and_space() {
    let entries: Vec<Vec<char>> = vec!["a".chars().collect(), "b".chars().collect()];
    assert_eq!(listed_text(&entries), "a, b".to_string());
    assert_eq!(listed_text(&Vec::new()), String::new());
}

#[test]
fn department_filter_accepts_any_listed_value() {
    let store = catalogue();
    let mut q = query();
    q.department = words(&["機械系"]);
    assert_eq!(ids(&search_courses(&store, q)), vec![1, 2, 5]);
    let mut q = query();
    q.department = words(&["情報工学系", "機械系"]);
    assert_eq!(ids(&search_courses(&store, q)), vec![1, 2, 3, 4, 5]);
    let mut q = query();
    q.department = words(&["機械"]);
    assert_eq!(ids(&search_courses(&store, q)), Vec::<i32>::new());
}

#[test]
fn university_filter_compares_whole_names() {
    let store = catalogue();
    let mut q = query();
    q.university = words(&["東京工業大学"]);
    assert_eq!(ids(&search_courses(&store, q)), vec![1, 2, 3, 4, 5]);
    let mut q = query();
    q.university = words(&["東京大学"]);
    assert_eq!(ids(&search_courses(&store, q)), Vec::<i32>::new());
}

#[test]
fn year_filter_reads_the_years_as_numbers() {
    let store = catalogue();
    let mut q = query();
    q.year = words(&["2023"]);
    assert_eq!(ids(&search_courses(&store, q)), vec![1, 3]);
    let mut q = query();
    q.year = words(&["2022", "2024"]);
    assert_eq!(ids(&search_courses(&store, q)), vec![2, 4, 5]);
    let mut q = query();
    q.year = words(&["next year"]);
    assert_eq!(ids(&search_courses(&store, q)), Vec::<i32>::new());
    assert!(is_year_listed(&words(&["x", "02023"]), 2023));
    assert!(!is_year_listed(&words(&[]), 2023));
}

#[test]
fn quarter_filter_accepts_courses_held_in_a_listed_quarter() {
    let store = catalogue();
    let mut q = query();
    q.quarter = vec![Semester::Fourth];
    assert_eq!(ids(&search_courses(&store, q)), vec![1, 5]);
    let mut q = query();
    q.quarter = vec![Semester::First, Semester::Second];
    assert_eq!(ids(&search_courses(&store, q)), vec![2, 4]);
    assert!(is_held_in(&vec![Semester::Third], store.semesters(), 1));
    assert!(!is_held_in(&vec![Semester::Third], store.semesters(), 2));
    assert!(!is_held_in(&vec![], store.semesters(), 1));
}

#[test]
fn grade_digits_of_the_bands() {
    assert_eq!(grade_digit("100"), '1');
    assert_eq!(grade_digit("200"), '2');
    assert_eq!(grade_digit("300"), '3');
    assert_eq!(grade_digit("400"), '4');
    assert_eq!(grade_digit("500"), '5');
    assert_eq!(grade_digit("600"), '6');
    assert_eq!(grade_digit("700"), '0');
    assert_eq!(grade_digit(""), '0');
    assert_eq!(grade_digit("2"), '0');
}

#[test]
fn grade_filter_reads_the_sixth_character_of_the_code() {
    assert!(is_grade_listed(&words(&["200"]), "MEC.A201"));
    assert!(!is_grade_listed(&words(&["300"]), "MEC.A201"));
    assert!(is_grade_listed(&words(&["100", "200"]), "MEC.A201"));
    assert!(is_grade_listed(&words(&["200"]), "ABC122xx"));
    assert!(!is_grade_listed(&words(&["300"]), "ABC122xx"));
    assert!(is_grade_listed(&words(&["300"]), "ABC12345"));
    assert!(!is_grade_listed(&words(&["200"]), "ABC12345"));
    assert!(is_grade_listed(&words(&["unknown"]), "MEC.A001"));
    assert!(!is_grade_listed(&words(&[]), "MEC.A201"));
}

#[test]
fn grade_filter_rejects_codes_without_a_sixth_character() {
    assert!(!is_grade_listed(&words(&["200"]), "MEC.A"));
    assert!(!is_grade_listed(&words(&["200"]), ""));
    let store = catalogue();
    let mut q = query();
    q.grade = words(&["100", "200", "300", "400", "500", "600", "000"]);
    assert_eq!(ids(&search_courses(&store, q)), vec![1, 2, 3, 4]);
}

#[test]
fn grade_filter_in_a_search() {
    let store = catalogue();
    let mut q = query();
    q.grade = words(&["200"]);
    assert_eq!(ids(&search_courses(&store, q)), vec![1]);
    let mut q = query();
    q.grade = words(&["300"]);
    assert_eq!(ids(&search_courses(&store, q)), vec![2, 4]);
    let mut q = query();
    q.grade = words(&["100", "300"]);
    assert_eq!(ids(&search_courses(&store, q)), vec![2, 3, 4]);
}

#[test]
fn timetable_filter_asks_for_day_and_period_together() {
    let store = catalogue();
    let mut q = query();
    q.timetable = vec![TimetableQuery { day: Day::Monday, period: Period::Second }];
    assert_eq!(ids(&search_courses(&store, q)), vec![1]);
    let mut q = query();
    q.timetable = vec![
        TimetableQuery { day: Day::Monday, period: Period::First },
        TimetableQuery { day: Day::Tuesday, period: Period::Second },
    ];
    assert_eq!(ids(&search_courses(&store, q)), vec![4]);
    let mut q = query();
    q.timetable = vec![
        TimetableQuery { day: Day::Monday, period: Period::First },
        TimetableQuery { day: Day::Friday, period: Period::Third },
    ];
    assert_eq!(ids(&search_courses(&store, q)), Vec::<i32>::new());
    let mut q = query();
    q.timetable = vec![
        TimetableQuery { day: Day::Thursday, period: Period::First },
        TimetableQuery { day: Day::Tuesday, period: Period::Third },
    ];
    assert_eq!(ids(&search_courses(&store, q)), vec![1, 2]);
    let mut q = query();
    q.timetable = vec![TimetableQuery { day: Day::Sunday, period: Period::First }];
    assert_eq!(ids(&search_courses(&store, q)), Vec::<i32>::new());
}

#[test]
fn slot_on_the_day_of_one_pair_and_in_the_period_of_another_does_not_count() {
    let mut store = Store::new();
    insert_course(
        &mut store,
        &course("MEC.A201", "機械力学", "機械系", 2023, &[], &[(Day::Monday, Period::Second)], &[]),
    )
    .unwrap();
    let mut q = query();
    q.timetable = vec![
        TimetableQuery { day: Day::Monday, period: Period::First },
        TimetableQuery { day: Day::Tuesday, period: Period::Second },
    ];
    assert_eq!(search_courses(&store, q), Vec::<CourseListItem>::new());
    let slots = vec![
        TimetableQuery { day: Day::Monday, period: Period::First },
        TimetableQuery { day: Day::Tuesday, period: Period::Second },
    ];
    assert!(!does_meet_at(&slots, store.timetables(), 1));
    assert!(!is_slot_listed(&slots, 1, 2));
    assert!(is_slot_listed(&slots, 1, 1));
    assert!(is_slot_listed(&slots, 2, 2));
    assert!(does_meet_at(
        &vec![TimetableQuery { day: Day::Monday, period: Period::Second }],
        store.timetables(),
        1
    ));
}

#[test]
fn derived_dimensions_are_decided_together() {
    let mut q = query();
    assert!(meets_derived(&q, "", false, "", ""));
    q.grade = words(&["200"]);
    q.timetable = vec![TimetableQuery { day: Day::Monday, period: Period::First }];
    q.title = words(&["力学"]);
    q.lecturer = words(&["山田"]);
    assert!(meets_derived(&q, "MEC.A201", true, "機械力学", "山田 太郎, 鈴木 花子"));
    assert!(!meets_derived(&q, "MEC.A301", true, "機械力学", "山田 太郎"));
    assert!(!meets_derived(&q, "MEC.A201", false, "機械力学", "山田 太郎"));
    assert!(!meets_derived(&q, "MEC.A201", true, "制御工学", "山田 太郎"));
    assert!(!meets_derived(&q, "MEC.A201", true, "機械力学", "鈴木 花子"));
    q.timetable = Vec::new();
    assert!(meets_derived(&q, "MEC.A201", false, "機械力学", "山田 太郎"));
}

#[test]
fn title_filter_looks_for_a_part_of_the_title() {
    let store = catalogue();
    let mut q = query();
    q.title = words(&["力学"]);
    assert_eq!(ids(&search_courses(&store, q)), vec![1]);
    let mut q = query();
    q.title = words(&["工学", "入門"]);
    assert_eq!(ids(&search_courses(&store, q)), vec![2, 3]);
    let mut q = query();
    q.title = words(&[""]);
    assert_eq!(ids(&search_courses(&store, q)), vec![1, 2, 3, 4, 5]);
    assert!(does_hold_one_of("機械力学", &words(&["x", "械力"])));
    assert!(!does_hold_one_of("機械力学", &words(&[])));
}

#[test]
fn lecturer_filter_looks_in_the_joined_names() {
    let store = catalogue();
    let mut q = query();
    q.lecturer = words(&["鈴木"]);
    assert_eq!(ids(&search_courses(&store, q)), vec![1, 4]);
    let mut q = query();
    q.lecturer = words(&["太郎, 鈴木"]);
    assert_eq!(ids(&search_courses(&store, q)), vec![1]);
    let mut q = query();
    q.lecturer = words(&["田中"]);
    assert_eq!(ids(&search_courses(&store, q)), Vec::<i32>::new());
}

#[test]
fn dimensions_are_combined_with_and() {
    let store = catalogue();
    let mut q = query();
    q.department = words(&["機械系"]);
    q.year = words(&["2023", "2024"]);
    q.lecturer = words(&["佐藤", "山田"]);
    assert_eq!(ids(&search_courses(&store, q)), vec![1, 2]);
    let mut q = query();
    q.department = words(&["機械系"]);
    q.grade = words(&["300"]);
    q.quarter = vec![Semester::First];
    q.timetable = vec![TimetableQuery { day: Day::Tuesday, period: Period::Third }];
    q.title = words(&["制御"]);
    assert_eq!(ids(&search_courses(&store, q)), vec![2]);
    let mut q = query();
    q.department = words(&["情報工学系"]);
    q.lecturer = words(&["山田"]);
    assert_eq!(ids(&search_courses(&store, q)), Vec::<i32>::new());
}

#[test]
fn text_listing_compares_whole_texts() {
    assert!(is_text_listed(&words(&["a", "b"]), "b"));
    assert!(!is_text_listed(&words(&["a", "b"]), "ab"));
    assert!(!is_text_listed(&words(&[]), ""));
    assert!(is_text_listed(&words(&[""]), ""));
}
