use course_catalog::markup::MAX_PAGE_LENGTH;
use course_catalog::scrape::sub::{
    count_from_digits, decode_count, decode_credit, decode_keywords, decode_lecture_type,
    decode_related_code, decode_semester, decode_text, decode_title, decode_year, html_to_course,
    Course, CourseDetail, LecturePlan, Semester,
};
use course_catalog::text::first_chars;
use course_catalog::scrape::timetable::{Day, Period, TimeTable};
use course_catalog::scrape::{absolute_url, ExtractError, Lecturer};

fn words(parts: &[&str]) -> Vec<String> {
    parts.iter().map(|p| p.to_string()).collect()
}

#[test]
fn absolute_url_prefixes_the_origin() {
    assert_eq!(
        absolute_url("/index.php?x=1"),
        "https://www.ocw.titech.ac.jp//index.php?x=1".to_string()
    );
    assert_eq!(absolute_url(""), "https://www.ocw.titech.ac.jp/".to_string());
}

#[test]
fn text_field_is_trimmed() {
    assert_eq!(decode_text("  機械系 \n"), "機械系".to_string());
    assert_eq!(decode_text(""), String::new());
}

#[test]
fn title_is_split_at_the_separator() {
    assert_eq!(
        decode_title(" 2023年度　機械力学&nbsp;&nbsp;&nbsp;Engineering Mechanics \n"),
        Ok(("機械力学".to_string(), "Engineering Mechanics".to_string()))
    );
}

#[test]
fn title_shorter_than_its_label_is_empty() {
    assert_eq!(
        decode_title("2023&nbsp;&nbsp;&nbsp;English"),
        Ok((String::new(), "English".to_string()))
    );
}

#[test]
fn title_takes_what_stands_between_the_first_two_separators() {
    assert_eq!(
        decode_title("1234567A&nbsp;&nbsp;&nbsp;B&nbsp;&nbsp;&nbsp;C"),
        Ok(("A".to_string(), "B".to_string()))
    );
}

#[test]
fn title_without_separator_is_refused() {
    assert_eq!(decode_title("2023年度　機械力学"), Err(ExtractError::MalformedTitle));
    assert_eq!(decode_title("a&nbsp;&nbsp;b"), Err(ExtractError::MalformedTitle));
    assert_eq!(decode_title(""), Err(ExtractError::MalformedTitle));
}

#[test]
fn lecture_type_loses_entities_and_white_space() {
    assert_eq!(
        decode_lecture_type(" 講義 &nbsp;/ 演習\n (対面型) "),
        "講義/演習(対面型)".to_string()
    );
    assert_eq!(decode_lecture_type("&nb\nsp;x"), "x".to_string());
    assert_eq!(decode_lecture_type(""), String::new());
}

#[test]
fn credit_is_read_as_a_number() {
    assert_eq!(decode_credit(" 2 "), Ok(2));
    assert_eq!(decode_credit("-1"), Ok(-1));
    assert_eq!(decode_credit("two"), Err(ExtractError::InvalidNumber));
    assert_eq!(decode_credit(""), Err(ExtractError::InvalidNumber));
    assert_eq!(decode_credit("2.0"), Err(ExtractError::InvalidNumber));
}

#[test]
fn year_is_read_without_its_suffix() {
    assert_eq!(decode_year(" 2023年度 "), Ok(2023));
    assert_eq!(decode_year("2024"), Ok(2024));
    assert_eq!(decode_year("年度"), Err(ExtractError::InvalidNumber));
    assert_eq!(decode_year("2023年"), Err(ExtractError::InvalidNumber));
}

#[test]
fn semester_tokens_name_their_quarters() {
    assert_eq!(decode_semester("1Q"), vec![Semester::First]);
    assert_eq!(decode_semester("2Q"), vec![Semester::Second]);
    assert_eq!(decode_semester("3Q"), vec![Semester::Third]);
    assert_eq!(decode_semester(" 4Q "), vec![Semester::Fourth]);
    assert_eq!(decode_semester("1-2Q"), vec![Semester::First, Semester::Second]);
    assert_eq!(decode_semester("1-3Q"), vec![Semester::First, Semester::Second, Semester::Third]);
    assert_eq!(
        decode_semester("1-4Q"),
        vec![Semester::First, Semester::Second, Semester::Third, Semester::Fourth]
    );
    assert_eq!(decode_semester("2-3Q"), vec![Semester::Second, Semester::Third]);
    assert_eq!(decode_semester("2-4Q"), vec![Semester::Second, Semester::Third, Semester::Fourth]);
    assert_eq!(decode_semester("3-4Q"), vec![Semester::Third, Semester::Fourth]);
}

#[test]
fn unknown_semester_token_names_no_quarter() {
    assert_eq!(decode_semester(""), Vec::<Semester>::new());
    assert_eq!(decode_semester("5Q"), Vec::<Semester>::new());
    assert_eq!(decode_semester("4-1Q"), Vec::<Semester>::new());
    assert_eq!(decode_semester("1q"), Vec::<Semester>::new());
}

#[test]
fn keywords_are_split_at_three_kinds_of_comma() {
    assert_eq!(decode_keywords("機械,制御，設計"), words(&["機械", "制御", "設計"]));
    assert_eq!(decode_keywords(" 振動、 波動 ,  音響 "), words(&["振動", "波動", "音響"]));
    assert_eq!(decode_keywords("one keyword"), words(&["one keyword"]));
}

#[test]
fn keywords_of_an_empty_cell_are_none() {
    assert_eq!(decode_keywords(""), Vec::<String>::new());
    assert_eq!(decode_keywords("  \n "), Vec::<String>::new());
}

#[test]
fn keywords_keep_empty_pieces_between_delimiters() {
    assert_eq!(decode_keywords("a,,b"), words(&["a", "", "b"]));
    assert_eq!(decode_keywords("a,"), words(&["a", ""]));
}

#[test]
fn related_code_is_the_first_eight_characters() {
    assert_eq!(decode_related_code(" MEC.A101 ： 力学基礎 "), "MEC.A101".to_string());
    assert_eq!(decode_related_code("MEC.B2"), "MEC.B2".to_string());
    assert_eq!(decode_related_code("機械力学第一および演習"), "機械力学第一およ".to_string());
    assert_eq!(decode_related_code(""), String::new());
    assert_eq!(first_chars(&vec!['a', 'b', 'c'], 2), vec!['a', 'b']);
    assert_eq!(first_chars(&vec!['a', 'b', 'c'], 3), vec!['a', 'b', 'c']);
    assert_eq!(first_chars(&vec!['a', 'b', 'c'], 9), vec!['a', 'b', 'c']);
}

#[test]
fn count_is_the_first_run_of_digits() {
    assert_eq!(decode_count("第1回"), Ok(1));
    assert_eq!(decode_count(" Class 12 (of 14) "), Ok(12));
    assert_eq!(decode_count("7"), Ok(7));
    assert_eq!(decode_count("a007b8"), Ok(7));
}

#[test]
fn count_without_digits_is_refused() {
    assert_eq!(decode_count("第一回"), Err(ExtractError::InvalidNumber));
    assert_eq!(decode_count(""), Err(ExtractError::InvalidNumber));
    assert_eq!(decode_count("第１回"), Err(ExtractError::InvalidNumber));
}

#[test]
fn count_that_does_not_fit_is_refused() {
    assert_eq!(decode_count("no. 99999999999"), Err(ExtractError::InvalidNumber));
}

#[test]
fn count_from_found_digits() {
    assert_eq!(count_from_digits(Some("14")), Ok(14));
    assert_eq!(count_from_digits(Some("x")), Err(ExtractError::InvalidNumber));
    assert_eq!(count_from_digits(None), Err(ExtractError::InvalidNumber));
}

fn detail_page(outline: &str, syllabus: &str) -> String {
    format!(
        "<!DOCTYPE html><html><head><title>t</title></head><body>\
         <div class=\"page-title-area\"><h3> 2023年度　機械力学&nbsp;&nbsp;&nbsp;Engineering Mechanics </h3></div>\
         <div class=\"gaiyo-data\">{}</div>\
         <div id=\"overview\">{}</div>\
         </body></html>",
        outline, syllabus
    )
}

fn outline() -> String {
    [
        "<dl><dt>開講元</dt><dd> 機械系 </dd></dl>",
        "<dl><dt>担当教員名</dt><dd><a href=\"/index.php?lecturer=1\">山田 太郎</a>&nbsp;&nbsp;<a href=\"/index.php?lecturer=2&amp;lang=JA\"> 鈴木 花子 </a></dd></dl>",
        "<dl><dt>授業形態</dt><dd> 講義 &nbsp;/ 演習\n (対面型) </dd></dl>",
        "<dl><dt>メディア利用科目</dt><dd></dd></dl>",
        "<dl><dt>曜日・時限(講義室)</dt><dd>月3-4(W621)&nbsp;&nbsp;木1-4(W9-324)</dd></dl>",
        "<dl><dt>クラス</dt><dd>-</dd></dl>",
        "<dl><dt>科目コード</dt><dd>MEC.A201</dd></dl>",
        "<dl><dt>単位数</dt><dd>2</dd></dl>",
        "<dl><dt>開講年度</dt><dd>2023年度</dd></dl>",
        "<dl><dt>開講クォーター</dt><dd>3-4Q</dd></dl>",
        "<dl><dt>シラバス更新日</dt><dd>2023年3月20日</dd></dl>",
        "<dl><dt>講義資料更新日</dt><dd>-</dd></dl>",
        "<dl><dt>使用言語</dt><dd>日本語</dd></dl>",
    ]
    .concat()
}

fn syllabus() -> String {
    [
        "<div class=\"cont-sec\"><h3>講義の概要とねらい</h3><p> 質点と剛体の力学を学ぶ。 </p></div>",
        "<div><h3>到達目標</h3><p>運動方程式を立てられる。</p></div>",
        "<div><h3>キーワード</h3><p>機械,制御，設計</p></div>",
        "<div><h3>学生が身につける力</h3><span class=\"skill_checked2\">専門力</span><span class=\"skill\">教養力</span><span class=\"skill_checked2\"> 展開力 </span></div>",
        "<div><h3>授業の進め方</h3><p>講義と演習</p></div>",
        "<div><h3>授業計画・課題</h3><table><thead><tr><th>回</th><th>授業計画</th><th>課題</th></tr></thead>\
         <tbody><tr><td class=\"number_of_times\">第1回</td><td class=\"plan\"> 序論 </td><td class=\"assignment\">第1章を読む</td></tr>\
         <tr><td class=\"number_of_times\">第2回</td><td class=\"plan\">運動方程式</td><td class=\"assignment\"></td></tr></tbody></table></div>",
        "<div><h3>授業時間外学修</h3><p>予習と復習</p></div>",
        "<div><h3>教科書</h3><p>指定なし</p></div>",
        "<div><h3>参考書</h3><p>力学入門</p></div>",
        "<div><h3>成績評価</h3><p>期末試験</p></div>",
        "<div><h3>関連する科目</h3><ul><li>MEC.A101 ： 力学基礎</li><li>MEC.B2</li></ul></div>",
        "<div><h3>履修の条件</h3><p>なし</p></div>",
        "<div><h3>連絡先</h3><p>yamada[at]example.org</p></div>",
        "<div><h3>オフィスアワー</h3><p>随時</p></div>",
        "<div><h3>その他</h3><p>特になし</p></div>",
    ]
    .concat()
}

fn expected_course() -> Course {
    Course {
        university: "東京工業大学".to_string(),
        title: "機械力学".to_string(),
        english_title: "Engineering Mechanics".to_string(),
        department: "機械系".to_string(),
        lecturer: vec![
            Lecturer {
                name: "山田 太郎".to_string(),
                url: "https://www.ocw.titech.ac.jp//index.php?lecturer=1".to_string(),
            },
            Lecturer {
                name: "鈴木 花子".to_string(),
                url: "https://www.ocw.titech.ac.jp//index.php?lecturer=2&lang=JA".to_string(),
            },
        ],
        lecture_type: "講義/演習(対面型)".to_string(),
        time_table: vec![
            TimeTable { day: Day::Monday, period: Period::Second, room: "W621".to_string() },
            TimeTable { day: Day::Thursday, period: Period::First, room: "W9-324".to_string() },
            TimeTable { day: Day::Thursday, period: Period::Second, room: "W9-324".to_string() },
        ],
        code: "MEC.A201".to_string(),
        credit: 2,
        year: 2023,
        semester: vec![Semester::Third, Semester::Fourth],
        language: "日本語".to_string(),
        url: String::new(),
        sylbs_update: String::new(),
        course_detail: CourseDetail {
            abst: "質点と剛体の力学を学ぶ。".to_string(),
            goal: "運動方程式を立てられる。".to_string(),
            experience: false,
            keyword: words(&["機械", "制御", "設計"]),
            competencies: words(&["専門力", "展開力"]),
            flow: "講義と演習".to_string(),
            schedule: vec![
                LecturePlan {
                    count: 1,
                    plan: "序論".to_string(),
                    assignment: "第1章を読む".to_string(),
                },
                LecturePlan { count: 2, plan: "運動方程式".to_string(), assignment: String::new() },
            ],
            out_of_class: "予習と復習".to_string(),
            textbook: "指定なし".to_string(),
            reference_book: "力学入門".to_string(),
            assessment: "期末試験".to_string(),
            related_course: words(&["MEC.A101", "MEC.B2"]),
            prerequisite: "なし".to_string(),
            contact: "yamada[at]example.org".to_string(),
            office_hour: "随時".to_string(),
            note: "特になし".to_string(),
        },
    }
}

#[test]
fn detail_page_is_decoded_in_full() {
    let page = detail_page(&outline(), &syllabus());
    assert_eq!(html_to_course(&page), Ok(expected_course()));
}

#[test]
fn detail_page_with_short_syllabus_has_empty_fields() {
    let short = [
        "<div><h3>講義の概要とねらい</h3><p>概要のみ</p></div>",
        "<div><h3>到達目標</h3><p>目標</p></div>",
    ]
    .concat();
    let page = detail_page(&outline(), &short);
    let mut expected = expected_course();
    expected.course_detail = CourseDetail {
        abst: "概要のみ".to_string(),
        goal: "目標".to_string(),
        experience: false,
        keyword: Vec::new(),
        competencies: Vec::new(),
        flow: String::new(),
        schedule: Vec::new(),
        out_of_class: String::new(),
        textbook: String::new(),
        reference_book: String::new(),
        assessment: String::new(),
        related_course: Vec::new(),
        prerequisite: String::new(),
        contact: String::new(),
        office_hour: String::new(),
        note: String::new(),
    };
    assert_eq!(html_to_course(&page), Ok(expected));
}

#[test]
fn detail_page_with_empty_syllabus_section() {
    let page = detail_page(&outline(), "");
    let course = html_to_course(&page).unwrap();
    assert_eq!(course.course_detail.abst, "");
    assert_eq!(course.course_detail.keyword, Vec::<String>::new());
    assert_eq!(course.course_detail.schedule, Vec::<LecturePlan>::new());
    assert!(!course.course_detail.experience);
    assert_eq!(course.code, "MEC.A201");
}

#[test]
fn syllabus_block_without_its_paragraph_is_empty() {
    let blocks = [
        "<div><h3>講義の概要とねらい</h3></div>",
        "<div><h3>到達目標</h3><p>目標</p></div>",
        "<div><h3>キーワード</h3></div>",
        "<div></div>",
        "<div></div>",
        "<div><h3>授業計画・課題</h3></div>",
    ]
    .concat();
    let course = html_to_course(&detail_page(&outline(), &blocks)).unwrap();
    assert_eq!(course.course_detail.abst, "");
    assert_eq!(course.course_detail.goal, "目標");
    assert_eq!(course.course_detail.keyword, Vec::<String>::new());
    assert_eq!(course.course_detail.competencies, Vec::<String>::new());
    assert_eq!(course.course_detail.schedule, Vec::<LecturePlan>::new());
}

#[test]
fn plan_row_without_cells_has_number_zero_and_empty_texts() {
    let blocks = [
        "<div><p>a</p></div><div><p>b</p></div><div><p>c</p></div><div></div><div><p>e</p></div>",
        "<div><table><tbody><tr><td>no marked cells</td></tr></tbody></table></div>",
    ]
    .concat();
    let course = html_to_course(&detail_page(&outline(), &blocks)).unwrap();
    assert_eq!(
        course.course_detail.schedule,
        vec![LecturePlan { count: 0, plan: String::new(), assignment: String::new() }]
    );
}

#[test]
fn plan_row_whose_number_cannot_be_read_refuses_the_page() {
    let blocks = [
        "<div><p>a</p></div><div><p>b</p></div><div><p>c</p></div><div></div><div><p>e</p></div>",
        "<div><table><tbody><tr><td class=\"number_of_times\">初回</td><td class=\"plan\">x</td></tr></tbody></table></div>",
    ]
    .concat();
    assert_eq!(
        html_to_course(&detail_page(&outline(), &blocks)),
        Err(ExtractError::InvalidNumber)
    );
}

#[test]
fn detail_page_without_title_area_is_refused() {
    let page = format!(
        "<html><body><div class=\"gaiyo-data\">{}</div><div id=\"overview\">{}</div></body></html>",
        outline(),
        syllabus()
    );
    assert_eq!(html_to_course(&page), Err(ExtractError::MissingElement));
}

#[test]
fn detail_page_with_malformed_title_is_refused() {
    let page = format!(
        "<html><body><div class=\"page-title-area\"><h3>機械力学</h3></div>\
         <div class=\"gaiyo-data\">{}</div><div id=\"overview\">{}</div></body></html>",
        outline(),
        syllabus()
    );
    assert_eq!(html_to_course(&page), Err(ExtractError::MalformedTitle));
}

#[test]
fn detail_page_with_short_outline_is_refused() {
    let twelve = [
        "<dl><dd>機械系</dd></dl>",
        "<dl><dd></dd></dl>",
        "<dl><dd>講義</dd></dl>",
        "<dl><dd></dd></dl>",
        "<dl><dd></dd></dl>",
        "<dl><dd></dd></dl>",
        "<dl><dd>MEC.A201</dd></dl>",
        "<dl><dd>2</dd></dl>",
        "<dl><dd>2023年度</dd></dl>",
        "<dl><dd>3Q</dd></dl>",
        "<dl><dd></dd></dl>",
        "<dl><dd></dd></dl>",
    ]
    .concat();
    assert_eq!(html_to_course(&detail_page(&twelve, &syllabus())), Err(ExtractError::MissingElement));
    assert_eq!(html_to_course(&detail_page("", &syllabus())), Err(ExtractError::MissingElement));
}

#[test]
fn detail_page_with_entry_without_value_is_refused() {
    let broken = outline().replace("<dd>MEC.A201</dd>", "<dt>MEC.A201</dt>");
    assert_eq!(html_to_course(&detail_page(&broken, &syllabus())), Err(ExtractError::MissingElement));
}

#[test]
fn detail_page_without_outline_or_syllabus_is_refused() {
    let no_outline = format!(
        "<html><body><div class=\"page-title-area\"><h3>1234567A&nbsp;&nbsp;&nbsp;B</h3></div>\
         <div id=\"overview\">{}</div></body></html>",
        syllabus()
    );
    assert_eq!(html_to_course(&no_outline), Err(ExtractError::MissingElement));
    let no_syllabus = format!(
        "<html><body><div class=\"page-title-area\"><h3>1234567A&nbsp;&nbsp;&nbsp;B</h3></div>\
         <div class=\"gaiyo-data\">{}</div></body></html>",
        outline()
    );
    assert_eq!(html_to_course(&no_syllabus), Err(ExtractError::MissingElement));
}

#[test]
fn detail_page_with_bad_numbers_is_refused() {
    let bad_credit = outline().replace("<dd>2</dd>", "<dd>two</dd>");
    assert_eq!(
        html_to_course(&detail_page(&bad_credit, &syllabus())),
        Err(ExtractError::InvalidNumber)
    );
    let bad_year = outline().replace("<dd>2023年度</dd>", "<dd>令和5年度</dd>");
    assert_eq!(
        html_to_course(&detail_page(&bad_year, &syllabus())),
        Err(ExtractError::InvalidNumber)
    );
}

#[test]
fn detail_page_with_timetable_group_without_room_is_refused() {
    let no_room = outline().replace("月3-4(W621)", "月3-4");
    assert_eq!(html_to_course(&detail_page(&no_room, &syllabus())), Err(ExtractError::MissingRoom));
}

#[test]
fn detail_page_with_lecturer_link_without_target_is_refused() {
    let no_target = outline().replace("<a href=\"/index.php?lecturer=1\">", "<a>");
    assert_eq!(
        html_to_course(&detail_page(&no_target, &syllabus())),
        Err(ExtractError::MissingLink)
    );
}

#[test]
fn detail_page_with_empty_timetable_has_no_slots() {
    let empty = outline().replace("月3-4(W621)&nbsp;&nbsp;木1-4(W9-324)", "");
    let course = html_to_course(&detail_page(&empty, &syllabus())).unwrap();
    assert_eq!(course.time_table, Vec::<TimeTable>::new());
}

#[test]
fn first_failure_in_page_order_is_reported() {
    let both = outline().replace("<dd>2</dd>", "<dd>two</dd>").replace("月3-4(W621)", "月3-4");
    assert_eq!(html_to_course(&detail_page(&both, &syllabus())), Err(ExtractError::MissingRoom));
}

#[test]
fn detail_page_longer_than_the_parser_is_given_is_refused_unread() {
    let page = "\u{6708}".repeat(MAX_PAGE_LENGTH + 1);
    assert_eq!(html_to_course(&page), Err(ExtractError::PageTooLong));
}
