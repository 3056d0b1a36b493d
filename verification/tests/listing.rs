use course_catalog::markup::MAX_PAGE_LENGTH;
use course_catalog::scrape::list::{html_to_course_abstracts, CourseAbstract};
use course_catalog::scrape::{CourseTitle, ExtractError, Lecturer};

fn listing_page(rows: &str) -> String {
    format!(
        "<!DOCTYPE html><html><head><title>t</title></head><body>\
         <div class=\"ranking-list\"><table>\
         <thead><tr><th class=\"code\">科目コード</th><th>科目名</th></tr></thead>\
         <tbody>{}</tbody></table></div></body></html>",
        rows
    )
}

fn full_row() -> String {
    [
        "<tr>",
        "<td class=\"code\"> MEC.A201 </td>",
        "<td class=\"course_title\"><a href=\"/index.php?module=General&amp;action=T0300&amp;JWC=202302253\"> 機械力学 </a></td>",
        "<td class=\"lecturer\"><a href=\"/index.php?lecturer=1\">山田 太郎</a> <a href=\"/index.php?lecturer=2\">鈴木 花子</a></td>",
        "<td class=\"opening_department\"><a href=\"/dep\">機械系</a></td>",
        "<td class=\"start\">3Q</td>",
        "<td class=\"sylbs\">2023/3/20</td>",
        "</tr>",
    ]
    .concat()
}

fn bare_row() -> String {
    [
        "<tr>",
        "<td class=\"code\"></td>",
        "<td class=\"course_title\">未定の科目</td>",
        "<td class=\"lecturer\"></td>",
        "<td class=\"opening_department\"></td>",
        "<td class=\"start\"></td>",
        "<td class=\"sylbs\"></td>",
        "</tr>",
    ]
    .concat()
}

fn full_abstract() -> CourseAbstract {
    CourseAbstract {
        code: "MEC.A201".to_string(),
        title: CourseTitle {
            title: "機械力学".to_string(),
            url: "https://www.ocw.titech.ac.jp//index.php?module=General&action=T0300&JWC=202302253"
                .to_string(),
        },
        lecturer: vec![
            Lecturer {
                name: "山田 太郎".to_string(),
                url: "https://www.ocw.titech.ac.jp//index.php?lecturer=1".to_string(),
            },
            Lecturer {
                name: "鈴木 花子".to_string(),
                url: "https://www.ocw.titech.ac.jp//index.php?lecturer=2".to_string(),
            },
        ],
        department: "機械系".to_string(),
        start: "3Q".to_string(),
        sylbs_update: "2023/3/20".to_string(),
    }
}

fn bare_abstract() -> CourseAbstract {
    CourseAbstract {
        code: String::new(),
        title: CourseTitle { title: String::new(), url: String::new() },
        lecturer: Vec::new(),
        department: String::new(),
        start: String::new(),
        sylbs_update: String::new(),
    }
}

#[test]
fn listing_rows_are_decoded_in_order() {
    let page = listing_page(&[full_row(), bare_row()].concat());
    assert_eq!(html_to_course_abstracts(&page), Ok(vec![full_abstract(), bare_abstract()]));
}

#[test]
fn row_without_code_is_kept() {
    let page = listing_page(&[bare_row(), full_row(), bare_row()].concat());
    let courses = html_to_course_abstracts(&page).unwrap();
    assert_eq!(courses.len(), 3);
    assert_eq!(courses[0].code, "");
    assert_eq!(courses[1].code, "MEC.A201");
    assert_eq!(courses[2].code, "");
}

#[test]
fn listing_without_rows_is_empty() {
    assert_eq!(html_to_course_abstracts(&listing_page("")), Ok(vec![]));
}

#[test]
fn one_lecturer_for_each_link() {
    for n in 0..5 {
        let links: String =
            (0..n).map(|i| format!("<a href=\"/l{}\">L{}</a>", i, i)).collect::<Vec<_>>().concat();
        let row = full_row().replace(
            "<a href=\"/index.php?lecturer=1\">山田 太郎</a> <a href=\"/index.php?lecturer=2\">鈴木 花子</a>",
            &links,
        );
        let courses = html_to_course_abstracts(&listing_page(&row)).unwrap();
        assert_eq!(courses[0].lecturer.len(), n);
        for i in 0..n {
            assert_eq!(courses[0].lecturer[i].name, format!("L{}", i));
            assert_eq!(courses[0].lecturer[i].url, format!("https://www.ocw.titech.ac.jp//l{}", i));
        }
    }
}

#[test]
fn title_takes_the_first_link_only() {
    let row = full_row().replace(
        "<td class=\"course_title\">",
        "<td class=\"course_title\"><a href=\"/first\">第一</a>",
    );
    let courses = html_to_course_abstracts(&listing_page(&row)).unwrap();
    assert_eq!(
        courses[0].title,
        CourseTitle { title: "第一".to_string(), url: "https://www.ocw.titech.ac.jp//first".to_string() }
    );
}

#[test]
fn page_without_listing_is_refused() {
    assert_eq!(
        html_to_course_abstracts("<html><body><p>nothing here</p></body></html>"),
        Err(ExtractError::MissingElement)
    );
    assert_eq!(html_to_course_abstracts(""), Err(ExtractError::MissingElement));
    assert_eq!(
        html_to_course_abstracts("<html><body><div class=\"ranking-list\"></div></body></html>"),
        Err(ExtractError::MissingElement)
    );
}

#[test]
fn row_without_one_of_its_cells_is_refused() {
    let row = full_row().replace("<td class=\"start\">3Q</td>", "");
    assert_eq!(html_to_course_abstracts(&listing_page(&row)), Err(ExtractError::MissingElement));
    let page = listing_page(&[full_row(), "<tr><td>stray</td></tr>".to_string()].concat());
    assert_eq!(html_to_course_abstracts(&page), Err(ExtractError::MissingElement));
}

#[test]
fn link_without_target_is_refused() {
    let title = full_row().replace(
        "<a href=\"/index.php?module=General&amp;action=T0300&amp;JWC=202302253\">",
        "<a>",
    );
    assert_eq!(html_to_course_abstracts(&listing_page(&title)), Err(ExtractError::MissingLink));
    let lecturer = full_row().replace("<a href=\"/index.php?lecturer=2\">", "<a name=\"x\">");
    assert_eq!(html_to_course_abstracts(&listing_page(&lecturer)), Err(ExtractError::MissingLink));
}

#[test]
fn missing_cell_is_reported_before_missing_target() {
    let row = full_row()
        .replace("<a href=\"/index.php?lecturer=2\">", "<a>")
        .replace("<td class=\"sylbs\">2023/3/20</td>", "");
    assert_eq!(html_to_course_abstracts(&listing_page(&row)), Err(ExtractError::MissingElement));
}

#[test]
fn only_the_first_table_body_is_read() {
    let page = format!(
        "<html><body><div class=\"ranking-list\"><table><tbody>{}</tbody></table>\
         <table><tbody>{}</tbody></table></div></body></html>",
        full_row(),
        bare_row()
    );
    assert_eq!(html_to_course_abstracts(&page), Ok(vec![full_abstract()]));
}

#[test]
fn listing_longer_than_the_parser_is_given_is_refused_unread() {
    let page = "a".repeat(MAX_PAGE_LENGTH + 1);
    assert_eq!(html_to_course_abstracts(&page), Err(ExtractError::PageTooLong));
}
