use course_catalog::database::{get_course, should_ingest, Store};
use course_catalog::markup::MAX_PAGE_LENGTH;
use course_catalog::ingest::{complete_course, ingest_page, plan_ingest, IngestAction, IngestError};
use course_catalog::scrape::{html_to_course, html_to_course_abstracts, ExtractError};
use course_catalog::CourseAbstract;

fn listing(update: &str) -> String {
    format!(
        "<html><body><div class=\"ranking-list\"><table><tbody>\
         <tr><td class=\"code\"></td><td class=\"course_title\"><a href=\"/none\">準備中</a></td>\
         <td class=\"lecturer\"></td><td class=\"opening_department\"></td>\
         <td class=\"start\"></td><td class=\"sylbs\"></td></tr>\
         <tr><td class=\"code\">MEC.A201</td>\
         <td class=\"course_title\"><a href=\"/index.php?JWC=1\">機械力学</a></td>\
         <td class=\"lecturer\"><a href=\"/l1\">山田 太郎</a></td>\
         <td class=\"opening_department\"><a href=\"/d\">機械系</a></td>\
         <td class=\"start\">3Q</td><td class=\"sylbs\">{}</td></tr>\
         </tbody></table></div></body></html>",
        update
    )
}

fn detail() -> String {
    let entries = [
        "機械系",
        "<a href=\"/l1\">山田 太郎</a>",
        "講義",
        "",
        "月3-4(W621)",
        "",
        "MEC.A201",
        "2",
        "2023年度",
        "3Q",
        "",
        "",
        "日本語",
    ];
    let outline: String =
        entries.iter().map(|value| format!("<dl><dt>x</dt><dd>{}</dd></dl>", value)).collect();
    format!(
        "<html><body><div class=\"page-title-area\"><h3>2023年度　機械力学&nbsp;&nbsp;&nbsp;Mechanics</h3></div>\
         <div class=\"gaiyo-data\">{}</div>\
         <div id=\"overview\"><div><p>概要</p></div></div></body></html>",
        outline
    )
}

fn ingest_listing(store: &mut Store, listing_page: &str, fetched: &mut Vec<String>) {
    let summaries = html_to_course_abstracts(listing_page).unwrap();
    for summary in &summaries {
        match plan_ingest(store, summary) {
            IngestAction::Fetch { url } => {
                fetched.push(url);
                ingest_page(store, summary, &detail()).unwrap();
            }
            IngestAction::SkipUnlisted | IngestAction::SkipUnchanged => {}
        }
    }
}

#[test]
fn row_without_code_is_not_fetched() {
    let store = Store::new();
    let summaries = html_to_course_abstracts(&listing("2023/3/20")).unwrap();
    assert_eq!(summaries.len(), 2);
    assert_eq!(plan_ingest(&store, &summaries[0]), IngestAction::SkipUnlisted);
    assert_eq!(
        plan_ingest(&store, &summaries[1]),
        IngestAction::Fetch { url: "https://www.ocw.titech.ac.jp//index.php?JWC=1".to_string() }
    );
}

#[test]
fn unchanged_course_is_stored_once() {
    let mut store = Store::new();
    let mut fetched = Vec::new();
    ingest_listing(&mut store, &listing("2023/3/20"), &mut fetched);
    ingest_listing(&mut store, &listing("2023/3/20"), &mut fetched);
    assert_eq!(fetched, vec!["https://www.ocw.titech.ac.jp//index.php?JWC=1".to_string()]);
    assert_eq!(store.courses().len(), 1);
    assert_eq!(store.courses()[0].code, "MEC.A201");
    assert_eq!(store.lecturers().len(), 1);
    let summaries = html_to_course_abstracts(&listing("2023/3/20")).unwrap();
    assert_eq!(plan_ingest(&store, &summaries[1]), IngestAction::SkipUnchanged);
}

#[test]
fn changed_course_is_stored_again() {
    let mut store = Store::new();
    let mut fetched = Vec::new();
    ingest_listing(&mut store, &listing("2023/3/20"), &mut fetched);
    ingest_listing(&mut store, &listing("2024/3/20"), &mut fetched);
    ingest_listing(&mut store, &listing("2024/3/20"), &mut fetched);
    assert_eq!(fetched.len(), 2);
    assert_eq!(store.courses().len(), 2);
    assert_eq!(store.courses()[1].sylbs_update, "2024/3/20");
    assert!(!should_ingest(&store, "MEC.A201", "機械力学", "2023/3/20"));
}

#[test]
fn ingested_course_carries_address_and_update_of_the_listing() {
    let mut store = Store::new();
    let summaries = html_to_course_abstracts(&listing("2023/3/20")).unwrap();
    assert_eq!(ingest_page(&mut store, &summaries[1], &detail()), Ok(1));
    let stored = get_course(&store, 1).unwrap();
    assert_eq!(stored.url, "https://www.ocw.titech.ac.jp//index.php?JWC=1");
    assert_eq!(stored.sylbs_update, "2023/3/20");
    assert_eq!(stored.title, "機械力学");
    assert_eq!(stored.english_title, "Mechanics");
    assert_eq!(stored.course_detail.abst, "概要");
}

#[test]
fn completion_touches_only_address_and_update() {
    let summaries = html_to_course_abstracts(&listing("2023/3/20")).unwrap();
    let decoded = html_to_course(&detail()).unwrap();
    let completed = complete_course(decoded.clone(), &summaries[1]);
    let mut expected = decoded;
    expected.url = "https://www.ocw.titech.ac.jp//index.php?JWC=1".to_string();
    expected.sylbs_update = "2023/3/20".to_string();
    assert_eq!(completed, expected);
}

#[test]
fn page_that_cannot_be_decoded_leaves_the_store_alone() {
    let mut store = Store::new();
    let summary = CourseAbstract {
        code: "MEC.A201".to_string(),
        title: course_catalog::CourseTitle { title: "機械力学".to_string(), url: String::new() },
        lecturer: Vec::new(),
        department: String::new(),
        start: String::new(),
        sylbs_update: "2023/3/20".to_string(),
    };
    assert_eq!(
        ingest_page(&mut store, &summary, "<html><body></body></html>"),
        Err(IngestError::Page(ExtractError::MissingElement))
    );
    assert!(store.courses().is_empty());
    assert_eq!(plan_ingest(&store, &summary), IngestAction::Fetch { url: String::new() });
}

#[test]
fn page_longer_than_the_parser_is_given_leaves_the_store_alone() {
    let mut store = Store::new();
    let summaries = html_to_course_abstracts(&listing("2023/3/20")).unwrap();
    let page = " ".repeat(MAX_PAGE_LENGTH + 1);
    assert_eq!(
        ingest_page(&mut store, &summaries[1], &page),
        Err(IngestError::Page(ExtractError::PageTooLong))
    );
    assert!(store.courses().is_empty());
}
