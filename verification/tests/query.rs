use zeus::aur::pkg::By;
use zeus::config::options::QueryOptions;
use zeus::config::types::Output;
use zeus::error::{Error, ErrorExt};
use zeus::query::{format_timestamp, orphan_note, out_of_date_note, query_plan, QueryPlan};

#[test]
fn timestamps() {
    assert_eq!(format_timestamp(0).as_deref(), Some("Thu Jan  1 00:00:00 1970"));
    assert_eq!(format_timestamp(1431648000).as_deref(), Some("Fri May 15 00:00:00 2015"));
    assert_eq!(format_timestamp(u64::MAX), None);
    assert_eq!(format_timestamp(i64::MAX as u64), None);
}

#[test]
fn notes() {
    assert_eq!(out_of_date_note(format_timestamp(0)), " [out of date: Thu Jan  1 00:00:00 1970] ");
    assert_eq!(out_of_date_note(None), " [out of date: orphaned] ");
    assert_eq!(orphan_note(&None), " [orphan] ");
    assert_eq!(orphan_note(&Some("me".to_string())), "");
}

#[test]
fn query_plans() {
    let mut o = QueryOptions { info: false, by: By::NameDesc, output: Output::Pretty, keywords: vec![] };
    assert!(matches!(query_plan(&o), QueryPlan::ListLocal));
    o.keywords = vec!["zeus".to_string()];
    match query_plan(&o) {
        QueryPlan::Search(by, k) => {
            assert_eq!(by, By::NameDesc);
            assert_eq!(k, vec!["zeus".to_string()]);
        },
        _ => panic!("expected a search"),
    }
    o.info = true;
    assert!(matches!(query_plan(&o), QueryPlan::Info(_)));
}

#[test]
fn error_text() {
    assert_eq!(Error::new("boom").to_text(), "boom");
    assert_eq!(Error::new_with_context("boom", "loading").to_text(), "loading: boom");
    assert_eq!(Error::new("boom").context("saving").to_text(), "saving: boom");
}

#[test]
fn results_take_a_context() {
    let ok: Result<u8, String> = Ok(3);
    assert_eq!(ok.context("loading").unwrap(), 3);
    let failed: Result<u8, String> = Err("boom".to_string());
    assert_eq!(failed.context("loading").unwrap_err().to_text(), "loading: boom");
}
