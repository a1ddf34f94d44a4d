use daynotes::clock::current_date;
use daynotes::date::Date;
use daynotes::errors::{error_context, error_page_outcome, fallback_page, u16_to_string};
use daynotes::handler::{
    consume_prefix, error_template, get_note_context, note_page_outcome, note_routes,
    note_template, plan_request, post_boundary, post_outcome, GetFault, HeaderText, Method, Plan,
};
use daynotes::note::{note_key, note_text, NoteError, ReadOutcome};
use daynotes::router::Router;

fn router() -> Router {
    Router::new(note_routes()).unwrap()
}

#[test]
fn get_note_on_empty_store_builds_a_200_page_with_empty_text() {
    let plan = plan_request(&router(), &Method::Get, "/note/2023-01-05", &HeaderText::Missing);
    let date = match plan {
        Plan::GetNote { date } => date,
        other => panic!("expected a note read, got {:?}", other),
    };
    assert_eq!(date, Date::new(2023, 1, 5));
    let today = Date::new(2024, 6, 1);
    let ctx = get_note_context(&date, &today, ReadOutcome::Absent).unwrap();
    let text = ctx.iter().find(|(k, _)| k == "text").map(|(_, v)| v.clone()).unwrap();
    assert_eq!(text, "");
    let resp = note_page_outcome(Some("rendered page".to_string())).unwrap();
    assert_eq!(resp.status, 200);
    assert_eq!(resp.body, "rendered page");
}

#[test]
fn get_note_with_impossible_date_is_a_400() {
    let plan = plan_request(&router(), &Method::Get, "/note/2023-13-40", &HeaderText::Missing);
    assert!(matches!(plan, Plan::Respond(400)));
}

#[test]
fn unknown_path_is_a_404() {
    let plan = plan_request(&router(), &Method::Get, "/unknown/path", &HeaderText::Missing);
    assert!(matches!(plan, Plan::Respond(404)));
}

#[test]
fn trailing_newline_is_stripped() {
    let r = note_text(ReadOutcome::Found("hello\n".to_string()));
    assert_eq!(r, Ok("hello".to_string()));
}

#[test]
fn note_without_trailing_newline_is_corrupt() {
    assert_eq!(note_text(ReadOutcome::Found("hello".to_string())), Err(NoteError::Corrupt));
    assert_eq!(note_text(ReadOutcome::Found("".to_string())), Err(NoteError::Corrupt));
    assert_eq!(note_text(ReadOutcome::Found("a\nb".to_string())), Err(NoteError::Corrupt));
}

#[test]
fn only_the_last_newline_is_stripped() {
    assert_eq!(note_text(ReadOutcome::Found("a\nb\n".to_string())), Ok("a\nb".to_string()));
    assert_eq!(note_text(ReadOutcome::Found("\n".to_string())), Ok("".to_string()));
}

#[test]
fn absent_note_reads_as_empty() {
    assert_eq!(note_text(ReadOutcome::Absent), Ok(String::new()));
}

#[test]
fn failed_read_is_a_server_fault() {
    assert_eq!(note_text(ReadOutcome::Failure), Err(NoteError::Io));
}

#[test]
fn note_context_carries_navigation_dates() {
    let date = Date::new(2024, 2, 29);
    let today = Date::new(2024, 6, 1);
    let ctx = get_note_context(&date, &today, ReadOutcome::Found("x\n".to_string())).unwrap();
    let get = |k: &str| ctx.iter().find(|(key, _)| key == k).map(|(_, v)| v.clone()).unwrap();
    assert_eq!(get("date"), "2024-02-29");
    assert_eq!(get("today"), "2024-06-01");
    assert_eq!(get("prev"), "2024-02-28");
    assert_eq!(get("next"), "2024-03-01");
    assert_eq!(get("text"), "x");
}

#[test]
fn note_context_faults_map_to_500() {
    let date = Date::new(2023, 1, 5);
    let today = Date::new(2023, 1, 5);
    assert_eq!(
        get_note_context(&date, &today, ReadOutcome::Failure),
        Err(GetFault::Io)
    );
    assert_eq!(
        get_note_context(&date, &today, ReadOutcome::Found("bad".to_string())),
        Err(GetFault::Corrupt)
    );
    assert_eq!(
        get_note_context(&Date::new(9999, 12, 31), &today, ReadOutcome::Absent),
        Err(GetFault::OutOfRange)
    );
}

#[test]
fn render_failure_of_the_note_page_hands_500_on() {
    assert_eq!(note_page_outcome(None).err(), Some(500));
}

#[test]
fn post_with_wrong_content_type_is_a_400() {
    let ct = HeaderText::Text("text/plain".to_string());
    let plan = plan_request(&router(), &Method::Post, "/note/2023-01-05", &ct);
    assert!(matches!(plan, Plan::Respond(400)));
    let missing = plan_request(&router(), &Method::Post, "/note/2023-01-05", &HeaderText::Missing);
    assert!(matches!(missing, Plan::Respond(400)));
    let raw = plan_request(&router(), &Method::Post, "/note/2023-01-05", &HeaderText::NotText);
    assert!(matches!(raw, Plan::Respond(400)));
}

#[test]
fn post_with_multipart_header_stages_the_body_and_ends_in_500() {
    let ct = HeaderText::Text("multipart/form-data; boundary=XYZ".to_string());
    let plan = plan_request(&router(), &Method::Post, "/note/2023-01-05", &ct);
    match plan {
        Plan::PostNote { date, boundary } => {
            assert_eq!(date, Date::new(2023, 1, 5));
            assert_eq!(boundary, "--XYZ");
        },
        other => panic!("expected a body read, got {:?}", other),
    }
    assert_eq!(post_outcome(Some(b"anything".to_vec())), 500);
    assert_eq!(post_outcome(None), 500);
}

#[test]
fn other_methods_on_the_note_route_are_a_500() {
    let plan = plan_request(&router(), &Method::Other, "/note/2023-01-05", &HeaderText::Missing);
    assert!(matches!(plan, Plan::Respond(500)));
}

#[test]
fn boundary_is_the_token_behind_two_dashes() {
    let ct = HeaderText::Text("multipart/form-data; boundary=abc123".to_string());
    assert_eq!(post_boundary(&ct), Some("--abc123".to_string()));
    assert_eq!(post_boundary(&HeaderText::Text("multipart/mixed; boundary=a".to_string())), None);
    assert_eq!(post_boundary(&HeaderText::Missing), None);
    assert_eq!(post_boundary(&HeaderText::NotText), None);
}

#[test]
fn consume_prefix_splits_or_refuses() {
    assert_eq!(consume_prefix("multipart/form-data; boundary=Q", "multipart/form-data; boundary="), Some("Q"));
    assert_eq!(consume_prefix("abc", "abc"), Some(""));
    assert_eq!(consume_prefix("abc", "abcd"), None);
    assert_eq!(consume_prefix("abc", "b"), None);
    assert_eq!(consume_prefix("abc", ""), Some("abc"));
}

#[test]
fn error_page_uses_the_requested_status_when_rendering_works() {
    let r = error_page_outcome(404, Some("<html>missing</html>".to_string()));
    assert_eq!(r.status, 404);
    assert_eq!(r.body, "<html>missing</html>");
}

#[test]
fn failed_renderer_falls_back_to_the_fixed_500_page() {
    let r = error_page_outcome(404, None);
    assert_eq!(r.status, 500);
    assert_eq!(r.body, fallback_page().body);
    assert!(r.body.starts_with("<!DOCTYPE html>"));
    assert!(r.body.contains("Server error while generating error page"));
}

#[test]
fn error_context_names_the_code() {
    let ctx = error_context(404);
    assert_eq!(ctx.len(), 3);
    assert_eq!(ctx[0], ("title".to_string(), "Error (404)".to_string()));
    assert_eq!(ctx[1], ("style".to_string(), "".to_string()));
    assert_eq!(ctx[2], ("body".to_string(), "<h1>Error: HTTP 404</h1>".to_string()));
}

#[test]
fn decimal_writing_is_exact() {
    assert_eq!(u16_to_string(0), "0");
    assert_eq!(u16_to_string(7), "7");
    assert_eq!(u16_to_string(500), "500");
    assert_eq!(u16_to_string(65535), "65535");
}

#[test]
fn note_key_is_under_the_notes_directory() {
    assert_eq!(note_key(&Date::new(2023, 1, 5)), "data/notes/2023-01-05");
}

#[test]
fn template_names_are_fixed() {
    assert_eq!(note_template(), "tmpl/note.html");
    assert_eq!(error_template(), "tmpl/top.html");
}

#[test]
fn the_clock_yields_a_valid_date() {
    let d = current_date();
    assert!(d.year <= 9999);
    assert!((1..=12).contains(&d.month));
    assert!((1..=31).contains(&d.day));
    assert!(Date::parse(&d.format()) == Ok(d));
}
