use daynotes::handler::note_routes;
use daynotes::router::{HandlerId, Router};

#[test]
fn note_route_dispatches_with_capture() {
    let router = Router::new(note_routes()).unwrap();
    let (h, caps) = router.match_path("/note/2023-01-05").unwrap();
    assert_eq!(h, HandlerId::Note);
    assert_eq!(caps[1], "2023-01-05");
}

#[test]
fn unmatched_path_is_a_miss() {
    let router = Router::new(note_routes()).unwrap();
    assert!(router.match_path("/unknown/path").is_none());
    assert!(router.match_path("/note/20xx-01-05").is_none());
    assert!(router.match_path("/").is_none());
}

#[test]
fn first_matching_route_wins() {
    let router = Router::new(vec![
        ("/note/([0-9]+)".to_string(), HandlerId::Note),
        ("/note/([a-z0-9-]+)".to_string(), HandlerId::Note),
    ])
    .unwrap();
    let (_, caps) = router.match_path("/note/12345").unwrap();
    assert_eq!(caps[1], "12345");
    let (_, caps) = router.match_path("/note/abc-1").unwrap();
    assert_eq!(caps[1], "abc-1");
}

#[test]
fn malformed_pattern_refuses_the_table() {
    assert!(Router::new(vec![("(".to_string(), HandlerId::Note)]).is_none());
    assert!(Router::new(vec![
        ("/note/([0-9]+)".to_string(), HandlerId::Note),
        ("[".to_string(), HandlerId::Note),
    ])
    .is_none());
}
