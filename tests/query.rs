use transit_reload::dataset::{Dataset, Stop, StopLines};
use transit_reload::stoppoints_discovery::{
    bounding_box_matches, chars_of, contains_text, name_matches, select_stop_points, siri_response,
    AnnotatedStopPoint, Params,
};

fn stop(id: &str, name: &str, longitude: i64, latitude: i64) -> Stop {
    Stop { id: id.to_string(), name: name.to_string(), longitude, latitude }
}

fn params(q: Option<&str>) -> Params {
    Params {
        q: q.map(|s| s.to_string()),
        upper_left_longitude: None,
        upper_left_latitude: None,
        lower_right_longitude: None,
        lower_right_latitude: None,
    }
}

fn two_stops() -> Dataset {
    Dataset {
        stops: vec![
            stop("A", "Central Station", 10, 20),
            stop("B", "Harbour", 30, 40),
        ],
        lines_of_stops: vec![
            StopLines { stop_id: "B".to_string(), lines: vec!["L9".to_string()] },
            StopLines { stop_id: "A".to_string(), lines: vec!["L1".to_string(), "L2".to_string()] },
        ],
    }
}

#[test]
fn name_filter_ignores_case() {
    let s = stop("A", "Central Station", 0, 0);
    assert!(name_matches(&s, "central"));
    assert!(name_matches(&s, "station"));
    assert!(name_matches(&s, ""));
    assert!(!name_matches(&s, "harbour"));
}

#[test]
fn upper_case_name_is_lowercased() {
    let s = stop("G", "GARE", 0, 0);
    assert!(name_matches(&s, "gare"));
}

#[test]
fn contains_text_cases() {
    assert!(contains_text("abc", ""));
    assert!(contains_text("abc", "abc"));
    assert!(contains_text("abcabd", "abd"));
    assert!(!contains_text("ab", "abc"));
    assert!(!contains_text("", "a"));
    assert!(contains_text("", ""));
}

#[test]
fn chars_of_keeps_order() {
    assert_eq!(chars_of("héllo"), vec!['h', 'é', 'l', 'l', 'o']);
    assert!(chars_of("").is_empty());
}

#[test]
fn absent_box_matches_everywhere() {
    let far = stop("X", "x", i64::MAX, i64::MIN);
    assert!(bounding_box_matches(&far, None, None, None, None));
    let odd = stop("Y", "y", 2_000_000_000, -1_000_000_000);
    assert!(bounding_box_matches(&odd, None, None, None, None));
}

#[test]
fn box_bounds_are_inclusive() {
    let s = stop("A", "a", 10, 20);
    assert!(bounding_box_matches(&s, Some(10), Some(10), Some(20), Some(20)));
    assert!(!bounding_box_matches(&s, Some(11), None, None, None));
    assert!(!bounding_box_matches(&s, None, Some(9), None, None));
    assert!(!bounding_box_matches(&s, None, None, Some(21), None));
    assert!(!bounding_box_matches(&s, None, None, None, Some(19)));
}

#[test]
fn annotated_stop_takes_lines_from_index() {
    let d = two_stops();
    let a = AnnotatedStopPoint::from(&d.stops[0], &d);
    assert_eq!(a.stop_point_ref, "A");
    assert_eq!(a.stop_name, "Central Station");
    let lines: Vec<String> = a.lines.iter().map(|l| l.line_ref.clone()).collect();
    assert_eq!(lines, vec!["L1".to_string(), "L2".to_string()]);
    assert_eq!(a.location.longitude, 10);
    assert_eq!(a.location.latitude, 20);
}

#[test]
fn stop_missing_from_index_has_no_lines() {
    let d = Dataset { stops: vec![stop("Z", "Zed", 0, 0)], lines_of_stops: vec![] };
    let a = AnnotatedStopPoint::from(&d.stops[0], &d);
    assert!(a.lines.is_empty());
}

#[test]
fn selection_applies_both_filters_in_order() {
    let d = two_stops();
    let all = select_stop_points(&d, "", &params(None));
    assert_eq!(all.len(), 2);
    assert_eq!(all[0].stop_point_ref, "A");
    assert_eq!(all[1].stop_point_ref, "B");
    let named = select_stop_points(&d, "harb", &params(None));
    assert_eq!(named.len(), 1);
    assert_eq!(named[0].stop_point_ref, "B");
    let mut boxed = params(None);
    boxed.upper_left_longitude = Some(0);
    boxed.lower_right_longitude = Some(15);
    let in_box = select_stop_points(&d, "", &boxed);
    assert_eq!(in_box.len(), 1);
    assert_eq!(in_box[0].stop_point_ref, "A");
    let none = select_stop_points(&d, "harb", &boxed);
    assert!(none.is_empty());
}

#[test]
fn response_lowercases_query() {
    let d = two_stops();
    let r = siri_response(Some(&d), &params(Some("CENTRAL")), "t0".to_string());
    let body = r.stop_points_delivery;
    assert!(body.status);
    assert_eq!(body.response_time_stamp, "t0");
    assert_eq!(body.annotated_stop_point.len(), 1);
    assert_eq!(body.annotated_stop_point[0].stop_point_ref, "A");
}

#[test]
fn response_without_dataset_is_unavailable() {
    let r = siri_response(None, &params(None), "t1".to_string());
    let body = r.stop_points_delivery;
    assert!(!body.status);
    assert!(body.error_condition.is_some());
    assert!(body.annotated_stop_point.is_empty());
    assert_eq!(body.version, "2.0");
}
