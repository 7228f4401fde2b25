use eng::solve::numeric::root_scan_result;
use eng::solve::study::{spill_layout, SpillCell, StudyRowShape, StudySampleStatus};

fn text(c: &SpillCell) -> Option<&str> {
    match c {
        SpillCell::Text(s) => Some(s.as_str()),
        _ => None,
    }
}

fn rows() -> Vec<StudyRowShape> {
    vec![
        StudyRowShape {
            sample_index: 0,
            status: StudySampleStatus::Evaluated,
            output_names: vec!["mach".to_string()],
            warnings: vec![],
            path_summary: Some("direct".to_string()),
            error: None,
        },
        StudyRowShape {
            sample_index: 1,
            status: StudySampleStatus::Failed,
            output_names: vec![],
            warnings: vec!["w1".to_string(), "w2".to_string()],
            path_summary: None,
            error: Some("no root".to_string()),
        },
    ]
}

#[test]
fn spill_layout_header_row() {
    let cols = vec!["mach".to_string(), "p_ratio".to_string()];
    let out = spill_layout("area_ratio", &cols, &rows(), true);
    assert_eq!(out.len(), 3);
    let header: Vec<Option<&str>> = out[0].iter().map(text).collect();
    assert_eq!(
        header,
        vec![
            Some("sample_index"),
            Some("area_ratio"),
            Some("status"),
            Some("mach"),
            Some("p_ratio"),
            Some("path"),
            Some("warnings"),
            Some("error")
        ]
    );
}

#[test]
fn spill_layout_rows_name_their_cells() {
    let cols = vec!["mach".to_string(), "p_ratio".to_string()];
    let out = spill_layout("area_ratio", &cols, &rows(), false);
    assert_eq!(out.len(), 2);
    let r0 = &out[0];
    assert_eq!(r0.len(), 8);
    assert!(matches!(r0[0], SpillCell::SampleIndex(0)));
    assert!(matches!(r0[1], SpillCell::SampleValue(0)));
    assert_eq!(text(&r0[2]), Some("ok"));
    assert!(matches!(r0[3], SpillCell::Output(0, 0)));
    assert!(matches!(r0[4], SpillCell::Empty));
    assert_eq!(text(&r0[5]), Some("direct"));
    assert!(matches!(r0[6], SpillCell::Empty));
    assert!(matches!(r0[7], SpillCell::Empty));
    let r1 = &out[1];
    assert!(matches!(r1[0], SpillCell::SampleIndex(1)));
    assert!(matches!(r1[1], SpillCell::SampleValue(1)));
    assert_eq!(text(&r1[2]), Some("failed"));
    assert!(matches!(r1[3], SpillCell::Empty));
    assert!(matches!(r1[5], SpillCell::Empty));
    assert_eq!(text(&r1[6]), Some("w1 | w2"));
    assert_eq!(text(&r1[7]), Some("no root"));
}

#[test]
fn study_status_labels() {
    assert_eq!(StudySampleStatus::Evaluated.label(), "ok");
    assert_eq!(StudySampleStatus::Failed.label(), "failed");
}

#[test]
fn root_scan_counts_both_interval_ends() {
    let r = root_scan_result(2, 200);
    assert_eq!(r.roots, 2);
    assert_eq!(r.scanned_samples, 201);
    assert_eq!(root_scan_result(0, 1).scanned_samples, 1);
    assert_eq!(root_scan_result(0, 0).scanned_samples, 0);
}
