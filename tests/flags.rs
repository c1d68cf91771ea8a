use drawio_builder::{apply_draft_scale, binary_candidates, split_build_args, DraftError};

fn strings(v: &[&str]) -> Vec<String> {
    v.iter().map(|s| s.to_string()).collect()
}

#[test]
fn split_on_single_spaces() {
    assert_eq!(split_build_args("-x -f png -t -s 5"), strings(&["-x", "-f", "png", "-t", "-s", "5"]));
    assert_eq!(split_build_args(""), strings(&[""]));
    assert_eq!(split_build_args("a  b "), strings(&["a", "", "b", ""]));
}

#[test]
fn draft_rewrites_first_scale_value() {
    let mut f = strings(&["-x", "-s", "5", "--scale", "3"]);
    assert_eq!(apply_draft_scale(&mut f), Ok(()));
    assert_eq!(f, strings(&["-x", "-s", "1", "--scale", "3"]));
    let mut f = strings(&["--scale", "4"]);
    assert_eq!(apply_draft_scale(&mut f), Ok(()));
    assert_eq!(f, strings(&["--scale", "1"]));
}

#[test]
fn draft_without_scale_flag_changes_nothing() {
    let mut f = strings(&["-x", "-f", "png"]);
    assert_eq!(apply_draft_scale(&mut f), Ok(()));
    assert_eq!(f, strings(&["-x", "-f", "png"]));
}

#[test]
fn draft_scale_flag_without_value() {
    let mut f = strings(&["-x", "-s"]);
    assert_eq!(apply_draft_scale(&mut f), Err(DraftError::MissingScaleValue));
    assert_eq!(f, strings(&["-x", "-s"]));
}

#[test]
fn candidates_prefer_the_hint() {
    let got = binary_candidates(Some("/opt/drawio".to_string()));
    assert_eq!(got[0], "/opt/drawio");
    assert_eq!(got.len(), 4);
    assert_eq!(got[2], "drawio");
    assert_eq!(got[3], "draw.io");
    assert_eq!(binary_candidates(None).len(), 3);
}
