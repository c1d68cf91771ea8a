use drawio_builder::{is_source_extension, layer_count_from_markers, LayerScanner, ScanError};

const LAYER: &str = "<mxCell id=\"l1\" value=\"Layer\" parent=\"0\" />";

#[test]
fn layer_count_normalises_zero() {
    assert_eq!(layer_count_from_markers(0), 1);
    assert_eq!(layer_count_from_markers(1), 1);
    assert_eq!(layer_count_from_markers(4), 4);
}

#[test]
fn counts_layer_markers() {
    let scanner = LayerScanner::layer_markers().unwrap();
    assert_eq!(scanner.layer_count("<mxfile></mxfile>"), 1);
    let two = format!("<root>\n{}\n<mxCell id=\"x\"/>\n{}\n</root>", LAYER, LAYER);
    let three = format!("{}\n{}\n{}", LAYER, LAYER, LAYER);
    assert_eq!(scanner.layer_count(&three), 3);
    // the greedy pattern takes two markers on one line as one match
    let same_line = format!("{}{}\n{}", LAYER, LAYER, LAYER);
    assert_eq!(scanner.layer_count(&same_line), 2);
    assert_eq!(scanner.layer_count(&two), 2);
}

#[test]
fn non_root_cells_are_not_layers() {
    let scanner = LayerScanner::layer_markers().unwrap();
    let text = "<mxCell id=\"a\" value=\"\" parent=\"l1\" />";
    assert_eq!(scanner.layer_count(text), 1);
    let one = format!("{}\n{}", text, LAYER);
    assert_eq!(scanner.layer_count(&one), 1);
}

#[test]
fn invalid_pattern_is_rejected() {
    assert_eq!(LayerScanner::new("(unclosed").err(), Some(ScanError::InvalidPattern));
    assert!(LayerScanner::new("a+").is_ok());
    assert_eq!(LayerScanner::new("a+").unwrap().layer_count("aa b aaa a"), 3);
}

#[test]
fn source_extension() {
    assert!(is_source_extension(&"drawio".to_string()));
    assert!(!is_source_extension(&"png".to_string()));
    assert!(!is_source_extension(&"DRAWIO".to_string()));
}
