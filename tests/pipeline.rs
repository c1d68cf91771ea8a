use drawio_builder::{
    assemble_layer_cli_flag, create_job, first_failure, step_output_paths, BuildConfig, DrawioConfig,
    LayerScanner, Timestamp,
};

const LAYER: &str = "<mxCell id=\"q\" value=\"L\" parent=\"0\" />";

fn run_plan(outputs_of: &dyn Fn(&str) -> Option<Timestamp>) -> usize {
    let scanner = LayerScanner::layer_markers().unwrap();
    let files = vec![
        ("plain", "<mxfile/>".to_string()),
        ("layered", format!("{}\n{}", LAYER, LAYER)),
    ];
    let config = DrawioConfig::default();
    let mut total = 0;
    for (stem, text) in &files {
        let count = scanner.layer_count(text);
        let name = format!("{}.drawio", stem);
        let layer_config = config.layer_config_for(&name, count);
        let steps = assemble_layer_cli_flag(&layer_config).len();
        let outputs: Vec<Option<Timestamp>> =
            step_output_paths("out", stem, steps).iter().map(|p| outputs_of(p)).collect();
        let build = BuildConfig { flags: vec![], layer_config };
        let jobs = create_job(
            &name,
            &stem.to_string(),
            Timestamp { nanos: 10 },
            &build,
            &"out".to_string(),
            &outputs,
        );
        total += jobs.len();
    }
    total
}

#[test]
fn two_files_then_rerun() {
    assert_eq!(run_plan(&|_| None), 3);
    assert_eq!(run_plan(&|_| Some(Timestamp { nanos: 20 })), 0);
    assert!(first_failure(vec![]).is_none());
}
