use drawio_builder::{
    create_job, job_args, output_name, step_output_paths, BuildConfig, DrawioExportStep, LayerConfig,
    Timestamp,
};

fn ts(nanos: i128) -> Timestamp {
    Timestamp { nanos }
}

fn flags() -> Vec<String> {
    vec!["-x".to_string(), "-f".to_string(), "png".to_string()]
}

fn plan(
    layer_config: LayerConfig,
    input: i128,
    outputs: Vec<Option<Timestamp>>,
) -> Vec<DrawioExportStep> {
    let config = BuildConfig { flags: flags(), layer_config };
    create_job(
        &"in/fig.drawio".to_string(),
        &"fig".to_string(),
        ts(input),
        &config,
        &"out".to_string(),
        &outputs,
    )
}

#[test]
fn output_names_and_paths() {
    assert_eq!(output_name("fig", 0), "fig-0.png");
    assert_eq!(output_name("a.b", 12), "a.b-12.png");
    assert_eq!(step_output_paths("out", "fig", 2), vec!["out/fig-0.png", "out/fig-1.png"]);
    assert_eq!(step_output_paths("out/", "fig", 1), vec!["out/fig-0.png"]);
    assert!(step_output_paths("out", "fig", 0).is_empty());
}

#[test]
fn arguments_keep_their_order() {
    let got = job_args(
        &flags(),
        &"out/fig-1.png".to_string(),
        &"0,1".to_string(),
        &"/abs/fig.drawio".to_string(),
    );
    assert_eq!(
        got,
        vec!["-x", "-f", "png", "-o", "out/fig-1.png", "--layers", "0,1", "/abs/fig.drawio"]
    );
}

#[test]
fn first_run_plans_every_step() {
    let jobs = plan(LayerConfig::Incremental(2), 100, vec![None, None]);
    assert_eq!(jobs.len(), 2);
    assert_eq!(jobs[0].output_path, "out/fig-0.png");
    assert_eq!(jobs[1].output_path, "out/fig-1.png");
    assert_eq!(jobs[1].input_path, "in/fig.drawio");
    assert_eq!(jobs[1].old_modified_time, None);
    assert_eq!(
        jobs[1].args,
        vec!["-x", "-f", "png", "-o", "out/fig-1.png", "--layers", "0,1", "in/fig.drawio"]
    );
}

#[test]
fn newer_output_is_skipped() {
    let jobs = plan(LayerConfig::Incremental(3), 100, vec![Some(ts(101)), Some(ts(50)), None]);
    assert_eq!(jobs.len(), 2);
    assert_eq!(jobs[0].output_path, "out/fig-1.png");
    assert_eq!(jobs[0].old_modified_time, Some(ts(50)));
    assert_eq!(jobs[0].args[6], "0,1");
    assert_eq!(jobs[1].output_path, "out/fig-2.png");
    assert_eq!(jobs[1].args[6], "0,1,2");
}

#[test]
fn output_as_new_as_input_is_fresh() {
    let jobs = plan(LayerConfig::Incremental(1), 100, vec![Some(ts(100))]);
    assert!(jobs.is_empty());
}

#[test]
fn all_fresh_plans_nothing() {
    let jobs = plan(
        LayerConfig::Custom(vec![vec![1, 0], vec![2]]),
        -5,
        vec![Some(ts(-5)), Some(ts(7))],
    );
    assert!(jobs.is_empty());
}

#[test]
fn custom_plan_jobs_use_custom_selectors() {
    let jobs = plan(LayerConfig::Custom(vec![vec![1, 0], vec![2, 5]]), 10, vec![None, Some(ts(3))]);
    assert_eq!(jobs.len(), 2);
    assert_eq!(jobs[0].args[6], "1,0");
    assert_eq!(jobs[1].args[6], "2,5");
    assert_eq!(jobs[1].old_modified_time, Some(ts(3)));
}
