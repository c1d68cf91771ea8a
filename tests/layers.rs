use drawio_builder::{assemble_layer_cli_flag, decimal_string, DrawioConfig, DrawioFileConfig, LayerConfig};

#[test]
fn test_assemble_layer_flag_incremental() {
    let want = vec!["0".to_string()];
    let got = assemble_layer_cli_flag(&LayerConfig::Incremental(1));
    assert_eq!(want, got);
    let want = vec!["0".to_string(), "0,1".to_string(), "0,1,2".to_string()];
    let got = assemble_layer_cli_flag(&LayerConfig::Incremental(3));
    assert_eq!(want, got);
}

#[test]
fn test_assemble_layer_flag_custom() {
    let want = vec!["1,0".to_string(), "2,5".to_string()];
    let got = assemble_layer_cli_flag(&LayerConfig::Custom(vec![vec![1, 0], vec![2, 5]]));
    assert_eq!(want, got);
}

#[test]
fn incremental_plan_is_cumulative() {
    let got = assemble_layer_cli_flag(&LayerConfig::Incremental(12));
    assert_eq!(got.len(), 12);
    assert_eq!(got[11], "0,1,2,3,4,5,6,7,8,9,10,11");
    for k in 1..got.len() {
        assert_eq!(got[k], format!("{},{}", got[k - 1], k));
    }
}

#[test]
fn incremental_plan_of_zero_layers_has_one_step() {
    assert_eq!(assemble_layer_cli_flag(&LayerConfig::Incremental(0)), vec!["0".to_string()]);
}

#[test]
fn custom_plan_keeps_empty_and_large_indices() {
    let got = assemble_layer_cli_flag(&LayerConfig::Custom(vec![vec![], vec![255], vec![3, 3, 10]]));
    assert_eq!(got, vec!["".to_string(), "255".to_string(), "3,3,10".to_string()]);
    assert!(assemble_layer_cli_flag(&LayerConfig::Custom(vec![])).is_empty());
}

#[test]
fn decimal_rendering() {
    assert_eq!(decimal_string(0), "0");
    assert_eq!(decimal_string(7), "7");
    assert_eq!(decimal_string(10), "10");
    assert_eq!(decimal_string(90210), "90210");
    assert_eq!(decimal_string(usize::MAX), usize::MAX.to_string());
}

fn sample_config() -> DrawioConfig {
    DrawioConfig {
        individual_configs: Some(vec![
            DrawioFileConfig { name: "a.drawio".to_string(), order: vec![vec![2, 0]] },
            DrawioFileConfig { name: "b.drawio".to_string(), order: vec![vec![1]] },
            DrawioFileConfig { name: "a.drawio".to_string(), order: vec![vec![0], vec![1], vec![4, 2]] },
        ]),
    }
}

#[test]
fn override_replaces_detected_layer_count() {
    let config = sample_config();
    let plan = config.layer_config_for(&"a.drawio".to_string(), 1);
    assert_eq!(assemble_layer_cli_flag(&plan), vec!["0", "1", "4,2"]);
    let plan = config.layer_config_for(&"b.drawio".to_string(), 5);
    assert_eq!(assemble_layer_cli_flag(&plan), vec!["1"]);
}

#[test]
fn later_override_of_same_name_wins() {
    let config = sample_config();
    assert_eq!(config.find_override(&"a.drawio".to_string()), Some(2));
    assert_eq!(config.find_override(&"b.drawio".to_string()), Some(1));
    assert_eq!(config.find_override(&"c.drawio".to_string()), None);
}

#[test]
fn file_without_override_is_incremental() {
    let config = sample_config();
    let plan = config.layer_config_for(&"c.drawio".to_string(), 2);
    assert!(matches!(plan, LayerConfig::Incremental(2)));
    let plan = DrawioConfig::default().layer_config_for(&"a.drawio".to_string(), 3);
    assert_eq!(assemble_layer_cli_flag(&plan), vec!["0", "0,1", "0,1,2"]);
}

#[test]
fn empty_override_gives_no_steps() {
    let config = DrawioConfig {
        individual_configs: Some(vec![DrawioFileConfig { name: "x.drawio".to_string(), order: vec![] }]),
    };
    let plan = config.layer_config_for(&"x.drawio".to_string(), 4);
    assert!(assemble_layer_cli_flag(&plan).is_empty());
}
