use terrain_procgen::generation::{
    clamp_dimension, clamp_dimensions, clamp_edge_length, GenerateTerrainEvent,
    TerrainGeneratorConfig, MAX_EDGE_LENGTH_BITS, MIN_EDGE_LENGTH_BITS,
};
use terrain_procgen::generation::scheduler::Trigger;
use terrain_procgen::scalar::Scalar;
use terrain_procgen::ui::{UIState, UiInput};
use terrain_procgen::utils::UVec3;

fn ui_scalar(x: f32) -> Scalar {
    Scalar::from_bits(x.to_bits())
}

fn ui_number(s: Scalar) -> f32 {
    f32::from_bits(s.to_bits())
}

#[test]
fn default_configuration() {
    let config = TerrainGeneratorConfig::default();
    assert_eq!(config.chunks_amount, UVec3::new(4, 4, 4));
    assert_eq!(config.chunk_size, UVec3::new(4, 4, 4));
    assert_eq!(ui_number(config.cube_edge_length), 1.0);
    assert_eq!(ui_number(config.isolevel), 0.0);
    assert!(!config.show_gizmos);
    assert!(config.is_valid());
    assert_eq!(config.extent_in_cubes(), Some(UVec3::new(16, 16, 16)));
}

#[test]
fn configurations_compare_by_the_numbers() {
    let config = TerrainGeneratorConfig::default();
    assert!(config == config);
    assert!(config == TerrainGeneratorConfig { isolevel: ui_scalar(-0.0), ..config });
    assert!(config != TerrainGeneratorConfig { isolevel: ui_scalar(0.5), ..config });
    assert!(config != TerrainGeneratorConfig { chunk_size: UVec3::new(4, 4, 5), ..config });
    assert!(config != TerrainGeneratorConfig { show_gizmos: true, ..config });
    let undefined = TerrainGeneratorConfig { isolevel: ui_scalar(f32::NAN), ..config };
    assert!(undefined != undefined);
}

#[test]
fn configuration_is_valid_without_zero_extent_and_with_positive_edge_length() {
    let sound = TerrainGeneratorConfig::default();
    assert!(!TerrainGeneratorConfig { chunks_amount: UVec3::new(0, 1, 1), ..sound }.is_valid());
    assert!(!TerrainGeneratorConfig { chunk_size: UVec3::new(1, 1, 0), ..sound }.is_valid());
    assert!(!TerrainGeneratorConfig { cube_edge_length: ui_scalar(0.0), ..sound }.is_valid());
    assert!(!TerrainGeneratorConfig { cube_edge_length: ui_scalar(-1.0), ..sound }.is_valid());
    assert!(!TerrainGeneratorConfig { cube_edge_length: ui_scalar(f32::NAN), ..sound }.is_valid());
    assert!(TerrainGeneratorConfig { cube_edge_length: ui_scalar(1.0e-3), ..sound }.is_valid());
    assert!(TerrainGeneratorConfig { isolevel: ui_scalar(f32::NAN), ..sound }.is_valid());
}

#[test]
fn clamping_raises_zero_extents_to_one() {
    assert_eq!(clamp_dimension(0), 1);
    assert_eq!(clamp_dimension(1), 1);
    assert_eq!(clamp_dimension(7), 7);
    assert_eq!(clamp_dimension(u32::MAX), u32::MAX);
    assert_eq!(clamp_dimensions(UVec3::new(0, 3, 0)), UVec3::new(1, 3, 1));
    let config = TerrainGeneratorConfig {
        chunks_amount: UVec3::new(0, 2, 0),
        chunk_size: UVec3::new(5, 0, 0),
        ..TerrainGeneratorConfig::default()
    }
    .clamped();
    assert_eq!(config.chunks_amount, UVec3::new(1, 2, 1));
    assert_eq!(config.chunk_size, UVec3::new(5, 1, 1));
    assert!(config.is_valid());
}

#[test]
fn edge_length_is_clamped_to_what_the_panel_offers() {
    assert_eq!(MIN_EDGE_LENGTH_BITS, 0.1f32.to_bits());
    assert_eq!(MAX_EDGE_LENGTH_BITS, 10.0f32.to_bits());
    assert_eq!(ui_number(clamp_edge_length(ui_scalar(0.05))), 0.1);
    assert_eq!(ui_number(clamp_edge_length(ui_scalar(0.1))), 0.1);
    assert_eq!(ui_number(clamp_edge_length(ui_scalar(2.5))), 2.5);
    assert_eq!(ui_number(clamp_edge_length(ui_scalar(10.0))), 10.0);
    assert_eq!(ui_number(clamp_edge_length(ui_scalar(10.5))), 10.0);
    assert_eq!(ui_number(clamp_edge_length(ui_scalar(-3.0))), 0.1);
    assert_eq!(ui_number(clamp_edge_length(ui_scalar(0.0))), 0.1);
    assert_eq!(ui_number(clamp_edge_length(ui_scalar(f32::NAN))), 0.1);
    assert_eq!(ui_number(clamp_edge_length(ui_scalar(f32::INFINITY))), 10.0);
    assert_eq!(ui_number(clamp_edge_length(ui_scalar(f32::NEG_INFINITY))), 0.1);
}

#[test]
fn extent_of_the_lattice_in_cubes() {
    let config = TerrainGeneratorConfig {
        chunks_amount: UVec3::new(2, 3, 4),
        chunk_size: UVec3::new(5, 6, 7),
        ..TerrainGeneratorConfig::default()
    };
    assert_eq!(config.extent_in_cubes(), Some(UVec3::new(10, 18, 28)));
    let wide = TerrainGeneratorConfig { chunks_amount: UVec3::new(1, 1, 1 << 31), ..config };
    assert_eq!(wide.extent_in_cubes(), None);
    let edge = TerrainGeneratorConfig {
        chunks_amount: UVec3::new(65_537, 1, 1),
        chunk_size: UVec3::new(65_535, 1, 1),
        ..config
    };
    assert_eq!(edge.extent_in_cubes(), Some(UVec3::new(u32::MAX, 1, 1)));
}

#[test]
fn settings_window_opens_and_closes() {
    let mut state = UIState::default();
    let mut config = TerrainGeneratorConfig::default();
    assert!(!state.is_gen_window_expanded());
    assert!(state.handle(&mut config, UiInput::ToggleGenerationWindow).is_none());
    assert!(state.is_gen_window_expanded());
    assert!(state.handle(&mut config, UiInput::ToggleGenerationWindow).is_none());
    assert!(!state.is_gen_window_expanded());
    assert!(state.handle(&mut config, UiInput::CloseGenerationWindow).is_none());
    assert!(!state.is_gen_window_expanded());
    state.handle(&mut config, UiInput::ToggleGenerationWindow);
    state.handle(&mut config, UiInput::CloseGenerationWindow);
    assert!(!state.is_gen_window_expanded());
    assert!(config == TerrainGeneratorConfig::default());
}

#[test]
fn edits_change_the_configuration_and_nothing_else() {
    let mut state = UIState::default();
    let mut config = TerrainGeneratorConfig::default();
    assert!(state.handle(&mut config, UiInput::SetChunksAmount(UVec3::new(2, 0, 9))).is_none());
    assert_eq!(config.chunks_amount, UVec3::new(2, 1, 9));
    assert!(state.handle(&mut config, UiInput::SetChunkSize(UVec3::new(0, 0, 0))).is_none());
    assert_eq!(config.chunk_size, UVec3::new(1, 1, 1));
    assert!(state.handle(&mut config, UiInput::SetCubeEdgeLength(ui_scalar(25.0))).is_none());
    assert_eq!(ui_number(config.cube_edge_length), 10.0);
    assert!(state.handle(&mut config, UiInput::SetCubeEdgeLength(ui_scalar(0.5))).is_none());
    assert_eq!(ui_number(config.cube_edge_length), 0.5);
    assert!(state.handle(&mut config, UiInput::SetIsolevel(ui_scalar(-7.25))).is_none());
    assert_eq!(ui_number(config.isolevel), -7.25);
    assert!(state.handle(&mut config, UiInput::SetShowGizmos(true)).is_none());
    assert!(config.show_gizmos);
    assert!(!state.is_gen_window_expanded());
    assert_eq!(config.chunks_amount, UVec3::new(2, 1, 9));
    assert_eq!(config.chunk_size, UVec3::new(1, 1, 1));
    assert!(config.is_valid());
}

#[test]
fn generate_button_asks_for_a_generation() {
    let mut state = UIState::default();
    let mut config = TerrainGeneratorConfig::default();
    let event: Option<GenerateTerrainEvent> = state.handle(&mut config, UiInput::Generate);
    assert_eq!(event.unwrap().trigger(), Trigger::GenerateAll);
    assert!(!state.is_gen_window_expanded());
    assert!(config == TerrainGeneratorConfig::default());
}
