//! What the configuration panel decides: which edits of the configuration it
//! accepts, and when it asks for a generation.

use crate::generation::{
    clamp_dimensions,
    clamp_edge_length,
    clamped_dimensions,
    clamped_edge_length,
    GenerateTerrainEvent,
    TerrainGeneratorConfig,
};
use crate::scalar::Scalar;
use crate::utils::UVec3;
use vstd::prelude::*;

verus! {

/// The state of the panel.
#[derive(Debug)]
pub struct UIState {
    is_gen_window_expanded: bool,
}

/// What the user did on the panel.
#[derive(Clone, Copy, Debug)]
pub enum UiInput {
    /// Pressed the button that opens and closes the settings window.
    ToggleGenerationWindow,
    /// Closed the settings window.
    CloseGenerationWindow,
    /// Moved the slider of the cube edge length.
    SetCubeEdgeLength(Scalar),
    /// Edited the number of chunks.
    SetChunksAmount(UVec3),
    /// Edited the size of a chunk.
    SetChunkSize(UVec3),
    /// Edited the isolevel.
    SetIsolevel(Scalar),
    /// Ticked or cleared the box of the debug overlays.
    SetShowGizmos(bool),
    /// Pressed the button that generates the terrain.
    Generate,
}

/// The configuration after an input.
pub open spec fn config_after(config: TerrainGeneratorConfig, input: UiInput) -> TerrainGeneratorConfig {
    match input {
        UiInput::SetCubeEdgeLength(value) => TerrainGeneratorConfig {
            cube_edge_length: clamped_edge_length(value),
            ..config
        },
        UiInput::SetChunksAmount(amount) => TerrainGeneratorConfig {
            chunks_amount: clamped_dimensions(amount),
            ..config
        },
        UiInput::SetChunkSize(size) => TerrainGeneratorConfig {
            chunk_size: clamped_dimensions(size),
            ..config
        },
        UiInput::SetIsolevel(isolevel) => TerrainGeneratorConfig { isolevel, ..config },
        UiInput::SetShowGizmos(show_gizmos) => TerrainGeneratorConfig { show_gizmos, ..config },
        _ => config,
    }
}

/// Whether the settings window is open after an input.
pub open spec fn expanded_after(expanded: bool, input: UiInput) -> bool {
    match input {
        UiInput::ToggleGenerationWindow => !expanded,
        UiInput::CloseGenerationWindow => false,
        _ => expanded,
    }
}

impl Default for UIState {
    fn default() -> (state: UIState)
        ensures
            !state.expanded(),
    {
        UIState { is_gen_window_expanded: false }
    }
}

impl UIState {
    /// Whether the settings window is open.
    pub closed spec fn expanded(&self) -> bool {
        self.is_gen_window_expanded
    }

    /// Whether the settings window is open.
    pub fn is_gen_window_expanded(&self) -> (expanded: bool)
        ensures
            expanded == self.expanded(),
    {
        self.is_gen_window_expanded
    }

    /// Takes one input of the user: changes the panel and the configuration
    /// as the input asks, no extent below one and the cube edge length within
    /// what the panel offers, and returns the trigger when the input asks for
    /// a generation.
    pub fn handle(&mut self, config: &mut TerrainGeneratorConfig, input: UiInput) -> (event: Option<
        GenerateTerrainEvent,
    >)
        ensures
            final(self).expanded() == expanded_after(old(self).expanded(), input),
            *final(config) == config_after(*old(config), input),
            event.is_some() <==> input is Generate,
    {
        match input {
            UiInput::ToggleGenerationWindow => {
                self.is_gen_window_expanded = !self.is_gen_window_expanded;
            },
            UiInput::CloseGenerationWindow => {
                self.is_gen_window_expanded = false;
            },
            UiInput::SetCubeEdgeLength(value) => {
                config.cube_edge_length = clamp_edge_length(value);
            },
            UiInput::SetChunksAmount(amount) => {
                config.chunks_amount = clamp_dimensions(amount);
            },
            UiInput::SetChunkSize(size) => {
                config.chunk_size = clamp_dimensions(size);
            },
            UiInput::SetIsolevel(isolevel) => {
                config.isolevel = isolevel;
            },
            UiInput::SetShowGizmos(show_gizmos) => {
                config.show_gizmos = show_gizmos;
            },
            UiInput::Generate => {
                return Some(GenerateTerrainEvent);
            },
        }
        None
    }
}

} // verus!
