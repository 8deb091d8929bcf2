use vstd::prelude::*;

pub mod text_util;
pub mod style_fields;
pub mod id_list;
pub mod model;
pub mod text_geometry;
pub mod text_rows;
pub mod text_input;
pub mod grid;
pub mod length;
pub mod anchor;
pub mod config;
pub mod jobs;
pub mod registry;
pub mod plugin;
pub mod component;
pub mod command_attr;
pub mod invoke;
pub mod json;
pub mod scrollbar;
pub mod scroll;
pub mod state;
pub mod anim;
pub mod font_family;
pub mod lifecycle;
pub mod assets;
pub mod image_path;
pub mod window_icon;
pub mod dev;
pub mod build_config;
pub mod color;
pub mod color_names;

verus! {
} // verus!
