use vstd::prelude::*;

pub mod channels;
pub mod commands;
pub mod construction;
pub mod inspector;
pub mod labels;
pub mod lifecycle;
pub mod paint;
pub mod main_view;
pub mod path_editor;
pub mod paths;
pub mod pattern_management;
pub mod presentation;
pub mod preview_coordinator;
pub mod scatter_memory;
pub mod sequence_import;
pub mod source_notice;
pub mod startup;
pub mod temporal;
pub mod text;
pub mod workspace;

verus! {

} // verus!
