//! Input processing: modifier tracking, timed (click / long press / multi-click)
//! switch state machines, input-to-application event mapping, and the small
//! text block parsers used by the editor front end.

pub mod context;
pub mod timed_event;
pub mod event_with_modifiers;
pub mod timed;
pub mod aggregate_timed_event;
pub mod keyboard;
pub mod button;
pub mod axis;
pub mod raw;
pub mod modifiers;
pub mod modified;
pub mod combined;
pub mod mapped;
pub mod block;
pub mod span;
pub mod database;
pub mod text;
pub mod event;
pub mod switch_event;
pub mod cons_ext;
pub mod processor;
pub mod struct_field;
pub mod state;
pub mod global_mapping;
pub mod mapping_modifiers_cache;
pub mod modifiers_cache;
pub mod mapping_cache;
pub mod global_mapping_cache;
pub mod device_state;
pub mod global_state;
pub mod global_timed_state;
