//! Decision logic of the Pete robot runtime: status parsing, body sensing,
//! brainstem clock mapping, operator reign queueing, sensor health,
//! reflexes, scripted event behaviours and experience log reading.

pub mod text_fields;
pub mod json_fields;
pub mod status;
pub mod body;
pub mod brainstem;
pub mod sensor_health;
pub mod actions;
pub mod reign;
pub mod event_script;
pub mod skills;
pub mod impressions;
pub mod now;
pub mod nudge;
pub mod safety;
pub mod selection;
pub mod stuck;
pub mod transitions;
