//! One module per upstream resource: its typed payload shapes, their
//! decoders from parsed JSON, and the request each accessor sends.

pub mod activity;
pub mod announcements;
pub mod attendance;
pub mod badges;
pub mod behaviour;
pub mod detentions;
pub mod helpers;
pub mod homework;
pub mod lessons;
pub mod pupilfields;
pub mod rewards;
pub mod student;
