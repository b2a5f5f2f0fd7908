//! Core logic of a hobby-servo PWM controller: a pure angle-to-duty-cycle
//! mapper and a cyclic waypoint sequencer. Hardware bring-up, the PWM
//! peripheral itself and the async timer live outside this crate; the
//! sequencer only decides which duty value to write next and how long to
//! hold it.

pub mod mapper;
pub mod sequencer;
