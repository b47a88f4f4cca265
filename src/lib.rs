pub mod config;
pub mod crossfade_control;
pub mod crossfader;
pub mod delay_line;
pub mod response;
pub mod stepwise_schedule;
