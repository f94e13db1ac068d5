//! Typing-cadence scheduling: turns lines of text into the timed sequence of
//! keystrokes a person might have produced, with irregular delays, typos that
//! are typed and erased again, and long pauses on blank lines, and predicts
//! how long such a run will take.

pub mod action;
pub mod config;
pub mod estimate;
pub mod key;
pub mod random;
pub mod run;
pub mod scheduler;
pub mod timing;
