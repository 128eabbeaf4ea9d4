//! Timed on/off signalling with a Morse-style codec and a turn-taking
//! session: live key presses are classified into dots and dashes, grouped
//! into symbols and words, answered by a responder, and the reply is played
//! back as a correctly timed pulse sequence over the same line.

pub mod apps;
pub mod classifier;
pub mod converter;
pub mod element;
pub mod generator;
pub mod session;
pub mod symbol;
pub mod text;
pub mod timing;
