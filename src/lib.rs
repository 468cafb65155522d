//! Character sheets for tabletop role-playing: the rules that derive a
//! character's numbers, a dice evaluator, and the modal controller that
//! drives browsing, creation, editing and rolling.
pub mod text;
pub mod models;
pub mod dice;
pub mod controller;
pub mod view;
pub mod record;
