//! Patient and medication records for a single-user tracker: the record
//! model, the commands that change a collection of patients, the listings
//! shown to the operator, the CSV rendering of the collection, and the
//! decisions of the menu and of loading the data file.

pub mod export;
pub mod listing;
pub mod menu;
pub mod models;
pub mod roster;
pub mod storage;
pub mod text;
