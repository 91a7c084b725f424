//! The numbered menu: which command an entry selects.

use crate::text::trimmed;
use vstd::prelude::*;

verus! {

/// The commands of the menu, and `Invalid` for an entry that selects none.
#[derive(Debug, Clone, Copy, PartialEq, Eq)]
pub enum MenuChoice {
    AddPatient,
    ViewPatients,
    AddMedication,
    ViewMedications,
    RemoveMedication,
    UpdateMedication,
    RemovePatient,
    ExportCsv,
    Exit,
    Invalid,
}

/// The command that an entry selects: `"1"` to `"9"` in menu order, and
/// `Invalid` for anything else.
pub open spec fn choice_of(entry: Seq<char>) -> MenuChoice {
    if entry == "1"@ {
        MenuChoice::AddPatient
    } else if entry == "2"@ {
        MenuChoice::ViewPatients
    } else if entry == "3"@ {
        MenuChoice::AddMedication
    } else if entry == "4"@ {
        MenuChoice::ViewMedications
    } else if entry == "5"@ {
        MenuChoice::RemoveMedication
    } else if entry == "6"@ {
        MenuChoice::UpdateMedication
    } else if entry == "7"@ {
        MenuChoice::RemovePatient
    } else if entry == "8"@ {
        MenuChoice::ExportCsv
    } else if entry == "9"@ {
        MenuChoice::Exit
    } else {
        MenuChoice::Invalid
    }
}

/// Reads a line typed at the menu: whitespace around the entry is ignored.
pub fn parse_choice(line: &str) -> (choice: MenuChoice)
    ensures
        choice == choice_of(trimmed(line@)),
{
    let entry = line.trim();
    if entry.eq("1") {
        MenuChoice::AddPatient
    } else if entry.eq("2") {
        MenuChoice::ViewPatients
    } else if entry.eq("3") {
        MenuChoice::AddMedication
    } else if entry.eq("4") {
        MenuChoice::ViewMedications
    } else if entry.eq("5") {
        MenuChoice::RemoveMedication
    } else if entry.eq("6") {
        MenuChoice::UpdateMedication
    } else if entry.eq("7") {
        MenuChoice::RemovePatient
    } else if entry.eq("8") {
        MenuChoice::ExportCsv
    } else if entry.eq("9") {
        MenuChoice::Exit
    } else {
        MenuChoice::Invalid
    }
}

} // verus!
