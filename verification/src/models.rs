//! The record model: patients and the medications they own.

use vstd::prelude::*;

verus! {

/// One medication of a patient: a display name and a free-form schedule.
#[derive(Debug, Clone, PartialEq, Eq)]
pub struct Medication {
    pub name: String,
    pub schedule: String,
}

/// One patient, identified by `id`, with the medications in the order in
/// which they were added.
#[derive(Debug, Clone, PartialEq, Eq)]
pub struct Patient {
    pub id: String,
    pub name: String,
    pub age: u32,
    pub gender: String,
    pub disease: String,
    pub medications: Vec<Medication>,
}

/// What a `Medication` stands for in contracts.
pub struct MedicationView {
    pub name: Seq<char>,
    pub schedule: Seq<char>,
}

/// What a `Patient` stands for in contracts.
pub struct PatientView {
    pub id: Seq<char>,
    pub name: Seq<char>,
    pub age: nat,
    pub gender: Seq<char>,
    pub disease: Seq<char>,
    pub medications: Seq<MedicationView>,
}

impl View for Medication {
    type V = MedicationView;

    open spec fn view(&self) -> MedicationView {
        MedicationView { name: self.name@, schedule: self.schedule@ }
    }
}

impl DeepView for Medication {
    type V = MedicationView;

    open spec fn deep_view(&self) -> MedicationView {
        self@
    }
}

impl View for Patient {
    type V = PatientView;

    open spec fn view(&self) -> PatientView {
        PatientView {
            id: self.id@,
            name: self.name@,
            age: self.age as nat,
            gender: self.gender@,
            disease: self.disease@,
            medications: self.medications.deep_view(),
        }
    }
}

impl DeepView for Patient {
    type V = PatientView;

    open spec fn deep_view(&self) -> PatientView {
        self@
    }
}

} // verus!
