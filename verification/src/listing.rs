//! The two listings shown to the operator: one row per patient, and the
//! medications patient by patient.

use crate::models::{MedicationView, Patient, PatientView};
use vstd::prelude::*;

verus! {

/// One row of the patient listing.
#[derive(Debug, Clone, PartialEq, Eq)]
pub struct PatientRow {
    pub id: String,
    pub name: String,
    pub gender: String,
    pub disease: String,
    /// How many medications the patient has.
    pub medication_count: usize,
}

/// What a `PatientRow` stands for in contracts.
pub struct PatientRowView {
    pub id: Seq<char>,
    pub name: Seq<char>,
    pub gender: Seq<char>,
    pub disease: Seq<char>,
    pub medication_count: nat,
}

impl View for PatientRow {
    type V = PatientRowView;

    open spec fn view(&self) -> PatientRowView {
        PatientRowView {
            id: self.id@,
            name: self.name@,
            gender: self.gender@,
            disease: self.disease@,
            medication_count: self.medication_count as nat,
        }
    }
}

impl DeepView for PatientRow {
    type V = PatientRowView;

    open spec fn deep_view(&self) -> PatientRowView {
        self@
    }
}

/// One line of the medication listing.
#[derive(Debug, Clone, PartialEq, Eq)]
pub enum MedicationLine {
    /// Opens a patient's block.
    Heading { name: String, id: String },
    /// One medication of the patient whose block is open.
    Entry { name: String, schedule: String },
    /// Stands in a block in place of entries when the patient has none.
    NoMedications,
}

/// What a `MedicationLine` stands for in contracts.
pub enum MedicationLineView {
    Heading { name: Seq<char>, id: Seq<char> },
    Entry { name: Seq<char>, schedule: Seq<char> },
    NoMedications,
}

impl View for MedicationLine {
    type V = MedicationLineView;

    open spec fn view(&self) -> MedicationLineView {
        match self {
            MedicationLine::Heading { name, id } => MedicationLineView::Heading {
                name: name@,
                id: id@,
            },
            MedicationLine::Entry { name, schedule } => MedicationLineView::Entry {
                name: name@,
                schedule: schedule@,
            },
            MedicationLine::NoMedications => MedicationLineView::NoMedications,
        }
    }
}

impl DeepView for MedicationLine {
    type V = MedicationLineView;

    open spec fn deep_view(&self) -> MedicationLineView {
        self@
    }
}

/// The row of one patient: its display fields and the length of its
/// medication list.
pub open spec fn row_of(p: PatientView) -> PatientRowView {
    PatientRowView {
        id: p.id,
        name: p.name,
        gender: p.gender,
        disease: p.disease,
        medication_count: p.medications.len(),
    }
}

/// The patient listing: the row of each patient, in collection order.
pub open spec fn patient_rows(patients: Seq<PatientView>) -> Seq<PatientRowView> {
    patients.map_values(|p: PatientView| row_of(p))
}

/// The line of one medication.
pub open spec fn entry_of(m: MedicationView) -> MedicationLineView {
    MedicationLineView::Entry { name: m.name, schedule: m.schedule }
}

/// The block of one patient: the heading, then one entry per medication in
/// list order, or the no-medications line where the list is empty.
pub open spec fn block_of(p: PatientView) -> Seq<MedicationLineView> {
    let heading = seq![MedicationLineView::Heading { name: p.name, id: p.id }];
    if p.medications.len() == 0 {
        heading.push(MedicationLineView::NoMedications)
    } else {
        heading + p.medications.map_values(|m: MedicationView| entry_of(m))
    }
}

/// The medication listing: the blocks of the patients, in collection order.
pub open spec fn medication_lines(patients: Seq<PatientView>) -> Seq<MedicationLineView>
    decreases patients.len(),
{
    if patients.len() == 0 {
        Seq::empty()
    } else {
        medication_lines(patients.drop_last()) + block_of(patients.last())
    }
}

/// The listing row of one patient.
pub fn patient_row(patient: &Patient) -> (row: PatientRow)
    ensures
        row@ == row_of(patient@),
{
    PatientRow {
        id: patient.id.clone(),
        name: patient.name.clone(),
        gender: patient.gender.clone(),
        disease: patient.disease.clone(),
        medication_count: patient.medications.len(),
    }
}

/// Lists the patients: one row per patient, in collection order, each with
/// the number of medications of its patient. An empty collection gives no
/// row.
pub fn view_patients(patients: &Vec<Patient>) -> (rows: Vec<PatientRow>)
    ensures
        rows.deep_view() == patient_rows(patients.deep_view()),
        rows.len() == patients.len(),
        forall|i: int|
            0 <= i < patients.len() ==> (#[trigger] rows[i]).medication_count
                == patients[i].medications.len(),
{
    let mut rows: Vec<PatientRow> = Vec::new();
    let mut i: usize = 0;
    while i < patients.len()
        invariant
            i <= patients.len(),
            rows.len() == i,
            forall|k: int| 0 <= k < i ==> (#[trigger] rows[k])@ == row_of(patients[k]@),
        decreases patients.len() - i,
    {
        rows.push(patient_row(&patients[i]));
        i += 1;
    }
    rows
}

/// Lists the medications patient by patient, in collection order: for each
/// patient a heading, then its medications in list order, or a single
/// no-medications line.
pub fn view_medications(patients: &Vec<Patient>) -> (lines: Vec<MedicationLine>)
    ensures
        lines.deep_view() == medication_lines(patients.deep_view()),
{
    let mut lines: Vec<MedicationLine> = Vec::new();
    let mut i: usize = 0;
    while i < patients.len()
        invariant
            i <= patients.len(),
            lines.deep_view() == medication_lines(patients.deep_view().take(i as int)),
        decreases patients.len() - i,
    {
        let patient = &patients[i];
        let ghost done = lines.deep_view();
        let ghost heading = seq![MedicationLineView::Heading { name: patient.name@, id: patient.id@ }];
        let ghost list = patient.medications.deep_view();
        lines.push(MedicationLine::Heading { name: patient.name.clone(), id: patient.id.clone() });
        if patient.medications.len() == 0 {
            lines.push(MedicationLine::NoMedications);
        } else {
            let mut j: usize = 0;
            while j < patient.medications.len()
                invariant
                    j <= patient.medications.len(),
                    list == patient.medications.deep_view(),
                    lines.deep_view() == done + heading + list.take(j as int).map_values(
                        |m: MedicationView| entry_of(m),
                    ),
                decreases patient.medications.len() - j,
            {
                let medication = &patient.medications[j];
                let ghost shown = lines.deep_view();
                lines.push(
                    MedicationLine::Entry {
                        name: medication.name.clone(),
                        schedule: medication.schedule.clone(),
                    },
                );
                assert(lines.deep_view() =~= shown.push(entry_of(medication@)));
                j += 1;
            }
        }
        proof {
            let next = patients.deep_view().take(i + 1);
            assert(next.drop_last() =~= patients.deep_view().take(i as int));
        }
        i += 1;
    }
    assert(patients.deep_view().take(i as int) =~= patients.deep_view());
    lines
}

} // verus!
