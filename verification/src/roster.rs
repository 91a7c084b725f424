//! The commands on a collection of patients. A collection is a `Vec<Patient>`
//! in insertion order; a patient is looked up by id and a medication by name,
//! and each lookup takes the first match.

use crate::models::{Medication, MedicationView, Patient, PatientView};
use vstd::prelude::*;

verus! {

/// Why a command left the collection as it was.
#[derive(Debug, Clone, Copy, PartialEq, Eq)]
pub enum CommandError {
    /// A patient with the given id is already in the collection.
    Duplicate,
    /// No patient has the given id.
    PatientNotFound,
    /// The patient has no medication of the given name.
    MedicationNotFound,
}

impl CommandError {
    /// Whether the error says that a patient or a medication is missing.
    pub open spec fn not_found(self) -> bool {
        self is PatientNotFound || self is MedicationNotFound
    }

    /// Whether the error says that a patient or a medication is missing.
    pub fn is_not_found(&self) -> (r: bool)
        ensures
            r == self.not_found(),
    {
        match self {
            CommandError::Duplicate => false,
            CommandError::PatientNotFound => true,
            CommandError::MedicationNotFound => true,
        }
    }
}

/// The ids of the patients, in collection order.
pub open spec fn patient_ids(patients: Seq<PatientView>) -> Seq<Seq<char>> {
    patients.map_values(|p: PatientView| p.id)
}

/// The names of the medications, in list order.
pub open spec fn medication_names(medications: Seq<MedicationView>) -> Seq<Seq<char>> {
    medications.map_values(|m: MedicationView| m.name)
}

/// The index of the first patient with this id, if there is one.
pub open spec fn patient_position(patients: Seq<PatientView>, id: Seq<char>) -> Option<int> {
    patient_ids(patients).index_of_first(id)
}

/// The index of the first medication with this name, if there is one.
pub open spec fn medication_position(medications: Seq<MedicationView>, name: Seq<char>) -> Option<
    int,
> {
    medication_names(medications).index_of_first(name)
}

/// No two patients of the collection share an id.
pub open spec fn distinct_ids(patients: Seq<PatientView>) -> bool {
    patient_ids(patients).no_duplicates()
}

/// A patient as first recorded: the given fields and no medication.
pub open spec fn new_patient(
    id: Seq<char>,
    name: Seq<char>,
    age: nat,
    gender: Seq<char>,
    disease: Seq<char>,
) -> PatientView {
    PatientView { id, name, age, gender, disease, medications: Seq::empty() }
}

/// The patient with another medication list and all else unchanged.
pub open spec fn with_medications(p: PatientView, medications: Seq<MedicationView>) -> PatientView {
    PatientView { medications, ..p }
}

/// The medication with another schedule and the same name.
pub open spec fn with_schedule(m: MedicationView, schedule: Seq<char>) -> MedicationView {
    MedicationView { schedule, ..m }
}

/// What `index_of_first` says of a sequence of keys, in the form the loops
/// below use: the first position is the only one that matches with no match
/// before it, and there is none exactly when no key matches.
proof fn lemma_first_position(keys: Seq<Seq<char>>, key: Seq<char>, i: int)
    requires
        0 <= i <= keys.len(),
        forall|j: int| 0 <= j < i ==> keys[j] != key,
    ensures
        i < keys.len() && keys[i] == key ==> keys.index_of_first(key) == Some(i),
        i == keys.len() ==> keys.index_of_first(key) is None,
{
    keys.index_of_first_ensures(key);
}

/// What `patient_position` finds: the first patient with the given id, and
/// nothing exactly when no patient has it.
pub proof fn lemma_patient_position(patients: Seq<PatientView>, id: Seq<char>)
    ensures
        match patient_position(patients, id) {
            Some(i) => 0 <= i < patients.len() && patients[i].id == id && forall|j: int|
                0 <= j < i ==> (#[trigger] patients[j]).id != id,
            None => forall|j: int| 0 <= j < patients.len() ==> (#[trigger] patients[j]).id != id,
        },
{
    let keys = patient_ids(patients);
    keys.index_of_first_ensures(id);
    match keys.index_of_first(id) {
        Some(i) => {
            assert forall|j: int| 0 <= j < i implies (#[trigger] patients[j]).id != id by {
                assert(keys[j] != id);
            }
        },
        None => {
            assert forall|j: int| 0 <= j < patients.len() implies (#[trigger] patients[j]).id
                != id by {
                assert(keys[j] == patients[j].id);
            }
        },
    }
}

/// What `medication_position` finds: the first medication with the given
/// name, and nothing exactly when no medication has it.
pub proof fn lemma_medication_position(medications: Seq<MedicationView>, name: Seq<char>)
    ensures
        match medication_position(medications, name) {
            Some(j) => 0 <= j < medications.len() && medications[j].name == name && forall|k: int|
                0 <= k < j ==> (#[trigger] medications[k]).name != name,
            None => forall|k: int|
                0 <= k < medications.len() ==> (#[trigger] medications[k]).name != name,
        },
{
    let keys = medication_names(medications);
    keys.index_of_first_ensures(name);
    match keys.index_of_first(name) {
        Some(j) => {
            assert forall|k: int| 0 <= k < j implies (#[trigger] medications[k]).name != name by {
                assert(keys[k] != name);
            }
        },
        None => {
            assert forall|k: int| 0 <= k < medications.len() implies (#[trigger] medications[k]).name
                != name by {
                assert(keys[k] == medications[k].name);
            }
        },
    }
}

/// Removing the first patient with a given id takes exactly that entry out:
/// the collection is one shorter and every other patient stays, in the same
/// order. Where no two patients shared an id, no patient with that id is
/// left.
pub proof fn lemma_removal_takes_one(patients: Seq<PatientView>, id: Seq<char>)
    requires
        patient_position(patients, id) is Some,
    ensures
        ({
            let i = patient_position(patients, id).unwrap();
            let rest = patients.remove(i);
            &&& rest.len() == patients.len() - 1
            &&& forall|k: int| 0 <= k < i ==> rest[k] == patients[k]
            &&& forall|k: int| i <= k < rest.len() ==> rest[k] == patients[k + 1]
            &&& distinct_ids(patients) ==> patient_position(rest, id) is None
        }),
{
    let i = patient_position(patients, id).unwrap();
    let rest = patients.remove(i);
    lemma_patient_position(patients, id);
    lemma_patient_position(rest, id);
    if distinct_ids(patients) {
        if patient_position(rest, id) is Some {
            let k = patient_position(rest, id).unwrap();
            let k0 = if k < i { k } else { k + 1 };
            assert(patient_ids(patients)[k0] == id);
            assert(patient_ids(patients)[i] == id);
        }
    }
}

/// A patient added under an id that no patient had is the one found under
/// that id, at the end of the collection.
pub proof fn lemma_added_patient_is_found(patients: Seq<PatientView>, p: PatientView)
    requires
        patient_position(patients, p.id) is None,
    ensures
        patient_position(patients.push(p), p.id) == Some(patients.len() as int),
{
    lemma_patient_position(patients, p.id);
    lemma_patient_position(patients.push(p), p.id);
    assert(patients.push(p)[patients.len() as int].id == p.id);
}

/// Finds the first patient with the given id.
pub fn find_patient(patients: &Vec<Patient>, id: &str) -> (r: Option<usize>)
    ensures
        match r {
            Some(i) => patient_position(patients.deep_view(), id@) == Some(i as int),
            None => patient_position(patients.deep_view(), id@) is None,
        },
{
    let ghost keys = patient_ids(patients.deep_view());
    let mut i: usize = 0;
    while i < patients.len()
        invariant
            i <= patients.len(),
            keys == patient_ids(patients.deep_view()),
            forall|j: int| 0 <= j < i ==> keys[j] != id@,
        decreases patients.len() - i,
    {
        if patients[i].id.as_str().eq(id) {
            proof {
                lemma_first_position(keys, id@, i as int);
            }
            return Some(i);
        }
        i += 1;
    }
    proof {
        lemma_first_position(keys, id@, i as int);
    }
    None
}

/// Finds the first medication with the given name.
pub fn find_medication(medications: &Vec<Medication>, name: &str) -> (r: Option<usize>)
    ensures
        match r {
            Some(j) => medication_position(medications.deep_view(), name@) == Some(j as int),
            None => medication_position(medications.deep_view(), name@) is None,
        },
{
    let ghost keys = medication_names(medications.deep_view());
    let mut j: usize = 0;
    while j < medications.len()
        invariant
            j <= medications.len(),
            keys == medication_names(medications.deep_view()),
            forall|k: int| 0 <= k < j ==> keys[k] != name@,
        decreases medications.len() - j,
    {
        if medications[j].name.as_str().eq(name) {
            proof {
                lemma_first_position(keys, name@, j as int);
            }
            return Some(j);
        }
        j += 1;
    }
    proof {
        lemma_first_position(keys, name@, j as int);
    }
    None
}

/// Adds a patient with no medications at the end of the collection, unless
/// a patient with the same id is already there: then nothing changes and the
/// result is `Duplicate`.
pub fn add_patient(
    patients: &mut Vec<Patient>,
    id: String,
    name: String,
    age: u32,
    gender: String,
    disease: String,
) -> (r: Result<(), CommandError>)
    ensures
        match patient_position(old(patients).deep_view(), id@) {
            Some(_) => r == Err::<(), CommandError>(CommandError::Duplicate) && *final(patients)
                == *old(patients),
            None => r is Ok && final(patients).deep_view() == old(patients).deep_view().push(
                new_patient(id@, name@, age as nat, gender@, disease@),
            ),
        },
        distinct_ids(old(patients).deep_view()) ==> distinct_ids(final(patients).deep_view()),
{
    if find_patient(patients, id.as_str()).is_some() {
        return Err(CommandError::Duplicate);
    }
    let ghost before = patients.deep_view();
    let patient = Patient { id, name, age, gender, disease, medications: Vec::new() };
    assert(patient@ == new_patient(id@, name@, age as nat, gender@, disease@)) by {
        assert(patient.medications.deep_view() =~= Seq::<MedicationView>::empty());
    }
    patients.push(patient);
    proof {
        patient_ids(before).index_of_first_ensures(id@);
        assert(patient_ids(before.push(patient@)) =~= patient_ids(before).push(id@));
    }
    Ok(())
}

/// Removing one key of a sequence without duplicates leaves none.
proof fn lemma_remove_keeps_distinct(keys: Seq<Seq<char>>, i: int)
    requires
        keys.no_duplicates(),
        0 <= i < keys.len(),
    ensures
        keys.remove(i).no_duplicates(),
{
    let rest = keys.remove(i);
    assert forall|a: int, b: int| 0 <= a < rest.len() && 0 <= b < rest.len() && a != b implies rest[a]
        != rest[b] by {}
}

/// Appends a medication to the list of the first patient with the given id.
/// With no such patient nothing changes and the result is `PatientNotFound`.
pub fn add_medication(
    patients: &mut Vec<Patient>,
    patient_id: &str,
    name: String,
    schedule: String,
) -> (r: Result<(), CommandError>)
    ensures
        match patient_position(old(patients).deep_view(), patient_id@) {
            None => r == Err::<(), CommandError>(CommandError::PatientNotFound) && *final(patients)
                == *old(patients),
            Some(i) => r is Ok && final(patients).deep_view() == old(patients).deep_view().update(
                i,
                with_medications(
                    old(patients).deep_view()[i],
                    old(patients).deep_view()[i].medications.push(
                        MedicationView { name: name@, schedule: schedule@ },
                    ),
                ),
            ),
        },
        distinct_ids(old(patients).deep_view()) ==> distinct_ids(final(patients).deep_view()),
{
    let ghost before = patients.deep_view();
    match find_patient(patients, patient_id) {
        None => Err(CommandError::PatientNotFound),
        Some(i) => {
            proof {
                patient_ids(before).index_of_first_ensures(patient_id@);
            }
            let medication = Medication { name, schedule };
            let ghost list = patients[i as int].medications.deep_view();
            patients[i].medications.push(medication);
            proof {
                assert(patients[i as int].medications.deep_view() =~= list.push(medication@));
                assert(patient_ids(patients.deep_view()) =~= patient_ids(before));
            }
            Ok(())
        },
    }
}

/// Removes the first medication with the given name from the list of the
/// first patient with the given id. With no such patient, or no such
/// medication on that patient, nothing changes and the result says which of
/// the two is missing.
pub fn remove_medication(patients: &mut Vec<Patient>, patient_id: &str, name: &str) -> (r: Result<
    (),
    CommandError,
>)
    ensures
        match patient_position(old(patients).deep_view(), patient_id@) {
            None => r == Err::<(), CommandError>(CommandError::PatientNotFound) && *final(patients)
                == *old(patients),
            Some(i) => match medication_position(
                old(patients).deep_view()[i].medications,
                name@,
            ) {
                None => r == Err::<(), CommandError>(CommandError::MedicationNotFound)
                    && *final(patients) == *old(patients),
                Some(j) => r is Ok && final(patients).deep_view() == old(
                    patients
                ).deep_view().update(
                    i,
                    with_medications(
                        old(patients).deep_view()[i],
                        old(patients).deep_view()[i].medications.remove(j),
                    ),
                ),
            },
        },
        distinct_ids(old(patients).deep_view()) ==> distinct_ids(final(patients).deep_view()),
{
    let ghost before = patients.deep_view();
    match find_patient(patients, patient_id) {
        None => Err(CommandError::PatientNotFound),
        Some(i) => {
            proof {
                patient_ids(before).index_of_first_ensures(patient_id@);
            }
            let ghost list = patients[i as int].medications.deep_view();
            match find_medication(&patients[i].medications, name) {
                None => Err(CommandError::MedicationNotFound),
                Some(j) => {
                    proof {
                        medication_names(list).index_of_first_ensures(name@);
                    }
                    patients[i].medications.remove(j);
                    proof {
                        assert(patients[i as int].medications.deep_view() =~= list.remove(
                            j as int,
                        ));
                        assert(patient_ids(patients.deep_view()) =~= patient_ids(before));
                    }
                    Ok(())
                },
            }
        },
    }
}

/// Replaces the schedule of the first medication with the given name on the
/// first patient with the given id. With no such patient, or no such
/// medication on that patient, nothing changes and the result says which of
/// the two is missing.
pub fn update_medication(
    patients: &mut Vec<Patient>,
    patient_id: &str,
    name: &str,
    new_schedule: String,
) -> (r: Result<(), CommandError>)
    ensures
        match patient_position(old(patients).deep_view(), patient_id@) {
            None => r == Err::<(), CommandError>(CommandError::PatientNotFound) && *final(patients)
                == *old(patients),
            Some(i) => match medication_position(
                old(patients).deep_view()[i].medications,
                name@,
            ) {
                None => r == Err::<(), CommandError>(CommandError::MedicationNotFound)
                    && *final(patients) == *old(patients),
                Some(j) => r is Ok && final(patients).deep_view() == old(
                    patients
                ).deep_view().update(
                    i,
                    with_medications(
                        old(patients).deep_view()[i],
                        old(patients).deep_view()[i].medications.update(
                            j,
                            with_schedule(
                                old(patients).deep_view()[i].medications[j],
                                new_schedule@,
                            ),
                        ),
                    ),
                ),
            },
        },
        distinct_ids(old(patients).deep_view()) ==> distinct_ids(final(patients).deep_view()),
{
    let ghost before = patients.deep_view();
    match find_patient(patients, patient_id) {
        None => Err(CommandError::PatientNotFound),
        Some(i) => {
            proof {
                patient_ids(before).index_of_first_ensures(patient_id@);
            }
            let ghost list = patients[i as int].medications.deep_view();
            match find_medication(&patients[i].medications, name) {
                None => Err(CommandError::MedicationNotFound),
                Some(j) => {
                    proof {
                        medication_names(list).index_of_first_ensures(name@);
                    }
                    patients[i].medications[j].schedule = new_schedule;
                    proof {
                        assert(patients[i as int].medications.deep_view() =~= list.update(
                            j as int,
                            with_schedule(list[j as int], new_schedule@),
                        ));
                        assert(patient_ids(patients.deep_view()) =~= patient_ids(before));
                    }
                    Ok(())
                },
            }
        },
    }
}

/// Removes the first patient with the given id, and with it that patient's
/// medications. With no such patient nothing changes and the result is
/// `PatientNotFound`.
pub fn remove_patient(patients: &mut Vec<Patient>, patient_id: &str) -> (r: Result<
    (),
    CommandError,
>)
    ensures
        match patient_position(old(patients).deep_view(), patient_id@) {
            None => r == Err::<(), CommandError>(CommandError::PatientNotFound) && *final(patients)
                == *old(patients),
            Some(i) => r is Ok && final(patients).deep_view() == old(patients).deep_view().remove(
                i,
            ),
        },
        r is Ok ==> final(patients).len() + 1 == old(patients).len(),
        distinct_ids(old(patients).deep_view()) ==> distinct_ids(final(patients).deep_view()),
{
    let ghost before = patients.deep_view();
    match find_patient(patients, patient_id) {
        None => Err(CommandError::PatientNotFound),
        Some(i) => {
            proof {
                patient_ids(before).index_of_first_ensures(patient_id@);
            }
            patients.remove(i);
            proof {
                assert(patient_ids(before.remove(i as int)) =~= patient_ids(before).remove(
                    i as int,
                ));
                if distinct_ids(before) {
                    lemma_remove_keeps_distinct(patient_ids(before), i as int);
                }
            }
            Ok(())
        },
    }
}

} // verus!
