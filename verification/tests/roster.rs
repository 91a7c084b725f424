use meditracker::models::{Medication, Patient};
use meditracker::roster::{
    add_medication, add_patient, find_medication, find_patient, remove_medication, remove_patient,
    update_medication, CommandError,
};

fn roster_patient(id: &str, name: &str, age: u32) -> Patient {
    Patient {
        id: id.to_string(),
        name: name.to_string(),
        age,
        gender: "F".to_string(),
        disease: "Flu".to_string(),
        medications: Vec::new(),
    }
}

fn roster_medication(name: &str, schedule: &str) -> Medication {
    Medication { name: name.to_string(), schedule: schedule.to_string() }
}

fn roster_of_three() -> Vec<Patient> {
    let mut patients = vec![
        roster_patient("K1", "Jane", 40),
        roster_patient("K2", "Omar", 63),
        roster_patient("K3", "Li", 7),
    ];
    patients[1].medications.push(roster_medication("Aspirin", "8 AM"));
    patients[1].medications.push(roster_medication("Metformin", "8 PM"));
    patients[1].medications.push(roster_medication("Aspirin", "noon"));
    patients
}

fn ids_are_distinct(patients: &[Patient]) -> bool {
    for (i, a) in patients.iter().enumerate() {
        for b in &patients[i + 1..] {
            if a.id == b.id {
                return false;
            }
        }
    }
    true
}

#[test]
fn add_patient_appends_a_patient_without_medications() {
    let mut patients = Vec::new();
    let added = add_patient(
        &mut patients,
        "K1".to_string(),
        "Jane".to_string(),
        40,
        "F".to_string(),
        "Flu".to_string(),
    );
    assert_eq!(added, Ok(()));
    assert_eq!(patients, vec![roster_patient("K1", "Jane", 40)]);

    let added = add_patient(
        &mut patients,
        "K2".to_string(),
        "Omar".to_string(),
        63,
        "M".to_string(),
        "Diabetes".to_string(),
    );
    assert_eq!(added, Ok(()));
    assert_eq!(patients.len(), 2);
    assert_eq!(patients[0].id, "K1");
    assert_eq!(patients[1].id, "K2");
    assert_eq!(patients[1].name, "Omar");
    assert_eq!(patients[1].age, 63);
    assert_eq!(patients[1].gender, "M");
    assert_eq!(patients[1].disease, "Diabetes");
    assert!(patients[1].medications.is_empty());
}

#[test]
fn add_patient_with_a_known_id_changes_nothing() {
    let mut patients = roster_of_three();
    let before = patients.clone();
    let added = add_patient(
        &mut patients,
        "K2".to_string(),
        "Someone Else".to_string(),
        1,
        "M".to_string(),
        "Cold".to_string(),
    );
    assert_eq!(added, Err(CommandError::Duplicate));
    assert_eq!(patients, before);
}

#[test]
fn ids_are_compared_exactly() {
    let mut patients = vec![roster_patient("p1", "Jane", 40)];
    let added = add_patient(
        &mut patients,
        "K1".to_string(),
        "Joan".to_string(),
        41,
        "F".to_string(),
        "Flu".to_string(),
    );
    assert_eq!(added, Ok(()));
    assert_eq!(patients.len(), 2);
    assert_eq!(find_patient(&patients, "p1"), Some(0));
    assert_eq!(find_patient(&patients, "K1"), Some(1));
    assert_eq!(find_patient(&patients, "K1 "), None);
    assert_eq!(find_patient(&patients, ""), None);
}

#[test]
fn find_patient_takes_the_first_match() {
    let patients = vec![
        roster_patient("A", "first", 1),
        roster_patient("B", "second", 2),
        roster_patient("A", "third", 3),
    ];
    assert_eq!(find_patient(&patients, "A"), Some(0));
    assert_eq!(find_patient(&patients, "B"), Some(1));
    assert_eq!(find_patient(&patients, "C"), None);
    assert_eq!(find_patient(&Vec::new(), "A"), None);
}

#[test]
fn find_medication_takes_the_first_match() {
    let patients = roster_of_three();
    assert_eq!(find_medication(&patients[1].medications, "Aspirin"), Some(0));
    assert_eq!(find_medication(&patients[1].medications, "Metformin"), Some(1));
    assert_eq!(find_medication(&patients[1].medications, "aspirin"), None);
    assert_eq!(find_medication(&patients[0].medications, "Aspirin"), None);
}

#[test]
fn add_medication_appends_to_the_patient() {
    let mut patients = roster_of_three();
    let before = patients.clone();
    let added =
        add_medication(&mut patients, "K3", "Tamiflu".to_string(), "Twice daily".to_string());
    assert_eq!(added, Ok(()));
    assert_eq!(patients[0], before[0]);
    assert_eq!(patients[1], before[1]);
    assert_eq!(patients[2].medications, vec![roster_medication("Tamiflu", "Twice daily")]);

    let added = add_medication(&mut patients, "K2", "Aspirin".to_string(), "night".to_string());
    assert_eq!(added, Ok(()));
    assert_eq!(patients[1].medications.len(), 4);
    assert_eq!(patients[1].medications[3], roster_medication("Aspirin", "night"));
    assert_eq!(patients[1].medications[..3], before[1].medications[..]);
}

#[test]
fn add_medication_for_an_unknown_patient_changes_nothing() {
    let mut patients = roster_of_three();
    let before = patients.clone();
    let added = add_medication(&mut patients, "K9", "Tamiflu".to_string(), "daily".to_string());
    assert_eq!(added, Err(CommandError::PatientNotFound));
    assert_eq!(patients, before);
}

#[test]
fn remove_medication_removes_the_first_of_that_name() {
    let mut patients = roster_of_three();
    let before = patients.clone();
    assert_eq!(remove_medication(&mut patients, "K2", "Aspirin"), Ok(()));
    assert_eq!(
        patients[1].medications,
        vec![roster_medication("Metformin", "8 PM"), roster_medication("Aspirin", "noon")]
    );
    assert_eq!(patients[0], before[0]);
    assert_eq!(patients[2], before[2]);
    assert_eq!(patients[1].id, "K2");
    assert_eq!(patients[1].name, "Omar");

    assert_eq!(remove_medication(&mut patients, "K2", "Aspirin"), Ok(()));
    assert_eq!(patients[1].medications, vec![roster_medication("Metformin", "8 PM")]);
    assert_eq!(
        remove_medication(&mut patients, "K2", "Aspirin"),
        Err(CommandError::MedicationNotFound)
    );
}

#[test]
fn remove_medication_tells_the_two_failures_apart() {
    let mut patients = roster_of_three();
    let before = patients.clone();
    assert_eq!(
        remove_medication(&mut patients, "K9", "Aspirin"),
        Err(CommandError::PatientNotFound)
    );
    assert_eq!(patients, before);
    assert_eq!(
        remove_medication(&mut patients, "K1", "Aspirin"),
        Err(CommandError::MedicationNotFound)
    );
    assert_eq!(patients, before);
    assert_eq!(
        remove_medication(&mut patients, "K2", "Ibuprofen"),
        Err(CommandError::MedicationNotFound)
    );
    assert_eq!(patients, before);
}

#[test]
fn update_medication_replaces_the_schedule_of_the_first_match() {
    let mut patients = roster_of_three();
    let before = patients.clone();
    assert_eq!(update_medication(&mut patients, "K2", "Aspirin", "9 AM".to_string()), Ok(()));
    assert_eq!(
        patients[1].medications,
        vec![
            roster_medication("Aspirin", "9 AM"),
            roster_medication("Metformin", "8 PM"),
            roster_medication("Aspirin", "noon"),
        ]
    );
    assert_eq!(patients[0], before[0]);
    assert_eq!(patients[2], before[2]);
}

#[test]
fn update_medication_tells_the_two_failures_apart() {
    let mut patients = roster_of_three();
    let before = patients.clone();
    assert_eq!(
        update_medication(&mut patients, "nobody", "Aspirin", "9 AM".to_string()),
        Err(CommandError::PatientNotFound)
    );
    assert_eq!(patients, before);
    assert_eq!(
        update_medication(&mut patients, "K3", "Aspirin", "9 AM".to_string()),
        Err(CommandError::MedicationNotFound)
    );
    assert_eq!(patients, before);
}

#[test]
fn remove_patient_removes_exactly_that_patient() {
    let mut patients = roster_of_three();
    let before = patients.clone();
    assert_eq!(remove_patient(&mut patients, "K2"), Ok(()));
    assert_eq!(patients, vec![before[0].clone(), before[2].clone()]);
    assert_eq!(find_patient(&patients, "K2"), None);

    assert_eq!(remove_patient(&mut patients, "K1"), Ok(()));
    assert_eq!(patients, vec![before[2].clone()]);
    assert_eq!(remove_patient(&mut patients, "K3"), Ok(()));
    assert!(patients.is_empty());
}

#[test]
fn remove_patient_with_an_unknown_id_changes_nothing() {
    let mut patients = roster_of_three();
    let before = patients.clone();
    assert_eq!(remove_patient(&mut patients, "K4"), Err(CommandError::PatientNotFound));
    assert_eq!(patients, before);
    let mut nobody: Vec<Patient> = Vec::new();
    assert_eq!(remove_patient(&mut nobody, "K1"), Err(CommandError::PatientNotFound));
    assert!(nobody.is_empty());
}

#[test]
fn remove_patient_removes_only_the_first_of_two_with_one_id() {
    let mut patients = vec![
        roster_patient("A", "first", 1),
        roster_patient("B", "second", 2),
        roster_patient("A", "third", 3),
    ];
    assert_eq!(remove_patient(&mut patients, "A"), Ok(()));
    assert_eq!(patients, vec![roster_patient("B", "second", 2), roster_patient("A", "third", 3)]);
}

#[test]
fn commands_keep_the_ids_distinct() {
    let mut patients = Vec::new();
    for id in ["a", "b", "a", "c", "b", "d"] {
        let _ = add_patient(
            &mut patients,
            id.to_string(),
            "n".to_string(),
            30,
            "F".to_string(),
            "x".to_string(),
        );
        assert!(ids_are_distinct(&patients));
    }
    assert_eq!(patients.len(), 4);
    let _ = add_medication(&mut patients, "b", "m".to_string(), "s".to_string());
    assert!(ids_are_distinct(&patients));
    let _ = update_medication(&mut patients, "b", "m", "t".to_string());
    assert!(ids_are_distinct(&patients));
    let _ = remove_medication(&mut patients, "b", "m");
    assert!(ids_are_distinct(&patients));
    let _ = remove_patient(&mut patients, "b");
    assert!(ids_are_distinct(&patients));
    assert_eq!(patients.len(), 3);
}

#[test]
fn not_found_errors_are_told_from_duplicates() {
    assert!(CommandError::PatientNotFound.is_not_found());
    assert!(CommandError::MedicationNotFound.is_not_found());
    assert!(!CommandError::Duplicate.is_not_found());
}
