use meditracker::models::Patient;
use meditracker::storage::{begin_load, blank, finish_load, FileRead, LoadStep, StorageError};

#[test]
fn a_missing_file_is_the_empty_collection() {
    assert_eq!(begin_load(FileRead::Missing), LoadStep::Done(Vec::new()));
}

#[test]
fn an_empty_file_is_the_empty_collection() {
    assert_eq!(begin_load(FileRead::Text(String::new())), LoadStep::Done(Vec::new()));
}

#[test]
fn a_blank_file_is_the_empty_collection() {
    assert_eq!(begin_load(FileRead::Text(" \n\t\r\n ".to_string())), LoadStep::Done(Vec::new()));
}

#[test]
fn any_other_text_is_handed_on_unchanged() {
    assert_eq!(begin_load(FileRead::Text("[]".to_string())), LoadStep::Decode("[]".to_string()));
    assert_eq!(
        begin_load(FileRead::Text("  not json \n".to_string())),
        LoadStep::Decode("  not json \n".to_string())
    );
}

#[test]
fn a_failed_read_is_an_io_error_with_the_same_message() {
    assert_eq!(
        begin_load(FileRead::Failed("Could not open data file: permission denied".to_string())),
        LoadStep::Failed(StorageError::Io(
            "Could not open data file: permission denied".to_string()
        ))
    );
}

#[test]
fn text_that_does_not_decode_is_a_format_error() {
    assert_eq!(
        finish_load(Err("expected value at line 1 column 1".to_string())),
        Err(StorageError::Format("expected value at line 1 column 1".to_string()))
    );
}

#[test]
fn a_decoded_collection_is_returned_as_it_is() {
    let patients = vec![Patient {
        id: "K1".to_string(),
        name: "Jane".to_string(),
        age: 40,
        gender: "F".to_string(),
        disease: "Flu".to_string(),
        medications: Vec::new(),
    }];
    assert_eq!(finish_load(Ok(patients.clone())), Ok(patients));
    assert_eq!(finish_load(Ok(Vec::new())), Ok(Vec::new()));
}

#[test]
fn blank_means_nothing_but_whitespace() {
    assert!(blank(""));
    assert!(blank(" "));
    assert!(blank("\n\n"));
    assert!(blank(" \t\r\n\u{a0}\u{3000}"));
    assert!(!blank("[]"));
    assert!(!blank("  x  "));
    assert!(!blank("\u{200b}"));
}
