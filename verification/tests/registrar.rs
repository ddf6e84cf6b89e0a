use ini_registrar::entry::IniEntryDef;
use ini_registrar::permission::IniEntryPermission;
use ini_registrar::registrar::RawEntryList;
use ini_registrar::registrar::RegistrationError;

fn is_zero_record(record: &IniEntryDef) -> bool {
    record.name().is_none()
        && record.value().is_none()
        && record.name_length() == 0
        && record.value_length() == 0
        && record.modifiable() == 0
}

#[test]
fn test_materialize_empty_sequence() {
    let block = RawEntryList::materialize(Vec::new());
    assert_eq!(block.len(), 1);
    assert!(is_zero_record(block.record(0)));
}

#[test]
fn test_materialize_appends_terminator() {
    let first = IniEntryDef::new(
        b"display_errors".to_vec(),
        b"0".to_vec(),
        &IniEntryPermission::system(),
    )
    .unwrap();
    let second = IniEntryDef::new(
        b"memory_limit".to_vec(),
        b"128M".to_vec(),
        &IniEntryPermission::all(),
    )
    .unwrap();
    let block = RawEntryList::materialize(vec![first, second]);
    assert_eq!(block.len(), 3);
    assert_eq!(block.record(0).name(), &Some(b"display_errors".to_vec()));
    assert_eq!(block.record(1).name(), &Some(b"memory_limit".to_vec()));
    assert!(is_zero_record(block.record(2)));
}

#[test]
fn test_caller_terminator_kept_and_one_more_appended() {
    let block = RawEntryList::materialize(vec![IniEntryDef::end()]);
    assert_eq!(block.len(), 2);
    assert!(is_zero_record(block.record(0)));
    assert!(is_zero_record(block.record(1)));
}

#[test]
fn test_register_empty_sequence_only_terminator() {
    let request = IniEntryDef::register(Vec::new(), 3);
    assert_eq!(request.module_number(), 3);
    assert_eq!(request.block().len(), 1);
    assert!(is_zero_record(request.block().record(0)));
    assert!(request.complete(0).is_ok());
}

#[test]
fn test_register_two_entries_under_module_seven() {
    let entries = vec![
        IniEntryDef::new(
            b"log_level".to_vec(),
            b"1".to_vec(),
            &IniEntryPermission::per_dir(),
        )
        .unwrap(),
        IniEntryDef::new(
            b"cache_size".to_vec(),
            b"256".to_vec(),
            &IniEntryPermission::system(),
        )
        .unwrap(),
    ];
    let request = IniEntryDef::register(entries, 7);
    assert_eq!(request.module_number(), 7);
    let block = request.block();
    assert_eq!(block.len(), 3);
    assert_eq!(block.record(0).name(), &Some(b"log_level".to_vec()));
    assert_eq!(block.record(0).value(), &Some(b"1".to_vec()));
    assert_eq!(block.record(0).modifiable(), 2);
    assert_eq!(block.record(1).name(), &Some(b"cache_size".to_vec()));
    assert_eq!(block.record(1).value(), &Some(b"256".to_vec()));
    assert_eq!(block.record(1).modifiable(), 4);
    assert!(is_zero_record(block.record(2)));
    assert!(request.complete(0).is_ok());
}

#[test]
fn test_duplicate_names_accepted_locally() {
    let entries = vec![
        IniEntryDef::new(b"debug".to_vec(), b"0".to_vec(), &IniEntryPermission::all()).unwrap(),
        IniEntryDef::new(b"debug".to_vec(), b"1".to_vec(), &IniEntryPermission::all()).unwrap(),
    ];
    let request = IniEntryDef::register(entries, 2);
    assert_eq!(request.block().len(), 3);
    assert!(request.complete(0).is_ok());
}

#[test]
fn test_foreign_rejection_surfaced_unchanged() {
    let request = IniEntryDef::register(Vec::new(), 5);
    let outcome = request.complete(-1);
    assert_eq!(outcome.unwrap_err(), RegistrationError { code: -1 });
}

#[test]
fn test_into_raw_consumes_entry() {
    let entry = IniEntryDef::new(b"tz".to_vec(), b"UTC".to_vec(), &IniEntryPermission::per_user())
        .unwrap();
    let _raw = entry.into_raw();
}
