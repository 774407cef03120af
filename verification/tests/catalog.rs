use electricity_meter_rs::ObiNames;
use electricity_meter_rs::get_lookup_map;
use electricity_meter_rs::lookup_obi_name;

#[test]
fn lookup_known_identifier() {
    let r = lookup_obi_name(&[0x01, 0x00, 0x01, 0x08, 0x00, 0xff]);
    assert_eq!(r, Some(ObiNames::MeterReadingTotal));
}

#[test]
fn lookup_unknown_identifier() {
    let r = lookup_obi_name(&[0xff, 0xff, 0xff, 0xff, 0xff, 0xff]);
    assert_eq!(r, None);
}

#[test]
fn obi_record_of_meter_reading_total() {
    let obi = ObiNames::MeterReadingTotal.obi();
    assert_eq!(obi.id, [0x01, 0x00, 0x01, 0x08, 0x00, 0xff]);
    assert_eq!(obi.pretty_name, "Zählerstand Total");
    assert_eq!(obi.metric_name, "meterreadingtotal");
    assert!(obi.exportable);
}

#[test]
fn obi_record_of_public_key() {
    let obi = ObiNames::PublicKey.obi();
    assert_eq!(obi.id, [0x81, 0x81, 0xc7, 0x82, 0x05, 0xff]);
    assert_eq!(obi.pretty_name, "Öffentlicher Schlüssel");
    assert_eq!(obi.metric_name, "publickey");
    assert!(!obi.exportable);
}

#[test]
fn id_matches_record() {
    assert_eq!(ObiNames::VoltageL2.id(), [0x01, 0x00, 0x34, 0x07, 0x00, 0xff]);
    assert_eq!(ObiNames::NetworkFrequency.id(), [0x01, 0x00, 0x0e, 0x07, 0x00, 0xff]);
}

#[test]
fn all_names_cover_catalog() {
    let names = ObiNames::all();
    let catalog = get_lookup_map();
    assert_eq!(names.len(), catalog.len());
    for (i, name) in names.iter().enumerate() {
        let entry = catalog.entry_at(i);
        assert_eq!(entry.id, name.id());
    }
}

#[test]
fn catalog_lookup_finds_each_entry() {
    // Round trip: looking up any entry's identifier returns an entry
    // with that identifier.
    let catalog = get_lookup_map();
    for i in 0..catalog.len() {
        let entry = catalog.entry_at(i);
        let found = catalog.lookup(&entry.id).expect("entry must be found");
        assert_eq!(found.id, entry.id);
        assert_eq!(found.metric_name, entry.metric_name);
        assert_eq!(found.exportable, entry.exportable);
    }
}

#[test]
fn catalog_lookup_unknown_is_none() {
    let catalog = get_lookup_map();
    assert!(catalog.lookup(&[0x00; 6]).is_none());
    assert!(catalog.lookup(&[0xff; 6]).is_none());
}

#[test]
fn exportable_entries_are_the_four_meter_gauges() {
    let catalog = get_lookup_map();
    let exportable = catalog.exportable_entries();
    let keys: Vec<&str> = exportable.iter().map(|e| e.metric_name).collect();
    assert_eq!(
        keys,
        vec!["meterreadingtotal", "meterreadingtariff1", "meterreadingtariff2", "activepowertotal"]
    );
    assert!(exportable.iter().all(|e| e.exportable));
}

#[test]
fn exportable_entries_are_deterministic() {
    // The same set, in the same order, on every call.
    let catalog = get_lookup_map();
    let first: Vec<[u8; 6]> = catalog.exportable_entries().iter().map(|e| e.id).collect();
    let second: Vec<[u8; 6]> = catalog.exportable_entries().iter().map(|e| e.id).collect();
    let rebuilt: Vec<[u8; 6]> = get_lookup_map().exportable_entries().iter().map(|e| e.id).collect();
    assert_eq!(first, second);
    assert_eq!(first, rebuilt);
}

#[test]
fn identifiers_are_unique() {
    let catalog = get_lookup_map();
    for i in 0..catalog.len() {
        for j in 0..catalog.len() {
            if i != j {
                assert_ne!(catalog.entry_at(i).id, catalog.entry_at(j).id);
            }
        }
    }
}

#[test]
fn exportable_metric_keys_are_unique() {
    let catalog = get_lookup_map();
    for i in 0..catalog.len() {
        for j in 0..catalog.len() {
            if i != j && catalog.entry_at(i).exportable {
                assert_ne!(catalog.entry_at(i).metric_name, catalog.entry_at(j).metric_name);
            }
        }
    }
}
