use address::{
    parse_address, AddressStatus, CommonAddress, CommonAddresses, MatchFilter,
    MatchPartialRecord, MatchPartialRecords, MatchRecords, MatchStatus, Mismatch, PartialAddress,
    StreetNamePostType, StreetNamePreDirectional, SubaddressType,
};

fn address(number: i64, street: &str, subaddress: Option<&str>) -> CommonAddress {
    CommonAddress {
        number,
        number_suffix: None,
        directional: Some(StreetNamePreDirectional::NORTHEAST),
        pre_modifier: None,
        pre_type: None,
        separator: None,
        street_name: street.to_string(),
        street_type: Some(StreetNamePostType::STREET),
        subaddress_type: subaddress.map(|_| SubaddressType::APARTMENT),
        subaddress_id: subaddress.map(|s| s.to_string()),
        floor: None,
        building: None,
        zip: 97526,
        postal_community: "GRANTS PASS".to_string(),
        state: "OR".to_string(),
        status: AddressStatus::Active,
    }
}

#[test]
fn label_of_full_address() {
    let mut a = address(1865, "BEAVILLA", Some("4"));
    a.number_suffix = Some("1/2".to_string());
    a.street_type = Some(StreetNamePostType::VIEW);
    assert_eq!(a.label(), "1865 1/2 NE BEAVILLA VW APT 4");
    let mut b = address(10, "MAIN", None);
    b.building = Some("C".to_string());
    assert_eq!(b.label(), "10 NE MAIN ST BLDG C");
    let mut c = address(10, "MAIN", None);
    c.subaddress_id = Some("7".to_string());
    assert_eq!(c.label(), "10 NE MAIN ST #7");
    let mut d = address(-3, "MAIN", None);
    d.directional = None;
    assert_eq!(d.label(), "-3 MAIN ST");
    assert_eq!(b.complete_street_name(false), "NORTHEAST MAIN STREET");
    assert_eq!(b.complete_street_name(true), "NE MAIN ST");
}

#[test]
fn status_only_difference_is_divergent() {
    let a = address(100, "MAIN", None);
    let mut b = address(100, "MAIN", None);
    b.status = AddressStatus::Pending;
    let m = a.coincident(&b);
    assert!(m.coincident);
    assert_eq!(m.mismatches.len(), 1);
    match &m.mismatches[0] {
        Mismatch::Status(text) => assert_eq!(text, "Active not equal to Pending"),
        other => panic!("unexpected mismatch {:?}", other),
    }
    let records = MatchRecords::new(&a, &[b]).records;
    assert_eq!(records.len(), 1);
    assert_eq!(records[0].match_status, MatchStatus::Divergent);
    assert_eq!(records[0].status.as_deref(), Some("Active not equal to Pending"));
    assert_eq!(records[0].floor, None);
    assert_eq!(records[0].address_label, "100 NE MAIN ST");
}

#[test]
fn secondary_mismatches_in_order() {
    let a = address(100, "MAIN", Some("2"));
    let mut b = address(100, "MAIN", Some("2"));
    b.subaddress_type = Some(SubaddressType::SUITE);
    b.floor = Some(-1);
    b.building = Some("B".to_string());
    let m = a.coincident(&b);
    assert!(m.coincident);
    assert_eq!(m.mismatches.len(), 3);
    assert!(matches!(&m.mismatches[0], Mismatch::SubaddressType(t) if t == "APT not equal to STE"));
    assert!(matches!(&m.mismatches[1], Mismatch::Floor(t) if t == "None not equal to -1"));
    assert!(matches!(&m.mismatches[2], Mismatch::Building(t) if t == "None not equal to B"));
}

#[test]
fn identical_addresses_match() {
    let a = address(100, "MAIN", None);
    let b = address(100, "MAIN", None);
    let m = a.coincident(&b);
    assert!(m.coincident);
    assert!(m.mismatches.is_empty());
    let records = MatchRecords::new(&a, &[b]).records;
    assert_eq!(records[0].match_status, MatchStatus::Matching);
}

#[test]
fn different_primary_key_is_missing() {
    let a = address(100, "MAIN", None);
    let b = address(101, "MAIN", None);
    let c = address(100, "MAIN", Some("1"));
    assert!(!a.coincident(&b).coincident);
    let records = MatchRecords::new(&a, &[b, c]).records;
    assert_eq!(records.len(), 1);
    assert_eq!(records[0].match_status, MatchStatus::Missing);
    assert_eq!(records[0].address_label, "100 NE MAIN ST");
    let empty = MatchRecords::new(&a, &[]).records;
    assert_eq!(empty.len(), 1);
    assert_eq!(empty[0].match_status, MatchStatus::Missing);
}

#[test]
fn reconcile_keeps_source_order() {
    let a = address(1, "ALDER", None);
    let b = address(2, "BIRCH", None);
    let c = address(3, "CEDAR", None);
    let mut c2 = address(3, "CEDAR", None);
    c2.floor = Some(2);
    let candidates = vec![c.clone(), c2, a.clone()];
    let report = MatchRecords::compare(&[a, b, c], &candidates).records;
    let labels: Vec<&str> = report.iter().map(|r| r.address_label.as_str()).collect();
    assert_eq!(
        labels,
        vec!["1 NE ALDER ST", "2 NE BIRCH ST", "3 NE CEDAR ST", "3 NE CEDAR ST"]
    );
    let statuses: Vec<MatchStatus> = report.iter().map(|r| r.match_status).collect();
    assert_eq!(
        statuses,
        vec![
            MatchStatus::Matching,
            MatchStatus::Missing,
            MatchStatus::Matching,
            MatchStatus::Divergent
        ]
    );
}

#[test]
fn filter_match_records() {
    let a = address(3, "CEDAR", None);
    let mut b = address(3, "CEDAR", None);
    b.status = AddressStatus::Retired;
    let mut c = address(3, "CEDAR", None);
    c.floor = Some(1);
    let x = address(9, "ELM", None);
    let report = MatchRecords::compare(&[a, x], &[b, c]);
    assert_eq!(report.records.len(), 3);
    let status = report.clone().filter("status").records;
    assert_eq!(status.len(), 1);
    assert_eq!(status[0].status.as_deref(), Some("Active not equal to Retired"));
    assert_eq!(report.clone().filter("floor").records.len(), 1);
    assert_eq!(report.clone().filter("divergent").records.len(), 2);
    assert_eq!(report.clone().filter("missing").records.len(), 1);
    assert_eq!(report.clone().filter("building").records.len(), 0);
    assert_eq!(report.clone().filter("nonsense").records.len(), 0);
    assert_eq!(report.filter_by(MatchFilter::Matching).records.len(), 0);
    assert_eq!(MatchFilter::from_verb("subaddress"), Some(MatchFilter::Subaddress));
    assert_eq!(MatchFilter::from_verb("Status"), None);
}

#[test]
fn partial_prefers_exact_matches() {
    let mut partial = PartialAddress::new();
    partial.set_address_number(100);
    partial.set_street_name("MAIN");
    let one = address(100, "MAIN", Some("1"));
    let two = address(100, "MAIN", Some("2"));
    let both = MatchPartialRecord::compare(&partial, &[one.clone(), two.clone()]).records();
    assert_eq!(both.len(), 2);
    assert!(both.iter().all(|r| r.match_status() == MatchStatus::Divergent));
    assert_eq!(both[0].other_label().as_deref(), Some("100 NE MAIN ST APT 1"));
    let exact = address(100, "MAIN", None);
    let only = MatchPartialRecord::compare(&partial, &[one, exact, two]).records();
    assert_eq!(only.len(), 1);
    assert_eq!(only[0].match_status(), MatchStatus::Matching);
    assert_eq!(only[0].other_label().as_deref(), Some("100 NE MAIN ST"));
    assert_eq!(only[0].address_label(), "100 MAIN");
}

#[test]
fn partial_hard_filters() {
    let parsed = parse_address("100 SW MAIN ST").unwrap();
    let a = address(100, "MAIN", None);
    assert!(MatchPartialRecord::coincident(&parsed, &a).is_none());
    let b = address(101, "MAIN", None);
    let mut nw = PartialAddress::new();
    nw.set_address_number(101);
    assert!(MatchPartialRecord::coincident(&nw, &b).is_some());
    let missing = MatchPartialRecord::compare(&parsed, &[a, b]).records();
    assert_eq!(missing.len(), 1);
    assert_eq!(missing[0].match_status(), MatchStatus::Missing);
    assert_eq!(missing[0].other_label(), None);
    let unknown = PartialAddress::new();
    let c = address(7, "OAK", None);
    let any = MatchPartialRecord::coincident(&unknown, &c).unwrap();
    assert_eq!(any.match_status(), MatchStatus::Matching);
}

#[test]
fn partial_batch_and_filter() {
    let p1 = parse_address("1 NE ALDER ST").unwrap();
    let p2 = parse_address("2 NE BIRCH ST APT 5").unwrap();
    let a = address(1, "ALDER", None);
    let b = address(2, "BIRCH", None);
    let report = MatchPartialRecords::compare(&[p1, p2], &[b, a]);
    let records = report.records();
    assert_eq!(records.len(), 2);
    assert_eq!(records[0].match_status(), MatchStatus::Matching);
    assert_eq!(records[1].match_status(), MatchStatus::Divergent);
    assert_eq!(report.clone().filter("divergent").records().len(), 1);
    assert_eq!(report.clone().filter("floor").records().len(), 0);
    assert_eq!(report.filter("matching").records().len(), 1);
}

#[test]
fn duplicate_labels() {
    let a = address(5, "PINE", None);
    let b = address(6, "PINE", None);
    let mut a2 = address(5, "PINE", None);
    a2.status = AddressStatus::Retired;
    let set = CommonAddresses { records: vec![a, b, a2] };
    let dups = set.filter("duplicate");
    assert_eq!(dups.len(), 2);
    assert!(dups.iter().all(|r| r.label() == "5 NE PINE ST"));
    assert_eq!(dups[1].status, AddressStatus::Retired);
    assert!(set.filter("unknown").is_empty());
    let none = CommonAddresses { records: vec![address(1, "A", None)] };
    assert!(none.duplicates().is_empty());
}

#[test]
fn select_by_field() {
    let mut set = CommonAddresses {
        records: vec![address(5, "PINE", None), address(6, "OAK", None), address(7, "PINE", None)],
    };
    set.filter_field("street_name", "PINE");
    assert_eq!(set.records.len(), 2);
    assert_eq!(set.records[1].number, 7);
    set.filter_field("label", "7 NE PINE ST");
    assert_eq!(set.records.len(), 1);
    let mut dirs = CommonAddresses { records: vec![address(5, "PINE", None)] };
    dirs.filter_field("pre_directional", "NORTHEAST");
    assert_eq!(dirs.records.len(), 1);
    dirs.filter_field("post_type", "STREET");
    assert_eq!(dirs.records.len(), 1);
    dirs.filter_field("zip", "97526");
    assert!(dirs.records.is_empty());
}

#[test]
fn streets_and_orphans() {
    let ours = CommonAddresses {
        records: vec![address(5, "PINE", None), address(6, "OAK", None), address(7, "PINE", None)],
    };
    let theirs = CommonAddresses { records: vec![address(1, "OAK", None)] };
    assert!(ours.contains_street("NORTHEAST PINE STREET"));
    assert!(!ours.contains_street("NE PINE ST"));
    let orphans = ours.orphan_streets(&theirs);
    assert_eq!(orphans, vec!["NORTHEAST PINE STREET".to_string()]);
}

#[test]
fn place_name_corrections() {
    let mut view = address(12, "BEAVILLA VIEW", None);
    view.street_type = None;
    let mut other = address(3, "MAIN", None);
    other.street_type = None;
    let mut set = CommonAddresses { records: vec![view, other] };
    set.citify();
    assert_eq!(set.records[0].street_name, "BEAVILLA");
    assert_eq!(set.records[0].street_type, Some(StreetNamePostType::VIEW));
    assert_eq!(set.records[1].street_name, "MAIN");
    assert_eq!(set.records[1].street_type, None);
    set.citify();
    assert_eq!(set.records[0].street_name, "BEAVILLA");
    assert_eq!(set.records[0].street_type, Some(StreetNamePostType::VIEW));
}

#[test]
fn mismatch_descriptions() {
    let m = Mismatch::floor(Some(-12), None);
    assert!(matches!(m, Mismatch::Floor(ref t) if t == "-12 not equal to None"));
    let s = Mismatch::subaddress_type(None, Some(SubaddressType::UNIT));
    assert!(matches!(s, Mismatch::SubaddressType(ref t) if t == "None not equal to UNIT"));
}
