use cf_ddns::record::DNSRecord;
use cf_ddns::zone::select_targets;

fn named(id: &str, name: &str) -> DNSRecord {
    DNSRecord {
        id: String::from(id),
        zone_id: String::from("zone-1"),
        name: String::from(name),
        zone_name: String::from("bbl.systems"),
        kind: String::from("A"),
        content: String::from("1.2.3.4"),
        proxied: false,
        ttl: 120,
    }
}

#[test]
fn other_names_are_skipped() {
    let records = vec![named("a", "other.example.com"), named("b", "wg.bbl.systems")];
    let chosen = select_targets(&records, &String::from("wg.bbl.systems"));
    assert_eq!(chosen, vec![named("b", "wg.bbl.systems")]);
}

#[test]
fn empty_listing_selects_nothing() {
    let chosen = select_targets(&Vec::new(), &String::from("wg.bbl.systems"));
    assert!(chosen.is_empty());
}

#[test]
fn no_match_selects_nothing() {
    let records = vec![named("a", "other.example.com"), named("b", "bbl.systems")];
    assert!(select_targets(&records, &String::from("wg.bbl.systems")).is_empty());
}

#[test]
fn the_name_must_match_exactly() {
    let records = vec![
        named("a", "WG.bbl.systems"),
        named("b", "wg.bbl.systems."),
        named("c", " wg.bbl.systems"),
        named("d", "wg.bbl.system"),
        named("e", "x.wg.bbl.systems"),
        named("f", ""),
        named("g", "wg.bbl.systems"),
    ];
    let chosen = select_targets(&records, &String::from("wg.bbl.systems"));
    assert_eq!(chosen, vec![named("g", "wg.bbl.systems")]);
}

#[test]
fn every_match_is_kept_in_order() {
    let records = vec![
        named("1", "wg.bbl.systems"),
        named("2", "other.example.com"),
        named("3", "wg.bbl.systems"),
        named("1", "wg.bbl.systems"),
    ];
    let chosen = select_targets(&records, &String::from("wg.bbl.systems"));
    assert_eq!(
        chosen,
        vec![
            named("1", "wg.bbl.systems"),
            named("3", "wg.bbl.systems"),
            named("1", "wg.bbl.systems")
        ]
    );
}

#[test]
fn selected_records_are_whole() {
    let record = DNSRecord {
        id: String::from("372e67954025e0ba6aaa6d586b9e0b59"),
        zone_id: String::from("023e105f4ecef8ad9ca31a8372d0c353"),
        name: String::from("wg.bbl.systems"),
        zone_name: String::from("bbl.systems"),
        kind: String::from("A"),
        content: String::from("198.51.100.4"),
        proxied: true,
        ttl: -1,
    };
    let chosen = select_targets(&vec![record.clone()], &String::from("wg.bbl.systems"));
    assert_eq!(chosen, vec![record]);
}

#[test]
fn the_listing_is_left_as_it_was() {
    let records = vec![named("a", "other.example.com"), named("b", "wg.bbl.systems")];
    let _ = select_targets(&records, &String::from("wg.bbl.systems"));
    assert_eq!(records, vec![named("a", "other.example.com"), named("b", "wg.bbl.systems")]);
}

#[test]
fn another_target_selects_its_own_records() {
    let records = vec![named("a", "other.example.com"), named("b", "wg.bbl.systems")];
    let chosen = select_targets(&records, &String::from("other.example.com"));
    assert_eq!(chosen, vec![named("a", "other.example.com")]);
}
