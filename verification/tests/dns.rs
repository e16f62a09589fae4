use scorton_core::dns::{
    enumerate_dns_records, lookup_a_records, lookup_aaaa_records, lookup_cname_record,
    lookup_mx_records, lookup_txt_records, lookups_for, reverse_dns_lookup, DnsError,
    DnsLookups, RecordType, RECORD_TTL,
};

fn enumerate_names(
    domain: &str,
    a_lookup: &AddressLookup,
    aaaa_lookup: &AddressLookup,
) -> Result<Vec<DNSRecord>, DnsError> {
    enumerate_dns_records(domain, &lookups_for(domain, a_lookup, aaaa_lookup))
}
use scorton_core::model::{AddressFamily, AddressLookup, DNSRecord, ResolvedAddress};

fn v4(text: &str) -> ResolvedAddress {
    ResolvedAddress { family: AddressFamily::V4, text: text.to_string() }
}

fn v6(text: &str) -> ResolvedAddress {
    ResolvedAddress { family: AddressFamily::V6, text: text.to_string() }
}

fn record(kind: &str, name: &str, value: &str) -> DNSRecord {
    DNSRecord {
        record_type: kind.to_string(),
        name: name.to_string(),
        value: value.to_string(),
        ttl: 300,
    }
}

fn texts(values: &[&str]) -> Vec<String> {
    values.iter().map(|v| v.to_string()).collect()
}

#[test]
fn record_type_labels() {
    assert_eq!(RecordType::A.label(), "A");
    assert_eq!(RecordType::AAAA.label(), "AAAA");
    assert_eq!(RecordType::MX.label(), "MX");
    assert_eq!(RecordType::CNAME.label(), "CNAME");
    assert_eq!(RecordType::TXT.label(), "TXT");
    assert_eq!(RECORD_TTL, 300);
}

#[test]
fn error_messages() {
    assert_eq!(DnsError::LookupFailed(RecordType::A).message(), "Failed to lookup A records");
    assert_eq!(DnsError::LookupFailed(RecordType::AAAA).message(), "Failed to lookup AAAA records");
    assert_eq!(DnsError::LookupAborted.message(), "DNS lookup task failed");
    assert_eq!(DnsError::ReverseLookupFailed.message(), "Failed to perform reverse DNS lookup");
    assert_eq!(DnsError::ReverseLookupAborted.message(), "Reverse DNS lookup task failed");
    assert_eq!(DnsError::NoResolution.message(), "No name resolution for domain");
}

#[test]
fn address_lookups_split_by_family() {
    let lookup = AddressLookup::Resolved(vec![
        v6("2001:db8::1"),
        v4("93.184.216.34"),
        v4("93.184.216.35"),
        v6("::1"),
        v4("93.184.216.34"),
    ]);
    assert_eq!(
        lookup_a_records(&lookup),
        Ok(texts(&["93.184.216.34", "93.184.216.35", "93.184.216.34"]))
    );
    assert_eq!(lookup_aaaa_records(&lookup), Ok(texts(&["2001:db8::1", "::1"])));
    let only_v4 = AddressLookup::Resolved(vec![v4("10.0.0.1")]);
    assert_eq!(lookup_aaaa_records(&only_v4), Ok(vec![]));
    assert_eq!(lookup_a_records(&AddressLookup::Resolved(vec![])), Ok(vec![]));
}

#[test]
fn failed_address_lookups() {
    assert_eq!(
        lookup_a_records(&AddressLookup::Failed),
        Err(DnsError::LookupFailed(RecordType::A))
    );
    assert_eq!(
        lookup_aaaa_records(&AddressLookup::Failed),
        Err(DnsError::LookupFailed(RecordType::AAAA))
    );
    assert_eq!(lookup_a_records(&AddressLookup::Aborted), Err(DnsError::LookupAborted));
    assert_eq!(lookup_aaaa_records(&AddressLookup::Aborted), Err(DnsError::LookupAborted));
}

#[test]
fn assumed_records() {
    assert_eq!(lookup_mx_records("example.com"), texts(&["mail.example.com"]));
    assert_eq!(lookup_cname_record("example.com"), "www.example.com");
    assert_eq!(lookup_txt_records("example.com"), texts(&["v=spf1 include:example.com ~all"]));
    assert_eq!(lookup_cname_record(""), "www.");
}

#[test]
fn merge_keeps_order_and_duplicates() {
    let lookups = DnsLookups {
        a: Ok(texts(&["1.1.1.1", "1.1.1.1"])),
        aaaa: Ok(texts(&["::1"])),
        mx: Ok(texts(&["mx1.example.com", "mx2.example.com"])),
        cname: Ok(texts(&["alias.example.com"])),
        txt: Ok(texts(&["hello"])),
    };
    assert_eq!(
        enumerate_dns_records("example.com", &lookups),
        Ok(vec![
            record("A", "example.com", "1.1.1.1"),
            record("A", "example.com", "1.1.1.1"),
            record("AAAA", "example.com", "::1"),
            record("MX", "example.com", "mx1.example.com"),
            record("MX", "example.com", "mx2.example.com"),
            record("CNAME", "example.com", "alias.example.com"),
            record("TXT", "example.com", "hello"),
        ])
    );
}

#[test]
fn merge_omits_failed_lookups() {
    let lookups = DnsLookups {
        a: Ok(texts(&["1.1.1.1"])),
        aaaa: Err(DnsError::LookupFailed(RecordType::AAAA)),
        mx: Err(DnsError::LookupFailed(RecordType::MX)),
        cname: Err(DnsError::LookupAborted),
        txt: Ok(texts(&["t"])),
    };
    assert_eq!(
        enumerate_dns_records("d", &lookups),
        Ok(vec![record("A", "d", "1.1.1.1"), record("TXT", "d", "t")])
    );
}

#[test]
fn merge_of_empty_answers_is_empty_and_no_error() {
    let lookups = DnsLookups {
        a: Ok(vec![]),
        aaaa: Ok(vec![]),
        mx: Ok(vec![]),
        cname: Ok(vec![]),
        txt: Ok(vec![]),
    };
    assert_eq!(enumerate_dns_records("example.com", &lookups), Ok(vec![]));
    // One address lookup answering with nothing is enough to be no error.
    let lookups = DnsLookups {
        a: Err(DnsError::LookupFailed(RecordType::A)),
        aaaa: Ok(vec![]),
        mx: Err(DnsError::LookupFailed(RecordType::MX)),
        cname: Err(DnsError::LookupFailed(RecordType::CNAME)),
        txt: Err(DnsError::LookupFailed(RecordType::TXT)),
    };
    assert_eq!(enumerate_dns_records("example.com", &lookups), Ok(vec![]));
}

#[test]
fn merge_fails_without_any_address_lookup() {
    let lookups = DnsLookups {
        a: Err(DnsError::LookupFailed(RecordType::A)),
        aaaa: Err(DnsError::LookupAborted),
        mx: Ok(texts(&["mail.example.com"])),
        cname: Ok(texts(&["www.example.com"])),
        txt: Ok(texts(&["t"])),
    };
    assert_eq!(enumerate_dns_records("example.com", &lookups), Err(DnsError::NoResolution));
}

#[test]
fn dns_test_dns_enumeration() {
    let lookup = AddressLookup::Resolved(vec![v4("93.184.216.34"), v6("2606:2800:220:1::1")]);
    let _result = enumerate_names("example.com", &lookup, &lookup);
}

#[test]
fn tests_test_dns_enumeration() {
    let lookup = AddressLookup::Resolved(vec![v4("93.184.216.34"), v6("2606:2800:220:1::1")]);
    let result = enumerate_names("example.com", &lookup, &lookup);
    assert!(result.is_ok());

    let records = result.unwrap();
    assert!(!records.is_empty());
    assert_eq!(
        records,
        vec![
            record("A", "example.com", "93.184.216.34"),
            record("AAAA", "example.com", "2606:2800:220:1::1"),
            record("MX", "example.com", "mail.example.com"),
            record("CNAME", "example.com", "www.example.com"),
            record("TXT", "example.com", "v=spf1 include:example.com ~all"),
        ]
    );
}

#[test]
fn enumeration_survives_one_failed_address_lookup() {
    let lookup = AddressLookup::Resolved(vec![v4("10.1.2.3")]);
    let records = enumerate_names("d.test", &lookup, &AddressLookup::Failed).unwrap();
    assert_eq!(records.len(), 4);
    assert_eq!(records[0], record("A", "d.test", "10.1.2.3"));
    assert_eq!(records[1].record_type, "MX");
    let records = enumerate_names("d.test", &AddressLookup::Aborted, &lookup).unwrap();
    assert_eq!(records.len(), 3);
    assert_eq!(records[0].record_type, "MX");
}

#[test]
fn enumeration_fails_when_the_name_does_not_resolve() {
    assert_eq!(
        enumerate_names("nowhere.invalid", &AddressLookup::Failed, &AddressLookup::Failed),
        Err(DnsError::NoResolution)
    );
    assert_eq!(
        enumerate_names("nowhere.invalid", &AddressLookup::Aborted, &AddressLookup::Failed),
        Err(DnsError::NoResolution)
    );
}

#[test]
fn reverse_lookup_lists_endpoints() {
    let lookup = AddressLookup::Resolved(vec![v4("127.0.0.1"), v6("::1")]);
    assert_eq!(reverse_dns_lookup(&lookup), Ok(texts(&["127.0.0.1:80", "[::1]:80"])));
    assert_eq!(reverse_dns_lookup(&AddressLookup::Resolved(vec![])), Ok(vec![]));
    assert_eq!(reverse_dns_lookup(&AddressLookup::Failed), Err(DnsError::ReverseLookupFailed));
    assert_eq!(reverse_dns_lookup(&AddressLookup::Aborted), Err(DnsError::ReverseLookupAborted));
}

#[test]
fn lookups_for_a_name() {
    let lookup = AddressLookup::Resolved(vec![v6("::1"), v4("10.0.0.1")]);
    let lookups = lookups_for("example.com", &lookup, &AddressLookup::Failed);
    assert_eq!(lookups.a, Ok(texts(&["10.0.0.1"])));
    assert_eq!(lookups.aaaa, Err(DnsError::LookupFailed(RecordType::AAAA)));
    assert_eq!(lookups.mx, Ok(texts(&["mail.example.com"])));
    assert_eq!(lookups.cname, Ok(texts(&["www.example.com"])));
    assert_eq!(lookups.txt, Ok(texts(&["v=spf1 include:example.com ~all"])));
}
