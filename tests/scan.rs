use domainscan::dispatch::{Dispatch, MAX_IN_FLIGHT};
use domainscan::model::{CertEntry, Domain, IpAddress};
use domainscan::names::{extract_domain, generate_candidates, is_subdomain, passive_candidates};
use domainscan::result::{DomainScanResult, ScanStatus};
use domainscan::scanner::{cert_query_url, DomainScanner, DEFAULT_TIMEOUT_MS};

fn cert(common_name: &str) -> CertEntry {
    CertEntry {
        id: 1,
        issuer_ca_id: 2,
        issuer_name: String::from("Issuer"),
        common_name: String::from(common_name),
        name_value: String::from(common_name),
        not_before: String::from("2024-01-01T00:00:00"),
        not_after: String::from("2025-01-01T00:00:00"),
        serial_number: String::from("01"),
        entry_timestamp: String::from("2024-01-01T00:00:00"),
    }
}

fn words(ws: &[&str]) -> Vec<String> {
    ws.iter().map(|w| String::from(*w)).collect()
}

/// Drives a dispatcher to the end; `resolve` stands for the resolver.
/// Returns the kept domains and the peak number of resolutions in flight.
fn drive(mut d: Dispatch, resolve: &dyn Fn(&str) -> Vec<IpAddress>) -> (Vec<Domain>, usize) {
    let mut peak = 0;
    let mut pending: Vec<String> = Vec::new();
    while !d.is_finished() {
        while let Some(name) = d.next_candidate() {
            pending.push(name);
        }
        peak = peak.max(d.in_flight);
        let name = pending.remove(0);
        let ips = resolve(&name);
        d.complete(name, ips);
    }
    (d.into_domains(), peak)
}

fn example_resolver(name: &str) -> Vec<IpAddress> {
    if name == "www.example.com" {
        vec![IpAddress::v4(93, 184, 216, 34)]
    } else {
        vec![]
    }
}

#[test]
fn candidates_one_per_word_in_order() {
    let r = generate_candidates(&String::from("example.com"), &words(&["www", "mail"]));
    assert_eq!(r, vec![String::from("www.example.com"), String::from("mail.example.com")]);
}

#[test]
fn candidates_keep_duplicates() {
    let r = generate_candidates(&String::from("a.org"), &words(&["x", "x", "y"]));
    assert_eq!(r, words(&["x.a.org", "x.a.org", "y.a.org"]));
}

#[test]
fn candidates_of_empty_word_list() {
    let r = generate_candidates(&String::from("example.com"), &Vec::new());
    assert!(r.is_empty());
}

#[test]
fn wildcard_is_stripped() {
    assert_eq!(extract_domain(String::from("*.foo.apex.com")), "foo.apex.com");
}

#[test]
fn name_without_wildcard_is_unchanged() {
    assert_eq!(extract_domain(String::from("foo.apex.com")), "foo.apex.com");
    assert_eq!(extract_domain(String::from("*")), "*");
    assert_eq!(extract_domain(String::from("*x.com")), "*x.com");
    assert_eq!(extract_domain(String::from("*.")), "");
}

#[test]
fn subdomain_test_accepts_longer_name() {
    assert!(is_subdomain(String::from("sub.example.com"), String::from("example.com")));
}

#[test]
fn subdomain_test_rejects_apex_itself() {
    assert!(!is_subdomain(String::from("example.com"), String::from("example.com")));
}

#[test]
fn subdomain_test_rejects_other_names() {
    assert!(!is_subdomain(String::from("example.org"), String::from("example.com")));
    assert!(!is_subdomain(String::from("com"), String::from("example.com")));
}

#[test]
fn subdomain_test_is_a_substring_test() {
    assert!(is_subdomain(String::from("a.example.com.evil.net"), String::from("example.com")));
    assert!(is_subdomain(String::from("myexample.com"), String::from("example.com")));
}

#[test]
fn subdomain_test_with_non_ascii_names() {
    assert!(is_subdomain(String::from("é.bücher.de"), String::from("bücher.de")));
    assert!(!is_subdomain(String::from("bücher.de"), String::from("bücher.de")));
}

#[test]
fn passive_candidates_strip_and_filter() {
    let certs = vec![
        cert("*.example.com"),
        cert("*.foo.example.com"),
        cert("example.com"),
        cert("mail.example.com"),
        cert("other.org"),
    ];
    let r = passive_candidates(&String::from("example.com"), &certs);
    assert_eq!(r, words(&["foo.example.com", "mail.example.com"]));
}

#[test]
fn passive_candidates_of_no_entries() {
    let r = passive_candidates(&String::from("example.com"), &Vec::new());
    assert!(r.is_empty());
}

#[test]
fn ipv4_address_from_octets() {
    assert_eq!(IpAddress::v4(93, 184, 216, 34), IpAddress::V4([93, 184, 216, 34]));
}

#[test]
fn fresh_result_is_ready() {
    let r = DomainScanResult::new();
    assert!(r.domains.is_empty());
    assert_eq!(r.scan_time_ms, 0);
    assert_eq!(r.scan_status, ScanStatus::Ready);
}

#[test]
fn fresh_scanner_defaults() {
    let s = DomainScanner::new().unwrap();
    assert_eq!(s.base_domain, "");
    assert!(s.word_list.is_empty());
    assert_eq!(s.timeout_ms, 30000);
    assert_eq!(DEFAULT_TIMEOUT_MS, 30000);
    assert!(!s.passive);
    assert_eq!(s.get_result().scan_status, ScanStatus::Ready);
}

#[test]
fn setters_store_values() {
    let mut s = DomainScanner::new().unwrap();
    s.set_base_domain(String::from("example.com"));
    s.add_word(String::from("www"));
    s.add_word(String::from("mail"));
    s.set_timeout(5);
    s.set_passive(true);
    assert_eq!(s.base_domain, "example.com");
    assert_eq!(s.word_list, words(&["www", "mail"]));
    assert_eq!(s.timeout_ms, 5);
    assert!(s.passive);
}

#[test]
fn dispatch_caps_in_flight_resolutions() {
    let list: Vec<String> = (0..500).map(|i| format!("w{}", i)).collect();
    let d = Dispatch::active(&String::from("example.com"), &list);
    assert_eq!(d.limit, 100);
    let (found, peak) = drive(d, &|_| vec![IpAddress::v4(10, 0, 0, 1)]);
    assert_eq!(peak, MAX_IN_FLIGHT);
    assert_eq!(found.len(), 500);
}

#[test]
fn dispatch_stops_handing_out_at_the_cap() {
    let list: Vec<String> = (0..150).map(|i| format!("w{}", i)).collect();
    let mut d = Dispatch::active(&String::from("example.com"), &list);
    let mut handed = 0;
    while d.next_candidate().is_some() {
        handed += 1;
    }
    assert_eq!(handed, 100);
    assert_eq!(d.in_flight, 100);
    d.complete(String::from("w0.example.com"), vec![]);
    assert_eq!(d.next_candidate(), Some(String::from("w100.example.com")));
}

#[test]
fn unresolved_candidate_is_dropped() {
    let mut d = Dispatch::active(&String::from("example.com"), &words(&["nx"]));
    let name = d.next_candidate().unwrap();
    d.complete(name, vec![]);
    assert!(d.is_finished());
    assert!(d.into_domains().is_empty());
}

#[test]
fn results_follow_completion_order() {
    let mut d = Dispatch::active(&String::from("example.com"), &words(&["a", "b"]));
    let a = d.next_candidate().unwrap();
    let b = d.next_candidate().unwrap();
    d.complete(b, vec![IpAddress::v4(1, 1, 1, 1)]);
    d.complete(a, vec![IpAddress::v4(2, 2, 2, 2)]);
    let found = d.into_domains();
    assert_eq!(found[0].domain_name, "b.example.com");
    assert_eq!(found[1].domain_name, "a.example.com");
}

#[test]
fn active_scan_end_to_end() {
    let mut s = DomainScanner::new().unwrap();
    s.set_base_domain(String::from("example.com"));
    s.add_word(String::from("www"));
    s.add_word(String::from("mail"));
    let (found, _) = drive(s.plan(&Vec::new()), &example_resolver);
    s.record_outcome(Some(found), 12);
    let r = s.get_result();
    assert_eq!(r.scan_status, ScanStatus::Done);
    assert_eq!(r.scan_time_ms, 12);
    assert_eq!(r.domains.len(), 1);
    assert_eq!(r.domains[0].domain_name, "www.example.com");
    assert_eq!(r.domains[0].ips, vec![IpAddress::V4([93, 184, 216, 34])]);
}

#[test]
fn passive_scan_wildcard_apex_is_excluded() {
    let mut s = DomainScanner::new().unwrap();
    s.set_base_domain(String::from("example.com"));
    s.set_passive(true);
    let d = s.plan(&vec![cert("*.example.com")]);
    assert!(d.candidates.is_empty());
    assert!(d.is_finished());
    let (found, _) = drive(d, &|_| vec![IpAddress::v4(93, 184, 216, 34)]);
    s.record_outcome(Some(found), 3);
    let r = s.get_result();
    assert!(r.domains.is_empty());
    assert_eq!(r.scan_status, ScanStatus::Done);
}

#[test]
fn passive_scan_without_entries_is_done_and_empty() {
    let mut s = DomainScanner::new().unwrap();
    s.set_base_domain(String::from("example.com"));
    s.set_passive(true);
    let d = s.plan(&Vec::new());
    assert!(d.is_finished());
    s.record_outcome(Some(d.into_domains()), 0);
    assert_eq!(s.get_result().scan_status, ScanStatus::Done);
    assert!(s.get_result().domains.is_empty());
}

#[test]
fn passive_scan_resolves_one_at_a_time() {
    let mut s = DomainScanner::new().unwrap();
    s.set_base_domain(String::from("example.com"));
    s.set_passive(true);
    let mut d = s.plan(&vec![cert("*.www.example.com"), cert("mail.example.com")]);
    assert_eq!(d.next_candidate(), Some(String::from("www.example.com")));
    assert_eq!(d.next_candidate(), None);
    d.complete(String::from("www.example.com"), vec![IpAddress::v4(93, 184, 216, 34)]);
    assert_eq!(d.next_candidate(), Some(String::from("mail.example.com")));
}

#[test]
fn timeout_outcome_is_recorded() {
    let mut s = DomainScanner::new().unwrap();
    s.set_timeout(1);
    s.record_outcome(Some(vec![Domain { domain_name: String::from("a.b"), ips: vec![IpAddress::v4(1, 2, 3, 4)] }]), 5);
    s.record_outcome(None, 2);
    let r = s.get_result();
    assert_eq!(r.scan_status, ScanStatus::Timeout);
    assert_eq!(r.scan_time_ms, 2);
    assert!(r.domains.is_empty());
}

#[test]
fn result_copy_is_independent() {
    let mut s = DomainScanner::new().unwrap();
    s.record_outcome(Some(vec![Domain { domain_name: String::from("a.b"), ips: vec![IpAddress::v4(1, 2, 3, 4)] }]), 5);
    let r = s.get_result();
    assert_eq!(r.domains[0].domain_name, "a.b");
    assert_eq!(r.domains[0].ips, vec![IpAddress::v4(1, 2, 3, 4)]);
    assert_eq!(r.scan_time_ms, 5);
}

#[test]
fn cert_query_url_carries_the_apex() {
    let u = cert_query_url(&String::from("example.com"));
    assert_eq!(u, Some(String::from("https://crt.sh/?dNSName=example.com&output=json")));
}

#[test]
fn cert_query_url_encodes_the_apex() {
    let u = cert_query_url(&String::from("a b&c"));
    assert_eq!(u, Some(String::from("https://crt.sh/?dNSName=a+b%26c&output=json")));
}
