use vstd::prelude::*;

use crate::dispatch::{all_resolved, Dispatch, MAX_IN_FLIGHT};
use crate::model::{CertEntry, Domain};
use crate::names::{candidate_name, common_names, passive_names};
use crate::result::{domain_views, DomainScanResult, ScanStatus};

verus! {

/// The scan deadline that a new scanner starts with, in milliseconds.
pub const DEFAULT_TIMEOUT_MS: u64 = 30000;

/// The certificate-transparency endpoint that passive scans query.
pub const CERT_LOG_ENDPOINT: &'static str = "https://crt.sh/";

/// What `reqwest::Url::parse_with_params` gives for a base URL and its query
/// pairs: the serialised URL, or `None` where the base does not parse.
pub uninterp spec fn url_with_params_of(base: Seq<char>, pairs: Seq<(Seq<char>, Seq<char>)>) -> Option<Seq<char>>;

/// The views of a list of query pairs.
pub open spec fn pair_views(pairs: Seq<(String, String)>) -> Seq<(Seq<char>, Seq<char>)> {
    pairs.map_values(|p: (String, String)| (p.0@, p.1@))
}

/// Relies on `reqwest::Url::parse_with_params` (the `url` crate's `Url`):
/// parses `base` and appends the pairs to its query; its serialisation
/// depends on the arguments alone.
#[verifier::external_body]
fn url_with_params(base: &str, pairs: &Vec<(String, String)>) -> (r: Option<String>)
    ensures
        (r is Some) == (url_with_params_of(base@, pair_views(pairs@)) is Some),
        r matches Some(u) ==> url_with_params_of(base@, pair_views(pairs@)) == Some(u@),
{
    reqwest::Url::parse_with_params(base, pairs).ok().map(|u| u.to_string())
}

/// The query pairs of a certificate-log query for `base_domain`.
pub open spec fn cert_query_pairs(base_domain: Seq<char>) -> Seq<(Seq<char>, Seq<char>)> {
    seq![
        (seq!['d', 'N', 'S', 'N', 'a', 'm', 'e'], base_domain),
        (seq!['o', 'u', 't', 'p', 'u', 't'], seq!['j', 's', 'o', 'n']),
    ]
}

/// The URL of the certificate-log query for `base_domain`: the endpoint with
/// `dNSName=<base_domain>` and `output=json`; `None` exactly where the URL
/// parser rejects it.
pub fn cert_query_url(base_domain: &String) -> (r: Option<String>)
    ensures
        (r is Some) == (url_with_params_of(CERT_LOG_ENDPOINT@, cert_query_pairs(base_domain@)) is Some),
        r matches Some(u) ==> url_with_params_of(CERT_LOG_ENDPOINT@, cert_query_pairs(base_domain@))
            == Some(u@),
{
    let mut pairs: Vec<(String, String)> = Vec::new();
    pairs.push((String::from_str("dNSName"), base_domain.clone()));
    pairs.push((String::from_str("output"), String::from_str("json")));
    proof {
        reveal_strlit("dNSName");
        reveal_strlit("output");
        reveal_strlit("json");
        assert("dNSName"@ =~= seq!['d', 'N', 'S', 'N', 'a', 'm', 'e']);
        assert("output"@ =~= seq!['o', 'u', 't', 'p', 'u', 't']);
        assert("json"@ =~= seq!['j', 's', 'o', 'n']);
        assert(pair_views(pairs@) =~= cert_query_pairs(base_domain@));
    }
    url_with_params(CERT_LOG_ENDPOINT, &pairs)
}

/// A subdomain scanner: its configuration and the result of its last scan.
///
/// A scan runs in three steps: `plan` gives the dispatcher for the
/// configured mode, the caller performs the resolutions it hands out, and
/// `record_outcome` stores how the scan ended.
pub struct DomainScanner {
    /// The apex domain under which subdomains are sought.
    pub base_domain: String,
    /// The words that active scans put in front of the apex.
    pub word_list: Vec<String>,
    /// The deadline of a whole scan, in milliseconds.
    pub timeout_ms: u64,
    /// Whether scans take their candidates from certificate entries.
    pub passive: bool,
    /// The result of the last scan.
    pub scan_result: DomainScanResult,
}

impl DomainScanner {
    /// A scanner with no apex, no words, the default deadline, active mode,
    /// and a `Ready` result.
    pub fn new() -> (r: Result<DomainScanner, String>)
        ensures
            r matches Ok(s) && s.base_domain@.len() == 0 && s.word_list@.len() == 0
                && s.timeout_ms == DEFAULT_TIMEOUT_MS && !s.passive
                && s.scan_result.domains@.len() == 0 && s.scan_result.scan_time_ms == 0
                && s.scan_result.scan_status == ScanStatus::Ready,
    {
        Ok(
            DomainScanner {
                base_domain: String::new(),
                word_list: Vec::new(),
                timeout_ms: DEFAULT_TIMEOUT_MS,
                passive: false,
                scan_result: DomainScanResult::new(),
            },
        )
    }

    /// Sets the apex domain.
    pub fn set_base_domain(&mut self, base_domain: String)
        ensures
            final(self).base_domain == base_domain,
            final(self).word_list == old(self).word_list,
            final(self).timeout_ms == old(self).timeout_ms,
            final(self).passive == old(self).passive,
            final(self).scan_result == old(self).scan_result,
    {
        self.base_domain = base_domain;
    }

    /// Appends a word to the word list.
    pub fn add_word(&mut self, word: String)
        ensures
            final(self).word_list@ == old(self).word_list@.push(word),
            final(self).base_domain == old(self).base_domain,
            final(self).timeout_ms == old(self).timeout_ms,
            final(self).passive == old(self).passive,
            final(self).scan_result == old(self).scan_result,
    {
        self.word_list.push(word);
    }

    /// Sets the deadline of a whole scan, in milliseconds.
    pub fn set_timeout(&mut self, timeout_ms: u64)
        ensures
            final(self).timeout_ms == timeout_ms,
            final(self).base_domain == old(self).base_domain,
            final(self).word_list == old(self).word_list,
            final(self).passive == old(self).passive,
            final(self).scan_result == old(self).scan_result,
    {
        self.timeout_ms = timeout_ms;
    }

    /// Chooses passive (certificate log) or active (word list) scans.
    pub fn set_passive(&mut self, passive: bool)
        ensures
            final(self).passive == passive,
            final(self).base_domain == old(self).base_domain,
            final(self).word_list == old(self).word_list,
            final(self).timeout_ms == old(self).timeout_ms,
            final(self).scan_result == old(self).scan_result,
    {
        self.passive = passive;
    }

    /// A copy of the result of the last scan.
    pub fn get_result(&self) -> (r: DomainScanResult)
        ensures
            domain_views(r.domains@) == domain_views(self.scan_result.domains@),
            r.scan_time_ms == self.scan_result.scan_time_ms,
            r.scan_status == self.scan_result.scan_status,
            all_resolved(self.scan_result.domains@) ==> all_resolved(r.domains@),
    {
        let r = self.scan_result.duplicate();
        proof {
            if all_resolved(self.scan_result.domains@) {
                assert forall|k: int| 0 <= k < r.domains@.len() implies #[trigger] r.domains@[k].ips@.len()
                    > 0 by {
                    assert(domain_views(r.domains@).len() == r.domains@.len());
                    assert(domain_views(self.scan_result.domains@).len()
                        == self.scan_result.domains@.len());
                    assert(domain_views(r.domains@)[k] == domain_views(self.scan_result.domains@)[k]);
                    assert(self.scan_result.domains@[k].ips@.len() > 0);
                }
            }
        }
        r
    }

    /// The dispatcher of a scan in the configured mode. An active scan takes
    /// its candidates from the word list; a passive one from `certs`, the
    /// entries that the certificate log returned (empty where it failed).
    pub fn plan(&self, certs: &Vec<CertEntry>) -> (r: Dispatch)
        ensures
            r.wf(),
            r.next == 0,
            r.in_flight == 0,
            r.found@.len() == 0,
            self.passive ==> r.limit == 1 && r.candidate_names() == passive_names(
                common_names(certs@),
                self.base_domain@,
            ),
            !self.passive ==> {
                &&& r.limit == MAX_IN_FLIGHT
                &&& r.candidates@.len() == self.word_list@.len()
                &&& forall|i: int|
                    0 <= i < self.word_list@.len() ==> #[trigger] r.candidates@[i]@
                        == candidate_name(self.word_list@[i]@, self.base_domain@)
            },
    {
        if self.passive {
            Dispatch::passive(&self.base_domain, certs)
        } else {
            Dispatch::active(&self.base_domain, &self.word_list)
        }
    }

    /// Stores how a scan ended: `Some(domains)` where it finished within the
    /// deadline, `None` where the deadline passed first; `elapsed_ms` is the
    /// time from its start to its end. Only names that resolved to at least
    /// one address are stored.
    pub fn record_outcome(&mut self, outcome: Option<Vec<Domain>>, elapsed_ms: u64)
        requires
            outcome matches Some(ds) ==> all_resolved(ds@),
        ensures
            all_resolved(final(self).scan_result.domains@),
            final(self).scan_result.scan_time_ms == elapsed_ms,
            outcome matches Some(ds) ==> final(self).scan_result.scan_status == ScanStatus::Done
                && final(self).scan_result.domains@ == ds@,
            outcome is None ==> final(self).scan_result.scan_status == ScanStatus::Timeout
                && final(self).scan_result.domains@.len() == 0,
            final(self).base_domain == old(self).base_domain,
            final(self).word_list == old(self).word_list,
            final(self).timeout_ms == old(self).timeout_ms,
            final(self).passive == old(self).passive,
    {
        self.scan_result = match outcome {
            Some(domains) => DomainScanResult {
                domains,
                scan_time_ms: elapsed_ms,
                scan_status: ScanStatus::Done,
            },
            None => DomainScanResult {
                domains: Vec::new(),
                scan_time_ms: elapsed_ms,
                scan_status: ScanStatus::Timeout,
            },
        };
    }
}

} // verus!
