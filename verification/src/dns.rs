//! The DNS probe: independent lookups per record type, merged into one list
//! of records. A record type whose lookup fails is left out; only the failure
//! of both address lookups fails the probe.

use vstd::prelude::*;
use crate::model::{AddressFamily, AddressLookup, DNSRecord, RecordView, ResolvedAddress};
use crate::text::texts_of;

verus! {

/// The record types that the probe asks for.
#[derive(Debug, Clone, Copy, PartialEq, Eq, Structural)]
pub enum RecordType {
    A,
    AAAA,
    MX,
    CNAME,
    TXT,
}

impl RecordType {
    /// The name of the record type as records carry it.
    pub open spec fn spec_label(self) -> Seq<char> {
        match self {
            RecordType::A => "A"@,
            RecordType::AAAA => "AAAA"@,
            RecordType::MX => "MX"@,
            RecordType::CNAME => "CNAME"@,
            RecordType::TXT => "TXT"@,
        }
    }

    /// The name of the record type as records carry it.
    pub fn label(&self) -> (text: &'static str)
        ensures
            text@ == self.spec_label(),
    {
        match self {
            RecordType::A => "A",
            RecordType::AAAA => "AAAA",
            RecordType::MX => "MX",
            RecordType::CNAME => "CNAME",
            RecordType::TXT => "TXT",
        }
    }
}

/// Why a lookup, or the probe as a whole, gave no answer.
#[derive(Debug, Clone, Copy, PartialEq, Eq, Structural)]
pub enum DnsError {
    /// The resolver reported an error for this record type.
    LookupFailed(RecordType),
    /// The lookup was abandoned before the resolver answered.
    LookupAborted,
    /// The resolver reported an error for a reverse lookup.
    ReverseLookupFailed,
    /// The reverse lookup was abandoned before the resolver answered.
    ReverseLookupAborted,
    /// Neither address lookup answered: the name does not resolve at all.
    NoResolution,
}

impl DnsError {
    /// The text of this error.
    pub open spec fn spec_message(self) -> Seq<char> {
        match self {
            DnsError::LookupFailed(kind) => "Failed to lookup "@ + kind.spec_label() + " records"@,
            DnsError::LookupAborted => "DNS lookup task failed"@,
            DnsError::ReverseLookupFailed => "Failed to perform reverse DNS lookup"@,
            DnsError::ReverseLookupAborted => "Reverse DNS lookup task failed"@,
            DnsError::NoResolution => "No name resolution for domain"@,
        }
    }

    /// The text of this error.
    pub fn message(&self) -> (text: String)
        ensures
            text@ == self.spec_message(),
    {
        match self {
            DnsError::LookupFailed(kind) => {
                let mut text = "Failed to lookup ".to_string();
                text.append(kind.label());
                text.append(" records");
                text
            },
            DnsError::LookupAborted => "DNS lookup task failed".to_string(),
            DnsError::ReverseLookupFailed => "Failed to perform reverse DNS lookup".to_string(),
            DnsError::ReverseLookupAborted => "Reverse DNS lookup task failed".to_string(),
            DnsError::NoResolution => "No name resolution for domain".to_string(),
        }
    }
}

/// The time to live, in seconds, given to every record.
pub const RECORD_TTL: u32 = 300;

/// The texts of the addresses of one family among `found`, in their order.
pub open spec fn family_texts(found: Seq<ResolvedAddress>, family: AddressFamily) -> Seq<Seq<char>>
    decreases found.len(),
{
    if found.len() == 0 {
        Seq::empty()
    } else {
        let rest = family_texts(found.drop_last(), family);
        if found.last().family == family {
            rest.push(found.last().text@)
        } else {
            rest
        }
    }
}

/// The texts of the addresses of one family among `found`, in their order.
fn addresses_of_family(found: &Vec<ResolvedAddress>, family: AddressFamily) -> (texts: Vec<String>)
    ensures
        texts_of(texts@) == family_texts(found@, family),
{
    let mut texts: Vec<String> = Vec::new();
    let mut i: usize = 0;
    assert(texts_of(texts@) =~= family_texts(found@.take(0), family));
    while i < found.len()
        invariant
            i <= found.len(),
            texts_of(texts@) == family_texts(found@.take(i as int), family),
        decreases found.len() - i,
    {
        let ghost before = texts_of(texts@);
        if found[i].family == family {
            texts.push(found[i].text.clone());
            assert(texts_of(texts@) =~= before.push(found@[i as int].text@));
        }
        assert(found@.take(i + 1).drop_last() =~= found@.take(i as int));
        i += 1;
    }
    assert(found@.take(found@.len() as int) =~= found@);
    texts
}

/// The answer to a lookup of one address family, given what the forward
/// lookup of the name came to.
pub open spec fn address_records(lookup: AddressLookup, kind: RecordType, family: AddressFamily)
    -> Result<Seq<Seq<char>>, DnsError> {
    match lookup {
        AddressLookup::Resolved(found) => Ok(family_texts(found@, family)),
        AddressLookup::Failed => Err(DnsError::LookupFailed(kind)),
        AddressLookup::Aborted => Err(DnsError::LookupAborted),
    }
}

/// The view of the answer to one lookup.
pub open spec fn answer_view(answer: Result<Vec<String>, DnsError>) -> Result<
    Seq<Seq<char>>,
    DnsError,
> {
    match answer {
        Ok(values) => Ok(texts_of(values@)),
        Err(e) => Err(e),
    }
}

/// The A records of a name: the IPv4 addresses among those it resolved to.
pub fn lookup_a_records(lookup: &AddressLookup) -> (answer: Result<Vec<String>, DnsError>)
    ensures
        answer_view(answer) == address_records(*lookup, RecordType::A, AddressFamily::V4),
{
    match lookup {
        AddressLookup::Resolved(found) => Ok(addresses_of_family(found, AddressFamily::V4)),
        AddressLookup::Failed => Err(DnsError::LookupFailed(RecordType::A)),
        AddressLookup::Aborted => Err(DnsError::LookupAborted),
    }
}

/// The AAAA records of a name: the IPv6 addresses among those it resolved to.
pub fn lookup_aaaa_records(lookup: &AddressLookup) -> (answer: Result<Vec<String>, DnsError>)
    ensures
        answer_view(answer) == address_records(*lookup, RecordType::AAAA, AddressFamily::V6),
{
    match lookup {
        AddressLookup::Resolved(found) => Ok(addresses_of_family(found, AddressFamily::V6)),
        AddressLookup::Failed => Err(DnsError::LookupFailed(RecordType::AAAA)),
        AddressLookup::Aborted => Err(DnsError::LookupAborted),
    }
}

/// The mail exchanger assumed for `domain`. No query is made: the answer is
/// the conventional host name `mail.` followed by the domain.
pub fn lookup_mx_records(domain: &str) -> (values: Vec<String>)
    ensures
        texts_of(values@) == seq!["mail."@ + domain@],
{
    let mut value = "mail.".to_string();
    value.append(domain);
    let mut values: Vec<String> = Vec::new();
    values.push(value);
    assert(texts_of(values@) =~= seq!["mail."@ + domain@]);
    values
}

/// The canonical name assumed for `domain`. No query is made: the answer is
/// the conventional host name `www.` followed by the domain.
pub fn lookup_cname_record(domain: &str) -> (value: String)
    ensures
        value@ == "www."@ + domain@,
{
    let mut value = "www.".to_string();
    value.append(domain);
    value
}

/// The text record assumed for `domain`. No query is made: the answer is a
/// sender policy that includes the domain itself.
pub fn lookup_txt_records(domain: &str) -> (values: Vec<String>)
    ensures
        texts_of(values@) == seq!["v=spf1 include:"@ + domain@ + " ~all"@],
{
    let mut value = "v=spf1 include:".to_string();
    value.append(domain);
    value.append(" ~all");
    let mut values: Vec<String> = Vec::new();
    values.push(value);
    assert(texts_of(values@) =~= seq!["v=spf1 include:"@ + domain@ + " ~all"@]);
    values
}

/// The records of type `kind` for `domain` with the given values, in their
/// order.
pub open spec fn records_of(kind: RecordType, domain: Seq<char>, values: Seq<Seq<char>>) -> Seq<
    RecordView,
> {
    Seq::new(
        values.len(),
        |i: int|
            RecordView {
                record_type: kind.spec_label(),
                name: domain,
                value: values[i],
                ttl: RECORD_TTL as nat,
            },
    )
}

/// The views of a list of records.
pub open spec fn record_views(list: Seq<DNSRecord>) -> Seq<RecordView> {
    list.map_values(|r: DNSRecord| r@)
}

/// Appends to `out` one record of type `kind` for each of `values`.
fn push_records(out: &mut Vec<DNSRecord>, kind: RecordType, domain: &str, values: &Vec<String>)
    ensures
        record_views(final(out)@) == record_views(old(out)@) + records_of(
            kind,
            domain@,
            texts_of(values@),
        ),
{
    let ghost before = record_views(out@);
    let ghost added = records_of(kind, domain@, texts_of(values@));
    let mut i: usize = 0;
    assert(record_views(out@) =~= before + added.take(0));
    while i < values.len()
        invariant
            i <= values.len(),
            added == records_of(kind, domain@, texts_of(values@)),
            record_views(out@) == before + added.take(i as int),
        decreases values.len() - i,
    {
        let ghost so_far = record_views(out@);
        out.push(
            DNSRecord {
                record_type: kind.label().to_string(),
                name: domain.to_string(),
                value: values[i].clone(),
                ttl: RECORD_TTL,
            },
        );
        assert(record_views(out@) =~= so_far.push(added[i as int]));
        assert(before + added.take(i + 1) =~= (before + added.take(i as int)).push(
            added[i as int],
        ));
        i += 1;
    }
    assert(added.take(values@.len() as int) =~= added);
}

/// The answers of the five lookups of a probe, one per record type.
#[derive(Debug)]
pub struct DnsLookups {
    pub a: Result<Vec<String>, DnsError>,
    pub aaaa: Result<Vec<String>, DnsError>,
    pub mx: Result<Vec<String>, DnsError>,
    pub cname: Result<Vec<String>, DnsError>,
    pub txt: Result<Vec<String>, DnsError>,
}

/// The values that a lookup contributes: its answer, or nothing if it
/// failed.
pub open spec fn contribution(answer: Result<Seq<Seq<char>>, DnsError>) -> Seq<Seq<char>> {
    match answer {
        Ok(values) => values,
        Err(_) => Seq::empty(),
    }
}

/// The records of `domain` given the answers to the five lookups: the failure
/// of both address lookups fails the whole; otherwise the records of every
/// lookup that answered, in the order A, AAAA, MX, CNAME, TXT.
pub open spec fn merged_records(
    domain: Seq<char>,
    a: Result<Seq<Seq<char>>, DnsError>,
    aaaa: Result<Seq<Seq<char>>, DnsError>,
    mx: Result<Seq<Seq<char>>, DnsError>,
    cname: Result<Seq<Seq<char>>, DnsError>,
    txt: Result<Seq<Seq<char>>, DnsError>,
) -> Result<Seq<RecordView>, DnsError> {
    if a is Err && aaaa is Err {
        Err(DnsError::NoResolution)
    } else {
        Ok(
            records_of(RecordType::A, domain, contribution(a)) + records_of(
                RecordType::AAAA,
                domain,
                contribution(aaaa),
            ) + records_of(RecordType::MX, domain, contribution(mx)) + records_of(
                RecordType::CNAME,
                domain,
                contribution(cname),
            ) + records_of(RecordType::TXT, domain, contribution(txt)),
        )
    }
}

/// The view of the result of a probe.
pub open spec fn records_view(result: Result<Vec<DNSRecord>, DnsError>) -> Result<
    Seq<RecordView>,
    DnsError,
> {
    match result {
        Ok(list) => Ok(record_views(list@)),
        Err(e) => Err(e),
    }
}

/// Appends the records that one lookup contributes.
fn push_answer(
    out: &mut Vec<DNSRecord>,
    kind: RecordType,
    domain: &str,
    answer: &Result<Vec<String>, DnsError>,
)
    ensures
        record_views(final(out)@) == record_views(old(out)@) + records_of(
            kind,
            domain@,
            contribution(answer_view(*answer)),
        ),
{
    match answer {
        Ok(values) => push_records(out, kind, domain, values),
        Err(_) => {
            assert(record_views(out@) =~= record_views(out@) + records_of(
                kind,
                domain@,
                Seq::empty(),
            ));
        },
    }
}

/// Enumerates the records of `domain` from the answers of the five lookups.
/// A lookup that failed contributes nothing and fails nothing, and a lookup
/// that answered with no value is no failure: only where both address lookups
/// failed is the result an error.
pub fn enumerate_dns_records(domain: &str, lookups: &DnsLookups) -> (result: Result<
    Vec<DNSRecord>,
    DnsError,
>)
    ensures
        records_view(result) == merged_records(
            domain@,
            answer_view(lookups.a),
            answer_view(lookups.aaaa),
            answer_view(lookups.mx),
            answer_view(lookups.cname),
            answer_view(lookups.txt),
        ),
{
    if lookups.a.is_err() && lookups.aaaa.is_err() {
        return Err(DnsError::NoResolution);
    }
    let mut records: Vec<DNSRecord> = Vec::new();
    assert(record_views(records@) =~= Seq::empty());
    push_answer(&mut records, RecordType::A, domain, &lookups.a);
    push_answer(&mut records, RecordType::AAAA, domain, &lookups.aaaa);
    push_answer(&mut records, RecordType::MX, domain, &lookups.mx);
    push_answer(&mut records, RecordType::CNAME, domain, &lookups.cname);
    push_answer(&mut records, RecordType::TXT, domain, &lookups.txt);
    assert(record_views(records@) =~= merged_records(
        domain@,
        answer_view(lookups.a),
        answer_view(lookups.aaaa),
        answer_view(lookups.mx),
        answer_view(lookups.cname),
        answer_view(lookups.txt),
    )->Ok_0);
    Ok(records)
}

/// The five answers for `domain` where only its name was looked up, once for
/// each address family: the addresses found, by family, and for MX, CNAME and
/// TXT the assumed values, for which no query is made.
pub fn lookups_for(domain: &str, a_lookup: &AddressLookup, aaaa_lookup: &AddressLookup) -> (lookups:
    DnsLookups)
    ensures
        answer_view(lookups.a) == address_records(*a_lookup, RecordType::A, AddressFamily::V4),
        answer_view(lookups.aaaa) == address_records(
            *aaaa_lookup,
            RecordType::AAAA,
            AddressFamily::V6,
        ),
        answer_view(lookups.mx) == Ok::<Seq<Seq<char>>, DnsError>(seq!["mail."@ + domain@]),
        answer_view(lookups.cname) == Ok::<Seq<Seq<char>>, DnsError>(seq!["www."@ + domain@]),
        answer_view(lookups.txt) == Ok::<Seq<Seq<char>>, DnsError>(
            seq!["v=spf1 include:"@ + domain@ + " ~all"@],
        ),
{
    let mut cname: Vec<String> = Vec::new();
    cname.push(lookup_cname_record(domain));
    assert(texts_of(cname@) =~= seq!["www."@ + domain@]);
    DnsLookups {
        a: lookup_a_records(a_lookup),
        aaaa: lookup_aaaa_records(aaaa_lookup),
        mx: Ok(lookup_mx_records(domain)),
        cname: Ok(cname),
        txt: Ok(lookup_txt_records(domain)),
    }
}

/// The text of a socket address: `text:port` for IPv4, `[text]:port` for
/// IPv6.
pub open spec fn endpoint_text(address: ResolvedAddress, port: Seq<char>) -> Seq<char> {
    match address.family {
        AddressFamily::V4 => address.text@ + ":"@ + port,
        AddressFamily::V6 => "["@ + address.text@ + "]:"@ + port,
    }
}

/// The endpoints at port 80 of the addresses that `lookup` found.
pub open spec fn reverse_names(lookup: AddressLookup) -> Result<Seq<Seq<char>>, DnsError> {
    match lookup {
        AddressLookup::Resolved(found) => Ok(
            Seq::new(found@.len(), |i: int| endpoint_text(found@[i], "80"@)),
        ),
        AddressLookup::Failed => Err(DnsError::ReverseLookupFailed),
        AddressLookup::Aborted => Err(DnsError::ReverseLookupAborted),
    }
}

/// Lists what an address resolved to, each as the text of its endpoint at
/// port 80.
pub fn reverse_dns_lookup(lookup: &AddressLookup) -> (answer: Result<Vec<String>, DnsError>)
    ensures
        answer_view(answer) == reverse_names(*lookup),
{
    match lookup {
        AddressLookup::Resolved(found) => {
            let mut names: Vec<String> = Vec::new();
            let mut i: usize = 0;
            while i < found.len()
                invariant
                    i <= found.len(),
                    names@.len() == i,
                    forall|k: int|
                        0 <= k < i ==> (#[trigger] names@[k])@ == endpoint_text(
                            found@[k],
                            "80"@,
                        ),
                decreases found.len() - i,
            {
                let address = &found[i];
                let name = match address.family {
                    AddressFamily::V4 => {
                        let mut name = address.text.clone();
                        name.append(":");
                        name.append("80");
                        name
                    },
                    AddressFamily::V6 => {
                        let mut name = "[".to_string();
                        name.append(address.text.as_str());
                        name.append("]:");
                        name.append("80");
                        name
                    },
                };
                names.push(name);
                i += 1;
            }
            assert(texts_of(names@) =~= reverse_names(*lookup)->Ok_0);
            Ok(names)
        },
        AddressLookup::Failed => Err(DnsError::ReverseLookupFailed),
        AddressLookup::Aborted => Err(DnsError::ReverseLookupAborted),
    }
}

/// A lookup that answers with no value contributes no record and is no
/// failure: with every lookup answering and none holding a value, the result
/// is the empty list.
pub proof fn lemma_empty_answers_no_error(domain: Seq<char>)
    ensures
        merged_records(
            domain,
            Ok(Seq::empty()),
            Ok(Seq::empty()),
            Ok(Seq::empty()),
            Ok(Seq::empty()),
            Ok(Seq::empty()),
        ) == Ok::<Seq<RecordView>, DnsError>(Seq::empty()),
{
    assert(records_of(RecordType::A, domain, Seq::empty()) =~= Seq::empty());
    assert(records_of(RecordType::AAAA, domain, Seq::empty()) =~= Seq::empty());
    assert(records_of(RecordType::MX, domain, Seq::empty()) =~= Seq::empty());
    assert(records_of(RecordType::CNAME, domain, Seq::empty()) =~= Seq::empty());
    assert(records_of(RecordType::TXT, domain, Seq::empty()) =~= Seq::empty());
    assert(Seq::<RecordView>::empty() + Seq::<RecordView>::empty() =~= Seq::<RecordView>::empty());
}

/// The failure of one lookup never fails the probe while an address lookup
/// answers, and the records of the lookups that answered are all there: the
/// result has as many records as those lookups hold values.
pub proof fn lemma_partial_failure_keeps_records(
    domain: Seq<char>,
    a: Result<Seq<Seq<char>>, DnsError>,
    aaaa: Result<Seq<Seq<char>>, DnsError>,
    mx: Result<Seq<Seq<char>>, DnsError>,
    cname: Result<Seq<Seq<char>>, DnsError>,
    txt: Result<Seq<Seq<char>>, DnsError>,
)
    requires
        a is Ok || aaaa is Ok,
    ensures
        merged_records(domain, a, aaaa, mx, cname, txt) is Ok,
        merged_records(domain, a, aaaa, mx, cname, txt)->Ok_0.len() == contribution(a).len()
            + contribution(aaaa).len() + contribution(mx).len() + contribution(cname).len()
            + contribution(txt).len(),
{
}

} // verus!
