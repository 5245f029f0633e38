//! Selection among DNS records: the preferred MX exchange, the
//! preferred SRV target, and the mailconf URI of TXT records.

use vstd::prelude::*;

use crate::autoconfig::discover::DiscoveryError;
use crate::text::{from_chars, push_str, string_of};

verus! {

/// Whether a text parses as an `http::Uri`.
pub uninterp spec fn uri_parses(text: Seq<char>) -> bool;

/// `text.parse::<http::Uri>().is_ok()`.
#[verifier::external_body]
fn is_uri(text: &str) -> (b: bool)
    ensures
        b == uri_parses(text@),
{
    text.parse::<http::Uri>().is_ok()
}

/// Whether a character is white space (the Unicode `White_Space`
/// property).
pub open spec fn is_white_space(c: char) -> bool {
    ||| '\u{9}' <= c <= '\u{d}'
    ||| c == ' ' || c == '\u{85}' || c == '\u{a0}' || c == '\u{1680}'
    ||| '\u{2000}' <= c <= '\u{200a}'
    ||| c == '\u{2028}' || c == '\u{2029}' || c == '\u{202f}' || c == '\u{205f}' || c == '\u{3000}'
}

/// The prefix of a mailconf TXT record.
pub open spec fn mailconf_prefix() -> Seq<char> {
    "mailconf="@
}

/// The scheme that a mailconf URI starts with.
pub open spec fn https_prefix() -> Seq<char> {
    "https://"@
}

/// The URI that a TXT record names after `mailconf=`: the whole rest of
/// the record, when it starts with `https://`, has something after it,
/// and holds no white space.
pub open spec fn mailconf_capture_spec(record: Seq<char>) -> Option<Seq<char>> {
    let rest = record.skip(mailconf_prefix().len() as int);
    if record.len() > mailconf_prefix().len() + https_prefix().len()
        && record.take(mailconf_prefix().len() as int) == mailconf_prefix()
        && rest.take(https_prefix().len() as int) == https_prefix()
        && forall|i: int| 0 <= i < rest.len() ==> !is_white_space(#[trigger] rest[i])
    {
        Some(rest)
    } else {
        None
    }
}

/// Whether a character is white space.
fn white_space(c: char) -> (b: bool)
    ensures
        b == is_white_space(c),
{
    ('\u{9}' <= c && c <= '\u{d}') || c == ' ' || c == '\u{85}' || c == '\u{a0}' || c == '\u{1680}'
        || ('\u{2000}' <= c && c <= '\u{200a}') || c == '\u{2028}' || c == '\u{2029}' || c == '\u{202f}'
        || c == '\u{205f}' || c == '\u{3000}'
}

/// Whether the characters from `start` on begin with the given prefix.
fn has_prefix_at(v: &Vec<char>, start: usize, prefix: &str) -> (b: bool)
    requires
        start <= v@.len(),
    ensures
        b == (v@.len() - start >= prefix@.len() && v@.subrange(start as int, start + prefix@.len()) == prefix@),
{
    let p = crate::text::to_chars(prefix);
    if v.len() - start < p.len() {
        return false;
    }
    let vl = v.len();
    let mut i: usize = 0;
    while i < p.len()
        invariant
            i <= p@.len(),
            p@ == prefix@,
            vl == v@.len(),
            start + p@.len() <= v@.len(),
            forall|k: int| 0 <= k < i ==> v@[start + k] == p@[k],
        decreases p.len() - i,
    {
        assert(start + i < vl);
        if v[start + i] != p[i] {
            assert(v@.subrange(start as int, start + prefix@.len())[i as int] != prefix@[i as int]);
            return false;
        }
        i += 1;
    }
    assert(v@.subrange(start as int, start + prefix@.len()) =~= prefix@);
    true
}

/// The URI that a TXT record names after `mailconf=`.
pub fn mailconf_capture(record: &str) -> (r: Option<String>)
    ensures
        match r {
            Some(c) => mailconf_capture_spec(record@) == Some(c@),
            None => mailconf_capture_spec(record@) is None,
        },
{
    let v = crate::text::to_chars(record);
    proof {
        reveal_strlit("mailconf=");
        reveal_strlit("https://");
    }
    let n: usize = 9;
    if v.len() <= 17 || !has_prefix_at(&v, 0, "mailconf=") || !has_prefix_at(&v, n, "https://") {
        proof {
            let rest = record@.skip(9);
            if record@.len() > 17 && record@.take(9) == mailconf_prefix() {
                assert(v@.subrange(0, 9) =~= record@.take(9));
                assert(v@.subrange(9, 17) =~= rest.take(8));
            }
        }
        return None;
    }
    let mut rest: Vec<char> = Vec::new();
    let mut i: usize = n;
    while i < v.len()
        invariant
            n == 9,
            n <= i <= v@.len(),
            v@ == record@,
            rest@ == v@.subrange(9, i as int),
            forall|k: int| 0 <= k < rest@.len() ==> !is_white_space(#[trigger] rest@[k]),
        decreases v.len() - i,
    {
        if white_space(v[i]) {
            proof {
                reveal_strlit("mailconf=");
                let r = record@.skip(9);
                assert(r[i - 9] == v@[i as int]);
                assert(is_white_space(r[i - 9]));
                assert(!(forall|k: int| 0 <= k < r.len() ==> !is_white_space(#[trigger] r[k])));
            }
            return None;
        }
        rest.push(v[i]);
        assert(rest@ =~= v@.subrange(9, i + 1));
        i += 1;
    }
    proof {
        assert(rest@ =~= record@.skip(9));
        assert(v@.subrange(0, 9) =~= record@.take(9));
        assert(v@.subrange(9, 17) =~= record@.skip(9).take(8));
    }
    Some(from_chars(&rest))
}

/// The mailconf URI of a TXT record, when it has one that parses.
pub open spec fn mailconf_of(record: Seq<char>) -> Option<Seq<char>> {
    match mailconf_capture_spec(record) {
        Some(c) => if uri_parses(c) { Some(c) } else { None },
        None => None,
    }
}

/// The mailconf URI of a TXT record, when it has one that parses.
pub fn mailconf_uri_of(record: &str) -> (r: Option<String>)
    ensures
        match r {
            Some(u) => mailconf_of(record@) == Some(u@),
            None => mailconf_of(record@) is None,
        },
{
    match mailconf_capture(record) {
        Some(c) => if is_uri(c.as_str()) { Some(c) } else { None },
        None => None,
    }
}

/// The first mailconf URI of the TXT records of a domain, in the
/// order of the records.
pub fn mailconf_txt_uri(domain: &str, records: &Vec<String>) -> (r: Result<String, DiscoveryError>)
    ensures
        match r {
            Ok(u) => exists|i: int| #![trigger records@[i]] 0 <= i < records@.len()
                && mailconf_of(records@[i]@) == Some(u@)
                && forall|j: int| 0 <= j < i ==> mailconf_of(#[trigger] records@[j]@) is None,
            Err(e) => (e matches DiscoveryError::GetMailconfTxtRecordNotFoundError(d) && d@ == domain@)
                && forall|j: int| 0 <= j < records@.len() ==> mailconf_of(#[trigger] records@[j]@) is None,
        },
{
    let mut i: usize = 0;
    while i < records.len()
        invariant
            i <= records.len(),
            forall|j: int| 0 <= j < i ==> mailconf_of(#[trigger] records@[j]@) is None,
        decreases records.len() - i,
    {
        if let Some(u) = mailconf_uri_of(records[i].as_str()) {
            return Ok(u);
        }
        i += 1;
    }
    Err(DiscoveryError::GetMailconfTxtRecordNotFoundError(string_of(domain)))
}

/// A MX record: its preference and its exchange domain.
#[derive(Debug, Clone)]
pub struct MxRecord {
    pub preference: u16,
    pub exchange: String,
}

impl MxRecord {
    /// A MX record from its preference and exchange domain.
    pub fn new(preference: u16, exchange: String) -> (r: MxRecord)
        ensures
            r.preference == preference,
            r.exchange == exchange,
    {
        MxRecord { preference, exchange }
    }
}

/// The exchange of the preferred MX record: the lowest preference, the
/// first record among equals.
pub fn best_mx_exchange(domain: &str, records: &Vec<MxRecord>) -> (r: Result<String, DiscoveryError>)
    ensures
        match r {
            Ok(e) => exists|i: int| #![trigger records@[i]] 0 <= i < records@.len()
                && records@[i].exchange@ == e@
                && (forall|j: int| 0 <= j < records@.len() ==> records@[i].preference <= #[trigger] records@[j].preference)
                && (forall|j: int| 0 <= j < i ==> records@[i].preference < #[trigger] records@[j].preference),
            Err(e) => records@.len() == 0
                && (e matches DiscoveryError::GetMxRecordNotFoundError(d) && d@ == domain@),
        },
{
    if records.len() == 0 {
        return Err(DiscoveryError::GetMxRecordNotFoundError(string_of(domain)));
    }
    let mut best: usize = 0;
    let mut i: usize = 1;
    while i < records.len()
        invariant
            1 <= i <= records.len(),
            best < i,
            forall|j: int| 0 <= j < i ==> records@[best as int].preference <= #[trigger] records@[j].preference,
            forall|j: int| 0 <= j < best ==> records@[best as int].preference < #[trigger] records@[j].preference,
        decreases records.len() - i,
    {
        if records[i].preference < records[best].preference {
            best = i;
        }
        i += 1;
    }
    Ok(records[best].exchange.clone())
}

/// A SRV record: its priority, weight, port and target, and whether
/// the target is the root domain.
#[derive(Debug, Clone)]
pub struct SrvRecord {
    pub priority: u16,
    pub weight: u16,
    pub port: u16,
    pub target: String,
    pub target_is_root: bool,
}

/// Whether `a` comes strictly before `b`: lower priority first, then
/// higher weight first.
pub open spec fn srv_before(a: SrvRecord, b: SrvRecord) -> bool {
    a.priority < b.priority || (a.priority == b.priority && a.weight > b.weight)
}

/// The domain looked up for the SRV records of a service:
/// `_{subdomain}._tcp.{domain}`.
pub open spec fn srv_domain_spec(domain: Seq<char>, subdomain: Seq<char>) -> Seq<char> {
    seq!['_'] + subdomain + "._tcp."@ + domain
}

/// The domain looked up for the SRV records of a service.
pub fn srv_domain(domain: &str, subdomain: &str) -> (r: String)
    ensures
        r@ == srv_domain_spec(domain@, subdomain@),
{
    let mut v: Vec<char> = Vec::new();
    v.push('_');
    push_str(&mut v, subdomain);
    push_str(&mut v, "._tcp.");
    push_str(&mut v, domain);
    from_chars(&v)
}

/// The preferred SRV record of the given service domain: among the
/// records whose target is not the root, one that no other comes
/// strictly before, the first such in the order of the records.
pub fn best_srv_record(srv_domain: &str, records: &Vec<SrvRecord>) -> (r: Result<SrvRecord, DiscoveryError>)
    ensures
        match r {
            Ok(s) => exists|i: int| #![trigger records@[i]] 0 <= i < records@.len()
                && !records@[i].target_is_root
                && s.priority == records@[i].priority && s.weight == records@[i].weight
                && s.port == records@[i].port && s.target@ == records@[i].target@
                && !s.target_is_root
                && (forall|j: int| 0 <= j < records@.len() && !(#[trigger] records@[j]).target_is_root
                    ==> !srv_before(records@[j], records@[i]))
                && (forall|j: int| 0 <= j < i && !(#[trigger] records@[j]).target_is_root
                    ==> srv_before(records@[i], records@[j])),
            Err(e) => (forall|j: int| 0 <= j < records@.len() ==> (#[trigger] records@[j]).target_is_root)
                && (e matches DiscoveryError::GetSrvRecordNotFoundError(d) && d@ == srv_domain@),
        },
{
    let mut best: Option<usize> = None;
    let mut i: usize = 0;
    while i < records.len()
        invariant
            i <= records.len(),
            match best {
                None => forall|j: int| 0 <= j < i ==> (#[trigger] records@[j]).target_is_root,
                Some(b) => b < i && !records@[b as int].target_is_root
                    && (forall|j: int| 0 <= j < i && !(#[trigger] records@[j]).target_is_root
                        ==> !srv_before(records@[j], records@[b as int]))
                    && (forall|j: int| 0 <= j < b && !(#[trigger] records@[j]).target_is_root
                        ==> srv_before(records@[b as int], records@[j])),
            },
        decreases records.len() - i,
    {
        let r = &records[i];
        if !r.target_is_root {
            match best {
                None => {
                    best = Some(i);
                },
                Some(b) => {
                    let rb = &records[b];
                    if r.priority < rb.priority || (r.priority == rb.priority && r.weight > rb.weight) {
                        best = Some(i);
                    }
                },
            }
        }
        i += 1;
    }
    match best {
        None => Err(DiscoveryError::GetSrvRecordNotFoundError(string_of(srv_domain))),
        Some(b) => {
            let rb = &records[b];
            Ok(SrvRecord {
                priority: rb.priority,
                weight: rb.weight,
                port: rb.port,
                target: rb.target.clone(),
                target_is_root: false,
            })
        },
    }
}

} // verus!
