use vstd::prelude::*;

use crate::config::NsddnsConfig;
use crate::error::NsddnsError;
use crate::xml::find_tag_in;
use crate::xml::has_tag_text;
use crate::xml::has_tag_text_in;
use crate::xml::nodes_view;
use crate::xml::parse_xml_nodes;
use crate::xml::req_tag_text;
use crate::xml::scan_subtree_end;
use crate::xml::str_eq;
use crate::xml::subtree_end;
use crate::xml::xml_nodes_of;
use crate::xml::XmlNode;
use crate::xml::XmlNodeV;

verus! {

/// DNS resource record representation
#[derive(Clone, Debug)]
pub struct NsResourceRecord {
    /// Host for the resource record (domain)
    pub record_host: String,
    /// Value of the resource record
    pub record_value: String,
    /// Namesilo's ID for the resource record
    pub record_id: String,
}

/// Mathematical image of one resource record.
pub struct RecordV {
    pub host: Seq<char>,
    pub value: Seq<char>,
    pub id: Seq<char>,
}

impl View for NsResourceRecord {
    type V = RecordV;

    open spec fn view(&self) -> RecordV {
        RecordV { host: self.record_host@, value: self.record_value@, id: self.record_id@ }
    }
}

/// The view of a record list.
pub open spec fn records_view(rs: Seq<NsResourceRecord>) -> Seq<RecordV> {
    rs.map_values(|r: NsResourceRecord| r@)
}

/// Whether the node at `i` opens a retained resource-record element: it is
/// tagged `resource_record` and some node of its subtree marks the record as
/// type "A".
pub open spec fn is_a_record_elem(ns: Seq<XmlNodeV>, i: int) -> bool {
    &&& 0 <= i < ns.len()
    &&& ns[i].tag == "resource_record"@
    &&& has_tag_text(ns, i + 1, subtree_end(ns, ns[i].depth, i + 1), "type"@, "A"@)
}

/// The record read from the subtree of the resource-record element at `i`:
/// `None` when any of the three required fields, or its text, is absent.
pub open spec fn record_fields(ns: Seq<XmlNodeV>, i: int) -> Option<RecordV> {
    let hi = subtree_end(ns, ns[i].depth, i + 1);
    match (
        req_tag_text(ns, i + 1, hi, "host"@),
        req_tag_text(ns, i + 1, hi, "value"@),
        req_tag_text(ns, i + 1, hi, "record_id"@),
    ) {
        (Some(h), Some(v), Some(d)) => Some(RecordV { host: h, value: v, id: d }),
        _ => None,
    }
}

/// The "A"-type records of the node list from index `i` on, in document
/// order; `None` when a retained record lacks a required field.
pub open spec fn records_from(ns: Seq<XmlNodeV>, i: int) -> Option<Seq<RecordV>>
    decreases ns.len() - i,
{
    if i < 0 || i >= ns.len() {
        Some(Seq::empty())
    } else if is_a_record_elem(ns, i) {
        match (record_fields(ns, i), records_from(ns, i + 1)) {
            (Some(r), Some(rest)) => Some(seq![r] + rest),
            _ => None,
        }
    } else {
        records_from(ns, i + 1)
    }
}

/// Parse the XML data into a vec of resource records for a namesilo listDns
/// response.
///
/// Every `resource_record` element marked with type "A" is retained, in
/// document order; a retained record missing any of `host`, `value` or
/// `record_id` (or its text) is a malformed response, as is text that is not
/// well-formed markup.  A listing without "A" records yields the empty list.
pub fn parse_namesilo_a_records_xml(xml_data: &str) -> (r: Result<
    Vec<NsResourceRecord>,
    NsddnsError,
>)
    ensures
        match r {
            Ok(records) => xml_nodes_of(xml_data@) matches Some(ns) && records_from(ns, 0)
                == Some(records_view(records@)),
            Err(e) => e is MalformedResponse && match xml_nodes_of(xml_data@) {
                Some(ns) => records_from(ns, 0) is None,
                None => true,
            },
        },
{
    let nodes = match parse_xml_nodes(xml_data) {
        Some(nodes) => nodes,
        None => {
            return Err(NsddnsError::MalformedResponse);
        },
    };
    let ghost ns = nodes_view(nodes@);
    let mut records: Vec<NsResourceRecord> = Vec::new();
    let mut i: usize = 0;
    while i < nodes.len()
        invariant
            i <= nodes@.len(),
            ns == nodes_view(nodes@),
            xml_nodes_of(xml_data@) == Some(ns),
            records_from(ns, 0) == match records_from(ns, i as int) {
                Some(rest) => Some(records_view(records@) + rest),
                None => None::<Seq<RecordV>>,
            },
        decreases nodes@.len() - i,
    {
        assert(ns[i as int] == nodes@[i as int]@);
        if str_eq(nodes[i].tag.as_str(), "resource_record") {
            let d = nodes[i].depth;
            let hi = scan_subtree_end(&nodes, d, i + 1);
            if has_tag_text_in(&nodes, i + 1, hi, "type", "A") {
                assert(is_a_record_elem(ns, i as int));
                let host = match read_field_text(&nodes, i + 1, hi, "host") {
                    Some(host) => host,
                    None => {
                        return Err(NsddnsError::MalformedResponse);
                    },
                };
                let value = match read_field_text(&nodes, i + 1, hi, "value") {
                    Some(value) => value,
                    None => {
                        return Err(NsddnsError::MalformedResponse);
                    },
                };
                let id = match read_field_text(&nodes, i + 1, hi, "record_id") {
                    Some(id) => id,
                    None => {
                        return Err(NsddnsError::MalformedResponse);
                    },
                };
                let ghost rec = RecordV { host: host@, value: value@, id: id@ };
                assert(record_fields(ns, i as int) == Some(rec));
                let ghost old_records = records@;
                records.push(
                    NsResourceRecord {
                        record_host: host,
                        record_value: value,
                        record_id: id,
                    },
                );
                proof {
                    assert(records_view(records@) =~= records_view(old_records).push(rec));
                    if let Some(rest) = records_from(ns, i + 1) {
                        assert(records_from(ns, i as int) == Some(seq![rec] + rest));
                        assert(records_view(old_records) + (seq![rec] + rest) =~= records_view(
                            records@,
                        ) + rest);
                    }
                }
            } else {
                assert(!is_a_record_elem(ns, i as int));
            }
        } else {
            assert(!is_a_record_elem(ns, i as int));
        }
        i = i + 1;
    }
    proof {
        assert(records_from(ns, i as int) == Some(Seq::<RecordV>::empty()));
        assert(records_view(records@) + Seq::<RecordV>::empty() =~= records_view(records@));
    }
    Ok(records)
}

/// The host name that a configuration selects: `subdomain.domain`, or the
/// apex `domain` alone when the subdomain is blank.
pub open spec fn spec_target_host(domain: Seq<char>, subdomain: Seq<char>) -> Seq<char> {
    if subdomain.len() == 0 {
        domain
    } else {
        subdomain + "."@ + domain
    }
}

/// The host string that the configuration's records must match: the apex
/// domain when the subdomain is blank, `subdomain.domain` otherwise.
pub fn target_host(config: &NsddnsConfig) -> (host: String)
    ensures
        host@ == spec_target_host(config.domain@, config.subdomain@),
{
    if config.subdomain.as_str().is_empty() {
        config.domain.clone()
    } else {
        let mut host = config.subdomain.clone();
        host.append(".");
        host.append(config.domain.as_str());
        host
    }
}

/// The index of the first record at or after `i` whose host is `host`.
pub open spec fn first_host_match(rs: Seq<RecordV>, host: Seq<char>, i: int) -> Option<int>
    decreases rs.len() - i,
{
    if i < 0 || i >= rs.len() {
        None
    } else if rs[i].host == host {
        Some(i)
    } else {
        first_host_match(rs, host, i + 1)
    }
}

/// Select the first record whose host equals the configured target host
/// exactly (case-sensitive, no normalization).  When none matches, the run
/// fails with `NoMatchingRecord` carrying the attempted host and the domain.
pub fn resolve_record(records: Vec<NsResourceRecord>, config: &NsddnsConfig) -> (r: Result<
    NsResourceRecord,
    NsddnsError,
>)
    ensures
        ({
            let rs = records_view(records@);
            let th = spec_target_host(config.domain@, config.subdomain@);
            match r {
                Ok(rr) => {
                    &&& first_host_match(rs, th, 0) matches Some(i)
                    &&& rr@ == rs[i]
                    &&& rs[i].host == th
                    &&& forall|j: int| 0 <= j < i ==> #[trigger] rs[j].host != th
                },
                Err(e) => {
                    &&& first_host_match(rs, th, 0) is None
                    &&& forall|j: int| 0 <= j < rs.len() ==> #[trigger] rs[j].host != th
                    &&& e matches NsddnsError::NoMatchingRecord { target_host, domain }
                        && target_host@ == th && domain@ == config.domain@
                },
            }
        }),
{
    let ghost rs = records_view(records@);
    let ghost th = spec_target_host(config.domain@, config.subdomain@);
    let host = target_host(config);
    let mut i: usize = 0;
    while i < records.len()
        invariant
            i <= records@.len(),
            rs == records_view(records@),
            th == host@,
            th == spec_target_host(config.domain@, config.subdomain@),
            first_host_match(rs, th, 0) == first_host_match(rs, th, i as int),
            forall|j: int| 0 <= j < i ==> #[trigger] rs[j].host != th,
        decreases records@.len() - i,
    {
        assert(rs[i as int] == records@[i as int]@);
        if records[i].record_host == host {
            proof {
                assert(rs[i as int].host == th);
                assert(first_host_match(rs, th, i as int) == Some(i as int));
            }
            let rr = NsResourceRecord {
                record_host: records[i].record_host.clone(),
                record_value: records[i].record_value.clone(),
                record_id: records[i].record_id.clone(),
            };
            return Ok(rr);
        }
        i = i + 1;
    }
    Err(
        NsddnsError::NoMatchingRecord {
            target_host: host,
            domain: config.domain.clone(),
        },
    )
}

/// Law: records_from ignores every index in `[i, j)` that opens no retained
/// "A" record.
proof fn lemma_records_skip(ns: Seq<XmlNodeV>, i: int, j: int)
    requires
        0 <= i <= j <= ns.len(),
        forall|m: int| i <= m < j ==> !is_a_record_elem(ns, m),
    ensures
        records_from(ns, i) == records_from(ns, j),
    decreases j - i,
{
    if i < j {
        assert(!is_a_record_elem(ns, i));
        assert(records_from(ns, i) == records_from(ns, i + 1));
        lemma_records_skip(ns, i + 1, j);
    }
}

/// Law: a listing whose nodes open no retained "A"-type resource record
/// parses to the empty record sequence, never to an error.
pub proof fn lemma_no_a_records_yields_empty(ns: Seq<XmlNodeV>)
    requires
        forall|i: int| 0 <= i < ns.len() ==> !is_a_record_elem(ns, i),
    ensures
        records_from(ns, 0) == Some(Seq::<RecordV>::empty()),
{
    lemma_records_skip(ns, 0, ns.len() as int);
    assert(records_from(ns, ns.len() as int) == Some(Seq::<RecordV>::empty()));
}

/// Law: a listing whose nodes open exactly one retained "A" record, with its
/// host, value and id all present, parses to exactly that one record.
pub proof fn lemma_single_a_record_parses(ns: Seq<XmlNodeV>, k: int, rec: RecordV)
    requires
        0 <= k < ns.len(),
        is_a_record_elem(ns, k),
        record_fields(ns, k) == Some(rec),
        forall|i: int| 0 <= i < ns.len() && i != k ==> !is_a_record_elem(ns, i),
    ensures
        records_from(ns, 0) == Some(seq![rec]),
{
    lemma_records_skip(ns, k + 1, ns.len() as int);
    assert(records_from(ns, k + 1) == Some(Seq::<RecordV>::empty()));
    assert(records_from(ns, k) == Some(seq![rec] + Seq::<RecordV>::empty()));
    assert(seq![rec] + Seq::<RecordV>::empty() =~= seq![rec]);
    lemma_records_skip(ns, 0, k);
}

/// The text of the first node in `[lo, hi)` tagged `tag`, when the node and
/// its text are both there.
fn read_field_text(nodes: &Vec<XmlNode>, lo: usize, hi: usize, tag: &str) -> (r:
    Option<String>)
    requires
        lo <= hi <= nodes@.len(),
    ensures
        match r {
            Some(t) => req_tag_text(nodes_view(nodes@), lo as int, hi as int, tag@) == Some(t@),
            None => req_tag_text(nodes_view(nodes@), lo as int, hi as int, tag@) is None,
        },
{
    match find_tag_in(nodes, lo, hi, tag) {
        Some(j) => {
            assert(nodes_view(nodes@)[j as int] == nodes@[j as int]@);
            match &nodes[j].text {
                Some(t) => Some(t.clone()),
                None => None,
            }
        },
        None => None,
    }
}

} // verus!
