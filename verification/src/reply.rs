use vstd::prelude::*;

use crate::error::NsddnsError;
use crate::xml::find_tag;
use crate::xml::find_tag_in;
use crate::xml::has_tag_text;
use crate::xml::has_tag_text_in;
use crate::xml::nodes_view;
use crate::xml::parse_xml_nodes;
use crate::xml::scan_subtree_end;
use crate::xml::subtree_end;
use crate::xml::xml_nodes_of;
use crate::xml::XmlNodeV;

verus! {

/// The registrar's documented success sentinel for reply codes.
pub open spec fn success_code() -> Seq<char> {
    "300"@
}

/// Whether a mutation reply carries the documented success code: the
/// document's first `reply` element holds, within its subtree, a `code`
/// element whose text is exactly the success sentinel.
pub open spec fn reply_success(ns: Seq<XmlNodeV>) -> bool {
    match find_tag(ns, 0, ns.len() as int, "reply"@) {
        Some(i) => has_tag_text(
            ns,
            i + 1,
            subtree_end(ns, ns[i].depth, i + 1),
            "code"@,
            success_code(),
        ),
        None => false,
    }
}

/// Validate that the namesilo response has a code of 300 (success).
///
/// Succeeds exactly when the reply carries the success code; a reply whose
/// code is absent or different is rejected the same way, and text that is not
/// well-formed markup is a malformed response.
pub fn validate_reply_code(response_xml: &str) -> (r: Result<(), NsddnsError>)
    ensures
        match xml_nodes_of(response_xml@) {
            Some(ns) => if reply_success(ns) {
                r is Ok
            } else {
                r matches Err(e) && e is ApiRejected
            },
            None => r matches Err(e) && e is MalformedResponse,
        },
{
    let nodes = match parse_xml_nodes(response_xml) {
        Some(nodes) => nodes,
        None => {
            return Err(NsddnsError::MalformedResponse);
        },
    };
    let ghost ns = nodes_view(nodes@);
    match find_tag_in(&nodes, 0, nodes.len(), "reply") {
        Some(i) => {
            assert(ns[i as int] == nodes@[i as int]@);
            let hi = scan_subtree_end(&nodes, nodes[i].depth, i + 1);
            if has_tag_text_in(&nodes, i + 1, hi, "code", "300") {
                Ok(())
            } else {
                Err(NsddnsError::ApiRejected)
            }
        },
        None => Err(NsddnsError::ApiRejected),
    }
}

} // verus!
