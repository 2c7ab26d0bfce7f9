use vstd::prelude::*;

verus! {

/// One node of a parsed markup document.  A document is modelled as its
/// nodes in document order (depth-first), each with the depth at which it
/// stands: every node of a subtree carries a depth strictly greater than the
/// depth of the node that opens it.
#[derive(Debug)]
pub struct XmlNode {
    /// Number of nodes on the path from the document root to this node, this
    /// node included.
    pub depth: usize,
    /// The node's local tag name; empty for anything but an element (element
    /// tag names are never empty).
    pub tag: String,
    /// For an element, the text of its first child when that child is a text
    /// node; for a text or comment node, its own text; `None` otherwise.
    pub text: Option<String>,
}

/// Mathematical image of one `XmlNode`.
pub struct XmlNodeV {
    pub depth: nat,
    pub tag: Seq<char>,
    pub text: Option<Seq<char>>,
}

impl View for XmlNode {
    type V = XmlNodeV;

    open spec fn view(&self) -> XmlNodeV {
        XmlNodeV { depth: self.depth as nat, tag: self.tag@, text: self.text.deep_view() }
    }
}

/// The view of a parsed node list.
pub open spec fn nodes_view(nodes: Seq<XmlNode>) -> Seq<XmlNodeV> {
    nodes.map_values(|n: XmlNode| n@)
}

/// The nodes of the markup document `text`, in document order, with their
/// depths; `None` when the text is not well-formed markup.  A function of the
/// document text alone.
pub uninterp spec fn xml_nodes_of(text: Seq<char>) -> Option<Seq<XmlNodeV>>;

/// Relies on `roxmltree::Document::parse` (whether the text is well-formed
/// markup, and the resulting node tree), `Document::descendants` (every node
/// of the tree in document order), `Node::ancestors` (one node per level up
/// to the root, so its count is the depth), `Node::tag_name` (the local tag
/// name, empty outside elements) and `Node::text`.  All of them depend on the
/// document text alone.
#[verifier::external_body]
pub(crate) fn parse_xml_nodes(text: &str) -> (r: Option<Vec<XmlNode>>)
    ensures
        match r {
            Some(nodes) => xml_nodes_of(text@) == Some(nodes_view(nodes@)),
            None => xml_nodes_of(text@) is None,
        },
{
    let doc = match roxmltree::Document::parse(text) {
        Ok(doc) => doc,
        Err(_) => return None,
    };
    let mut nodes = Vec::new();
    for n in doc.descendants() {
        nodes.push(XmlNode {
            depth: n.ancestors().count(),
            tag: n.tag_name().name().to_owned(),
            text: n.text().map(|t| t.to_owned()),
        });
    }
    Some(nodes)
}

/// Relies on `str`'s `PartialEq`: two string slices are equal exactly when
/// their characters are.
#[verifier::external_body]
pub(crate) fn str_eq(a: &str, b: &str) -> (r: bool)
    ensures
        r == (a@ == b@),
{
    a == b
}

/// The first index at or after `i` whose node has depth at most `d`: one past
/// the end of the subtree that begins just before `i` at depth `d`.
pub open spec fn subtree_end(ns: Seq<XmlNodeV>, d: nat, i: int) -> int
    decreases ns.len() - i,
{
    if i < 0 || i >= ns.len() {
        ns.len() as int
    } else if ns[i].depth <= d {
        i
    } else {
        subtree_end(ns, d, i + 1)
    }
}

/// The index of the first node in `[lo, hi)` whose tag is `tag`.
pub open spec fn find_tag(ns: Seq<XmlNodeV>, lo: int, hi: int, tag: Seq<char>) -> Option<int>
    decreases hi - lo,
{
    if lo < 0 || lo >= hi || hi > ns.len() {
        None
    } else if ns[lo].tag == tag {
        Some(lo)
    } else {
        find_tag(ns, lo + 1, hi, tag)
    }
}

/// The text of the first node in `[lo, hi)` tagged `tag`; `None` when there
/// is no such node or it has no text.
pub open spec fn req_tag_text(ns: Seq<XmlNodeV>, lo: int, hi: int, tag: Seq<char>) -> Option<
    Seq<char>,
> {
    match find_tag(ns, lo, hi, tag) {
        Some(i) => ns[i].text,
        None => None,
    }
}

/// Whether a node is tagged `tag` and carries exactly the text `txt`.
pub open spec fn node_is(n: XmlNodeV, tag: Seq<char>, txt: Seq<char>) -> bool {
    n.tag == tag && n.text == Some(txt)
}

/// Whether some node in `[lo, hi)` is tagged `tag` with text exactly `txt`.
pub open spec fn has_tag_text(
    ns: Seq<XmlNodeV>,
    lo: int,
    hi: int,
    tag: Seq<char>,
    txt: Seq<char>,
) -> bool {
    exists|j: int| lo <= j < hi && j < ns.len() && node_is(ns[j], tag, txt)
}

/// First index at or after `start` whose node has depth at most `d`.
pub(crate) fn scan_subtree_end(nodes: &Vec<XmlNode>, d: usize, start: usize) -> (e: usize)
    requires
        start <= nodes@.len(),
    ensures
        e == subtree_end(nodes_view(nodes@), d as nat, start as int),
        start <= e <= nodes@.len(),
{
    let ghost ns = nodes_view(nodes@);
    let mut i: usize = start;
    while i < nodes.len() && nodes[i].depth > d
        invariant
            start <= i <= nodes@.len(),
            ns == nodes_view(nodes@),
            subtree_end(ns, d as nat, start as int) == subtree_end(ns, d as nat, i as int),
        decreases nodes@.len() - i,
    {
        assert(ns[i as int] == nodes@[i as int]@);
        i = i + 1;
    }
    proof {
        if i < nodes@.len() {
            assert(ns[i as int] == nodes@[i as int]@);
        }
    }
    i
}

/// First index in `[lo, hi)` whose node is tagged `tag`.
pub(crate) fn find_tag_in(nodes: &Vec<XmlNode>, lo: usize, hi: usize, tag: &str) -> (r: Option<
    usize,
>)
    requires
        lo <= hi <= nodes@.len(),
    ensures
        match r {
            Some(i) => lo <= i < hi && find_tag(nodes_view(nodes@), lo as int, hi as int, tag@)
                == Some(i as int),
            None => find_tag(nodes_view(nodes@), lo as int, hi as int, tag@) is None,
        },
{
    let ghost ns = nodes_view(nodes@);
    let mut j: usize = lo;
    while j < hi
        invariant
            lo <= j <= hi <= nodes@.len(),
            ns == nodes_view(nodes@),
            find_tag(ns, lo as int, hi as int, tag@) == find_tag(ns, j as int, hi as int, tag@),
        decreases hi - j,
    {
        assert(ns[j as int] == nodes@[j as int]@);
        if str_eq(nodes[j].tag.as_str(), tag) {
            return Some(j);
        }
        j = j + 1;
    }
    None
}

/// Whether some node in `[lo, hi)` is tagged `tag` with text exactly `txt`.
pub(crate) fn has_tag_text_in(nodes: &Vec<XmlNode>, lo: usize, hi: usize, tag: &str, txt: &str) -> (r:
    bool)
    requires
        lo <= hi <= nodes@.len(),
    ensures
        r == has_tag_text(nodes_view(nodes@), lo as int, hi as int, tag@, txt@),
{
    let ghost ns = nodes_view(nodes@);
    let mut j: usize = lo;
    while j < hi
        invariant
            lo <= j <= hi <= nodes@.len(),
            ns == nodes_view(nodes@),
            forall|k: int| lo <= k < j ==> !node_is(ns[k], tag@, txt@),
        decreases hi - j,
    {
        assert(ns[j as int] == nodes@[j as int]@);
        if str_eq(nodes[j].tag.as_str(), tag) {
            match &nodes[j].text {
                Some(t) => {
                    if str_eq(t.as_str(), txt) {
                        assert(node_is(ns[j as int], tag@, txt@));
                        return true;
                    }
                },
                None => {},
            }
        }
        j = j + 1;
    }
    false
}

} // verus!
