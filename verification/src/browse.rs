//! Decisions taken while browsing the server's address space: which
//! children are device nodes, which tag variables match the target
//! set, and how a matched variable's node identifier is recorded.
//!
//! The browse calls themselves are server round trips and live with
//! the session owner; this module holds the verified rules they apply
//! to every reference that comes back.

use vstd::prelude::*;
use crate::text::{contains_bytes, contains_subslice, bytes_eq, suffix_from};

verus! {

/// Number of bytes of serialization prefix stripped from the textual
/// form of a matched variable's node identifier.
pub const NODE_ID_PREFIX_LEN: usize = 13;

/// Namespace index of every monitored tag variable.
pub const TAG_NAMESPACE: u16 = 2;

/// Decimal digits of `k`, for `0 < k < 1000`.
pub open spec fn decimal_bytes(k: int) -> Seq<u8> {
    if k < 10 {
        seq![(48 + k) as u8]
    } else if k < 100 {
        seq![(48 + k / 10) as u8, (48 + k % 10) as u8]
    } else {
        seq![(48 + k / 100) as u8, (48 + (k / 10) % 10) as u8, (48 + k % 10) as u8]
    }
}

/// The byte string `Device<k>`.
pub open spec fn device_label(k: int) -> Seq<u8> {
    seq![68u8, 101u8, 118u8, 105u8, 99u8, 101u8] + decimal_bytes(k)
}

/// A display name marks a device node when it contains one of the
/// labels `Device1` through `Device102`.
pub open spec fn is_device_display_name(s: Seq<u8>) -> bool {
    exists|k: int| 1 <= k <= 102 && contains_bytes(s, #[trigger] device_label(k))
}

/// Builds the byte string `Device<k>`.
pub fn device_label_bytes(k: u32) -> (r: Vec<u8>)
    requires
        1 <= k <= 102,
    ensures
        r@ == device_label(k as int),
{
    let mut r: Vec<u8> = Vec::new();
    r.push(68);
    r.push(101);
    r.push(118);
    r.push(105);
    r.push(99);
    r.push(101);
    if k < 10 {
        r.push(48 + k as u8);
    } else if k < 100 {
        r.push(48 + (k / 10) as u8);
        r.push(48 + (k % 10) as u8);
    } else {
        r.push(48 + (k / 100) as u8);
        r.push(48 + ((k / 10) % 10) as u8);
        r.push(48 + (k % 10) as u8);
    }
    proof {
        assert(r@ =~= device_label(k as int));
    }
    r
}

/// True when the display name belongs to a device node: it contains
/// one of `Device1` through `Device102`.
pub fn is_device_node(display_name: &Vec<u8>) -> (r: bool)
    ensures
        r == is_device_display_name(display_name@),
{
    let mut k: u32 = 1;
    while k <= 102
        invariant
            1 <= k <= 103,
            forall|j: int|
                1 <= j < k ==> !contains_bytes(display_name@, #[trigger] device_label(j)),
        decreases 103 - k,
    {
        let label = device_label_bytes(k);
        if contains_subslice(display_name, &label) {
            return true;
        }
        k = k + 1;
    }
    false
}

/// One forward reference returned by a browse call, reduced to the
/// plain values the matching rules read.
pub struct BrowseReference {
    /// Display name of the referenced node.
    pub display_name: Vec<u8>,
    /// Textual form of the referenced node's identifier.
    pub node_id_text: Vec<u8>,
}

/// Mathematical image of a `BrowseReference`.
pub struct BrowseReferenceView {
    pub display_name: Seq<u8>,
    pub node_id_text: Seq<u8>,
}

impl View for BrowseReference {
    type V = BrowseReferenceView;

    open spec fn view(&self) -> BrowseReferenceView {
        BrowseReferenceView {
            display_name: self.display_name@,
            node_id_text: self.node_id_text@,
        }
    }
}

/// Node identifiers recorded for the references whose display name is
/// in the tag set, in traversal order, each with the serialization
/// prefix stripped.  Duplicates are kept.
pub open spec fn selected_identifiers(
    refs: Seq<BrowseReferenceView>,
    tags: Seq<Seq<u8>>,
) -> Seq<Seq<u8>>
    decreases refs.len(),
{
    if refs.len() == 0 {
        Seq::empty()
    } else {
        let rest = selected_identifiers(refs.drop_last(), tags);
        if tags.contains(refs.last().display_name) {
            rest.push(refs.last().node_id_text.skip(NODE_ID_PREFIX_LEN as int))
        } else {
            rest
        }
    }
}

/// Browsing scope law: every identifier that the matching rule
/// records comes from a reference whose own display name is in the
/// tag set, with the serialization prefix stripped.  Together with
/// the rule that only children recognized as device nodes have their
/// references matched, only variables under a device node and named
/// in the tag set can ever be monitored and produce records.
pub proof fn lemma_selected_only_from_tag_set(
    refs: Seq<BrowseReferenceView>,
    tags: Seq<Seq<u8>>,
    k: int,
)
    requires
        0 <= k < selected_identifiers(refs, tags).len(),
    ensures
        exists|i: int|
            0 <= i < refs.len() && tags.contains(#[trigger] refs[i].display_name)
                && selected_identifiers(refs, tags)[k]
                    == refs[i].node_id_text.skip(NODE_ID_PREFIX_LEN as int),
    decreases refs.len(),
{
    let selected = selected_identifiers(refs, tags);
    let rest = selected_identifiers(refs.drop_last(), tags);
    if tags.contains(refs.last().display_name) && k == rest.len() {
        assert(refs[refs.len() - 1] == refs.last());
        assert(selected[k] == refs.last().node_id_text.skip(NODE_ID_PREFIX_LEN as int));
    } else {
        lemma_selected_only_from_tag_set(refs.drop_last(), tags, k);
        assert forall|i: int|
            0 <= i < refs.drop_last().len() && tags.contains(#[trigger] refs.drop_last()[i].display_name)
                && rest[k] == refs.drop_last()[i].node_id_text.skip(NODE_ID_PREFIX_LEN as int)
            implies
                0 <= i < refs.len() && tags.contains(refs[i].display_name)
                    && selected[k] == refs[i].node_id_text.skip(NODE_ID_PREFIX_LEN as int)
        by {
            assert(refs.drop_last()[i] == refs[i]);
        }
    }
}

/// True when `name` equals one of the tag names.
pub fn contains_tag(tags: &Vec<Vec<u8>>, name: &Vec<u8>) -> (r: bool)
    ensures
        r == tags@.map_values(|t: Vec<u8>| t@).contains(name@),
{
    let ghost tags_deep = tags@.map_values(|t: Vec<u8>| t@);
    let mut i: usize = 0;
    while i < tags.len()
        invariant
            i <= tags.len(),
            tags_deep == tags@.map_values(|t: Vec<u8>| t@),
            forall|j: int| 0 <= j < i ==> tags_deep[j] != name@,
        decreases tags.len() - i,
    {
        if bytes_eq(&tags[i], name) {
            proof {
                assert(tags_deep[i as int] == name@);
            }
            return true;
        }
        i = i + 1;
    }
    proof {
        assert(forall|j: int| 0 <= j < tags_deep.len() ==> tags_deep[j] != name@);
    }
    false
}

/// Applies the tag-matching rule to the references of one device node:
/// keeps, in order, the node identifier of every reference whose
/// display name is in the tag set, stripped of its prefix.
pub fn match_tag_references(refs: &Vec<BrowseReference>, tags: &Vec<Vec<u8>>) -> (r: Vec<Vec<u8>>)
    requires
        forall|i: int|
            0 <= i < refs@.len() ==> #[trigger] refs@[i].node_id_text@.len() >= NODE_ID_PREFIX_LEN,
    ensures
        r@.map_values(|v: Vec<u8>| v@) == selected_identifiers(
            refs@.map_values(|b: BrowseReference| b@),
            tags@.map_values(|t: Vec<u8>| t@),
        ),
{
    let ghost refs_deep = refs@.map_values(|b: BrowseReference| b@);
    let ghost tags_deep = tags@.map_values(|t: Vec<u8>| t@);
    let mut r: Vec<Vec<u8>> = Vec::new();
    let mut i: usize = 0;
    while i < refs.len()
        invariant
            i <= refs.len(),
            refs_deep == refs@.map_values(|b: BrowseReference| b@),
            tags_deep == tags@.map_values(|t: Vec<u8>| t@),
            forall|k: int|
                0 <= k < refs@.len()
                    ==> #[trigger] refs@[k].node_id_text@.len() >= NODE_ID_PREFIX_LEN,
            r@.map_values(|v: Vec<u8>| v@) == selected_identifiers(refs_deep.take(i as int), tags_deep),
        decreases refs.len() - i,
    {
        proof {
            assert(refs_deep.take(i + 1).drop_last() =~= refs_deep.take(i as int));
            assert(refs_deep.take(i + 1).last() == refs@[i as int]@);
        }
        if contains_tag(tags, &refs[i].display_name) {
            let identifier = suffix_from(&refs[i].node_id_text, NODE_ID_PREFIX_LEN);
            r.push(identifier);
            proof {
                assert(r@.map_values(|v: Vec<u8>| v@)
                    =~= selected_identifiers(refs_deep.take(i as int), tags_deep).push(identifier@));
            }
        }
        i = i + 1;
    }
    proof {
        assert(refs_deep.take(refs_deep.len() as int) =~= refs_deep);
    }
    r
}

} // verus!
