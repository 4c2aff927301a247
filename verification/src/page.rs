//! The page-level orchestration the owner thread runs each tick around the
//! entity cache: materialising missing edit views and rebuilding the
//! navigation cursors from the cached keys.
use crate::ordmap::OrdMap;
use crate::portals::{cache_wf, flat_view_of, NetherPortal, NetherPortals};
use vstd::prelude::*;

verus! {

/// How materialising edit views changes one entity: an entity without an edit
/// view gets one from its record, every other entity stays as it is.
pub open spec fn displayable_entry(pre: NetherPortal, post: NetherPortal) -> bool {
    if pre.spec_btree().spec_len() == 0 {
        &&& post.wf()
        &&& flat_view_of(post.spec_btree(), pre.spec_text().spec_value())
        &&& post.spec_id() == pre.spec_id()
        &&& post.spec_text() == pre.spec_text()
        &&& post.spec_images() == pre.spec_images()
        &&& post.spec_image_pos() == pre.spec_image_pos()
        &&& post.spec_img_list_req() == pre.spec_img_list_req()
    } else {
        post == pre
    }
}

/// Materialises the edit view of every entity that does not have one yet.
fn flatten_empty_views(map: &mut OrdMap<NetherPortal>)
    requires
        cache_wf(*old(map)),
    ensures
        cache_wf(*final(map)),
        final(map).key_seq() == old(map).key_seq(),
        forall|j: int|
            0 <= j < old(map).spec_len() ==> displayable_entry(
                old(map).val_seq()[j],
                #[trigger] final(map).val_seq()[j],
            ),
{
    let n = map.len();
    let mut i: usize = 0;
    proof {
        map.lemma_wf_lens();
    }
    while i < n
        invariant
            i <= n,
            n == map.spec_len(),
            cache_wf(*map),
            map.key_seq() == old(map).key_seq(),
            map.val_seq().len() == old(map).val_seq().len(),
            forall|j: int|
                0 <= j < i ==> displayable_entry(
                    old(map).val_seq()[j],
                    #[trigger] map.val_seq()[j],
                ),
            forall|j: int|
                i <= j < n ==> #[trigger] map.val_seq()[j] == old(map).val_seq()[j],
        decreases n - i,
    {
        proof {
            map.lemma_wf_lens();
        }
        let ghost pre_map = *map;
        let dummy = NetherPortal::fresh(0, Default::default());
        let mut entry = map.replace_at(i, dummy);
        proof {
            assert(entry.wf());
        }
        if entry.is_empty() {
            entry.set_as_btree();
        }
        let ghost new_entry = entry;
        let _ = map.replace_at(i, entry);
        proof {
            assert(map.val_seq() =~= pre_map.val_seq().update(i as int, new_entry));
            assert(displayable_entry(old(map).val_seq()[i as int], new_entry));
            assert forall|j: int|
                0 <= j < map.spec_len() implies (#[trigger] map.val_seq()[j]).wf() by {
                if j != i {
                    assert(map.val_seq()[j] == pre_map.val_seq()[j]);
                }
            }
        }
        i = i + 1;
    }
}

/// Brings the cache into displayable shape, as the owner thread does after a
/// batch of ingests: every entity of a non-empty realm has an edit view, and
/// that realm's cursor runs over exactly the realm's keys, in key order. The
/// cursor is rebuilt here, once per batch, never per ingested item.
pub fn setup_displayables(nether_portals: &mut NetherPortals)
    requires
        old(nether_portals).wf(),
    ensures
        final(nether_portals).wf(),
        final(nether_portals).spec_overworld().key_seq() == old(nether_portals).spec_overworld().key_seq(),
        final(nether_portals).spec_nether().key_seq() == old(nether_portals).spec_nether().key_seq(),
        old(nether_portals).spec_overworld().spec_len() > 0 ==> final(nether_portals).spec_ow_pos().key_view() == final(nether_portals).spec_overworld().key_seq(),
        old(nether_portals).spec_nether().spec_len() > 0 ==> final(nether_portals).spec_neth_pos().key_view() == final(nether_portals).spec_nether().key_seq(),
        old(nether_portals).spec_overworld().spec_len() == 0 ==> final(nether_portals).spec_overworld() == old(nether_portals).spec_overworld(),
        old(nether_portals).spec_nether().spec_len() == 0 ==> final(nether_portals).spec_nether() == old(nether_portals).spec_nether(),
        forall|j: int|
            0 <= j < old(nether_portals).spec_overworld().spec_len() ==> displayable_entry(
                old(nether_portals).spec_overworld().val_seq()[j],
                #[trigger] final(nether_portals).spec_overworld().val_seq()[j],
            ),
        forall|j: int|
            0 <= j < old(nether_portals).spec_nether().spec_len() ==> displayable_entry(
                old(nether_portals).spec_nether().val_seq()[j],
                #[trigger] final(nether_portals).spec_nether().val_seq()[j],
            ),
        final(nether_portals).spec_text_request() == old(nether_portals).spec_text_request(),
{
    if !nether_portals.is_overworld_empty() {
        flatten_empty_views(nether_portals.overworld_mut());
        let keys = nether_portals.overworld_ref().keys_cloned();
        nether_portals.set_ow_pos(keys);
    }
    if !nether_portals.is_nether_empty() {
        flatten_empty_views(nether_portals.nether_mut());
        let keys = nether_portals.nether_ref().keys_cloned();
        nether_portals.set_neth_pos(keys);
    }
}

} // verus!
