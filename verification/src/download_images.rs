//! The per-entity image flow: merging a fetched metadata list into the image
//! sub-cache, handing out one fetch job per image, and the selection helpers.
//! Fetching bytes over the network is the caller's work: each job carries the
//! one producer that can settle its image's cell, so one image's failure can
//! neither block nor corrupt a sibling's cell.
use crate::images::{ImageDetails, Imager};
use crate::modal::ModalMachine;
use crate::ordmap::OrdMap;
use crate::portals::{NetherPortal, NetherPortals};
use crate::thread_tools::{same_cell_modulo_poll, SPromise, SPromiseSender};
use crate::Realm;
use vstd::prelude::*;

verus! {

/// What merging a metadata list guarantees for one listed name: the sub-cache
/// holds, under that name, a still-pending cell whose cached record carries
/// metadata of that name and no image bytes yet.
pub open spec fn pending_image_entry(m: OrdMap<SPromise<Imager>>, d: ImageDetails) -> bool {
    &&& m.contains_key(d.name@)
    &&& {
        let cell = m.spec_get(d.name@).unwrap();
        &&& cell.has_promise()
        &&& !cell.is_settled()
        &&& cell.spec_value().spec_name() == d.name@
        &&& cell.spec_value().spec_details() is Some
        &&& cell.spec_value().spec_details().unwrap().name@ == d.name@
        &&& cell.spec_value().spec_image() is None
    }
}

/// Whether a cell still carries its producer and knows its metadata: exactly
/// the cells one fetch job is owed for.
pub open spec fn job_source(cell: SPromise<Imager>) -> bool {
    cell.has_sender() && cell.spec_value().spec_details() is Some
}

/// The metadata of the fetch jobs owed for a row of cells, in row order: one
/// per cell that holds a producer and knows its metadata.
pub open spec fn jobs_of(vals: Seq<SPromise<Imager>>) -> Seq<ImageDetails>
    decreases vals.len(),
{
    if vals.len() == 0 {
        Seq::empty()
    } else {
        jobs_of(vals.drop_last()) + (if job_source(vals.last()) {
            seq![vals.last().spec_value().spec_details().unwrap()]
        } else {
            Seq::empty()
        })
    }
}

/// The metadata carried by a list of fetch jobs, in list order.
pub open spec fn job_details(jobs: Seq<(SPromiseSender<Imager>, ImageDetails)>) -> Seq<
    ImageDetails,
> {
    jobs.map_values(|j: (SPromiseSender<Imager>, ImageDetails)| j.1)
}

/// Every cell that qualifies for a job contributes its metadata to the owed
/// job list.
proof fn lemma_jobs_of_contains(vals: Seq<SPromise<Imager>>, i: int)
    requires
        0 <= i < vals.len(),
        job_source(vals[i]),
    ensures
        exists|k: int|
            0 <= k < jobs_of(vals).len() && jobs_of(vals)[k] == vals[i].spec_value(
            ).spec_details().unwrap(),
    decreases vals.len(),
{
    if i == vals.len() - 1 {
        let k = jobs_of(vals.drop_last()).len() as int;
        assert(jobs_of(vals)[k] == vals[i].spec_value().spec_details().unwrap());
    } else {
        assert(vals.drop_last()[i] == vals[i]);
        lemma_jobs_of_contains(vals.drop_last(), i);
        let k = choose|k: int|
            0 <= k < jobs_of(vals.drop_last()).len() && jobs_of(vals.drop_last())[k] == vals[i]
                .spec_value().spec_details().unwrap();
        assert(jobs_of(vals)[k] == jobs_of(vals.drop_last())[k]);
    }
}

/// Merges a fetched image metadata list into an image sub-cache: every listed
/// name gets an entry holding a fresh, still-pending cell that carries that
/// name's metadata and its own producer (a name listed twice keeps the cell
/// made last); entries under other names stay.
pub fn merge_image_details_to_nether_portals(
    imager_list: &mut OrdMap<SPromise<Imager>>,
    details: Vec<ImageDetails>,
)
    requires
        old(imager_list).wf(),
    ensures
        final(imager_list).wf(),
        final(imager_list).spec_len() >= old(imager_list).spec_len(),
        details@.len() > 0 ==> final(imager_list).spec_len() > 0,
        forall|j: int|
            0 <= j < details@.len() ==> pending_image_entry(
                *final(imager_list),
                #[trigger] details@[j],
            ),
        forall|j: int|
            0 <= j < details@.len() ==> final(imager_list).spec_get(
                (#[trigger] details@[j]).name@,
            ).unwrap().has_sender(),
        forall|k: Seq<char>|
            old(imager_list).contains_key(k) ==> final(imager_list).contains_key(k),
{
    let mut rest = details;
    let ghost all = rest@;
    let ghost mut done: int = 0;
    while rest.len() > 0
        invariant
            imager_list.wf(),
            imager_list.spec_len() >= old(imager_list).spec_len(),
            done == all.len() - rest@.len(),
            0 <= done <= all.len(),
            forall|j: int| 0 <= j < done ==> pending_image_entry(*imager_list, #[trigger] all[j]),
            forall|j: int|
                0 <= j < done ==> imager_list.spec_get(
                    (#[trigger] all[j]).name@,
                ).unwrap().has_sender(),
            forall|j: int| 0 <= j < rest@.len() ==> rest@[j] == all[done + j],
            forall|k: Seq<char>| old(imager_list).contains_key(k) ==> imager_list.contains_key(k),
            all.len() > 0 && done > 0 ==> imager_list.spec_len() > 0,
        decreases rest@.len(),
    {
        let detail = rest.remove(0);
        let name = detail.name.clone();
        let imager = Imager::new(detail.name.clone(), Some(detail), None);
        let cell = SPromise::create_promise(imager);
        match imager_list.find(name.as_str()) {
            Some(i) => {
                proof {
                    imager_list.lemma_key_unique(name@, i as int);
                }
                let _ = imager_list.replace_at(i, cell);
            },
            None => {
                imager_list.insert_new(name, cell);
            },
        }
        proof {
            done = done + 1;
        }
    }
}

/// Takes the image fetch jobs out of a sub-cache: one job, in map order, for
/// every image whose cell still holds its producer and knows its metadata,
/// carrying that producer and a copy of that metadata. Afterwards no cell
/// holds a producer, so each image awaits exactly the task its job goes to;
/// the cells, their cached records and any observed settlements stay.
pub fn take_fetch_jobs(imager_list: &mut OrdMap<SPromise<Imager>>) -> (jobs: Vec<
    (SPromiseSender<Imager>, ImageDetails),
>)
    requires
        old(imager_list).wf(),
    ensures
        final(imager_list).wf(),
        final(imager_list).key_seq() == old(imager_list).key_seq(),
        job_details(jobs@) == jobs_of(old(imager_list).val_seq()),
        forall|i: int|
            0 <= i < final(imager_list).spec_len() ==> !(#[trigger] final(imager_list).val_seq()[i]).has_sender(),
        forall|i: int|
            0 <= i < final(imager_list).spec_len() ==> {
                let pre = old(imager_list).val_seq()[i];
                let post = #[trigger] final(imager_list).val_seq()[i];
                &&& post.spec_value() == pre.spec_value()
                &&& post.has_promise() == pre.has_promise()
                &&& post.is_settled() == pre.is_settled()
                &&& (pre.is_settled() ==> post.spec_settled() == pre.spec_settled())
            },
{
    let n = imager_list.len();
    let mut jobs: Vec<(SPromiseSender<Imager>, ImageDetails)> = Vec::new();
    let mut i: usize = 0;
    proof {
        imager_list.lemma_wf_lens();
        assert(jobs_of(old(imager_list).val_seq().take(0)) =~= Seq::<ImageDetails>::empty());
        assert(job_details(jobs@) =~= Seq::<ImageDetails>::empty());
    }
    while i < n
        invariant
            i <= n,
            n == imager_list.spec_len(),
            imager_list.wf(),
            imager_list.key_seq() == old(imager_list).key_seq(),
            imager_list.val_seq().len() == old(imager_list).val_seq().len(),
            job_details(jobs@) == jobs_of(old(imager_list).val_seq().take(i as int)),
            forall|j: int| 0 <= j < i ==> !(#[trigger] imager_list.val_seq()[j]).has_sender(),
            forall|j: int|
                0 <= j < i ==> {
                    let pre = old(imager_list).val_seq()[j];
                    let post = #[trigger] imager_list.val_seq()[j];
                    &&& post.spec_value() == pre.spec_value()
                    &&& post.has_promise() == pre.has_promise()
                    &&& post.is_settled() == pre.is_settled()
                    &&& (pre.is_settled() ==> post.spec_settled() == pre.spec_settled())
                },
            forall|j: int|
                i <= j < n ==> #[trigger] imager_list.val_seq()[j] == old(imager_list).val_seq()[j],
        decreases n - i,
    {
        proof {
            imager_list.lemma_wf_lens();
        }
        let ghost pre_map = *imager_list;
        let dummy = SPromise::make_no_promise(Imager::default());
        let mut cell = imager_list.replace_at(i, dummy);
        let sender_opt = cell.take_sender();
        match sender_opt {
            Some(sender) => {
                let details_opt = match cell.ref_value().image_details_ref() {
                    Some(d) => Some(d.clone()),
                    None => None,
                };
                match details_opt {
                    Some(d) => jobs.push((sender, d)),
                    None => {},
                }
            },
            None => {},
        }
        let ghost stripped = cell;
        let _ = imager_list.replace_at(i, cell);
        proof {
            assert(imager_list.val_seq() =~= pre_map.val_seq().update(i as int, stripped));
            let pre_vals = old(imager_list).val_seq();
            assert(pre_vals.take(i + 1).drop_last() =~= pre_vals.take(i as int));
            assert(pre_vals.take(i + 1).last() == pre_vals[i as int]);
            assert(job_details(jobs@) =~= jobs_of(pre_vals.take(i + 1)));
            assert forall|j: int|
                0 <= j < i + 1 implies !(#[trigger] imager_list.val_seq()[j]).has_sender() by {
                if j != i {
                    assert(imager_list.val_seq()[j] == pre_map.val_seq()[j]);
                }
            }
        }
        i = i + 1;
    }
    proof {
        assert(old(imager_list).val_seq().take(n as int) =~= old(imager_list).val_seq());
    }
    jobs
}

/// Begins one load of an entity's image sub-cache from a fetched metadata
/// list: every listed name gets a fresh pending cell carrying that name's
/// metadata, and one fetch job per pending image goes back to the caller —
/// for each listed name among them a job carrying metadata of that name. Once
/// the list was not empty the sub-cache no longer needs a load, whatever
/// becomes of the jobs; the record, edit view, identity and selection stay.
pub fn load_images(np: &mut NetherPortal, details: Vec<ImageDetails>) -> (jobs: Vec<
    (SPromiseSender<Imager>, ImageDetails),
>)
    requires
        old(np).wf(),
    ensures
        final(np).wf(),
        details@.len() > 0 ==> final(np).spec_images().spec_len() > 0,
        forall|j: int|
            0 <= j < details@.len() ==> pending_image_entry(
                final(np).spec_images(),
                #[trigger] details@[j],
            ),
        forall|i: int|
            0 <= i < final(np).spec_images().spec_len() ==> !(#[trigger] final(np).spec_images().val_seq()[i]).has_sender(),
        forall|j: int|
            0 <= j < details@.len() ==> exists|k: int|
                0 <= k < jobs@.len() && (#[trigger] jobs@[k].1).name@
                    == (#[trigger] details@[j]).name@,
        final(np).spec_id() == old(np).spec_id(),
        final(np).spec_text() == old(np).spec_text(),
        final(np).spec_btree() == old(np).spec_btree(),
        final(np).spec_image_pos() == old(np).spec_image_pos(),
        final(np).spec_img_list_req() == old(np).spec_img_list_req(),
{
    let ghost listed = details@;
    let images = np.images_mut();
    merge_image_details_to_nether_portals(images, details);
    let ghost merged = *images;
    let jobs = take_fetch_jobs(images);
    proof {
        merged.lemma_wf_lens();
        assert forall|j: int|
            0 <= j < listed.len() implies pending_image_entry(*images, #[trigger] listed[j]) by {
            let name = listed[j].name@;
            merged.lemma_index_in_range(name);
            let idx = merged.index_of_key(name);
            images.lemma_key_unique(name, idx);
        }
        assert forall|j: int|
            0 <= j < listed.len() implies exists|k: int|
            0 <= k < jobs@.len() && (#[trigger] jobs@[k].1).name@ == (#[trigger] listed[j]).name@
            by {
            let name = listed[j].name@;
            merged.lemma_index_in_range(name);
            let idx = merged.index_of_key(name);
            lemma_jobs_of_contains(merged.val_seq(), idx);
            let k = choose|k: int|
                0 <= k < jobs_of(merged.val_seq()).len() && jobs_of(merged.val_seq())[k]
                    == merged.val_seq()[idx].spec_value().spec_details().unwrap();
            assert(job_details(jobs@)[k] == jobs@[k].1);
        }
    }
    jobs
}

/// Whether the overworld entity under the cursor still needs its one image
/// load of the session, and for which key: `Some` exactly when the cursor
/// rests on a key the cache holds whose image sub-cache is empty — once any
/// image entry exists, settled or not, the answer is `None` and no reload is
/// triggered. Reads only.
pub fn should_we_reload_ow_images(nps: &NetherPortals) -> (r: Option<String>)
    requires
        nps.wf(),
    ensures
        r matches Some(pos) ==> {
            &&& pos@ == nps.ow_cur_key()
            &&& nps.spec_ow_pos().spec_len() > 0
            &&& nps.spec_overworld().contains_key(pos@)
            &&& nps.spec_overworld().spec_get(pos@).unwrap().spec_images().spec_len() == 0
        },
        r is None ==> nps.spec_ow_pos().spec_len() == 0 || !nps.spec_overworld().contains_key(
            nps.ow_cur_key(),
        ) || nps.spec_overworld().spec_get(nps.ow_cur_key()).unwrap().spec_images().spec_len()
            > 0,
{
    let position = match nps.get_ow_pos() {
        Some(p) => p,
        None => {
            return None;
        },
    };
    let np = match nps.overworld_ref().get(position.as_str()) {
        Some(np) => np,
        None => {
            return None;
        },
    };
    if np.needs_load() {
        Some(position)
    } else {
        None
    }
}

/// The nether twin of `should_we_reload_ow_images`.
pub fn should_we_reload_nether_images(nps: &NetherPortals) -> (r: Option<String>)
    requires
        nps.wf(),
    ensures
        r matches Some(pos) ==> {
            &&& pos@ == nps.neth_cur_key()
            &&& nps.spec_neth_pos().spec_len() > 0
            &&& nps.spec_nether().contains_key(pos@)
            &&& nps.spec_nether().spec_get(pos@).unwrap().spec_images().spec_len() == 0
        },
        r is None ==> nps.spec_neth_pos().spec_len() == 0 || !nps.spec_nether().contains_key(
            nps.neth_cur_key(),
        ) || nps.spec_nether().spec_get(nps.neth_cur_key()).unwrap().spec_images().spec_len() > 0,
{
    let position = match nps.get_neth_pos() {
        Some(p) => p,
        None => {
            return None;
        },
    };
    let np = match nps.nether_ref().get(position.as_str()) {
        Some(np) => np,
        None => {
            return None;
        },
    };
    if np.needs_load() {
        Some(position)
    } else {
        None
    }
}

/// Rebuilds one realm's image selector from the image names of the entity
/// under that realm's cursor, selecting the first. The identifier is the
/// widget identity the drawing layer threads through; the state does not
/// depend on it.
pub fn reload_image_mm(nps: &mut NetherPortals, realm: &Realm, _id: String) -> (r: Option<()>)
    requires
        old(nps).wf(),
    ensures
        final(nps).wf(),
        final(nps).spec_overworld() == old(nps).spec_overworld(),
        final(nps).spec_nether() == old(nps).spec_nether(),
        final(nps).spec_ow_pos() == old(nps).spec_ow_pos(),
        final(nps).spec_neth_pos() == old(nps).spec_neth_pos(),
        final(nps).spec_text_request() == old(nps).spec_text_request(),
{
    let position = match nps.realm_pos(realm) {
        Some(p) => p,
        None => {
            return None;
        },
    };
    let (selected, options) = {
        let chosen_realm = match nps.realm_ref(realm).get(position.as_str()) {
            Some(np) => np,
            None => {
                return None;
            },
        };
        let options = chosen_realm.images_ref().keys_cloned();
        if options.len() == 0 {
            return None;
        }
        let selected = options[0].clone();
        (selected, options)
    };
    let mm = ModalMachine::new(selected, options, "Overworld Images List".to_owned());
    nps.set_image_modal(realm, mm);
    Some(())
}

/// Applies the user's pick in a realm's image selector: when an event is
/// pending, the entity under that realm's cursor takes the picked image name
/// as its selection.
pub fn change_image_by_user_input(nps: &mut NetherPortals, realm: &Realm) -> (r: Option<()>)
    requires
        old(nps).wf(),
    ensures
        final(nps).wf(),
        final(nps).spec_ow_pos() == old(nps).spec_ow_pos(),
        final(nps).spec_neth_pos() == old(nps).spec_neth_pos(),
        final(nps).spec_text_request() == old(nps).spec_text_request(),
{
    match nps.image_modal_mut(realm).use_event() {
        Some(_) => {},
        None => {
            return None;
        },
    }
    let pos = match nps.realm_pos(realm) {
        Some(p) => p,
        None => {
            return None;
        },
    };
    let new_pos = nps.image_modal_ref(*realm).get_selected_option();
    let map = nps.realm_mut(realm);
    let i = match map.find(pos.as_str()) {
        Some(i) => i,
        None => {
            return None;
        },
    };
    proof {
        map.lemma_key_unique(pos@, i as int);
        map.lemma_wf_lens();
    }
    let dummy = NetherPortal::fresh(0, Default::default());
    let mut entry = map.replace_at(i, dummy);
    entry.img_pos_set(new_pos);
    let _ = map.replace_at(i, entry);
    proof {
        assert forall|j: int|
            0 <= j < map.spec_len() implies (#[trigger] map.val_seq()[j]).wf() by {
            if j != i {
                assert(map.val_seq()[j] == old(nps).spec_realm(*realm).val_seq()[j]);
            }
        }
    }
    Some(())
}

/// Whether an entity's current selection names an image whose settlement has
/// been observed.
pub open spec fn current_settled(np: NetherPortal) -> bool {
    &&& np.spec_images().contains_key(np.spec_image_pos())
    &&& np.spec_images().spec_get(np.spec_image_pos()).unwrap().is_settled()
}

/// The selected image of an entity once its cell has settled, initialising
/// the selection to the first settled image when none was picked yet and
/// polling the selected cell. `Some` exactly when the (possibly fresh)
/// selection names a held image whose settlement is now observed; the record,
/// edit view, identity, image names and an already set selection all stay.
pub fn some_retained_image(np: &mut NetherPortal) -> (r: Option<&Imager>)
    requires
        old(np).wf(),
    ensures
        final(np).wf(),
        final(np).spec_id() == old(np).spec_id(),
        final(np).spec_text() == old(np).spec_text(),
        final(np).spec_btree() == old(np).spec_btree(),
        final(np).spec_img_list_req() == old(np).spec_img_list_req(),
        final(np).spec_images().key_seq() == old(np).spec_images().key_seq(),
        forall|j: int|
            0 <= j < old(np).spec_images().spec_len() ==> same_cell_modulo_poll(
                old(np).spec_images().val_seq()[j],
                #[trigger] final(np).spec_images().val_seq()[j],
            ),
        old(np).spec_image_pos() != Seq::<char>::empty() ==> final(np).spec_image_pos() == old(np).spec_image_pos(),
        r is Some <==> current_settled(*final(np)),
        r matches Some(img) ==> *img == final(np).spec_images().spec_get(
            final(np).spec_image_pos(),
        ).unwrap().spec_settled(),
{
    let _ = np.init_img_pos();
    np.pump_current();
    np.current_image()
}

/// The observed image of the entity under a realm's cursor, polling that
/// entity's selected cell on the way: `Some` only when the cursor rests on a
/// cached entity whose selection names an image with an observed settlement.
pub fn image_from_np<'a>(nps: &'a mut NetherPortals, realm: &Realm) -> (r: Option<&'a Imager>)
    requires
        old(nps).wf(),
    ensures
        final(nps).wf(),
        final(nps).spec_ow_pos() == old(nps).spec_ow_pos(),
        final(nps).spec_neth_pos() == old(nps).spec_neth_pos(),
        final(nps).spec_text_request() == old(nps).spec_text_request(),
        final(nps).spec_realm(*realm).key_seq() == old(nps).spec_realm(*realm).key_seq(),
        realm is Overworld ==> final(nps).spec_nether() == old(nps).spec_nether(),
        realm is Nether ==> final(nps).spec_overworld() == old(nps).spec_overworld(),
        r is Some ==> ({
            let key = match *realm {
                Realm::Overworld => final(nps).ow_cur_key(),
                Realm::Nether => final(nps).neth_cur_key(),
            };
            &&& final(nps).spec_realm(*realm).contains_key(key)
            &&& current_settled(final(nps).spec_realm(*realm).spec_get(key).unwrap())
        }),
{
    let pos = match nps.realm_pos(realm) {
        Some(p) => p,
        None => {
            return None;
        },
    };
    {
        let map = nps.realm_mut(realm);
        let i = match map.find(pos.as_str()) {
            Some(i) => i,
            None => {
                return None;
            },
        };
        proof {
            map.lemma_key_unique(pos@, i as int);
            map.lemma_wf_lens();
        }
        let ghost pre_map = *map;
        let dummy = NetherPortal::fresh(0, Default::default());
        let mut entry = map.replace_at(i, dummy);
        let _ = entry.init_img_pos();
        entry.pump_current();
        let _ = map.replace_at(i, entry);
        proof {
            assert forall|j: int|
                0 <= j < map.spec_len() implies (#[trigger] map.val_seq()[j]).wf() by {
                if j != i {
                    assert(map.val_seq()[j] == pre_map.val_seq()[j]);
                }
            }
        }
    }
    let np = match nps.realm_ref(realm).get(pos.as_str()) {
        Some(np) => np,
        None => {
            return None;
        },
    };
    proof {
        nps.spec_realm(*realm).lemma_index_in_range(pos@);
        nps.spec_realm(*realm).lemma_wf_lens();
    }
    np.current_image()
}

} // verus!
