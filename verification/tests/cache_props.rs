use borkcraft::download_images::load_images;
use borkcraft::images::ImageDetails;
use borkcraft::ordmap::OrdMap;
use borkcraft::page::setup_displayables;
use borkcraft::portals::{NetherPortal, NetherPortalText, NetherPortals, PortalText};
use borkcraft::Realm;

fn portal(x: i32, y: i32, z: i32, locale: &str, owner: &str, notes: &str, name: &str) -> PortalText {
    PortalText {
        xcord: x,
        ycord: y,
        zcord: z,
        locale: locale.to_string(),
        owner: owner.to_string(),
        notes: notes.to_string(),
        true_name: name.to_string(),
    }
}

fn record(id: i32, ow_name: &str, neth_name: &str) -> NetherPortalText {
    NetherPortalText {
        id,
        overworld: portal(1, 2, 3, "plains", "Luke", "", ow_name),
        nether: portal(0, 64, 0, "wastes", "Luke", "", neth_name),
        username: String::new(),
    }
}

#[test]
fn flatten_then_commit_reproduces_the_record() {
    // the record of the round-trip property
    let pt = portal(10, 64, -5, "Overworld", "Steve", "spawn", "Spawn");
    let flat = pt.to_btree();
    let back = PortalText::from_btree(&flat).unwrap();
    assert_eq!(back.xcord, 10);
    assert_eq!(back.ycord, 64);
    assert_eq!(back.zcord, -5);
    assert_eq!(back.locale, "Overworld");
    assert_eq!(back.owner, "Steve");
    assert_eq!(back.notes, "spawn");
    assert_eq!(back.true_name, "Spawn");
}

#[test]
fn flattened_view_renders_and_parses_fields() {
    let pt = portal(10, 64, -5, "Overworld", "Steve", "spawn", "Spawn");
    let flat = pt.to_btree();
    assert_eq!(flat.get("Xcord").unwrap(), "10");
    assert_eq!(flat.get("Ycord").unwrap(), "64");
    assert_eq!(flat.get("Zcord").unwrap(), "-5");
    assert_eq!(flat.get("Locale").unwrap(), "\"Overworld\"");
    assert_eq!(flat.get("True_Name").unwrap(), "\"Spawn\"");
    assert!(flat.get("Missing").is_none());
}

#[test]
fn commit_fails_on_missing_field_and_on_bad_number() {
    let pt = portal(1, 2, 3, "a", "b", "c", "d");
    let mut flat = pt.to_btree();
    // corrupt the number
    let i = flat.find("Xcord").unwrap();
    flat.replace_at(i, "not a number".to_string());
    assert!(PortalText::from_btree(&flat).is_err());

    // a view missing a required field
    let empty: OrdMap<String> = OrdMap::new();
    assert!(PortalText::from_btree(&empty).is_err());
}

#[test]
fn ingesting_the_same_key_twice_keeps_one_entry_with_the_latest_text() {
    let mut nps = NetherPortals::default();
    nps.consume_npt(record(7, "Spawn", "SpawnNether"));
    assert_eq!(nps.overworld_ref().len(), 1);
    assert_eq!(nps.nether_ref().len(), 1);

    // same keys again, different text
    let mut second = record(7, "Spawn", "SpawnNether");
    second.overworld.owner = "Steve".to_string();
    nps.consume_npt(second);
    assert_eq!(nps.overworld_ref().len(), 1);
    assert_eq!(nps.nether_ref().len(), 1);

    let entry = nps.overworld_ref().get("Spawn").unwrap();
    let flatless = entry.btree_ref().len();
    assert_eq!(flatless, 0); // the edit view was never materialised

    // a different key makes a second entry
    nps.consume_npt(record(8, "Base", "BaseNether"));
    assert_eq!(nps.overworld_ref().len(), 2);
}

#[test]
fn cursor_never_leaves_bounds_and_empty_cache_navigates_to_none() {
    let mut nps = NetherPortals::default();
    // navigating an empty cache: every position read comes back none
    nps.ow_pos_up();
    nps.ow_pos_down();
    nps.ow_pos_up();
    assert!(nps.get_ow_pos().is_none());

    nps.consume_npt(record(1, "Alpha", "NetherAlpha"));
    nps.consume_npt(record(2, "Beta", "NetherBeta"));
    nps.consume_npt(record(3, "Gamma", "NetherGamma"));
    setup_displayables(&mut nps);

    // keys are ordered: Alpha, Beta, Gamma
    assert_eq!(nps.get_ow_pos().unwrap(), "Alpha");
    nps.ow_pos_down(); // clamped at the first key
    assert_eq!(nps.get_ow_pos().unwrap(), "Alpha");
    nps.ow_pos_up();
    assert_eq!(nps.get_ow_pos().unwrap(), "Beta");
    nps.ow_pos_up();
    assert_eq!(nps.get_ow_pos().unwrap(), "Gamma");
    nps.ow_pos_up(); // clamped at the last key
    assert_eq!(nps.get_ow_pos().unwrap(), "Gamma");
    nps.ow_pos_down();
    assert_eq!(nps.get_ow_pos().unwrap(), "Beta");
}

#[test]
fn setup_displayables_materialises_views_and_rebuilds_cursors() {
    let mut nps = NetherPortals::default();
    nps.consume_npt(record(1, "Spawn", "SpawnNether"));
    setup_displayables(&mut nps);

    let entry = nps.overworld_ref().get("Spawn").unwrap();
    assert_eq!(entry.btree_ref().len(), 7);
    assert_eq!(entry.btree_ref().get("Owner").unwrap(), "\"Luke\"");
    assert_eq!(nps.get_ow_pos().unwrap(), "Spawn");
    assert_eq!(nps.get_neth_pos().unwrap(), "SpawnNether");
}

#[test]
fn reingestion_preserves_an_edited_view_and_replaces_the_record() {
    let mut nps = NetherPortals::default();
    nps.consume_npt(record(1, "Spawn", "SpawnNether"));
    setup_displayables(&mut nps);

    // edit the flattened view in place
    {
        let map = nps.overworld_mut();
        let i = map.find("Spawn").unwrap();
        let dummy = NetherPortal::fresh(0, PortalText::default());
        let mut entry = map.replace_at(i, dummy);
        let view = entry.btree_mut();
        let j = view.find("Owner").unwrap();
        view.replace_at(j, "\"Steve\"".to_string());
        let _ = map.replace_at(i, entry);
    }

    // the same key arrives again: the record changes, the edited view stays
    nps.consume_npt(record(1, "Spawn", "SpawnNether"));
    let entry = nps.overworld_ref().get("Spawn").unwrap();
    assert_eq!(entry.btree_ref().get("Owner").unwrap(), "\"Steve\"");

    // committing the edited view updates the structured record
    {
        let map = nps.overworld_mut();
        let i = map.find("Spawn").unwrap();
        let dummy = NetherPortal::fresh(0, PortalText::default());
        let mut entry = map.replace_at(i, dummy);
        entry.set_pt().unwrap();
        assert_eq!(entry.get_id(), 1);
        let _ = map.replace_at(i, entry);
    }
}

#[test]
fn ordered_map_sorts_and_looks_up() {
    let mut m: OrdMap<i32> = OrdMap::new();
    m.insert_new("beta".to_string(), 2);
    m.insert_new("alpha".to_string(), 1);
    m.insert_new("gamma".to_string(), 3);
    assert_eq!(m.len(), 3);
    assert_eq!(m.key_at(0), "alpha");
    assert_eq!(m.key_at(1), "beta");
    assert_eq!(m.key_at(2), "gamma");
    assert_eq!(m.get("beta"), Some(&2));
    assert_eq!(m.get("delta"), None);
    assert!(m.contains("gamma"));
    let old = m.replace_at(0, 10);
    assert_eq!(old, 1);
    assert_eq!(m.get("alpha"), Some(&10));
    let keys = m.keys_cloned();
    assert_eq!(keys, vec!["alpha".to_string(), "beta".to_string(), "gamma".to_string()]);
    m.clear();
    assert!(m.is_empty());
}

#[test]
fn resetting_views_discards_edits() {
    let mut nps = NetherPortals::default();
    nps.consume_npt(record(1, "Spawn", "SpawnNether"));
    setup_displayables(&mut nps);

    // edit, then reset this one key: the edit is gone
    {
        let map = nps.overworld_mut();
        let i = map.find("Spawn").unwrap();
        let dummy = NetherPortal::fresh(0, PortalText::default());
        let mut entry = map.replace_at(i, dummy);
        let view = entry.btree_mut();
        let j = view.find("Owner").unwrap();
        view.replace_at(j, "\"Steve\"".to_string());
        let _ = map.replace_at(i, entry);
    }
    assert!(nps.reset_this_btree("Spawn").is_some());
    let entry = nps.overworld_ref().get("Spawn").unwrap();
    assert_eq!(entry.btree_ref().get("Owner").unwrap(), "\"Luke\"");
    assert!(nps.reset_this_btree("Missing").is_none());

    // reset-all regenerates every overworld view
    {
        let map = nps.overworld_mut();
        let i = map.find("Spawn").unwrap();
        let dummy = NetherPortal::fresh(0, PortalText::default());
        let mut entry = map.replace_at(i, dummy);
        let view = entry.btree_mut();
        let j = view.find("Notes").unwrap();
        view.replace_at(j, "\"edited\"".to_string());
        let _ = map.replace_at(i, entry);
    }
    nps.reset_all_btree();
    let entry = nps.overworld_ref().get("Spawn").unwrap();
    assert_eq!(entry.btree_ref().get("Notes").unwrap(), "\"\"");
}

#[test]
fn invalidating_images_forces_the_next_load() {
    let mut nps = NetherPortals::default();
    nps.consume_npt(record(1, "Spawn", "SpawnNether"));
    {
        let map = nps.overworld_mut();
        let i = map.find("Spawn").unwrap();
        let dummy = NetherPortal::fresh(0, PortalText::default());
        let mut entry = map.replace_at(i, dummy);
        let _jobs = load_images(
            &mut entry,
            vec![ImageDetails {
                id: 1,
                name: "a.png".to_string(),
                true_name: "Spawn".to_string(),
                username: String::new(),
                local_image: None,
            }],
        );
        let _ = map.replace_at(i, entry);
    }
    assert!(!nps.overworld_ref().get("Spawn").unwrap().needs_load());
    assert!(nps.invalidate_images(&Realm::Overworld, "Spawn").is_some());
    assert!(nps.overworld_ref().get("Spawn").unwrap().needs_load());
    assert!(nps.invalidate_images(&Realm::Nether, "Spawn").is_none());
}

#[test]
fn the_realm_selector_pairs_keys_in_step() {
    let mut nps = NetherPortals::default();
    nps.consume_npt(record(1, "Alpha", "NetherAlpha"));
    nps.consume_npt(record(2, "Beta", "NetherBeta"));
    setup_displayables(&mut nps);
    nps.realm_modal_set();

    // the paired selector is rebuilt; pick the second pair
    nps.realm_modal_mut().use_event();
    nps.inner_mm_mut().select_option("1: Beta & NetherBeta".to_string());
    let pair = nps.realm_modal_mut().get_selected_option().unwrap();
    assert_eq!(pair.0, "Beta");
    assert_eq!(pair.1, "NetherBeta");

    // moving the selection into both cursors keeps the realms in lock-step
    assert!(nps.realm_pos_set2(pair).is_some());
    assert_eq!(nps.get_ow_pos().unwrap(), "Beta");
    assert_eq!(nps.get_neth_pos().unwrap(), "NetherBeta");
}

#[test]
fn the_start_latch_grants_the_bulk_load_once() {
    let mut nps = NetherPortals::default();
    assert!(nps.try_start());
    assert!(!nps.try_start());
    assert!(!nps.try_start());
    // a fresh cache instance has its own latch
    let mut other = NetherPortals::default();
    assert!(other.try_start());
}
