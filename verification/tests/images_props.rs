use borkcraft::download_images::{
    change_image_by_user_input, load_images, reload_image_mm, should_we_reload_ow_images,
    some_retained_image,
};
use borkcraft::images::{ImageDetails, Imager};
use borkcraft::page::setup_displayables;
use borkcraft::portals::{NetherPortal, NetherPortalText, NetherPortals, PortalText};
use borkcraft::Realm;

fn details(name: &str) -> ImageDetails {
    ImageDetails {
        id: 1,
        name: name.to_string(),
        true_name: "Spawn".to_string(),
        username: "Luke".to_string(),
        local_image: None,
    }
}

fn entity() -> NetherPortal {
    NetherPortal::fresh(
        1,
        PortalText {
            xcord: 0,
            ycord: 0,
            zcord: 0,
            locale: String::new(),
            owner: String::new(),
            notes: String::new(),
            true_name: "Spawn".to_string(),
        },
    )
}

#[test]
fn one_failed_image_blocks_no_sibling_and_triggers_no_reload() {
    let mut np = entity();
    assert!(np.needs_load());

    // three scheduled fetches
    let jobs = load_images(&mut np, vec![details("a.png"), details("b.png"), details("c.png")]);
    assert_eq!(jobs.len(), 3);
    assert!(!np.needs_load());

    // one is forced to fail: its task settles an error-tagged record; the
    // other two settle successfully; every cell settles
    for (sender, d) in jobs {
        if d.name == "b.png" {
            sender.send(Imager::new(d.name.clone(), Some(d), None));
        } else {
            sender.send(Imager::new(d.name.clone(), Some(d), Some(vec![1, 2, 3])));
        }
    }

    // every cell settled: each selection in turn shows an observed record
    np.img_pos_set("a.png".to_string());
    let a = some_retained_image(&mut np).unwrap();
    assert!(a.image_ref().is_some());
    np.img_pos_set("b.png".to_string());
    let b = some_retained_image(&mut np).unwrap();
    assert!(b.image_ref().is_none()); // the failed one settled, without bytes
    np.img_pos_set("c.png".to_string());
    let c = some_retained_image(&mut np).unwrap();
    assert_eq!(c.image_ref().unwrap(), &vec![1, 2, 3]);

    // loaded for the session: no retrigger
    assert!(!np.needs_load());
}

#[test]
fn selection_initialises_to_the_first_settled_image() {
    let mut np = entity();
    let jobs = load_images(&mut np, vec![details("x.png"), details("y.png")]);
    // nothing settled yet: no selection can be made
    assert!(np.init_img_pos().is_none());
    assert!(np.current_image().is_none());

    for (sender, d) in jobs {
        sender.send(Imager::new(d.name.clone(), Some(d), Some(vec![9])));
    }
    assert!(np.init_img_pos().is_some());
    assert_eq!(np.image_pos_ref(), "x.png");
    assert!(np.current_image().is_some());

    // an explicit selection wins
    np.img_pos_set("y.png".to_string());
    assert_eq!(some_retained_image(&mut np).unwrap().get_name(), "y.png");
}

#[test]
fn invalidation_is_the_only_way_back_to_needs_load() {
    let mut np = entity();
    let _jobs = load_images(&mut np, vec![details("a.png")]);
    assert!(!np.needs_load());
    np.invalidate();
    assert!(np.needs_load());
    assert_eq!(np.image_pos_ref(), "");
}

#[test]
fn the_cursor_entity_asks_for_images_once() {
    let mut nps = NetherPortals::default();
    nps.consume_npt(NetherPortalText {
        id: 1,
        overworld: PortalText {
            xcord: 0,
            ycord: 0,
            zcord: 0,
            locale: String::new(),
            owner: String::new(),
            notes: String::new(),
            true_name: "Spawn".to_string(),
        },
        nether: PortalText {
            xcord: 0,
            ycord: 0,
            zcord: 0,
            locale: String::new(),
            owner: String::new(),
            notes: String::new(),
            true_name: "SpawnNether".to_string(),
        },
        username: String::new(),
    });
    setup_displayables(&mut nps);

    let pos = should_we_reload_ow_images(&nps).unwrap();
    assert_eq!(pos, "Spawn");

    // populate the entity under the cursor
    {
        let map = nps.overworld_mut();
        let i = map.find("Spawn").unwrap();
        let dummy = NetherPortal::fresh(0, PortalText::default());
        let mut entry = map.replace_at(i, dummy);
        let jobs = load_images(&mut entry, vec![details("a.png"), details("b.png")]);
        for (sender, d) in jobs {
            sender.send(Imager::new(d.name.clone(), Some(d), Some(vec![1])));
        }
        let _ = map.replace_at(i, entry);
    }
    // loaded: no second load for this session
    assert!(should_we_reload_ow_images(&nps).is_none());

    // the image selector rebuilds from the loaded names and the user's pick
    // lands in the entity's selection
    assert!(reload_image_mm(&mut nps, &Realm::Overworld, "1".to_string()).is_some());
    nps.image_modal_mut(&Realm::Overworld).select_option("b.png".to_string());
    assert!(change_image_by_user_input(&mut nps, &Realm::Overworld).is_some());
    let entry = nps.overworld_ref().get("Spawn").unwrap();
    assert_eq!(entry.image_pos_ref(), "b.png");
}
