use borkcraft::page::setup_displayables;
use borkcraft::portals::{NetherPortalText, NetherPortals, PortalText, SaveStatus};
use borkcraft::url_tools::{status_check, status_check_reason};

fn portal(name: &str) -> PortalText {
    PortalText {
        xcord: 10,
        ycord: 64,
        zcord: -5,
        locale: "Overworld".to_string(),
        owner: "Steve".to_string(),
        notes: "spawn".to_string(),
        true_name: name.to_string(),
    }
}

fn loaded_cache() -> NetherPortals {
    let mut nps = NetherPortals::default();
    nps.consume_npt(NetherPortalText {
        id: 3,
        overworld: portal("Spawn"),
        nether: portal("SpawnNether"),
        username: String::new(),
    });
    setup_displayables(&mut nps);
    nps
}

#[test]
fn a_second_start_while_saving_is_rejected_until_the_first_settles() {
    let mut nps = loaded_cache();
    assert!(matches!(nps.poll_save(), SaveStatus::Idle));

    let (payload, sender) = nps.start_save().unwrap();
    assert_eq!(payload.id, 3);
    assert_eq!(payload.overworld.true_name, "Spawn");
    assert_eq!(payload.nether.true_name, "SpawnNether");

    // a second start while the first is in flight is a misuse
    assert!(nps.start_save().is_err());
    assert!(matches!(nps.poll_save(), SaveStatus::Saving));
    assert!(nps.start_save().is_err());

    // the background task settles the request without an error
    sender.send(None);
    assert!(matches!(nps.poll_save(), SaveStatus::Succeeded));

    // settled and observed: a new save is accepted
    let second = nps.start_save();
    assert!(second.is_ok());
}

#[test]
fn a_failed_save_reports_the_reason_and_frees_the_coordinator() {
    let mut nps = loaded_cache();
    let (_payload, sender) = nps.start_save().unwrap();
    sender.send(Some("Request Denied... status code: -> |403|".to_string()));
    match nps.poll_save() {
        SaveStatus::Failed(reason) => {
            assert_eq!(reason, "Request Denied... status code: -> |403|");
        },
        _ => panic!("the settled failure must surface as Failed"),
    }
    // failure frees the coordinator like success does
    assert!(matches!(nps.poll_save(), SaveStatus::Idle));
    assert!(nps.start_save().is_ok());
}

#[test]
fn a_save_without_a_selection_is_a_validation_failure() {
    let mut nps = NetherPortals::default();
    assert!(nps.start_save().is_err());
    // the failure left the coordinator idle
    assert!(matches!(nps.poll_save(), SaveStatus::Idle));
}

#[test]
fn a_save_with_an_unparsable_edit_is_a_validation_failure() {
    let mut nps = loaded_cache();
    // corrupt a numeric field of the overworld edit view
    {
        let map = nps.overworld_mut();
        let i = map.find("Spawn").unwrap();
        let dummy = borkcraft::portals::NetherPortal::fresh(0, PortalText::default());
        let mut entry = map.replace_at(i, dummy);
        let view = entry.btree_mut();
        let j = view.find("Xcord").unwrap();
        view.replace_at(j, "ten".to_string());
        let _ = map.replace_at(i, entry);
    }
    assert!(nps.start_save().is_err());
    assert!(matches!(nps.poll_save(), SaveStatus::Idle));

    // mending the field makes the save acceptable again
    {
        let map = nps.overworld_mut();
        let i = map.find("Spawn").unwrap();
        let dummy = borkcraft::portals::NetherPortal::fresh(0, PortalText::default());
        let mut entry = map.replace_at(i, dummy);
        let view = entry.btree_mut();
        let j = view.find("Xcord").unwrap();
        view.replace_at(j, "11".to_string());
        let _ = map.replace_at(i, entry);
    }
    let (payload, _sender) = nps.start_save().unwrap();
    assert_eq!(payload.overworld.xcord, 11);
}

#[test]
fn the_save_id_falls_back_to_the_nether_identifier() {
    let mut nps = NetherPortals::default();
    nps.consume_npt(NetherPortalText {
        id: -1,
        overworld: portal("New"),
        nether: portal("NewNether"),
        username: String::new(),
    });
    setup_displayables(&mut nps);
    // both halves carry -1 here, so the payload keeps -1
    let (payload, _sender) = nps.start_save().unwrap();
    assert_eq!(payload.id, -1);
}

#[test]
fn status_check_classifies_the_server_answer() {
    assert!(status_check(202).is_ok());
    let denied = status_check(403).unwrap_err();
    assert_eq!(denied.message(), "Request Denied... status code: -> |403|");
    let other = status_check(500).unwrap_err();
    assert_eq!(other.message(), "Request was not aproved: status code: -> |500|");
}

#[test]
fn status_check_with_reason_carries_the_server_reason() {
    assert!(status_check_reason(202, "ignored").is_ok());
    let denied = status_check_reason(403, "bad key").unwrap_err();
    assert_eq!(
        denied.message(),
        "Request Denied... status code: -> |403|\nReason: -> |bad key|\n"
    );
    let other = status_check_reason(500, "oops").unwrap_err();
    assert_eq!(
        other.message(),
        "Request was not aproved: status code: -> |500|\nReason: -> |oops|\n"
    );
}
