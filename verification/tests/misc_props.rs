use borkcraft::client_windows::{GenericWindow, Loglet, MessageLog};
use borkcraft::error_messages::ErrorMessage;
use borkcraft::login::LoginForm;
use borkcraft::modal::{set_base_page, ModalMachine};
use borkcraft::sessions::{current_session_time, SessionInfo, SessionTime, TimeTime};
use borkcraft::url_tools::{aws_public_dns, text_server_port, Routes, Urls};
use borkcraft::{option, HandleError, HandleOption, Realm};

#[test]
fn urls_compose_host_port_and_route() {
    assert_eq!(Urls::default(Routes::Login), "http://localhost:8334/login");
    assert_eq!(
        Urls::default(Routes::EstimatedAmountNetherPortals),
        "http://localhost:8334/netherportalsestimatedamount"
    );
    assert_eq!(
        Urls::default_i(Routes::GetNetherPortalImage),
        "http://localhost:1234/getnetherportalimage"
    );
    let urls = Urls::new("example.test".to_string(), "80".to_string());
    assert_eq!(
        urls.url(Routes::GetNetherPortalBunch),
        "http://example.test:80/getnetherportalstextinformation"
    );
    assert_eq!(aws_public_dns(), "localhost");
    assert_eq!(text_server_port(), "8334");
}

#[test]
fn loglets_format_their_three_lines() {
    let loglet = Loglet::new("Error", "broken", "12:00 -- 7");
    assert_eq!(
        loglet.format_loglet(),
        "Kind:|\n\tError|Message:|\n\tbroken|Time:|\n\t12:00 -- 7|"
    );
}

#[test]
fn the_message_log_grows_in_order() {
    let mut log = MessageLog::default();
    assert_eq!(log.len(), 0);
    log.push(Loglet::new("a", "first", "t1"));
    log.push(Loglet::new("b", "second", "t2"));
    assert_eq!(log.len(), 2);
    assert_eq!(log.get(0).format_loglet(), Loglet::new("a", "first", "t1").format_loglet());
}

#[test]
fn windows_open_when_messages_arrive() {
    let mut gw = GenericWindow::new("Errors");
    assert_eq!(gw.namae(), "Errors");
    assert!(!gw.is_window_open);
    gw.push_loglet(Loglet::new("Error", "one", "t"));
    assert!(gw.is_window_open);
    assert_eq!(gw.log.len(), 1);
}

#[test]
fn the_error_channel_collects_reports() {
    let mut em = ErrorMessage::new();
    let sender = em.sender_clone();
    sender.send(Loglet::new("Error", "from a task", "t")).unwrap();
    em.try_update_log();
    assert_eq!(em.display.log.len(), 1);
    assert!(em.display.is_window_open);
    em.push_err("local trouble");
    assert_eq!(em.display.log.len(), 2);
}

#[test]
fn modal_machines_hold_a_selection_and_a_one_shot_event() {
    let mut mm = ModalMachine::new(
        "a".to_string(),
        vec!["a".to_string(), "b".to_string()],
        "letters".to_string(),
    );
    assert_eq!(mm.get_selected_option(), "a");
    assert!(mm.use_event().is_none());
    mm.select_option("b".to_string());
    assert_eq!(mm.get_selected_option(), "b");
    assert!(mm.use_event().is_some());
    assert!(mm.use_event().is_none());

    let base = set_base_page();
    assert_eq!(base.get_selected_option(), "Login");
    assert_eq!(base.options_len(), 2);
    assert_eq!(base.option_at(1), "Nether Portals");
}

#[test]
fn realm_matcher_picks_by_realm() {
    assert_eq!(Realm::Overworld.matcher(1, 2), 1);
    assert_eq!(Realm::Nether.matcher(1, 2), 2);
}

#[test]
fn session_time_formats_and_flows_to_the_owner() {
    let time = TimeTime {
        hour: "0".to_string(),
        minute: "12".to_string(),
        second: "30".to_string(),
    };
    assert_eq!(time.formatted(), "Session Time Left: (0:12 -- 30)");

    let (sender, receiver) = std::sync::mpsc::channel();
    let st = SessionTime { key: "session-key-1".to_string(), time };
    let key = current_session_time(&sender, st, "now").unwrap();
    assert_eq!(key, "session-key-1");
    let (got, loglet) = receiver.try_recv().unwrap();
    assert_eq!(got.key, "session-key-1");
    assert_eq!(
        loglet.format_loglet(),
        "Kind:|\n\tUpdate|Message:|\n\tSession Time Left: (0:12 -- 30)|Time:|\n\tnow|"
    );
}

#[test]
fn session_updates_flip_the_login_flag() {
    let (sender, receiver) = std::sync::mpsc::channel();
    let mut si = SessionInfo::new(Some(receiver));
    assert!(!si.is_logged_in);

    // time remains: logged in
    let remaining = SessionTime {
        key: String::new(),
        time: TimeTime {
            hour: "0".to_string(),
            minute: "12".to_string(),
            second: "30".to_string(),
        },
    };
    sender.send((remaining, Loglet::new("Update", "m", "t"))).unwrap();
    si.try_update();
    assert!(si.is_logged_in);
    assert_eq!(si.display.log.len(), 1);

    // all three below "1": the session is spent
    let spent = SessionTime {
        key: String::new(),
        time: TimeTime {
            hour: "0".to_string(),
            minute: "0".to_string(),
            second: "0".to_string(),
        },
    };
    sender.send((spent, Loglet::new("Update", "m", "t"))).unwrap();
    si.try_update();
    assert!(!si.is_logged_in);
}

#[test]
fn a_session_record_builds_from_a_report() {
    let st = SessionTime {
        key: "k1".to_string(),
        time: TimeTime {
            hour: "1".to_string(),
            minute: "0".to_string(),
            second: "0".to_string(),
        },
    };
    let si = SessionInfo::session_time_to_session_info(st).unwrap();
    assert!(si.is_logged_in);
    assert_eq!(si.key, "k1");
    let named = si.display_namae("Session Time");
    assert_eq!(named.display.name, "Session Time");

    let mut owner = SessionInfo::default();
    owner.consume(named);
    assert_eq!(owner.key, "k1");
    assert!(owner.receiver.is_none());
}

#[test]
fn login_form_needs_a_sender() {
    let form = LoginForm::default();
    assert!(form.send("k".to_string()).is_none());
    assert!(form.try_send("k".to_string()).is_err());

    let (sender, receiver) = std::sync::mpsc::channel();
    let form = LoginForm { sender: Some(sender), ..LoginForm::default() };
    assert!(form.try_send("fresh-key".to_string()).is_ok());
    assert_eq!(receiver.try_recv().unwrap(), "fresh-key");
    assert!(form.send("again".to_string()).is_some());
}

#[test]
fn hooks_run_exactly_on_the_absent_and_failing_cases() {
    // on_none runs its hook only for None, and hands the value back
    let mut ran = false;
    let r: Option<i32> = None.on_none(|| {
        ran = true;
    });
    assert!(ran && r.is_none());

    let mut ran = false;
    let r = Some(5).on_none(|| {
        ran = true;
    });
    assert!(!ran);
    assert_eq!(r, Some(5));

    // option runs the block once
    let r = option(|| Some(()));
    assert!(r.is_some());

    // error hooks: consume_error logs, otherwise observes, send_error reports
    let mut em = ErrorMessage::new();
    let failing: Result<(), borkcraft::err_tools::ErrorX> =
        Err(borkcraft::err_tools::ErrorX::new("boom"));
    failing.consume_error(&mut em);
    assert_eq!(em.display.log.len(), 1);

    let mut seen = String::new();
    let failing: Result<(), borkcraft::err_tools::ErrorX> =
        Err(borkcraft::err_tools::ErrorX::new("boom"));
    let back = failing.otherwise(|e| seen = e.message().to_string());
    assert_eq!(seen, "boom");
    assert!(back.is_err());

    let failing: Result<(), borkcraft::err_tools::ErrorX> =
        Err(borkcraft::err_tools::ErrorX::new("boom"));
    let back = failing.send_error(em.sender_clone());
    assert!(back.is_err());
    em.try_update_log();
    assert_eq!(em.display.log.len(), 2);

    let fine: Result<i32, borkcraft::err_tools::ErrorX> = Ok(1);
    fine.consume_error(&mut em);
    assert_eq!(em.display.log.len(), 2);
}
