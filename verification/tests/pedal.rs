use transcribeupl::audio::{DecodedAudio, Player, SinkCommand};
use transcribeupl::config::{ApplicationConfig, Config, DirProbe, PedalModel, RoleCodes};
use transcribeupl::dispatch::{Button, Dispatch, Edge, PedalDispatcher};
use transcribeupl::pedal::{
    after_read_error, after_scan, discover, discover_from, forward_key_events, preferred_device_paths,
    scanning_report_due, status_label, InputDeviceInfo, PedalEvent, PedalMsg, PedalStatus, Preferred, RawInput,
    ScanCursor, ScanOutcome,
};

fn dev(path: &str, vendor: u16, product: u16) -> InputDeviceInfo {
    InputDeviceInfo { path: String::from(path), vendor, product }
}

fn model(name: &str, vendor_id: u16, product_id: u16, base: u32) -> PedalModel {
    PedalModel {
        name: String::from(name),
        vendor_id,
        product_id,
        left_code: base,
        middle_code: base + 1,
        right_code: base + 2,
    }
}

fn app_cfg() -> ApplicationConfig {
    Config::default().application
}

fn dispatcher() -> PedalDispatcher {
    PedalDispatcher::new(Config::default().role_codes())
}

fn loaded_player() -> Player {
    let audio = DecodedAudio::new(1000, 1, 60_000).unwrap();
    let mut p = Player::new();
    p.load_file(String::from("d.wav"), audio);
    p
}

const KEEP: Dispatch = Dispatch { command: SinkCommand::Keep, archive_requested: false };

#[test]
fn open_dir_falls_back_in_order() {
    let cfg = Config::default();
    let probe = |configured_is_dir, home: Option<&str>, home_is_dir, cwd: Option<&str>| DirProbe {
        configured_is_dir,
        home: home.map(String::from),
        home_is_dir,
        current_dir: cwd.map(String::from),
    };
    assert_eq!(
        cfg.resolve_default_open_dir(probe(true, Some("/home/u"), true, Some("/tmp"))),
        cfg.paths.default_open_dir
    );
    assert_eq!(cfg.resolve_default_open_dir(probe(false, Some("/home/u"), true, Some("/tmp"))), "/home/u");
    assert_eq!(cfg.resolve_default_open_dir(probe(false, Some("/home/u"), false, Some("/tmp"))), "/tmp");
    assert_eq!(cfg.resolve_default_open_dir(probe(false, None, true, Some("/tmp"))), "/tmp");
    assert_eq!(cfg.resolve_default_open_dir(probe(false, None, false, None)), ".");
}

#[test]
fn default_config_values() {
    let cfg = Config::default();
    assert_eq!(cfg.application.rewind_seconds, 3);
    assert_eq!(cfg.application.forward_seconds, 3);
    assert_eq!(cfg.application.hold_rewind_interval_ms, 500);
    assert_eq!(cfg.application.play_start_rewind_seconds, 1);
    assert_eq!(cfg.pedal_defaults.vendor_id, 0x0911);
    assert_eq!(cfg.pedal_defaults.product_id, 0x1844);
    assert_eq!(cfg.pedal_defaults.left_code, 288);
    assert_eq!(cfg.pedal_defaults.middle_code, 290);
    assert_eq!(cfg.pedal_defaults.right_code, 289);
    assert!(cfg.pedals.is_empty());
    assert!(cfg.input.device_path.is_none());
    assert!(cfg.input.selected_model.is_none());
    assert_eq!(
        cfg.paths.default_open_dir,
        "/run/user/1000/gvfs/smb-share:server=100.99.88.66,share=daten/diktat"
    );
}

#[test]
fn role_codes_follow_selected_model() {
    let mut cfg = Config::default();
    assert_eq!(cfg.role_codes(), RoleCodes { left: 288, middle: 290, right: 289 });
    cfg.pedals.push(model("a", 1, 2, 10));
    cfg.pedals.push(model("b", 3, 4, 20));
    cfg.pedals.push(model("b", 5, 6, 30));
    assert_eq!(cfg.role_codes(), RoleCodes { left: 288, middle: 290, right: 289 });
    cfg.input.selected_model = Some(String::from("b"));
    assert_eq!(cfg.role_codes(), RoleCodes { left: 20, middle: 21, right: 22 });
    cfg.input.selected_model = Some(String::from("missing"));
    assert_eq!(cfg.role_codes(), RoleCodes { left: 288, middle: 290, right: 289 });
}

#[test]
fn candidate_list_is_in_priority_order() {
    let mut cfg = Config::default();
    let prefs = preferred_device_paths(&cfg);
    assert_eq!(prefs.len(), 1);
    assert!(matches!(prefs[0], Preferred::VidPid { vid: 0x0911, pid: 0x1844 }));
    cfg.pedals.push(model("a", 1, 2, 10));
    cfg.pedals.push(model("b", 3, 4, 20));
    cfg.input.device_path = Some(String::from("/dev/input/event7"));
    let prefs = preferred_device_paths(&cfg);
    assert_eq!(prefs.len(), 4);
    assert!(matches!(prefs[0], Preferred::VidPid { vid: 0x0911, pid: 0x1844 }));
    assert!(matches!(prefs[1], Preferred::VidPid { vid: 1, pid: 2 }));
    assert!(matches!(prefs[2], Preferred::VidPid { vid: 3, pid: 4 }));
    match &prefs[3] {
        Preferred::Path(p) => assert_eq!(p, "/dev/input/event7"),
        _ => panic!("the fallback path comes last"),
    }
}

#[test]
fn discovery_prefers_list_order_over_enumeration_order() {
    let prefs = vec![Preferred::VidPid { vid: 0x11, pid: 0x21 }, Preferred::VidPid { vid: 0x12, pid: 0x22 }];
    let devices = vec![dev("/dev/input/event0", 0x12, 0x22), dev("/dev/input/event1", 0x11, 0x21)];
    assert_eq!(discover(&prefs, &devices), Some(ScanCursor { candidate: 0, device: 1 }));
}

#[test]
fn discovery_takes_first_enumerated_match_of_a_candidate() {
    let prefs = vec![Preferred::VidPid { vid: 7, pid: 8 }];
    let devices = vec![dev("a", 1, 1), dev("b", 7, 8), dev("c", 7, 8)];
    assert_eq!(discover(&prefs, &devices), Some(ScanCursor { candidate: 0, device: 1 }));
    // the identity is vendor and product together
    let devices = vec![dev("a", 7, 1), dev("b", 1, 8)];
    assert_eq!(discover(&prefs, &devices), None);
}

#[test]
fn discovery_falls_back_to_path_and_reports_nothing_left() {
    let prefs = vec![Preferred::VidPid { vid: 7, pid: 8 }, Preferred::Path(String::from("/dev/input/by-id/pedal"))];
    let devices = vec![dev("a", 1, 1)];
    assert_eq!(discover(&prefs, &devices), Some(ScanCursor { candidate: 1, device: 0 }));
    let next = ScanCursor { candidate: 1, device: 0 }.advance();
    assert_eq!(next, ScanCursor { candidate: 1, device: 1 });
    assert_eq!(discover_from(&prefs, &devices, next), None);
    assert_eq!(discover(&Vec::new(), &devices), None);
    assert_eq!(discover(&prefs[..1].to_vec(), &Vec::new()), None);
}

#[test]
fn discovery_goes_on_behind_a_failed_attempt() {
    let prefs = vec![
        Preferred::VidPid { vid: 1, pid: 1 },
        Preferred::VidPid { vid: 2, pid: 2 },
        Preferred::Path(String::from("/dev/input/event9")),
    ];
    let devices = vec![dev("a", 2, 2), dev("b", 1, 1), dev("c", 1, 1), dev("d", 2, 2)];
    let mut cursor = ScanCursor { candidate: 0, device: 0 };
    let mut seen = Vec::new();
    while let Some(at) = discover_from(&prefs, &devices, cursor) {
        seen.push((at.candidate, at.device));
        cursor = at.advance();
    }
    assert_eq!(seen, vec![(0, 1), (0, 2), (1, 0), (1, 3), (2, 0)]);
}

#[test]
fn only_key_events_without_autorepeat_are_forwarded() {
    let batch = vec![
        RawInput { event_type: 1, code: 288, value: 1 },
        RawInput { event_type: 0, code: 0, value: 0 },
        RawInput { event_type: 1, code: 288, value: 2 },
        RawInput { event_type: 1, code: 288, value: 2 },
        RawInput { event_type: 4, code: 4, value: 1 },
        RawInput { event_type: 1, code: 288, value: 0 },
        RawInput { event_type: 1, code: 65_535, value: 1 },
        RawInput { event_type: 2, code: 1, value: 1 },
        RawInput { event_type: 0x0101, code: 1, value: 1 },
    ];
    assert_eq!(
        forward_key_events(&batch),
        vec![
            PedalEvent { code: 288, value: 1 },
            PedalEvent { code: 288, value: 0 },
            PedalEvent { code: 65_535, value: 1 },
        ]
    );
    assert_eq!(forward_key_events(&Vec::new()), Vec::new());
}

#[test]
fn forwarding_agrees_with_the_device_library() {
    for event_type in [0u16, 1, 2, 3, 4, 5, 0x11, 0x12, 0x14, 0x15, 0x16, 0x17, 0x0101, 0xffff] {
        let ev = evdev::InputEvent::new(evdev::EventType(event_type), 290, 1);
        let is_key = matches!(ev.kind(), evdev::InputEventKind::Key(_));
        let out = forward_key_events(&vec![RawInput { event_type, code: 290, value: 1 }]);
        assert_eq!(out.len(), if is_key { 1 } else { 0 });
        assert_eq!(is_key, event_type == 1);
    }
}

#[test]
fn scanning_report_is_rate_limited() {
    assert!(scanning_report_due(None, 0));
    assert!(!scanning_report_due(Some(5), 5));
    assert!(!scanning_report_due(Some(5), 1_000_004));
    assert!(scanning_report_due(Some(5), 1_000_005));
    assert!(!scanning_report_due(Some(10), 3));
}

#[test]
fn scan_outcomes_map_to_steps() {
    let step = after_scan(ScanOutcome::Found {
        name: Some(String::from("Infinity IN-USB-2")),
        path: String::from("/dev/input/event5"),
        vendor: 0x05f3,
        product: 0x00ff,
    });
    assert!(step.read_events);
    assert_eq!(step.backoff_ms, 0);
    match step.message {
        PedalMsg::Status(PedalStatus::Connected { name, path, vendor, product }) => {
            assert_eq!(name, "Infinity IN-USB-2");
            assert_eq!(path, "/dev/input/event5");
            assert_eq!((vendor, product), (0x05f3, 0x00ff));
        }
        _ => panic!("a found device is announced as connected"),
    }
    let step = after_scan(ScanOutcome::Found { name: None, path: String::from("p"), vendor: 1, product: 2 });
    match step.message {
        PedalMsg::Status(PedalStatus::Connected { name, .. }) => assert_eq!(name, "Unknown"),
        _ => panic!("a found device is announced as connected"),
    }
    let step = after_scan(ScanOutcome::NotFound);
    assert!(!step.read_events);
    assert_eq!(step.backoff_ms, 2000);
    assert!(matches!(step.message, PedalMsg::Status(PedalStatus::NotFound)));
    let step = after_scan(ScanOutcome::Failed(String::from("permission denied")));
    assert!(!step.read_events);
    assert_eq!(step.backoff_ms, 2000);
    match step.message {
        PedalMsg::Status(PedalStatus::Error(e)) => assert_eq!(e, "permission denied"),
        _ => panic!("a failed enumeration is reported as an error"),
    }
}

#[test]
fn read_error_is_a_disconnect() {
    let step = after_read_error();
    assert!(matches!(step.message, PedalMsg::Disconnected));
    assert!(!step.read_events);
    assert_eq!(step.backoff_ms, 2000);
}

#[test]
fn status_labels() {
    assert_eq!(status_label(&PedalStatus::NotStarted), "Pedal: Not started");
    assert_eq!(status_label(&PedalStatus::Scanning), "Pedal: Scanning");
    assert_eq!(status_label(&PedalStatus::NotFound), "Pedal: Not found");
    assert_eq!(status_label(&PedalStatus::Error(String::from("EACCES"))), "Pedal: Error (EACCES)");
    let connected = PedalStatus::Connected {
        name: String::from("VEC Footpedal"),
        path: String::from("/dev/input/event3"),
        vendor: 0x0911,
        product: 0x1844,
    };
    assert_eq!(status_label(&connected), "Pedal: Connected (VEC Footpedal, /dev/input/event3)");
}

#[test]
fn right_press_rewinds_and_plays_and_release_pauses() {
    let mut d = dispatcher();
    let mut p = loaded_player();
    let app = app_cfg();
    p.seek_seconds(10, 0);
    let out = d.handle_pedal_event(&mut p, PedalEvent { code: 289, value: 1 }, &app, 0);
    assert!(p.is_playing());
    assert_eq!(p.current_index_interleaved(0), 9_000);
    assert!(matches!(out.command, SinkCommand::Rebind(s) if s.pos == 9_000 && s.end == 60_000));
    assert!(!out.archive_requested);
    let out = d.handle_pedal_event(&mut p, PedalEvent { code: 289, value: 0 }, &app, 2_000_000);
    assert_eq!(out, Dispatch { command: SinkCommand::Stop, archive_requested: false });
    assert!(!p.is_playing());
    assert_eq!(p.content_index, 11_000);
}

#[test]
fn duplicate_press_acts_only_once() {
    let mut d = dispatcher();
    let mut p = loaded_player();
    let app = app_cfg();
    p.seek_seconds(10, 0);
    let first = d.handle_pedal_event(&mut p, PedalEvent { code: 289, value: 1 }, &app, 0);
    assert!(matches!(first.command, SinkCommand::Rebind(_)));
    let second = d.handle_pedal_event(&mut p, PedalEvent { code: 289, value: 1 }, &app, 500_000);
    assert_eq!(second, KEEP);
    // no second rewind, no second start
    assert_eq!(p.play_start_index, 9_000);
    assert_eq!(p.play_start_us, Some(0));
    assert_eq!(p.current_index_interleaved(500_000), 9_500);

    let mut d = dispatcher();
    assert_eq!(d.classify(PedalEvent { code: 290, value: 1 }), Some(Edge::Press(Button::Middle)));
    assert_eq!(d.classify(PedalEvent { code: 290, value: 1 }), None);
    assert_eq!(d.classify(PedalEvent { code: 288, value: 1 }), Some(Edge::Press(Button::Left)));
    assert_eq!(d.classify(PedalEvent { code: 288, value: 1 }), None);
    assert_eq!(d.classify(PedalEvent { code: 288, value: 0 }), Some(Edge::Release(Button::Left)));
    assert_eq!(d.classify(PedalEvent { code: 288, value: 0 }), None);
}

#[test]
fn autorepeat_and_unmapped_codes_do_nothing() {
    let mut d = dispatcher();
    let mut p = loaded_player();
    let app = app_cfg();
    p.seek_seconds(10, 0);
    let before = d;
    for code in [288, 289, 290, 1] {
        for value in [2, 3, -1] {
            assert_eq!(d.handle_pedal_event(&mut p, PedalEvent { code, value }, &app, 0), KEEP);
            assert_eq!(d, before);
        }
    }
    assert_eq!(d.handle_pedal_event(&mut p, PedalEvent { code: 291, value: 1 }, &app, 0), KEEP);
    assert_eq!(d.handle_pedal_event(&mut p, PedalEvent { code: 291, value: 0 }, &app, 0), KEEP);
    assert_eq!(d, before);
    assert!(!p.is_playing());
    assert_eq!(p.content_index, 10_000);
    // a repeat while the button is down does not end the press either
    d.handle_pedal_event(&mut p, PedalEvent { code: 289, value: 1 }, &app, 0);
    assert_eq!(d.handle_pedal_event(&mut p, PedalEvent { code: 289, value: 2 }, &app, 10), KEEP);
    assert!(d.right_pressed);
    assert!(p.is_playing());
}

#[test]
fn middle_press_pauses_and_asks_for_archive() {
    let mut d = dispatcher();
    let mut p = loaded_player();
    let app = app_cfg();
    p.play_from_current(0);
    let out = d.handle_pedal_event(&mut p, PedalEvent { code: 290, value: 1 }, &app, 1_500_000);
    assert_eq!(out, Dispatch { command: SinkCommand::Stop, archive_requested: true });
    assert!(!p.is_playing());
    assert_eq!(p.content_index, 1_500);
    assert!(d.middle_pressed);
    let out = d.handle_pedal_event(&mut p, PedalEvent { code: 290, value: 0 }, &app, 1_600_000);
    assert_eq!(out, KEEP);
    assert!(!d.middle_pressed);
}

#[test]
fn holding_left_for_three_intervals_rewinds_three_times() {
    let mut d = dispatcher();
    let mut p = loaded_player();
    let app = app_cfg();
    let interval_us = app.hold_rewind_interval_ms * 1000;
    p.seek_seconds(30, 0);
    let press_at = 1_000_000;
    assert_eq!(d.handle_pedal_event(&mut p, PedalEvent { code: 288, value: 1 }, &app, press_at), KEEP);
    // the press itself does not seek
    assert_eq!(p.content_index, 30_000);
    let mut rewinds = 0;
    let mut rewound_at = Vec::new();
    let mut k = 1;
    while k * (interval_us / 2) < 3 * interval_us {
        let now = press_at + k * (interval_us / 2);
        if d.tick_hold_rewind(&mut p, &app, now).is_some() {
            rewinds += 1;
            rewound_at.push(k);
        }
        k += 1;
    }
    d.handle_pedal_event(&mut p, PedalEvent { code: 288, value: 0 }, &app, press_at + 3 * interval_us);
    assert_eq!(rewinds, 3);
    assert_eq!(rewound_at, vec![1, 3, 5]);
    assert_eq!(p.content_index, 30_000 - 3 * 3_000);
    // after the release nothing repeats
    assert_eq!(d.tick_hold_rewind(&mut p, &app, press_at + 10 * interval_us), None);
    assert_eq!(p.content_index, 21_000);
}

fn rewinds_while_held(first_tick: u64, last_tick: u64) -> usize {
    let mut d = dispatcher();
    let mut p = loaded_player();
    let app = app_cfg();
    let half = app.hold_rewind_interval_ms * 1000 / 2;
    p.seek_seconds(30, 0);
    let press_at = 7_000_000;
    d.handle_pedal_event(&mut p, PedalEvent { code: 288, value: 1 }, &app, press_at);
    let mut rewinds = 0;
    for k in first_tick..=last_tick {
        if d.tick_hold_rewind(&mut p, &app, press_at + k * half).is_some() {
            rewinds += 1;
        }
    }
    d.handle_pedal_event(&mut p, PedalEvent { code: 288, value: 0 }, &app, press_at + 6 * half);
    assert_eq!(p.content_index, 30_000 - rewinds * 3_000);
    rewinds
}

#[test]
fn hold_repeat_count_does_not_depend_on_tick_phase() {
    // ticks at 0, 1/2, .., 5/2 intervals after the press
    assert_eq!(rewinds_while_held(0, 5), 3);
    // ticks at 1/2, 1, .., 3 intervals after the press
    assert_eq!(rewinds_while_held(1, 6), 3);
}

#[test]
fn repeat_is_due_exactly_at_the_interval() {
    let mut d = dispatcher();
    let mut p = loaded_player();
    let app = app_cfg();
    p.seek_seconds(30, 0);
    d.classify(PedalEvent { code: 288, value: 1 });
    assert_eq!(d.tick_hold_rewind(&mut p, &app, 100), Some(SinkCommand::Keep));
    assert_eq!(d.hold_last_tick, Some(100));
    assert_eq!(d.tick_hold_rewind(&mut p, &app, 100 + 499_999), None);
    assert_eq!(d.tick_hold_rewind(&mut p, &app, 100 + 500_000), Some(SinkCommand::Keep));
    assert_eq!(d.hold_last_tick, Some(500_100));
    assert_eq!(p.content_index, 24_000);
}

#[test]
fn tick_without_hold_does_nothing() {
    let mut d = dispatcher();
    let mut p = loaded_player();
    let app = app_cfg();
    p.seek_seconds(30, 0);
    assert_eq!(d.tick_hold_rewind(&mut p, &app, 0), None);
    assert_eq!(d.tick_hold_rewind(&mut p, &app, 10_000_000), None);
    assert_eq!(p.content_index, 30_000);
}

#[test]
fn hold_rewind_while_playing_rebinds() {
    let mut d = dispatcher();
    let mut p = loaded_player();
    let app = app_cfg();
    p.seek_seconds(30, 0);
    p.play_from_current(0);
    d.classify(PedalEvent { code: 288, value: 1 });
    let cmd = d.tick_hold_rewind(&mut p, &app, 1_000_000);
    assert!(matches!(cmd, Some(SinkCommand::Rebind(s)) if s.pos == 28_000));
    assert!(p.is_playing());
    assert_eq!(p.current_index_interleaved(1_000_000), 28_000);
}

#[test]
fn disconnect_pauses_and_gives_notice() {
    let mut d = dispatcher();
    let mut p = loaded_player();
    let app = app_cfg();
    p.play_from_current(0);
    let out = d.handle_pedal_msg(&mut p, PedalMsg::Disconnected, &app, 2_000_000);
    assert_eq!(out.dispatch, Dispatch { command: SinkCommand::Stop, archive_requested: false });
    assert!(out.status.is_none());
    assert_eq!(out.notice.as_deref(), Some("Pedal disconnected"));
    assert!(!p.is_playing());
    assert_eq!(p.content_index, 2_000);
}

#[test]
fn status_messages_are_handed_on() {
    let mut d = dispatcher();
    let mut p = loaded_player();
    let app = app_cfg();
    let out = d.handle_pedal_msg(&mut p, PedalMsg::Status(PedalStatus::Scanning), &app, 0);
    assert_eq!(out.dispatch, KEEP);
    assert!(matches!(out.status, Some(PedalStatus::Scanning)));
    assert!(out.notice.is_none());
    let out = d.handle_pedal_msg(
        &mut p,
        PedalMsg::Status(PedalStatus::Error(String::from("no such device"))),
        &app,
        0,
    );
    assert!(matches!(out.status, Some(PedalStatus::Error(_))));
    assert_eq!(out.notice.as_deref(), Some("Pedal error: no such device"));
    let out = d.handle_pedal_msg(&mut p, PedalMsg::Input(PedalEvent { code: 290, value: 1 }), &app, 0);
    assert!(out.dispatch.archive_requested);
    assert!(out.status.is_none());
    assert!(out.notice.is_none());
}
