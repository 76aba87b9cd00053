use korean::cli::{parse_start_options, SetupOptions};
use korean::diagnose::{doctor_report, is_event_device, status_report, DoctorFacts, DoctorFlow};
use korean::setup::{
    engine_name, flow_report, DesktopReply, DesktopRequest, FlowResult, SetupFlow, StopFlow,
};

fn yes() -> DesktopReply {
    DesktopReply::Done(true)
}

fn no() -> DesktopReply {
    DesktopReply::Done(false)
}

fn sources(text: &str) -> DesktopReply {
    DesktopReply::Sources(Some(text.to_string()))
}

fn options(caps_switch: bool, quiet: bool) -> SetupOptions {
    SetupOptions { caps_switch, quiet }
}

#[test]
fn setup_adds_selects_and_restarts() {
    let (mut flow, first) = SetupFlow::start(&options(false, false), "korean");
    assert_eq!(first, DesktopRequest::HasIbus);
    assert_eq!(flow.step(yes()), DesktopRequest::StartIbus);
    assert_eq!(flow.step(no()), DesktopRequest::EngineRegistered);
    assert_eq!(flow.step(yes()), DesktopRequest::HasGsettings);
    assert_eq!(flow.step(yes()), DesktopRequest::ReadSources);
    assert_eq!(
        flow.step(sources("[('xkb', 'us')]")),
        DesktopRequest::WriteSources("[('xkb', 'us'), ('ibus', 'korean')]".to_string())
    );
    assert_eq!(flow.step(yes()), DesktopRequest::SelectSource(1));
    assert_eq!(flow.step(yes()), DesktopRequest::RestoreSwitchKeys);
    assert_eq!(flow.step(yes()), DesktopRequest::RestartIbus);
    assert_eq!(
        flow.step(yes()),
        DesktopRequest::Finish(FlowResult::SetupCompleted)
    );
    assert_eq!(
        flow.step(no()),
        DesktopRequest::Finish(FlowResult::SetupCompleted)
    );
}

#[test]
fn setup_selects_existing_source_without_writing() {
    let (mut flow, _) = SetupFlow::start(&options(true, false), "korean");
    flow.step(yes());
    flow.step(yes());
    flow.step(yes());
    flow.step(yes());
    assert_eq!(
        flow.step(sources("[('ibus', 'hangul'), ('ibus', 'korean')]")),
        DesktopRequest::SelectSource(1)
    );
    assert_eq!(flow.step(yes()), DesktopRequest::UseCapsLockSwitch);
    assert_eq!(
        flow.step(no()),
        DesktopRequest::Finish(FlowResult::CapsSwitchNotSet)
    );
}

#[test]
fn setup_treats_unreadable_sources_as_empty() {
    let (mut flow, _) = SetupFlow::start(&options(false, false), "korean");
    flow.step(yes());
    flow.step(yes());
    flow.step(yes());
    flow.step(yes());
    assert_eq!(
        flow.step(DesktopReply::Sources(None)),
        DesktopRequest::WriteSources("[('ibus', 'korean')]".to_string())
    );
    assert_eq!(
        flow.step(no()),
        DesktopRequest::Finish(FlowResult::SourcesNotUpdated)
    );
}

#[test]
fn setup_reports_engine_mentioned_but_not_a_source() {
    let (mut flow, _) = SetupFlow::start(&options(false, false), "korean");
    flow.step(yes());
    flow.step(yes());
    flow.step(yes());
    flow.step(yes());
    assert_eq!(
        flow.step(sources("[('xkb', 'korean')]")),
        DesktopRequest::Finish(FlowResult::SourceNotFound)
    );
}

#[test]
fn setup_without_gsettings_warns_and_restarts() {
    let (mut flow, _) = SetupFlow::start(&options(false, true), "korean");
    flow.step(yes());
    flow.step(yes());
    flow.step(yes());
    assert_eq!(
        flow.step(no()),
        DesktopRequest::Notice(
            "gsettings not found. Add Korean manually in GNOME Settings.".to_string()
        )
    );
    assert_eq!(flow.step(yes()), DesktopRequest::RestartIbus);
    assert_eq!(
        flow.step(no()),
        DesktopRequest::Finish(FlowResult::IbusNotRestarted)
    );
}

#[test]
fn setup_stops_without_ibus_or_engine() {
    let (mut flow, _) = SetupFlow::start(&options(false, false), "korean");
    assert_eq!(flow.step(no()), DesktopRequest::Finish(FlowResult::IbusMissing));

    let (mut flow, _) = SetupFlow::start(&options(false, false), "korean");
    flow.step(yes());
    flow.step(yes());
    assert_eq!(
        flow.step(no()),
        DesktopRequest::Finish(FlowResult::EngineNotRegistered)
    );
}

#[test]
fn setup_reports_failed_selection() {
    let (mut flow, _) = SetupFlow::start(&options(false, false), "korean");
    flow.step(yes());
    flow.step(yes());
    flow.step(yes());
    flow.step(yes());
    flow.step(sources("[('ibus', 'korean')]"));
    assert_eq!(
        flow.step(no()),
        DesktopRequest::Finish(FlowResult::SourceNotSelected)
    );
}

#[test]
fn stop_removes_engine_selects_first_and_restores_keys() {
    let (mut flow, first) = StopFlow::start("korean");
    assert_eq!(first, DesktopRequest::HasGsettings);
    assert_eq!(flow.step(yes()), DesktopRequest::ReadSources);
    assert_eq!(
        flow.step(sources("[('xkb', 'us'), ('ibus', 'korean')]")),
        DesktopRequest::WriteSources("[('xkb', 'us')]".to_string())
    );
    assert_eq!(flow.step(yes()), DesktopRequest::SelectSource(0));
    assert_eq!(flow.step(no()), DesktopRequest::RestoreSwitchKeys);
    assert_eq!(flow.step(yes()), DesktopRequest::Finish(FlowResult::Stopped));
}

#[test]
fn stop_skips_writing_and_selecting_when_nothing_is_left() {
    let (mut flow, _) = StopFlow::start("korean");
    flow.step(yes());
    assert_eq!(flow.step(sources("[]")), DesktopRequest::RestoreSwitchKeys);
    assert_eq!(
        flow.step(no()),
        DesktopRequest::Finish(FlowResult::SwitchKeysNotRestored)
    );
}

#[test]
fn stop_needs_gsettings_and_a_successful_write() {
    let (mut flow, _) = StopFlow::start("korean");
    assert_eq!(
        flow.step(no()),
        DesktopRequest::Finish(FlowResult::GsettingsMissing)
    );

    let (mut flow, _) = StopFlow::start("korean");
    flow.step(yes());
    flow.step(sources("[('ibus', 'korean')]"));
    assert_eq!(
        flow.step(no()),
        DesktopRequest::Finish(FlowResult::SourceNotRemoved)
    );
}

#[test]
fn setup_success_report_follows_options() {
    let report = flow_report(FlowResult::SetupCompleted, "korean", &options(true, false));
    assert_eq!(
        report.stdout,
        vec![
            "Korean setup completed.",
            "IBus restarted.",
            "Caps Lock is configured as the GNOME input source switch key.",
            "Select 'korean' in the GNOME input source menu if it is not active yet.",
        ]
    );
    assert!(report.stderr.is_empty());
    assert_eq!(report.exit_code, 0);

    let report = flow_report(FlowResult::SetupCompleted, "korean", &options(false, false));
    assert_eq!(
        report.stdout[2],
        "Caps Lock is handled by the Korean input method."
    );

    let quiet = flow_report(FlowResult::SetupCompleted, "korean", &options(false, true));
    assert!(quiet.stdout.is_empty() && quiet.stderr.is_empty());
    assert_eq!(quiet.exit_code, 0);
}

#[test]
fn failure_reports_name_the_engine() {
    let report = flow_report(FlowResult::EngineNotRegistered, "hanja", &SetupOptions::default());
    assert!(report.stdout.is_empty());
    assert_eq!(
        report.stderr,
        vec![
            "hanja engine is not visible to IBus yet.",
            "Try: ibus restart",
            "If it still fails, verify the IBus component XML exists.",
        ]
    );
    assert_eq!(report.exit_code, 1);

    let report = flow_report(FlowResult::SourceNotFound, "korean", &SetupOptions::default());
    assert_eq!(
        report.stderr,
        vec![
            "korean was not found in GNOME input sources after setup.",
            "Add ('ibus', 'korean') from Settings > Keyboard > Input Sources.",
        ]
    );

    let report = flow_report(FlowResult::SourceNotRemoved, "korean", &SetupOptions::default());
    assert_eq!(
        report.stderr,
        vec!["Could not remove korean from GNOME input sources automatically."]
    );

    let report = flow_report(FlowResult::Stopped, "korean", &SetupOptions::default());
    assert_eq!(report.stdout, vec!["Korean stopped."]);
    assert_eq!(report.exit_code, 0);
}

#[test]
fn doctor_skips_visibility_when_engine_is_not_registered() {
    let (mut flow, first) = DoctorFlow::start();
    assert_eq!(first, DesktopRequest::HasIbus);
    assert_eq!(flow.step(yes()), Some(DesktopRequest::HasGsettings));
    assert_eq!(flow.step(no()), Some(DesktopRequest::IbusAddressSet));
    assert_eq!(flow.step(yes()), Some(DesktopRequest::EngineRegistered));
    assert_eq!(flow.step(no()), Some(DesktopRequest::HasDevInput));
    assert_eq!(flow.step(no()), None);
    assert_eq!(flow.step(yes()), None);

    let report = doctor_report(flow.facts(), "korean");
    assert_eq!(
        report.stdout,
        vec![
            "ibus: ok",
            "gsettings: missing",
            "IBUS_ADDRESS: set",
            "korean engine: not registered",
            "  Expected an IBus component XML for korean",
            "  Try: sudo apt install --reinstall korean && ibus restart",
            "caps daemon: /dev/input is not available in this environment",
        ]
    );
    assert_eq!(report.exit_code, 1);
}

#[test]
fn doctor_reports_healthy_desktop() {
    let (mut flow, _) = DoctorFlow::start();
    flow.step(yes());
    flow.step(yes());
    flow.step(no());
    assert_eq!(flow.step(yes()), Some(DesktopRequest::EngineVisible));
    flow.step(no());
    flow.step(yes());
    let facts = flow.facts();
    assert_eq!(
        facts,
        DoctorFacts {
            has_ibus: true,
            has_gsettings: true,
            ibus_address_set: false,
            engine_registered: true,
            engine_visible: false,
            has_dev_input: true,
        }
    );
    let report = doctor_report(facts, "korean");
    assert_eq!(
        report.stdout,
        vec![
            "ibus: ok",
            "gsettings: ok",
            "IBUS_ADDRESS: not set",
            "  In GNOME, this is usually provided to graphical apps by the session.",
            "  If the engine cannot connect, try: ibus restart",
            "korean engine: ok",
            "  Installed component is present, but the current shell cannot query the running IBus engine list.",
            "  If GNOME does not show Korean, run: ibus restart",
            "caps daemon: /dev/input exists",
            "  If tap/hold fails, ensure your user can read the relevant /dev/input/event* device.",
        ]
    );
    assert_eq!(report.exit_code, 0);
}

#[test]
fn status_lists_what_was_found() {
    assert_eq!(
        status_report(true, false, true, Some("[('ibus', 'korean')]")),
        vec![
            "Korean status",
            "  ibus: found",
            "  engine: not registered",
            "  running ibus visibility: visible",
            "  gnome sources: [('ibus', 'korean')]",
        ]
    );
    assert_eq!(
        status_report(false, true, false, None),
        vec![
            "Korean status",
            "  ibus: missing",
            "  engine: registered",
            "  running ibus visibility: not visible",
        ]
    );
}

#[test]
fn engine_name_defaults_to_korean() {
    assert_eq!(engine_name(None), "korean");
    assert_eq!(engine_name(Some("korean-dev")), "korean-dev");
}

#[test]
fn event_devices_are_the_event_entries() {
    assert!(is_event_device("event0"));
    assert!(is_event_device("event"));
    assert!(!is_event_device("mouse0"));
    assert!(!is_event_device("even"));
    assert!(!is_event_device("by-id"));
}

#[test]
fn start_makes_caps_lock_the_switch_key() {
    let options = parse_start_options(vec![]).unwrap();
    assert!(options.caps_switch && !options.quiet);
    let quiet = parse_start_options(vec!["--quiet".to_string()]).unwrap();
    assert!(quiet.caps_switch && quiet.quiet);
    assert_eq!(
        parse_start_options(vec!["--fast".to_string()]).err().unwrap(),
        "Unknown setup option: --fast"
    );

    let (mut flow, first) = SetupFlow::start(&options, "korean");
    assert_eq!(first, DesktopRequest::HasIbus);
    assert_eq!(flow.step(yes()), DesktopRequest::StartIbus);
    assert_eq!(flow.step(yes()), DesktopRequest::EngineRegistered);
    assert_eq!(flow.step(yes()), DesktopRequest::HasGsettings);
    assert_eq!(flow.step(yes()), DesktopRequest::ReadSources);
    assert_eq!(
        flow.step(sources("[('ibus', 'korean')]")),
        DesktopRequest::SelectSource(0)
    );
    assert_eq!(flow.step(yes()), DesktopRequest::UseCapsLockSwitch);
    assert_eq!(flow.step(yes()), DesktopRequest::RestartIbus);
    assert_eq!(
        flow.step(yes()),
        DesktopRequest::Finish(FlowResult::SetupCompleted)
    );
    let report = flow_report(FlowResult::SetupCompleted, "korean", &options);
    assert_eq!(report.exit_code, 0);
    assert_eq!(
        report.stdout[2],
        "Caps Lock is configured as the GNOME input source switch key."
    );
}
