use dongle_ctl::command::Commands;
use dongle_ctl::device::{DeviceInfo, USBDevice};
use dongle_ctl::error::DongleError;
use dongle_ctl::hardware::{HeaderPin, PcbRevision, PinMode, PinState, Readings, SlgPin};
use dongle_ctl::message::Message;
use dongle_ctl::reply::Reply;
use dongle_ctl::script::{script_actions, Action};
use dongle_ctl::session::Session;

fn dongle(product_string: &str) -> USBDevice {
    USBDevice {
        device_info: DeviceInfo {
            handle: 0,
            bus_id: "1".to_string(),
            port_chain: vec![1, 5],
            vendor_id: 0x0424,
            product_id: 0x2530,
            product_string: None,
            serial_number: None,
        },
        serial: "DL100".to_string(),
        product_string: product_string.to_string(),
    }
}

fn rev_c() -> Readings {
    Readings {
        power: true,
        fault: false,
        revision: PcbRevision::RevC,
        connected: true,
        slg0: PinState::High,
        slg1: PinState::High,
        mode0: PinMode::Output,
        mode1: PinMode::Input,
        state0: PinState::High,
        state1: PinState::Low,
    }
}

fn rev_b() -> Readings {
    Readings { revision: PcbRevision::RevAorB, ..rev_c() }
}

fn answer(action: &Action, w: &Readings) -> Reply {
    match action {
        Action::ReadPower => Reply::Flag(w.power),
        Action::ReadFault => Reply::Flag(w.fault),
        Action::ReadRevision => Reply::Revision(w.revision),
        Action::ReadSwitch => Reply::Flag(w.connected),
        Action::ReadSlg(SlgPin::SlgIo0) => Reply::Pin(w.slg0),
        Action::ReadSlg(SlgPin::SlgIo1) => Reply::Pin(w.slg1),
        Action::ReadHeaderMode(HeaderPin::P0) => Reply::Mode(w.mode0),
        Action::ReadHeaderMode(HeaderPin::P1) => Reply::Mode(w.mode1),
        Action::ReadHeader(HeaderPin::P0) => Reply::Pin(w.state0),
        Action::ReadHeader(HeaderPin::P1) => Reply::Pin(w.state1),
        _ => Reply::Done,
    }
}

/// Runs a command; gives the actions as text and the printed lines.
fn play(command: Commands, product: &str, w: &Readings) -> (Vec<String>, Vec<String>) {
    let mut session = Session::new(command, &dongle(product));
    let mut actions = Vec::new();
    let mut lines = Vec::new();
    loop {
        let action = session.pending();
        actions.push(format!("{:?}", action));
        match &action {
            Action::Finish(_) => return (actions, lines),
            Action::Print(message) => lines.push(message.text(session.serial())),
            _ => {}
        }
        let reply = answer(&action, w);
        session.record(reply);
    }
}

fn effects(command: Commands, product: &str, w: &Readings) -> Vec<String> {
    let (actions, _) = play(command, product, w);
    actions
        .into_iter()
        .filter(|a| a.starts_with("Set") || a.starts_with("Conf") || a.starts_with("Finish"))
        .collect()
}

#[test]
fn power_on_only_if_off() {
    let (actions, lines) = play(Commands::On, "", &rev_b());
    assert_eq!(
        actions,
        vec![
            "ReadPower",
            "ReadFault",
            "ReadRevision",
            "Print(PowerAlreadyOn)",
            "Finish(Ok(()))",
        ]
    );
    assert_eq!(lines, vec!["Power is already ON"]);
    let off = Readings { power: false, ..rev_b() };
    assert_eq!(effects(Commands::On, "", &off), vec!["SetPower(true)", "Finish(Ok(()))"]);
    assert_eq!(play(Commands::On, "", &off).1, vec!["Turning ON..."]);
}

#[test]
fn power_off_only_if_on() {
    assert_eq!(
        effects(Commands::Off, "", &rev_c()),
        vec!["SetPower(false)", "Finish(Ok(()))"]
    );
    assert_eq!(play(Commands::Off, "", &rev_c()).1, vec!["Turning OFF..."]);
    let off = Readings { power: false, ..rev_c() };
    assert_eq!(effects(Commands::Off, "", &off), vec!["Finish(Ok(()))"]);
    assert_eq!(play(Commands::Off, "", &off).1, vec!["Power is already OFF"]);
}

#[test]
fn faults_come_first() {
    let w = Readings { fault: true, ..rev_c() };
    let (actions, lines) = play(Commands::Off, "", &w);
    assert_eq!(
        actions,
        vec![
            "ReadPower",
            "ReadFault",
            "Print(PowerFault)",
            "ReadRevision",
            "Print(TurningOff)",
            "SetPower(false)",
            "Finish(Ok(()))",
        ]
    );
    assert_eq!(lines[0], "Power FAULT detected, probably short on VBUS?");
}

#[test]
fn status_of_an_old_board() {
    let (actions, lines) = play(Commands::Status, "", &rev_b());
    assert_eq!(actions.len(), 7);
    assert_eq!(lines, vec!["Dongle serial: DL100", "Power is ON", "PCB revision: RevAorB"]);
    let (_, lines) = play(Commands::Status, "USB relay", &rev_b());
    assert_eq!(lines[3], "SSR (opto-relay) variant");
}

#[test]
fn status_of_a_new_board() {
    let w = Readings { power: false, ..rev_c() };
    let (actions, lines) = play(Commands::Status, "plain", &w);
    assert_eq!(
        lines,
        vec![
            "Dongle serial: DL100",
            "Power is OFF",
            "PCB revision: RevC",
            "USB switch connected: true",
            "Is forcing SDP mode: true",
            "Is forcing CC lines down: false",
            "Header pin 0 mode: Output, state: High",
            "Header pin 1 mode: Input, state: Low",
        ]
    );
    assert_eq!(
        actions[6..],
        [
            "ReadSwitch",
            "Print(SwitchConnected(true))",
            "ReadSlg(SlgIo0)",
            "Print(ForcingSdp(true))",
            "ReadSlg(SlgIo1)",
            "Print(ForcingCcDown(false))",
            "ReadHeaderMode(P0)",
            "ReadHeader(P0)",
            "Print(HeaderPinStatus(P0, Output, High))",
            "ReadHeaderMode(P1)",
            "ReadHeader(P1)",
            "Print(HeaderPinStatus(P1, Input, Low))",
            "Finish(Ok(()))",
        ]
    );
}

#[test]
fn status_of_a_relay() {
    let (_, lines) = play(Commands::Status, "my relay 2", &rev_c());
    assert_eq!(lines[3], "SSR (opto-relay) variant");
    assert_eq!(lines[7], "Relay state: Short (p0 high)");
    assert_eq!(lines[8], "Header pin 1 mode: Input, state: Low");
    let low = Readings { state0: PinState::Low, ..rev_c() };
    assert_eq!(play(Commands::Status, "relay", &low).1[7], "Relay state: Open (p0 low)");
    let input = Readings { mode0: PinMode::Input, ..rev_c() };
    let (actions, lines) = play(Commands::Status, "relay", &input);
    assert_eq!(lines[7], "Relay pin p0 is configured as Input, relay won't work");
    assert!(!actions.contains(&"ReadHeader(P0)".to_string()));
}

#[test]
fn relay_is_spelled_in_lower_case() {
    let (_, lines) = play(Commands::Status, "Relay", &rev_b());
    assert_eq!(lines.len(), 3);
}

#[test]
fn list_and_udev_do_nothing_to_a_dongle() {
    assert_eq!(effects(Commands::List, "", &rev_c()), vec!["Finish(Ok(()))"]);
    assert_eq!(effects(Commands::Udev, "", &rev_b()), vec!["Finish(Ok(()))"]);
}

#[test]
fn sdp_is_forced_and_released() {
    assert_eq!(
        effects(Commands::ForceSdp, "", &rev_c()),
        vec!["SetSlgMode(SlgIo0, Output)", "SetSlg(SlgIo0, High)", "Finish(Ok(()))"]
    );
    assert_eq!(
        effects(Commands::ReleaseSdp, "", &rev_c()),
        vec!["SetSlgMode(SlgIo0, Output)", "SetSlg(SlgIo0, Low)", "Finish(Ok(()))"]
    );
}

#[test]
fn sdp_counts_ten_seconds() {
    let (actions, lines) = play(Commands::Sdp, "", &rev_c());
    assert_eq!(lines, vec!["10", "9", "8", "7", "6", "5", "4", "3", "2", "1"]);
    assert_eq!(actions.iter().filter(|a| *a == "Sleep(1)").count(), 10);
    assert_eq!(
        effects(Commands::Sdp, "", &rev_c()),
        vec![
            "SetSlgMode(SlgIo0, Output)",
            "SetSlg(SlgIo0, High)",
            "SetSlg(SlgIo0, Low)",
            "Finish(Ok(()))",
        ]
    );
    assert_eq!(actions[3], "SetSlgMode(SlgIo0, Output)");
    assert_eq!(actions[5], "Print(Countdown(10))");
    assert_eq!(actions[6], "Sleep(1)");
    assert_eq!(actions[25], "SetSlg(SlgIo0, Low)");
}

#[test]
fn data_lines_are_attached_and_detached() {
    assert_eq!(
        effects(Commands::Attach, "", &rev_c()),
        vec!["ConfigureSwitch", "SetSwitch(true)", "Finish(Ok(()))"]
    );
    assert_eq!(
        effects(Commands::Detach, "", &rev_c()),
        vec!["ConfigureSwitch", "SetSwitch(false)", "Finish(Ok(()))"]
    );
}

#[test]
fn full_attach_mirrors_full_detach() {
    assert_eq!(
        effects(Commands::FullAttach, "", &rev_c()),
        vec![
            "ConfigureSwitch",
            "SetSlgMode(SlgIo1, Output)",
            "SetPower(true)",
            "SetSwitch(true)",
            "SetSlg(SlgIo1, High)",
            "Finish(Ok(()))",
        ]
    );
    assert_eq!(
        effects(Commands::FullDetach, "", &rev_c()),
        vec![
            "ConfigureSwitch",
            "SetSlgMode(SlgIo1, Output)",
            "SetPower(false)",
            "SetSwitch(false)",
            "SetSlg(SlgIo1, Low)",
            "Finish(Ok(()))",
        ]
    );
}

#[test]
fn header_pins() {
    let config = Commands::GpioConfig { pin: HeaderPin::P0, mode: PinMode::Input };
    assert_eq!(
        effects(config, "", &rev_c()),
        vec!["SetHeaderMode(P0, Input)", "Finish(Ok(()))"]
    );
    assert!(play(config, "", &rev_c()).1.is_empty());
    assert_eq!(
        play(config, "relay", &rev_c()).1,
        vec!["Configuring relay control pin as input, relay won't work"]
    );
    let config = Commands::GpioConfig { pin: HeaderPin::P1, mode: PinMode::Input };
    assert!(play(config, "relay", &rev_c()).1.is_empty());
    let config = Commands::GpioConfig { pin: HeaderPin::P0, mode: PinMode::Output };
    assert!(play(config, "relay", &rev_c()).1.is_empty());
    let set = Commands::GpioSet { pin: HeaderPin::P1, state: PinState::High };
    assert_eq!(
        effects(set, "", &rev_c()),
        vec!["SetHeader(P1, High)", "Finish(Ok(()))"]
    );
    let get = Commands::GpioGet { pin: HeaderPin::P0 };
    assert_eq!(play(get, "", &rev_c()).1, vec!["P0 = High"]);
    let get = Commands::GpioGet { pin: HeaderPin::P1 };
    assert_eq!(play(get, "", &rev_c()).1, vec!["P1 = Low"]);
}

#[test]
fn a_level_that_was_set_is_shown() {
    let set = Readings { state1: PinState::High, ..rev_c() };
    let get = Commands::GpioGet { pin: HeaderPin::P1 };
    assert_eq!(play(get, "", &set).1, vec!["P1 = High"]);
}

#[test]
fn old_boards_refuse() {
    let pin = HeaderPin::P0;
    let cases = [
        (
            vec![Commands::Sdp, Commands::ForceSdp, Commands::ReleaseSdp],
            "ForceSDP is not supported on PCB RevA or B",
            "Finish(Err(ForceSDPNotSupported))",
        ),
        (
            vec![Commands::Attach, Commands::Detach],
            "Attach / Detach is not supported on PCB RevA or B",
            "Finish(Err(AttachDetachNotSupported))",
        ),
        (
            vec![Commands::FullAttach, Commands::FullDetach],
            "Full Attach / Detach is not supported on PCB RevA or B",
            "Finish(Err(AttachDetachNotSupported))",
        ),
        (
            vec![
                Commands::GpioConfig { pin, mode: PinMode::Output },
                Commands::GpioSet { pin, state: PinState::Low },
                Commands::GpioGet { pin },
            ],
            "GPIO is not supported on PCB RevA or B",
            "Finish(Err(GPIONotSupported))",
        ),
    ];
    for (commands, line, finish) in cases {
        for command in commands {
            assert_eq!(play(command, "relay", &rev_b()).1, vec![line]);
            assert_eq!(effects(command, "relay", &rev_b()), vec![finish]);
        }
    }
}

#[test]
fn a_run_follows_the_script() {
    for fault in [false, true] {
        for power in [false, true] {
            for mode0 in [PinMode::Input, PinMode::Output] {
                for product in ["", "relay"] {
                    let w = Readings { fault, power, mode0, ..rev_c() };
                    let script = script_actions(Commands::Status, product == "relay", &w);
                    let script: Vec<String> =
                        script.iter().map(|a| format!("{:?}", a)).collect();
                    assert_eq!(play(Commands::Status, product, &w).0, script);
                }
            }
        }
    }
}

#[test]
fn results_carry_the_error() {
    let mut script = script_actions(Commands::Attach, false, &rev_b());
    assert!(matches!(
        script.pop(),
        Some(Action::Finish(Err(DongleError::AttachDetachNotSupported)))
    ));
}

#[test]
fn faults_and_warnings_are_painted_where_colours_are_on() {
    colored::control::set_override(true);
    assert_eq!(
        Message::GpioUnsupported.shown(""),
        "\u{1b}[31mGPIO is not supported on PCB RevA or B\u{1b}[0m"
    );
    assert_eq!(
        Message::RelayPinIsInput.shown(""),
        "\u{1b}[33mRelay pin p0 is configured as Input, relay won't work\u{1b}[0m"
    );
    assert_eq!(
        Message::PowerFault.shown(""),
        "\u{1b}[31mPower FAULT detected, probably short on VBUS?\u{1b}[0m"
    );
    assert_eq!(Message::TurningOn.shown(""), "Turning ON...");
    assert_eq!(Message::DongleSerial.shown("S"), "Dongle serial: S");

    colored::control::set_override(false);
    assert_eq!(
        Message::GpioUnsupported.shown(""),
        "GPIO is not supported on PCB RevA or B"
    );
    assert_eq!(
        Message::RelayPinToInput.shown(""),
        "Configuring relay control pin as input, relay won't work"
    );
}
