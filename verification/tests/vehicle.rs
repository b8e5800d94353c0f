use frontend::vehicle::{
    action_name, battery_icon, climate_command, command_name, countdown_text, defrost_command, header_name,
    is_charging, lock_command, needs_verification, notify_endpoint, power_text, refreshed_text,
    selected_vehicle_name, Command, CommandReply, NotifyReply, PasskeyOutcome, Requirements, Stage,
    StatusReport, Step, VehicleControls, VehicleInfo, Watch,
};

fn vehicle(name: &str, selected: bool) -> VehicleInfo {
    VehicleInfo {
        vin: "VIN".to_string(),
        id: "1".to_string(),
        vehicle_id: "2".to_string(),
        name: name.to_string(),
        state: "online".to_string(),
        selected,
        paired: true,
    }
}

fn report() -> StatusReport {
    StatusReport {
        battery_level: None,
        charging_state: None,
        charge_limit: None,
        charger_power: None,
        uses_miles: None,
        locked: None,
        climate_on: None,
        front_defroster_on: None,
        rear_defroster_on: None,
    }
}

#[test]
fn selected_vehicle_is_the_first_selected() {
    let vs = vec![vehicle("A", false), vehicle("B", true), vehicle("C", true)];
    assert_eq!(selected_vehicle_name(&vs), Some("B".to_string()));
    assert_eq!(selected_vehicle_name(&vec![vehicle("A", false)]), None);
    assert_eq!(header_name(&None), "Tesla");
    assert_eq!(header_name(&Some("Roadster".to_string())), "Roadster");
}

#[test]
fn buttons_choose_their_commands() {
    assert_eq!(lock_command(Some(true)), Command::Unlock);
    assert_eq!(lock_command(Some(false)), Command::Lock);
    assert_eq!(lock_command(None), Command::Lock);
    assert_eq!(climate_command(Some(true), None, None), Command::ClimateOff);
    assert_eq!(climate_command(None, Some(false), None), Command::ClimateOn { defrost_was_off: true });
    assert_eq!(climate_command(Some(false), None, Some(true)), Command::ClimateOn { defrost_was_off: false });
    assert_eq!(defrost_command(Some(true), None), Command::DefrostOff);
    assert_eq!(defrost_command(None, Some(false)), Command::Defrost);
    assert_eq!(command_name(Command::DefrostOff), "climate_off");
    assert_eq!(command_name(Command::ClimateOn { defrost_was_off: true }), "climate_on");
    assert_eq!(command_name(Command::CabinOverheatFanOnly), "cabin_overheat_fan_only");
    assert!(needs_verification(Command::Unlock));
    assert!(needs_verification(Command::RemoteStart));
    assert!(!needs_verification(Command::Lock));
    assert_eq!(action_name(Command::Unlock), "unlock your Tesla");
    assert_eq!(action_name(Command::RemoteStart), "start your Tesla");
    assert_eq!(action_name(Command::Lock), "perform this action");
}

#[test]
fn panel_texts() {
    assert_eq!(battery_icon(10), "fa-battery-empty");
    assert_eq!(battery_icon(11), "fa-battery-quarter");
    assert_eq!(battery_icon(60), "fa-battery-half");
    assert_eq!(battery_icon(90), "fa-battery-three-quarters");
    assert_eq!(battery_icon(91), "fa-battery-full");
    assert!(is_charging(&Some("Charging".to_string())));
    assert!(!is_charging(&Some("Complete".to_string())));
    assert!(!is_charging(&None));
    assert_eq!(power_text(Some(11)), "11 kW");
    assert_eq!(power_text(None), "-- kW");
    assert_eq!(countdown_text(120), "2:00");
    assert_eq!(countdown_text(65), "1:05");
    assert_eq!(countdown_text(9), "0:09");
    assert_eq!(refreshed_text(7, 5), "Updated 07:05");
    assert_eq!(notify_endpoint(Watch::Climate, false), "/api/tesla/climate-notify/start");
    assert_eq!(notify_endpoint(Watch::Charging, true), "/api/tesla/charging-notify/cancel");
}

#[test]
fn lock_runs_at_once_and_updates_the_state() {
    let mut p = VehicleControls::new();
    assert_eq!(p.press(Command::Lock), Step::Send(Command::Lock));
    assert!(p.busy.lock);
    p.on_command_reply(Command::Lock, CommandReply::Done(Some("Locked".to_string())));
    assert!(!p.busy.lock);
    assert_eq!(p.status.is_locked, Some(true));
    assert_eq!(p.command_result, Some("Locked".to_string()));
    assert_eq!(lock_command(p.status.is_locked), Command::Unlock);
}

#[test]
fn command_failures_are_reported() {
    let mut p = VehicleControls::new();
    p.press(Command::PreconditionBattery);
    p.on_command_reply(Command::PreconditionBattery, CommandReply::Refused);
    assert_eq!(p.command_result, Some("Failed to start battery preconditioning".to_string()));
    p.press(Command::Lock);
    p.on_command_reply(Command::Lock, CommandReply::Refused);
    assert_eq!(p.command_result, Some("Failed to execute command".to_string()));
    assert_eq!(p.status.is_locked, None);
    p.on_command_reply(Command::Lock, CommandReply::Unreachable("timeout".to_string()));
    assert_eq!(p.command_result, Some("Network error: timeout".to_string()));
    p.on_command_reply(Command::Lock, CommandReply::Unsent("bad".to_string()));
    assert_eq!(p.command_result, Some("Failed: bad".to_string()));
    p.on_command_reply(Command::CabinOverheatOn, CommandReply::Unsent("bad".to_string()));
    assert_eq!(p.command_result, Some("Failed to create request: bad".to_string()));
}

#[test]
fn unlock_asks_for_a_second_factor() {
    let mut p = VehicleControls::new();
    assert_eq!(p.press(Command::Unlock), Step::CheckVerification(Command::Unlock));
    assert!(matches!(p.stage, Stage::Loading));
    let req = Requirements { requires_2fa: true, has_passkeys: true, has_totp: false };
    assert_eq!(p.on_requirements(Command::Unlock, Some(req)), None);
    assert!(matches!(p.stage, Stage::Options { has_passkeys: true, has_totp: false, pending: Command::Unlock }));
    p.choose_passkey();
    assert!(matches!(p.stage, Stage::WaitingForPasskey));
    assert_eq!(p.on_passkey(PasskeyOutcome::Verified), Some(Command::Unlock));
    assert!(matches!(p.stage, Stage::Verifying));
    assert!(p.busy.lock);
    p.on_command_reply(Command::Unlock, CommandReply::Done(None));
    assert!(matches!(p.stage, Stage::Hidden));
    assert_eq!(p.status.is_locked, Some(false));
}

#[test]
fn unlock_without_second_factor_runs_directly() {
    let mut p = VehicleControls::new();
    p.press(Command::Unlock);
    let req = Requirements { requires_2fa: false, has_passkeys: false, has_totp: false };
    assert_eq!(p.on_requirements(Command::Unlock, Some(req)), Some(Command::Unlock));
    assert!(matches!(p.stage, Stage::Hidden));
    assert!(p.busy.lock);
}

#[test]
fn verification_failures() {
    let mut p = VehicleControls::new();
    p.press(Command::RemoteStart);
    p.on_requirements(Command::RemoteStart, None);
    match &p.stage {
        Stage::Failed(m) => assert_eq!(m, "Failed to check 2FA requirements"),
        _ => panic!("expected a failure"),
    }
    p.on_passkey(PasskeyOutcome::Failed("denied".to_string()));
    match &p.stage {
        Stage::Failed(m) => assert_eq!(m, "Passkey verification failed: denied"),
        _ => panic!("expected a failure"),
    }
    p.on_passkey(PasskeyOutcome::NoOptions);
    match &p.stage {
        Stage::Failed(m) => assert_eq!(m, "No passkey options available"),
        _ => panic!("expected a failure"),
    }
    p.cancel_verification();
    assert!(matches!(p.stage, Stage::Hidden));
    assert_eq!(p.pending_command, None);
}

#[test]
fn totp_code_flow() {
    let mut p = VehicleControls::new();
    p.press(Command::RemoteStart);
    p.choose_totp();
    assert!(!p.submit_totp());
    assert!(matches!(p.stage, Stage::WaitingForTotp));
    p.set_totp_code("123456".to_string());
    assert!(p.submit_totp());
    assert!(matches!(p.stage, Stage::Verifying));
    assert_eq!(p.on_totp(false), None);
    match &p.stage {
        Stage::Failed(m) => assert_eq!(m, "Invalid verification code"),
        _ => panic!("expected a failure"),
    }
    assert_eq!(p.on_totp(true), Some(Command::RemoteStart));
    assert_eq!(p.totp_code, "");
    p.on_command_reply(Command::RemoteStart, CommandReply::Done(None));
    assert_eq!(p.countdown, Some(120));
    assert!(matches!(p.stage, Stage::Hidden));
}

#[test]
fn countdown_ticks_down_and_ends() {
    let mut p = VehicleControls::new();
    p.countdown = Some(2);
    p.tick_countdown();
    assert_eq!(p.countdown, Some(1));
    p.tick_countdown();
    assert_eq!(p.countdown, None);
    p.tick_countdown();
    assert_eq!(p.countdown, None);
}

#[test]
fn refreshes_pause_after_the_limit() {
    let mut p = VehicleControls::new();
    assert!(!p.on_refresh_tick(false));
    assert_eq!(p.refresh_count, 0);
    for _ in 0..59 {
        assert!(p.on_refresh_tick(true));
    }
    assert_eq!(p.refresh_count, 59);
    assert!(!p.on_refresh_tick(true));
    assert!(p.auto_refresh_paused);
    assert!(!p.on_refresh_tick(true));
    p.start_refresh();
    assert!(!p.auto_refresh_paused);
    assert_eq!(p.refresh_count, 0);
    assert!(p.refreshing);
    p.finish_refresh();
    assert!(!p.refreshing);
}

#[test]
fn visible_ticks_fetch_at_most_fifty_nine_times() {
    let mut p = VehicleControls::new();
    let mut fetches = 0;
    for _ in 0..70 {
        if p.on_refresh_tick(true) {
            fetches += 1;
        }
    }
    assert_eq!(fetches, 59);
    p.start_refresh();
    let mut again = 0;
    for _ in 0..10 {
        if p.on_refresh_tick(true) {
            again += 1;
        }
    }
    assert_eq!(again, 10);
}

#[test]
fn climate_on_then_defrost_by_itself_is_noted() {
    let mut p = VehicleControls::new();
    let c = climate_command(p.status.climate_on, p.status.front_defroster_on, p.status.rear_defroster_on);
    assert_eq!(p.press(c), Step::Send(Command::ClimateOn { defrost_was_off: true }));
    p.on_climate_step(c, "waking", "Waking up".to_string());
    assert_eq!(p.status_message, Some("Waking up".to_string()));
    p.on_climate_step(c, "done", "Climate on".to_string());
    assert_eq!(p.status_message, None);
    assert_eq!(p.command_result, Some("Climate on".to_string()));
    assert_eq!(p.status.climate_on, Some(true));
    assert!(p.climate_just_activated);
    let mut r = report();
    r.front_defroster_on = Some(true);
    p.on_report(r, true);
    assert_eq!(p.command_result, Some("Defrost auto-activated by Tesla (cold weather)".to_string()));
    assert!(!p.climate_just_activated);
    assert_eq!(p.status.rear_defroster_on, Some(false));
}

#[test]
fn climate_stream_errors() {
    let mut p = VehicleControls::new();
    p.press(Command::ClimateOff);
    p.on_climate_step(Command::ClimateOff, "error", "Vehicle asleep".to_string());
    assert_eq!(p.command_result, Some("Vehicle asleep".to_string()));
    assert!(!p.busy.climate);
    p.on_climate_stream_unavailable();
    assert_eq!(p.status_message, Some("Connecting...".to_string()));
    p.on_climate_stream_error();
    assert_eq!(p.status_message, None);
    assert_eq!(p.command_result, Some("Connection error. Please try again.".to_string()));
}

#[test]
fn full_and_manual_readings() {
    let mut p = VehicleControls::new();
    let mut r = report();
    r.battery_level = Some(42);
    r.charger_power = Some(7);
    p.on_report(r, true);
    assert_eq!(p.status.battery_level, Some(42));
    assert_eq!(p.status.climate_on, Some(false));
    assert!(p.status.uses_miles);
    assert_eq!(p.status.charger_power, Some(7));
    let mut r = report();
    r.uses_miles = Some(false);
    r.climate_on = Some(true);
    p.on_report(r, false);
    assert_eq!(p.status.battery_level, Some(42));
    assert_eq!(p.status.charger_power, Some(7));
    assert!(p.status.uses_miles);
    assert_eq!(p.status.climate_on, Some(true));
    p.on_report(report(), true);
    assert_eq!(p.status.charger_power, None);
    assert_eq!(p.status.climate_on, Some(false));
}

#[test]
fn notification_switches() {
    let mut p = VehicleControls::new();
    let was = p.press_notify(Watch::Climate);
    assert!(!was);
    assert!(p.climate_notify.busy);
    p.on_notify_reply(Watch::Climate, was, NotifyReply::Done);
    assert!(p.climate_notify.active);
    assert!(!p.climate_notify.busy);
    assert_eq!(p.command_result, Some("You'll be notified when your car is ready to drive".to_string()));
    let was = p.press_notify(Watch::Charging);
    p.on_notify_reply(Watch::Charging, was, NotifyReply::Refused);
    assert!(!p.charging_notify.active);
    assert_eq!(p.command_result, Some("Failed to update notification".to_string()));
    p.on_notify_reply(Watch::Charging, false, NotifyReply::Unreachable("offline".to_string()));
    assert_eq!(p.command_result, Some("Error: offline".to_string()));
    p.set_notify_active(Watch::Charging, true);
    let was = p.press_notify(Watch::Charging);
    p.on_notify_reply(Watch::Charging, was, NotifyReply::Done);
    assert!(!p.charging_notify.active);
    assert_eq!(p.command_result, Some("Charging notification cancelled".to_string()));
}

#[test]
fn charge_limit_editing() {
    let mut p = VehicleControls::new();
    assert_eq!(p.limit_input, 80);
    p.start_limit_edit(70);
    assert!(p.limit_editing);
    p.set_limit_input("85");
    p.set_limit_input("x");
    assert_eq!(p.limit_input, 85);
    assert_eq!(p.press_save_limit(), 85);
    assert!(p.limit_saving);
    p.on_limit_reply(85, true);
    assert_eq!(p.status.charge_limit, Some(85));
    assert!(!p.limit_editing);
    assert!(!p.limit_saving);
    assert_eq!(p.command_result, Some("Charge limit set to 85%".to_string()));
    p.start_limit_edit(85);
    p.on_limit_reply(90, false);
    assert!(p.limit_editing);
    assert_eq!(p.command_result, Some("Failed to set charge limit".to_string()));
    p.cancel_limit_edit();
    assert!(!p.limit_editing);
}
