use bgm_deck::{Switchboard, FULL_VOLUME, SLOT_COUNT};

fn board(devices: usize) -> Switchboard {
    let names: Vec<String> = (0..devices).map(|i| format!("Device {i}")).collect();
    Switchboard::new(names, 0)
}

fn unstopped(sb: &Switchboard) -> usize {
    sb.voices.iter().filter(|v| !v.stopped).count()
}

/// Runs the scheduler until the in-flight crossfade completes,
/// returning how many steps actually executed.
fn run_fade(sb: &mut Switchboard) -> u32 {
    let mut steps = 0u32;
    while let Some(report) = sb.fade_step() {
        steps += 1;
        if report.finished {
            break;
        }
    }
    steps
}

#[test]
fn step_count_rounds_to_nearest_quantum() {
    assert_eq!(bgm_deck::step_count(0), 1);
    assert_eq!(bgm_deck::step_count(9), 1);
    assert_eq!(bgm_deck::step_count(10), 1);
    assert_eq!(bgm_deck::step_count(30), 2);
    assert_eq!(bgm_deck::step_count(50), 3);
    assert_eq!(bgm_deck::step_count(1000), 50);
    assert_eq!(bgm_deck::step_count(2000), 100);
}

#[test]
fn ramp_endpoints_are_exact() {
    assert_eq!(bgm_deck::ramp_in(800, 0, 100), 0);
    assert_eq!(bgm_deck::ramp_in(800, 100, 100), 800);
    assert_eq!(bgm_deck::ramp_in(800, 50, 100), 400);
    assert_eq!(bgm_deck::ramp_out(400, 25, 50), 200);
    assert_eq!(bgm_deck::ramp_out(400, 50, 50), 0);
    assert_eq!(bgm_deck::ramp_out(1000, 0, 7), 1000);
}

#[test]
fn trigger_on_silence_ramps_up_over_hundred_steps() {
    // volume 0.8, master 1.0, duration 2 s: no outgoing voice, the
    // incoming voice ramps from silence to 800 over 100 steps
    let mut sb = board(1);
    let voice = sb.trigger(0, 800, 2000);
    assert_eq!(voice, 0);
    let fade = sb.fade.expect("a crossfade must be in flight");
    assert_eq!(fade.outgoing, None);
    assert_eq!(fade.steps, 100);
    assert_eq!(sb.voices[0].volume, 0);

    for step in 1..=50u32 {
        sb.fade_step();
        assert_eq!(sb.voices[0].volume, 800 * step / 100);
    }
    assert_eq!(sb.voices[0].volume, 400);

    let mut steps = 50u32;
    steps += run_fade(&mut sb);
    assert_eq!(steps, 100);
    assert_eq!(sb.voices[0].volume, 800);
    assert!(!sb.voices[0].stopped);
    assert_eq!(sb.active_slot(), Some(0));
    assert!(sb.fade.is_none());
    assert!(sb.fade_step().is_none());
}

#[test]
fn retrigger_mid_fade_continues_from_partial_volume() {
    // slot 0 ramping toward 800; at half way (volume 400) slot 1 is
    // triggered at volume 1.0 over 1 s: the new fade-out starts at
    // 400, not 800, and runs 50 steps
    let mut sb = board(1);
    sb.trigger(0, 800, 2000);
    for _ in 0..50 {
        sb.fade_step();
    }
    assert_eq!(sb.voices[0].volume, 400);

    let voice = sb.trigger(1, FULL_VOLUME, 1000);
    assert_eq!(voice, 1);
    let fade = sb.fade.expect("a crossfade must be in flight");
    assert_eq!(fade.outgoing, Some(0));
    assert_eq!(fade.out_start, 400);
    assert_eq!(fade.steps, 50);

    let first = sb.fade_step().expect("fade in flight");
    assert_eq!(first.out_volume, 400 * 49 / 50);
    assert_eq!(first.in_volume, 1000 / 50);

    let steps = 1 + run_fade(&mut sb);
    assert_eq!(steps, 50);
    assert!(sb.voices[0].stopped, "superseded voice released at completion");
    assert_eq!(sb.voices[1].volume, 1000);
    assert!(!sb.voices[1].stopped);
    assert_eq!(sb.active_slot(), Some(1));
}

#[test]
fn at_most_two_voices_unstopped_under_rapid_triggers() {
    let mut sb = board(1);
    for round in 0..20usize {
        sb.trigger(round % SLOT_COUNT, 900, 500);
        assert!(unstopped(&sb) <= 2, "round {round}");
        sb.fade_step();
        assert!(unstopped(&sb) <= 2, "round {round} after a step");
    }
    run_fade(&mut sb);
    assert_eq!(unstopped(&sb), 1);
}

#[test]
fn stop_then_trigger_leaves_exactly_one_voice() {
    let mut sb = board(1);
    sb.trigger(0, 800, 2000);
    for _ in 0..30 {
        sb.fade_step();
    }
    sb.stop_current();
    assert_eq!(sb.active_slot(), None);
    assert!(sb.fade.is_none());
    assert!(sb.voices.iter().all(|v| v.stopped));

    sb.trigger(3, 700, 100);
    assert!(sb.voices[0].stopped, "previously active voice stays stopped");
    assert_eq!(unstopped(&sb), 1);
    assert_eq!(sb.active_slot(), Some(3));
}

#[test]
fn stop_mid_fade_stops_both_voices() {
    let mut sb = board(1);
    sb.trigger(0, 800, 1000);
    for _ in 0..10 {
        sb.fade_step();
    }
    sb.trigger(1, 600, 1000);
    // two voices are live: 0 fading out, 1 fading in
    assert_eq!(unstopped(&sb), 2);
    sb.stop_current();
    assert_eq!(unstopped(&sb), 0);
    assert!(sb.fade.is_none());
    assert_eq!(sb.active_slot(), None);
}

#[test]
fn stopping_is_idempotent() {
    let mut sb = board(1);
    sb.stop_current();
    assert_eq!(sb.active_slot(), None);
    sb.trigger(2, 800, 200);
    sb.stop_current();
    sb.stop_current();
    assert_eq!(unstopped(&sb), 0);
    assert_eq!(sb.active_slot(), None);
    assert!(sb.fade_step().is_none());
}

#[test]
fn switch_device_stops_playback_and_replaces_device() {
    let mut sb = board(3);
    sb.trigger(0, 800, 2000);
    assert!(sb.switch_device(2, true));
    assert_eq!(sb.device, 2);
    assert_eq!(sb.active_slot(), None);
    assert!(sb.fade.is_none());
    assert!(sb.voices.iter().all(|v| v.stopped));
}

#[test]
fn failed_device_switch_changes_nothing() {
    let mut sb = board(3);
    sb.trigger(0, 800, 2000);
    sb.fade_step();

    // the requested device exists but its stream did not open
    assert!(!sb.switch_device(1, false));
    assert_eq!(sb.device, 0);
    assert_eq!(sb.active_slot(), Some(0));
    assert!(sb.fade.is_some());

    // the requested device does not exist
    assert!(!sb.switch_device(7, true));
    assert_eq!(sb.device, 0);
    assert_eq!(sb.active_slot(), Some(0));
}

#[test]
fn live_volume_edit_applies_immediately_without_ramp() {
    // slot 0 active at 800; editing its volume to 0.3 with master 1.0
    // takes effect at once: 300, no fade
    let mut sb = board(1);
    sb.trigger(0, 800, 0);
    run_fade(&mut sb);
    assert_eq!(sb.voices[0].volume, 800);

    assert!(sb.set_live_volume(0, 300, FULL_VOLUME));
    assert_eq!(sb.voices[0].volume, 300);

    // master volume scales the edit
    assert!(sb.set_live_volume(0, 300, 500));
    assert_eq!(sb.voices[0].volume, 150);

    // an edit of an inactive slot leaves the voice alone
    assert!(!sb.set_live_volume(4, 900, FULL_VOLUME));
    assert_eq!(sb.voices[0].volume, 150);
}

#[test]
fn zero_duration_collapses_to_a_single_immediate_step() {
    let mut sb = board(1);
    sb.trigger(0, 800, 2000);
    for _ in 0..10 {
        sb.fade_step();
    }
    sb.trigger(1, 500, 0);
    let report = sb.fade_step().expect("one step runs");
    assert!(report.finished);
    assert_eq!(report.in_volume, 500);
    assert_eq!(report.out_volume, 0);
    assert!(sb.voices[0].stopped);
    assert_eq!(sb.voices[1].volume, 500);
    assert_eq!(run_fade(&mut sb), 0);
}

#[test]
fn superseded_fades_outgoing_voice_is_released_at_once() {
    let mut sb = board(1);
    sb.trigger(0, 800, 1000);
    sb.fade_step();
    sb.trigger(1, 800, 1000);
    sb.fade_step();
    // fade 0->1 in flight; a third trigger supersedes it: voice 0,
    // which that fade was ramping to silence, is stopped at once
    sb.trigger(2, 800, 1000);
    assert!(sb.voices[0].stopped);
    assert!(!sb.voices[1].stopped);
    assert!(!sb.voices[2].stopped);
    let fade = sb.fade.expect("a crossfade must be in flight");
    assert_eq!(fade.outgoing, Some(1));
}

#[test]
fn is_slot_playing_tracks_the_active_voice() {
    let mut sb = board(1);
    assert!(!sb.is_slot_playing(0));
    sb.trigger(5, 800, 100);
    assert!(sb.is_slot_playing(5));
    assert!(!sb.is_slot_playing(0));
    sb.stop_current();
    assert!(!sb.is_slot_playing(5));
}

#[test]
fn effective_volume_is_exact() {
    assert_eq!(bgm_deck::effective_volume(800, 1000), 800);
    assert_eq!(bgm_deck::effective_volume(800, 500), 400);
    assert_eq!(bgm_deck::effective_volume(333, 333), 110);
    assert_eq!(bgm_deck::effective_volume(0, 1000), 0);
    assert_eq!(bgm_deck::effective_volume(1000, 1000), 1000);
}

#[test]
fn select_device_finds_first_matching_name() {
    let names = vec!["Speakers".to_string(), "Headphones".to_string(), "HDMI".to_string()];
    assert_eq!(bgm_deck::select_device(&names, &None), 0);
    assert_eq!(bgm_deck::select_device(&names, &Some("Headphones".to_string())), 1);
    assert_eq!(bgm_deck::select_device(&names, &Some("Mystery".to_string())), 0);
    assert_eq!(bgm_deck::select_device(&Vec::new(), &Some("Speakers".to_string())), 0);
}
