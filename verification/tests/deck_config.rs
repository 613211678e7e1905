use bgm_deck::{DeckConfig, SlotSpec, DEFAULT_CROSSFADE_MS, FULL_VOLUME, SLOT_COUNT};

#[test]
fn default_deck_has_ten_pristine_slots() {
    let cfg = DeckConfig::default();
    assert_eq!(cfg.slots.len(), SLOT_COUNT);
    for slot in &cfg.slots {
        assert!(slot.path.is_none());
        assert_eq!(slot.volume, FULL_VOLUME);
        assert!(slot.name.is_none());
        assert!(slot.looping);
    }
    assert_eq!(cfg.crossfade_ms, DEFAULT_CROSSFADE_MS);
    assert!(cfg.output_device_name.is_none());
    assert_eq!(cfg.master_volume, FULL_VOLUME);
}

#[test]
fn default_slot_is_pristine() {
    let slot = SlotSpec::default();
    assert!(slot.path.is_none());
    assert_eq!(slot.volume, FULL_VOLUME);
    assert!(slot.name.is_none());
    assert!(slot.looping);
}

#[test]
fn slot_edits_touch_only_their_slot() {
    let mut cfg = DeckConfig::default();
    cfg.set_slot_path(2, Some("music/loop.mp3".to_string()));
    cfg.set_slot_volume(2, 450);
    cfg.set_slot_looping(2, false);
    assert_eq!(cfg.slots[2].path.as_deref(), Some("music/loop.mp3"));
    assert_eq!(cfg.slots[2].volume, 450);
    assert!(!cfg.slots[2].looping);
    for (i, slot) in cfg.slots.iter().enumerate() {
        if i != 2 {
            assert!(slot.path.is_none());
            assert_eq!(slot.volume, FULL_VOLUME);
            assert!(slot.looping);
        }
    }
}

#[test]
fn blank_names_are_cleared() {
    let mut cfg = DeckConfig::default();
    cfg.set_slot_name(0, "Opening".to_string());
    assert_eq!(cfg.slots[0].name.as_deref(), Some("Opening"));
    cfg.set_slot_name(0, "   ".to_string());
    assert!(cfg.slots[0].name.is_none());
    cfg.set_slot_name(0, "\t\n\r ".to_string());
    assert!(cfg.slots[0].name.is_none());
    cfg.set_slot_name(0, "\u{3000}".to_string());
    assert!(cfg.slots[0].name.is_none());
    cfg.set_slot_name(0, " BGM ".to_string());
    assert_eq!(cfg.slots[0].name.as_deref(), Some(" BGM "));
}

#[test]
fn blank_predicate() {
    assert!(bgm_deck::blank(""));
    assert!(bgm_deck::blank("   "));
    assert!(bgm_deck::blank("\t\r\n"));
    // Unicode whitespace counts too: ideographic and no-break spaces
    assert!(bgm_deck::blank("\u{3000}\u{00A0}\u{2003}"));
    assert!(!bgm_deck::blank(" x "));
    assert!(!bgm_deck::blank("名前"));
}

#[test]
fn clear_slot_resets_to_default() {
    let mut cfg = DeckConfig::default();
    cfg.set_slot_path(1, Some("a.wav".to_string()));
    cfg.set_slot_volume(1, 10);
    cfg.set_slot_name(1, "one".to_string());
    cfg.set_slot_looping(1, false);
    cfg.clear_slot(1);
    assert!(cfg.slots[1].path.is_none());
    assert_eq!(cfg.slots[1].volume, FULL_VOLUME);
    assert!(cfg.slots[1].name.is_none());
    assert!(cfg.slots[1].looping);
}

#[test]
fn clear_all_keeps_global_settings() {
    let mut cfg = DeckConfig::default();
    cfg.set_crossfade_ms(750);
    cfg.set_master_volume(600);
    for i in 0..SLOT_COUNT {
        cfg.set_slot_path(i, Some(format!("{i}.mp3")));
    }
    cfg.clear_all();
    for slot in &cfg.slots {
        assert!(slot.path.is_none());
        assert_eq!(slot.volume, FULL_VOLUME);
    }
    assert_eq!(cfg.crossfade_ms, 750);
    assert_eq!(cfg.master_volume, 600);
}

#[test]
fn plan_trigger_requires_an_assigned_source() {
    let mut cfg = DeckConfig::default();
    assert!(cfg.plan_trigger(0).is_none());
    assert!(cfg.plan_trigger(SLOT_COUNT).is_none());

    cfg.set_slot_path(0, Some("intro.mp3".to_string()));
    cfg.set_slot_volume(0, 800);
    cfg.set_master_volume(500);
    cfg.set_crossfade_ms(1200);
    cfg.set_slot_looping(0, false);

    let plan = cfg.plan_trigger(0).expect("slot 0 has a source");
    assert_eq!(plan.target, 400);
    assert_eq!(plan.duration_ms, 1200);
    assert!(!plan.looping);
    assert_eq!(cfg.slot_path(0).as_deref(), Some("intro.mp3"));
}

#[test]
fn dropped_files_land_on_the_hit_slot_or_the_first_free_one() {
    let mut cfg = DeckConfig::default();
    assert_eq!(cfg.assign_drop(Some(4), "hit.mp3".to_string()), Some(4));
    assert_eq!(cfg.slots[4].path.as_deref(), Some("hit.mp3"));

    // no hit: the first slot without a source receives the file
    assert_eq!(cfg.assign_drop(None, "first.mp3".to_string()), Some(0));
    assert_eq!(cfg.slots[0].path.as_deref(), Some("first.mp3"));
    assert_eq!(cfg.assign_drop(None, "second.mp3".to_string()), Some(1));

    // every slot taken: the drop is refused and nothing changes
    for i in 0..SLOT_COUNT {
        cfg.set_slot_path(i, Some(format!("{i}.mp3")));
    }
    assert_eq!(cfg.assign_drop(None, "extra.mp3".to_string()), None);
    for (i, slot) in cfg.slots.iter().enumerate() {
        assert_eq!(slot.path.as_deref(), Some(format!("{i}.mp3").as_str()));
    }
}

#[test]
fn filename_only_strips_directories() {
    assert_eq!(bgm_deck::filename_only("music/set one/opening.mp3"), "opening.mp3");
    assert_eq!(bgm_deck::filename_only("plain.wav"), "plain.wav");
    assert_eq!(bgm_deck::filename_only("a/.hidden"), ".hidden");
    // trailing separators and a trailing `.` component are ignored
    assert_eq!(bgm_deck::filename_only("dir/"), "dir");
    assert_eq!(bgm_deck::filename_only("a/b//"), "b");
    assert_eq!(bgm_deck::filename_only("foo/."), "foo");
    // no component to show: the path itself is the display name
    assert_eq!(bgm_deck::filename_only(""), "");
    assert_eq!(bgm_deck::filename_only("/"), "/");
    assert_eq!(bgm_deck::filename_only("."), ".");
    assert_eq!(bgm_deck::filename_only(".."), "..");
    assert_eq!(bgm_deck::filename_only("a/.."), "a/..");
    // a backslash is an ordinary file-name character in these rules
    assert_eq!(bgm_deck::filename_only("C:\\music\\b.mp3"), "C:\\music\\b.mp3");
}
