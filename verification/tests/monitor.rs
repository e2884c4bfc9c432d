use activity_monitor::audio::{audio_forward, AudioNotification, AudioSessionState};
use activity_monitor::icon::{bgra_to_rgba, get_image_buffer, get_image_by_path, IconBitmap};
use activity_monitor::identity::{choose_description, file_stem, resolve};
use activity_monitor::version_info::{file_description_query, parse_translation};
use activity_monitor::watcher::{
    watcher_step, WatcherAction, WatcherEvent, WatcherState, EVENT_SYSTEM_FOREGROUND,
};

fn solid_bgra(width: i32, height: i32, b: u8, g: u8, r: u8, a: u8) -> IconBitmap {
    let pixels = (width * height) as usize;
    let mut bgra = Vec::with_capacity(pixels * 4);
    for _ in 0..pixels {
        bgra.extend_from_slice(&[b, g, r, a]);
    }
    IconBitmap {
        width,
        height,
        bgra,
    }
}

#[test]
fn resolve_unmappable_window_returns_none() {
    // A window whose owning process could not be read hands in no path.
    let r = resolve(None, Some(String::from("ignored")), None);
    assert!(r.is_none());
}

#[test]
fn description_prefers_version_description() {
    let r = resolve(
        Some(String::from("C:\\Apps\\Tool.exe")),
        Some(String::from("A Fine Tool")),
        None,
    )
    .unwrap();
    assert_eq!(r.path, "C:\\Apps\\Tool.exe");
    assert_eq!(r.description, "A Fine Tool");
}

#[test]
fn missing_description_falls_back_to_file_stem() {
    let r = resolve(Some(String::from("C:\\Apps\\Tool.exe")), None, None).unwrap();
    assert_eq!(r.description, "Tool");
}

#[test]
fn empty_description_falls_back_to_file_stem() {
    let r = resolve(
        Some(String::from("C:\\Apps\\Tool.exe")),
        Some(String::new()),
        None,
    )
    .unwrap();
    assert_eq!(r.description, "Tool");
}

#[test]
fn icon_round_trip_preserves_color() {
    // A solid-color square icon: blue 10, green 20, red 200, alpha 255 in
    // the OS's BGRA order. The decoded PNG must show red 200 first — a
    // blue/red swap would surface here.
    let bitmap = solid_bgra(4, 4, 10, 20, 200, 255);
    let png = get_image_buffer(&bitmap).expect("encoding a well-formed bitmap");
    let decoded = image::load_from_memory(&png).expect("decoding the produced PNG");
    let rgba = decoded.to_rgba8();
    assert_eq!(rgba.width(), 4);
    assert_eq!(rgba.height(), 4);
    for pixel in rgba.pixels() {
        assert_eq!(pixel.0, [200, 20, 10, 255]);
    }
}

#[test]
fn encoded_icon_opens_with_png_signature() {
    let bitmap = solid_bgra(2, 2, 0, 0, 0, 255);
    let png = get_image_buffer(&bitmap).expect("encoding a well-formed bitmap");
    assert!(png.len() >= 8);
    assert_eq!(&png[..8], &[137u8, 80, 78, 71, 13, 10, 26, 10]);
}

#[test]
fn valid_icon_yields_nonempty_icon_bytes() {
    // Icon bytes are empty exactly when no icon was extracted: with a
    // well-formed bitmap present, resolution succeeds and carries a
    // non-empty PNG.
    let bitmap = solid_bgra(2, 2, 1, 2, 3, 4);
    let r = resolve(
        Some(String::from("C:\\Apps\\Tool.exe")),
        None,
        Some(bitmap),
    )
    .expect("a well-formed bitmap always resolves");
    assert_eq!(r.path, "C:\\Apps\\Tool.exe");
    assert_eq!(r.description, "Tool");
    assert!(!r.icon.is_empty());
}

#[test]
fn icon_extraction_failure_gives_empty_icon() {
    // No icon handle could be obtained: resolution still succeeds and the
    // identity carries an empty icon.
    let r = resolve(
        Some(String::from("C:\\Apps\\Tool.exe")),
        Some(String::from("A Fine Tool")),
        None,
    )
    .unwrap();
    assert_eq!(r.path, "C:\\Apps\\Tool.exe");
    assert_eq!(r.description, "A Fine Tool");
    assert!(r.icon.is_empty());
}

#[test]
fn malformed_bitmap_aborts_resolution() {
    // Buffer length does not match the dimensions: the event is dropped.
    let bitmap = IconBitmap {
        width: 4,
        height: 4,
        bgra: vec![0u8; 7],
    };
    let r = resolve(
        Some(String::from("C:\\Apps\\Tool.exe")),
        None,
        Some(bitmap),
    );
    assert!(r.is_none());
}

#[test]
fn impossible_dimensions_abort_resolution() {
    let bitmap = IconBitmap {
        width: -4,
        height: 4,
        bgra: Vec::new(),
    };
    assert!(get_image_by_path(Some(bitmap)).is_none());
}

#[test]
fn no_icon_yields_empty_bytes() {
    assert_eq!(get_image_by_path(None), Some(Vec::new()));
}

#[test]
fn bgra_reorders_to_rgba() {
    let bgra = vec![1u8, 2, 3, 4, 5, 6, 7, 8];
    assert_eq!(bgra_to_rgba(&bgra), vec![3u8, 2, 1, 4, 7, 6, 5, 8]);
}

#[test]
fn file_stem_edge_cases() {
    assert_eq!(file_stem(&String::from("C:\\Apps\\Tool.exe")), "Tool");
    assert_eq!(file_stem(&String::from("C:/x/archive.tar.gz")), "archive.tar");
    assert_eq!(file_stem(&String::from("C:\\raw\\noext")), "noext");
    assert_eq!(file_stem(&String::from("C:\\d\\.hidden")), ".hidden");
    assert_eq!(file_stem(&String::from("trailing.")), "trailing");
    assert_eq!(file_stem(&String::from("C:\\dir\\")), "");
    assert_eq!(file_stem(&String::from("plain")), "plain");
}

#[test]
fn choose_description_prefers_nonempty() {
    let path = String::from("C:\\Apps\\Tool.exe");
    assert_eq!(
        choose_description(&path, Some(String::from("Described"))),
        "Described"
    );
    assert_eq!(choose_description(&path, Some(String::new())), "Tool");
    assert_eq!(choose_description(&path, None), "Tool");
}

#[test]
fn translation_pair_is_little_endian() {
    let bytes = vec![0x09u8, 0x04, 0xB0, 0x04];
    assert_eq!(parse_translation(&bytes), Some((0x0409, 0x04B0)));
}

#[test]
fn short_translation_buffer_is_rejected() {
    assert_eq!(parse_translation(&vec![0x09u8, 0x04, 0xB0]), None);
    assert_eq!(parse_translation(&Vec::new()), None);
}

#[test]
fn description_query_is_language_qualified() {
    assert_eq!(
        file_description_query(0x0409, 0x04B0),
        "\\StringFileInfo\\040904B0\\FileDescription"
    );
    assert_eq!(
        file_description_query(0x0000, 0xFFFF),
        "\\StringFileInfo\\0000FFFF\\FileDescription"
    );
}

#[test]
fn non_foreground_event_is_ignored() {
    // Any window event whose kind is not "foreground changed" must never
    // lead to a callback.
    let (state, action) = watcher_step(
        WatcherState::Pumping,
        WatcherEvent::WindowEvent(EVENT_SYSTEM_FOREGROUND + 1),
    );
    assert_eq!(state, WatcherState::Pumping);
    assert_eq!(action, WatcherAction::Ignore);
}

#[test]
fn foreground_event_triggers_resolution() {
    let (state, action) = watcher_step(
        WatcherState::Pumping,
        WatcherEvent::WindowEvent(EVENT_SYSTEM_FOREGROUND),
    );
    assert_eq!(state, WatcherState::Pumping);
    assert_eq!(action, WatcherAction::Resolve);
}

#[test]
fn watcher_lifecycle_follows_registration() {
    let (hooked, first) = watcher_step(WatcherState::Idle, WatcherEvent::HookOutcome(true));
    assert_eq!(hooked, WatcherState::Hooked);
    assert_eq!(first, WatcherAction::Ignore);

    let (pumping, dispatch) = watcher_step(hooked, WatcherEvent::Message(false));
    assert_eq!(pumping, WatcherState::Pumping);
    assert_eq!(dispatch, WatcherAction::Dispatch);

    let (unhooked, unhook) = watcher_step(pumping, WatcherEvent::Message(true));
    assert_eq!(unhooked, WatcherState::Unhooked);
    assert_eq!(unhook, WatcherAction::Unhook);
}

#[test]
fn failed_hook_disables_the_watcher() {
    let (state, action) = watcher_step(WatcherState::Idle, WatcherEvent::HookOutcome(false));
    assert_eq!(state, WatcherState::HookFailed);
    assert_eq!(action, WatcherAction::Stop);

    // Terminal: later events move the watcher nowhere and ask for nothing.
    let (after, act) = watcher_step(
        state,
        WatcherEvent::WindowEvent(EVENT_SYSTEM_FOREGROUND),
    );
    assert_eq!(after, WatcherState::HookFailed);
    assert_eq!(act, WatcherAction::Ignore);
}

#[test]
fn audio_state_change_forwards_once() {
    let r = audio_forward(
        &AudioNotification::StateChanged(AudioSessionState::Active),
        String::from("Music"),
    );
    let event = r.expect("a state change is forwarded");
    assert_eq!(event.state, AudioSessionState::Active);
    assert_eq!(event.session_name, "Music");
}

#[test]
fn other_audio_notifications_are_dropped() {
    let r = audio_forward(&AudioNotification::Other, String::from("Music"));
    assert!(r.is_none());
}
