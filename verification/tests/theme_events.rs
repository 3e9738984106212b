//! Behavior of the event-stream supervision and the theme logic.

use miu_player::events::EventKind;
use miu_player::events::ReconnectState;
use miu_player::events::SseAssembler;
use miu_player::events::classify_event;
use miu_player::events::parse_block;
use miu_player::events::reconnect_delay_secs;
use miu_player::hyprland::MaterialColors;
use miu_player::hyprland::detect_theme;
use miu_player::hyprland::normalize_color;
use miu_player::hyprland::normalize_hex;
use miu_player::hyprland::rgba_to_hex;
use miu_player::theme::extract_css_variables;
use miu_player::theme::lookup_var;
use miu_player::theme::map_css_to_miu;
use miu_player::theme::parse_css_theme;

#[test]
fn blocks_are_delimited_by_blank_lines() {
    let mut a = SseAssembler::new();
    a.feed("event: state\r\ndata: {}\n");
    assert!(a.next_block().is_none());
    a.feed("\nevent: heart");
    assert_eq!(a.next_block().as_deref(), Some("event: state\ndata: {}"));
    assert!(a.next_block().is_none());
    a.feed("beat\ndata: x\n\n");
    assert_eq!(a.next_block().as_deref(), Some("event: heartbeat\ndata: x"));
}

#[test]
fn block_parsing_joins_data_lines() {
    let e = parse_block("event: sync_play\ndata: {\"a\":\ndata: 1}\n: a comment").unwrap();
    assert_eq!(e.name, "sync_play");
    assert_eq!(e.data, "{\"a\":\n1}");
}

#[test]
fn the_last_event_line_wins() {
    let e = parse_block("event: first\ndata: d\nevent: second").unwrap();
    assert_eq!(e.name, "second");
    assert_eq!(e.data, "d");
}

#[test]
fn blocks_without_an_event_name_are_discarded() {
    assert!(parse_block("data: something").is_none());
    assert!(parse_block(": only a comment").is_none());
    assert!(parse_block("").is_none());
}

#[test]
fn event_names_are_classified() {
    assert_eq!(classify_event("state"), EventKind::State);
    assert_eq!(classify_event("sync_play"), EventKind::SyncPlay);
    assert_eq!(classify_event("heartbeat"), EventKind::Heartbeat);
    assert_eq!(classify_event("something_new"), EventKind::Unknown);
}

#[test]
fn reconnect_backoff_doubles_and_caps() {
    let mut r = ReconnectState::new();
    let mut delays = Vec::new();
    for _ in 0..6 {
        delays.push(r.on_failure());
    }
    assert_eq!(delays, vec![1, 2, 4, 8, 16, 30]);
    // A success resets the schedule.
    r.on_success();
    assert_eq!(r.on_failure(), 1);
    assert_eq!(reconnect_delay_secs(40), 30);
}

#[test]
fn css_variables_are_scanned_in_order() {
    let css = "body { color: red; }\n--bg-4: #111;\nx --text-2 :  white ;\n--broken no colon";
    let vars = extract_css_variables(css);
    assert_eq!(vars.len(), 2);
    assert_eq!(vars[0].0, "bg-4");
    assert_eq!(vars[0].1, "#111");
    assert_eq!(vars[1].0, "text-2");
    assert_eq!(vars[1].1, "white");
}

#[test]
fn later_declarations_win() {
    let vars = extract_css_variables("--x: 1;\n--x: 2;");
    assert_eq!(lookup_var(&vars, "x").as_deref(), Some("2"));
    assert_eq!(lookup_var(&vars, "y"), None);
}

#[test]
fn palette_names_map_onto_player_variables() {
    let vars = extract_css_variables("--bg-4: #abc;\n--accent-2: #f00;\n--unrelated: 3;");
    let mapped = map_css_to_miu(&vars);
    assert_eq!(lookup_var(&mapped, "--miu-background-start").as_deref(), Some("#abc"));
    assert_eq!(lookup_var(&mapped, "--miu-accent").as_deref(), Some("#f00"));
    assert_eq!(lookup_var(&mapped, "--miu-slider-thumb").as_deref(), Some("#f00"));
    assert_eq!(lookup_var(&mapped, "--miu-overlay"), None);
    assert_eq!(lookup_var(&mapped, "--unrelated"), None);
}

#[test]
fn stylesheets_without_usable_variables_yield_no_theme() {
    assert!(parse_css_theme("body { color: red; }", "a.css".to_string()).is_none());
    assert!(parse_css_theme("--nothing-known: 1;", "a.css".to_string()).is_none());
    let t = parse_css_theme("--bg-4: #111;", "b.css".to_string()).unwrap();
    assert_eq!(t.source, "b.css");
    assert_eq!(lookup_var(&t.variables, "--miu-background-start").as_deref(), Some("#111"));
}

#[test]
fn hex_colours_are_normalized() {
    assert_eq!(normalize_hex("AABBCCDD").as_deref(), Some("#BBCCDD"));
    assert_eq!(normalize_hex(" ffffff ").as_deref(), Some("#ffffff"));
    assert_eq!(normalize_hex("fff"), None);
}

#[test]
fn rgba_colours_are_normalized() {
    assert_eq!(rgba_to_hex("rgba(255, 0, 16)").as_deref(), Some("#ff0010"));
    assert_eq!(rgba_to_hex("rgba(0,0,0,0.5)").as_deref(), Some("#000000"));
    assert_eq!(rgba_to_hex("rgba(1,2)"), None);
    assert_eq!(rgba_to_hex("rgba(300,0,0)"), None);
    assert_eq!(rgba_to_hex("rgba(a,b,c)"), None);
}

#[test]
fn raw_colours_are_normalized() {
    assert_eq!(normalize_color("0xAABBCCDD").as_deref(), Some("#BBCCDD"));
    assert_eq!(normalize_color("#ff0011").as_deref(), Some("#ff0011"));
    assert_eq!(normalize_color("##ff0011").as_deref(), Some("#ff0011"));
    assert_eq!(normalize_color(" rgba(0, 0, 0) ").as_deref(), Some("#000000"));
    assert_eq!(normalize_color("red"), None);
}

#[test]
fn theme_detection_needs_the_compositor() {
    assert!(detect_theme(false, None, None, None, None, None).is_none());
    let t = detect_theme(
        true,
        Some("bogus".to_string()),
        Some("0x11223344".to_string()),
        None,
        None,
        None,
    )
    .unwrap();
    assert!(t.is_hyprland);
    assert!(t.prefers_tiling);
    // The preferred raw colour is unusable: the fallback is taken.
    assert_eq!(t.accent_color.as_deref(), Some("#223344"));
    assert!(t.inactive_color.is_none());
    assert!(t.primary.is_none());
}

#[test]
fn theme_detection_carries_the_generated_palette() {
    let colors = MaterialColors {
        primary: "#101010".to_string(),
        primary_container: "#202020".to_string(),
        secondary: "#303030".to_string(),
        secondary_container: "#404040".to_string(),
        tertiary: "#505050".to_string(),
        background: "#606060".to_string(),
        surface: "#707070".to_string(),
        surface_variant: "#808080".to_string(),
        outline: "#909090".to_string(),
    };
    let t = detect_theme(true, None, None, None, None, Some(colors)).unwrap();
    assert_eq!(t.primary.as_deref(), Some("#101010"));
    assert_eq!(t.outline.as_deref(), Some("#909090"));
    assert_eq!(t.background.as_deref(), Some("#606060"));
}
