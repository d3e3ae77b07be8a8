use pipeview::template::build_render_spec;
use pipeview::template::DisplayPreferences;

fn no_prefs() -> DisplayPreferences {
    DisplayPreferences {
        estimated_total: None,
        show_elapsed: false,
        width: None,
        show_transferred_amount: false,
        show_eta: false,
        show_rate: false,
        line_mode: false,
        buffer_size: None,
        buffer_percent: false,
        quiet: false,
        show_progress: false,
    }
}

#[test]
fn default_template_byte_mode() {
    let r = build_render_spec(&no_prefs());
    assert_eq!(
        r.template,
        "{elapsed} {wide_bar} {percent} {bytes}/{total_bytes} {bytes_per_sec} {eta}"
    );
    assert!(!r.bounded);
}

#[test]
fn default_template_line_mode() {
    let p = DisplayPreferences { line_mode: true, ..no_prefs() };
    let r = build_render_spec(&p);
    assert_eq!(
        r.template,
        "{elapsed} {wide_bar} {percent} {pos}/{len} {per_sec} {eta}"
    );
}

#[test]
fn default_template_survives_width_and_total() {
    // No show-flag set: still the full default, even with width and total.
    let p = DisplayPreferences { estimated_total: Some(500), width: Some(30), ..no_prefs() };
    let r = build_render_spec(&p);
    assert_eq!(
        r.template,
        "{elapsed} {wide_bar} {percent} {bytes}/{total_bytes} {bytes_per_sec} {eta}"
    );
    assert!(r.bounded);
}

#[test]
fn bounded_iff_estimated_total() {
    let r = build_render_spec(&no_prefs());
    assert!(!r.bounded);
    let p = DisplayPreferences { estimated_total: Some(0), ..no_prefs() };
    assert!(build_render_spec(&p).bounded);
    let p = DisplayPreferences {
        estimated_total: Some(100),
        show_elapsed: true,
        show_eta: true,
        line_mode: true,
        ..no_prefs()
    };
    assert!(build_render_spec(&p).bounded);
    let p = DisplayPreferences { show_elapsed: true, show_rate: true, ..no_prefs() };
    assert!(!build_render_spec(&p).bounded);
}

#[test]
fn eta_only_with_total() {
    let p = DisplayPreferences { estimated_total: Some(100), show_eta: true, ..no_prefs() };
    let r = build_render_spec(&p);
    assert!(r.bounded);
    assert_eq!(r.template, "{wide_bar} {percent} {eta_precise}");
}

#[test]
fn all_segments_in_fixed_order() {
    let p = DisplayPreferences {
        estimated_total: Some(1000),
        show_elapsed: true,
        width: Some(40),
        show_transferred_amount: true,
        show_eta: true,
        show_rate: true,
        ..no_prefs()
    };
    let r = build_render_spec(&p);
    assert_eq!(
        r.template,
        "{elapsed_precise} {bar:40} {percent} {bytes}/{total_bytes} {bytes_per_sec} {eta_precise}"
    );
}

#[test]
fn amount_without_total_is_position_only() {
    let p = DisplayPreferences { show_transferred_amount: true, ..no_prefs() };
    let r = build_render_spec(&p);
    assert_eq!(r.template, "{wide_bar} {percent} {bytes}");
}

#[test]
fn width_honored_without_total() {
    let p = DisplayPreferences { width: Some(20), show_rate: true, ..no_prefs() };
    let r = build_render_spec(&p);
    assert!(!r.bounded);
    assert_eq!(r.template, "{bar:20} {percent} {bytes_per_sec}");
}

#[test]
fn line_mode_changes_only_placeholders() {
    let byte_prefs = DisplayPreferences {
        estimated_total: Some(10),
        show_elapsed: true,
        show_transferred_amount: true,
        show_eta: true,
        show_rate: true,
        ..no_prefs()
    };
    let line_prefs = DisplayPreferences { line_mode: true, ..byte_prefs };
    let rb = build_render_spec(&byte_prefs);
    let rl = build_render_spec(&line_prefs);
    assert_eq!(
        rb.template,
        "{elapsed_precise} {wide_bar} {percent} {bytes}/{total_bytes} {bytes_per_sec} {eta_precise}"
    );
    assert_eq!(
        rl.template,
        "{elapsed_precise} {wide_bar} {percent} {pos}/{len} {per_sec} {eta_precise}"
    );
    assert_eq!(rb.bounded, rl.bounded);
}

#[test]
fn compat_fields_are_inert() {
    let p = DisplayPreferences {
        estimated_total: Some(42),
        show_rate: true,
        ..no_prefs()
    };
    let q = DisplayPreferences {
        buffer_size: Some(4096),
        buffer_percent: true,
        quiet: true,
        show_progress: true,
        ..p
    };
    let rp = build_render_spec(&p);
    let rq = build_render_spec(&q);
    assert_eq!(rp.template, rq.template);
    assert_eq!(rp.bounded, rq.bounded);
}
