use pipeview::decimal::u32_decimal;
use pipeview::template::build_render_spec;
use pipeview::template::DisplayPreferences;

#[test]
fn renders_single_digits() {
    assert_eq!(u32_decimal(0), "0");
    assert_eq!(u32_decimal(7), "7");
    assert_eq!(u32_decimal(9), "9");
}

#[test]
fn renders_multi_digit_numbers() {
    assert_eq!(u32_decimal(10), "10");
    assert_eq!(u32_decimal(40), "40");
    assert_eq!(u32_decimal(65536), "65536");
    assert_eq!(u32_decimal(1000000), "1000000");
    assert_eq!(u32_decimal(u32::MAX), "4294967295");
}

#[test]
fn large_width_is_rendered_in_full() {
    let p = DisplayPreferences {
        estimated_total: None,
        show_elapsed: false,
        width: Some(123456),
        show_transferred_amount: false,
        show_eta: true,
        show_rate: false,
        line_mode: false,
        buffer_size: None,
        buffer_percent: false,
        quiet: false,
        show_progress: false,
    };
    let r = build_render_spec(&p);
    assert_eq!(r.template, "{bar:123456} {percent} {eta_precise}");
}
