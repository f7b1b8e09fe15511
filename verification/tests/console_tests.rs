use rust_optimizer::console::{
    color_code, render_status_line, reset_code, status_label, status_line_text, status_of,
    status_padding, with_virtual_terminal, Color, Status, StatusLine,
};

/// What the status line printer writes, built the plain way.
fn expected(desc: &str, ok: bool, warn: bool) -> String {
    let mut s = format!("  {} ", desc);
    for _ in 0..72_usize.saturating_sub(2 + desc.len()) {
        s.push(' ');
    }
    if ok {
        s.push_str("\x1b[32m[ OK ]\n");
    } else if warn {
        s.push_str("\x1b[33m[ ADVERTENCIA ]\n");
    } else {
        s.push_str("\x1b[90m[ NO APLICADO ]\n");
    }
    s.push_str("\x1b[0m");
    s
}

#[test]
fn status_line_layout() {
    for desc in ["", "Receive Buffers = 2048 [Ethernet]", "Ahorro de energía deshabilitado [Wi-Fi]"] {
        for (ok, warn) in [(true, false), (true, true), (false, true), (false, false)] {
            assert_eq!(status_line_text(desc, ok, warn), expected(desc, ok, warn));
        }
    }
}

#[test]
fn long_descriptions_get_no_padding() {
    let long = "x".repeat(80);
    assert_eq!(status_line_text(&long, true, false), format!("  {} \x1b[32m[ OK ]\n\x1b[0m", long));
    let seventy = "y".repeat(70);
    assert_eq!(status_line_text(&seventy, false, false), expected(&seventy, false, false));
}

#[test]
fn padding_counts_bytes() {
    assert_eq!(status_padding(0), 70);
    assert_eq!(status_padding(69), 1);
    assert_eq!(status_padding(70), 0);
    assert_eq!(status_padding(500), 0);
    // "ñ" takes two bytes.
    let text = status_line_text("ñ", true, false);
    assert_eq!(text, format!("  ñ {}\x1b[32m[ OK ]\n\x1b[0m", " ".repeat(68)));
}

#[test]
fn success_outranks_warning() {
    assert_eq!(status_of(true, true), Status::Applied);
    assert_eq!(status_of(false, true), Status::Warning);
    assert_eq!(status_of(false, false), Status::NotApplied);
    assert_eq!(status_label(Status::Warning), "[ ADVERTENCIA ]");
}

#[test]
fn colour_codes() {
    assert_eq!(color_code(Color::Green), "\x1b[32m");
    assert_eq!(color_code(Color::Yellow), "\x1b[33m");
    assert_eq!(color_code(Color::Cyan), "\x1b[36m");
    assert_eq!(color_code(Color::DarkGray), "\x1b[90m");
    assert_eq!(color_code(Color::Red), "\x1b[31m");
    assert_eq!(reset_code(), "\x1b[0m");
}

#[test]
fn rendering_a_line_value() {
    let l = StatusLine { desc: "RSS habilitado [Eth]".to_string(), ok: false, warn: true };
    assert_eq!(render_status_line(&l), expected("RSS habilitado [Eth]", false, true));
}

#[test]
fn virtual_terminal_flag() {
    assert_eq!(with_virtual_terminal(0), 4);
    assert_eq!(with_virtual_terminal(3), 7);
    assert_eq!(with_virtual_terminal(4), 4);
}
