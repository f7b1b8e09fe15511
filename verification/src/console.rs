//! Console output: ANSI colours and the aligned status lines that report
//! each tweak.
use vstd::prelude::*;
use vstd::string::StringExecFns;

use crate::text::{byte_len, push_char};

verus! {

/// The colours the console output uses.
#[derive(PartialEq, Eq, Structural, Clone, Copy, Debug)]
pub enum Color {
    Green,
    Yellow,
    Cyan,
    DarkGray,
    Red,
}

/// The ANSI escape sequence that switches the console to colour `c`.
pub open spec fn color_code_spec(c: Color) -> Seq<char> {
    match c {
        Color::Green => "\x1b[32m"@,
        Color::Yellow => "\x1b[33m"@,
        Color::Cyan => "\x1b[36m"@,
        Color::DarkGray => "\x1b[90m"@,
        Color::Red => "\x1b[31m"@,
    }
}

/// The ANSI escape sequence that switches the console to colour `c`.
pub fn color_code(c: Color) -> (code: &'static str)
    ensures
        code@ == color_code_spec(c),
{
    match c {
        Color::Green => "\x1b[32m",
        Color::Yellow => "\x1b[33m",
        Color::Cyan => "\x1b[36m",
        Color::DarkGray => "\x1b[90m",
        Color::Red => "\x1b[31m",
    }
}

/// The ANSI escape sequence that restores the default colour.
pub open spec fn reset_code_spec() -> Seq<char> {
    "\x1b[0m"@
}

/// The ANSI escape sequence that restores the default colour.
pub fn reset_code() -> (code: &'static str)
    ensures
        code@ == reset_code_spec(),
{
    "\x1b[0m"
}

/// Console mode flag that makes the Windows console interpret ANSI
/// sequences.
pub const ENABLE_VIRTUAL_TERMINAL_PROCESSING: u32 = 0x0004;

/// The console mode `mode` with ANSI sequence processing switched on.
pub fn with_virtual_terminal(mode: u32) -> (m: u32)
    ensures
        m == mode | ENABLE_VIRTUAL_TERMINAL_PROCESSING,
{
    mode | ENABLE_VIRTUAL_TERMINAL_PROCESSING
}

/// How a tweak ended.
#[derive(PartialEq, Eq, Structural, Clone, Copy, Debug)]
pub enum Status {
    /// The tweak was applied.
    Applied,
    /// The tweak failed in a way worth a warning.
    Warning,
    /// The tweak was not applied, and that is no cause for concern.
    NotApplied,
}

/// A success outranks a warning: `ok` decides first, then `warn`.
pub open spec fn status_spec(ok: bool, warn: bool) -> Status {
    if ok {
        Status::Applied
    } else if warn {
        Status::Warning
    } else {
        Status::NotApplied
    }
}

/// The status reported for a tweak that succeeded (`ok`) or failed with or
/// without a warning (`warn`).
pub fn status_of(ok: bool, warn: bool) -> (s: Status)
    ensures
        s == status_spec(ok, warn),
{
    if ok {
        Status::Applied
    } else if warn {
        Status::Warning
    } else {
        Status::NotApplied
    }
}

/// The bracketed label printed for a status.
pub open spec fn status_label_spec(s: Status) -> Seq<char> {
    match s {
        Status::Applied => "[ OK ]"@,
        Status::Warning => "[ ADVERTENCIA ]"@,
        Status::NotApplied => "[ NO APLICADO ]"@,
    }
}

/// The bracketed label printed for a status.
pub fn status_label(s: Status) -> (label: &'static str)
    ensures
        label@ == status_label_spec(s),
{
    match s {
        Status::Applied => "[ OK ]",
        Status::Warning => "[ ADVERTENCIA ]",
        Status::NotApplied => "[ NO APLICADO ]",
    }
}

/// The colour of a status label.
pub open spec fn status_color_spec(s: Status) -> Color {
    match s {
        Status::Applied => Color::Green,
        Status::Warning => Color::Yellow,
        Status::NotApplied => Color::DarkGray,
    }
}

/// The colour of a status label.
pub fn status_color(s: Status) -> (c: Color)
    ensures
        c == status_color_spec(s),
{
    match s {
        Status::Applied => Color::Green,
        Status::Warning => Color::Yellow,
        Status::NotApplied => Color::DarkGray,
    }
}

/// Column (in bytes) up to which a description and its indentation are
/// padded before the label.
pub const STATUS_COLUMN: usize = 72;

/// Spaces printed after a description of `desc_bytes` bytes, so that the
/// indentation, the description and the padding fill `STATUS_COLUMN` bytes
/// (`72.saturating_sub(2 + desc_bytes)`).
pub open spec fn status_padding_spec(desc_bytes: nat) -> nat {
    if desc_bytes + 2 >= 72 {
        0
    } else {
        (70 - desc_bytes) as nat
    }
}

/// Spaces printed after a description of `desc_bytes` bytes.
pub fn status_padding(desc_bytes: usize) -> (pad: usize)
    ensures
        pad == status_padding_spec(desc_bytes as nat),
{
    if desc_bytes >= 70 {
        0
    } else {
        70 - desc_bytes
    }
}

/// `n` spaces.
pub open spec fn spaces(n: nat) -> Seq<char> {
    Seq::new(n, |i: int| ' ')
}

/// The text printed for a status line: two spaces, the description, a space,
/// padding, the coloured label, a line feed and the colour reset.
pub open spec fn status_line_spec(desc: Seq<char>, desc_bytes: nat, ok: bool, warn: bool) -> Seq<
    char,
> {
    "  "@ + desc + " "@ + spaces(status_padding_spec(desc_bytes)) + color_code_spec(
        status_color_spec(status_spec(ok, warn)),
    ) + status_label_spec(status_spec(ok, warn)) + "\n"@ + reset_code_spec()
}

/// The text that reports the tweak `desc`: applied when `ok`, otherwise a
/// warning when `warn`, otherwise not applied.
pub fn status_line_text(desc: &str, ok: bool, warn: bool) -> (text: String)
    ensures
        text@ == status_line_spec(desc@, byte_len(desc@), ok, warn),
{
    let pad = status_padding(desc.len());
    let mut text = String::new();
    text.append("  ");
    text.append(desc);
    text.append(" ");
    let ghost head = text@;
    let mut i: usize = 0;
    while i < pad
        invariant
            i <= pad,
            text@ == head + spaces(i as nat),
        decreases pad - i,
    {
        push_char(&mut text, ' ');
        proof {
            assert(spaces((i + 1) as nat) =~= spaces(i as nat).push(' '));
        }
        i = i + 1;
    }
    let status = status_of(ok, warn);
    text.append(color_code(status_color(status)));
    text.append(status_label(status));
    text.append("\n");
    text.append(reset_code());
    proof {
        assert(text@ =~= status_line_spec(desc@, byte_len(desc@), ok, warn));
    }
    text
}

/// One reported tweak: its description, whether it succeeded, and whether a
/// failure deserves a warning.
#[derive(Debug, PartialEq, Eq)]
pub struct StatusLine {
    pub desc: String,
    pub ok: bool,
    pub warn: bool,
}

/// The mathematical content of a [`StatusLine`].
pub struct StatusLineView {
    pub desc: Seq<char>,
    pub ok: bool,
    pub warn: bool,
}

impl View for StatusLine {
    type V = StatusLineView;

    open spec fn view(&self) -> StatusLineView {
        StatusLineView { desc: self.desc@, ok: self.ok, warn: self.warn }
    }
}

/// The status line for `desc`.
pub open spec fn line(desc: Seq<char>, ok: bool, warn: bool) -> StatusLineView {
    StatusLineView { desc, ok, warn }
}

/// The text printed for a status line.
pub fn render_status_line(l: &StatusLine) -> (text: String)
    ensures
        text@ == status_line_spec(l.desc@, byte_len(l.desc@), l.ok, l.warn),
{
    status_line_text(l.desc.as_str(), l.ok, l.warn)
}

} // verus!
