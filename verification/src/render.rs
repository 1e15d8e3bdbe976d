//! The render routine: a pure function of the application state giving a
//! three-region terminal layout, the styled content of each region, and a
//! cursor directive.

use vstd::prelude::*;
use vstd::string::StringExecFns;

use crate::state::{App, AppView, Mode};
use crate::text::{list_line, list_line_of, string_of_chars};

verus! {

/// A rectangular region of the terminal, in cells: origin at the top
/// left, `x` growing rightward and `y` growing downward.
#[derive(Clone, Copy, Debug, PartialEq, Eq, Structural)]
pub struct Rect {
    pub x: u16,
    pub y: u16,
    pub width: u16,
    pub height: u16,
}

/// Where the text-insertion caret is to be shown, in terminal cells.
#[derive(Clone, Copy, Debug, PartialEq, Eq, Structural)]
pub struct CursorPos {
    pub x: u16,
    pub y: u16,
}

/// One piece of the help line: a text, emphasized or not.
pub struct HelpSpan {
    pub text: String,
    pub bold: bool,
}

/// The abstract value of a [`HelpSpan`].
#[verifier::ext_equal]
pub ghost struct HelpSpanView {
    pub text: Seq<char>,
    pub bold: bool,
}

impl View for HelpSpan {
    type V = HelpSpanView;

    open spec fn view(&self) -> HelpSpanView {
        HelpSpanView { text: self.text@, bold: self.bold }
    }
}

/// Everything one frame shows: the three regions, the help line with its
/// blinking flag, the input box content with its highlight flag, the
/// cursor directive (`None` hides the caret), and the list-box lines.
pub struct RenderModel {
    /// The one-row help line at the top.
    pub help_area: Rect,
    /// The three-row bordered input box below it.
    pub input_area: Rect,
    /// The bordered list box taking the remaining space.
    pub messages_area: Rect,
    /// The pieces of the help line, in order.
    pub help_spans: Vec<HelpSpan>,
    /// Whether the help line blinks.
    pub help_blink: bool,
    /// The text shown inside the input box.
    pub input_text: String,
    /// Whether the input text is shown highlighted.
    pub input_highlight: bool,
    /// The title on the input box border.
    pub input_title: String,
    /// Where to place the caret, or `None` to hide it.
    pub cursor: Option<CursorPos>,
    /// The lines of the list box, one committed entry each.
    pub list_lines: Vec<String>,
    /// The title on the list box border.
    pub messages_title: String,
}

/// The abstract value of a [`RenderModel`].
#[verifier::ext_equal]
pub ghost struct RenderModelView {
    pub help_area: Rect,
    pub input_area: Rect,
    pub messages_area: Rect,
    pub help_spans: Seq<HelpSpanView>,
    pub help_blink: bool,
    pub input_text: Seq<char>,
    pub input_highlight: bool,
    pub input_title: Seq<char>,
    pub cursor: Option<CursorPos>,
    pub list_lines: Seq<Seq<char>>,
    pub messages_title: Seq<char>,
}

impl View for RenderModel {
    type V = RenderModelView;

    open spec fn view(&self) -> RenderModelView {
        RenderModelView {
            help_area: self.help_area,
            input_area: self.input_area,
            messages_area: self.messages_area,
            help_spans: self.help_spans@.map_values(|h: HelpSpan| h@),
            help_blink: self.help_blink,
            input_text: self.input_text@,
            input_highlight: self.input_highlight,
            input_title: self.input_title@,
            cursor: self.cursor,
            list_lines: self.list_lines@.map_values(|t: String| t@),
            messages_title: self.messages_title@,
        }
    }
}

/// The help line shown in command mode.
pub open spec fn command_help() -> Seq<HelpSpanView> {
    seq![
        HelpSpanView { text: "Press "@, bold: false },
        HelpSpanView { text: "q"@, bold: true },
        HelpSpanView { text: " to exit, "@, bold: false },
        HelpSpanView { text: "s"@, bold: true },
        HelpSpanView { text: " to save, "@, bold: false },
        HelpSpanView { text: "a"@, bold: true },
        HelpSpanView { text: " to starting editing."@, bold: false },
    ]
}

/// The help line shown while composing.
pub open spec fn composing_help() -> Seq<HelpSpanView> {
    seq![
        HelpSpanView { text: "Press "@, bold: false },
        HelpSpanView { text: "Esc"@, bold: true },
        HelpSpanView { text: " to stop editing, "@, bold: false },
        HelpSpanView { text: "Enter"@, bold: true },
        HelpSpanView { text: " to record the message"@, bold: false },
    ]
}

/// What rendering the state `s` on the terminal area `area` shows.
///
/// The area is cut into a one-row help line, a three-row input box and a
/// list box taking the rest. The help line and the styles depend on the
/// mode alone. The caret is hidden in command mode; while composing it
/// stands one cell inside the input box border, offset rightward by the
/// cursor position. The list box holds one line per committed entry:
/// its zero-based position, a colon and a space, then its text.
pub open spec fn render_spec(s: AppView, area: Rect) -> RenderModelView {
    RenderModelView {
        help_area: Rect { x: area.x, y: area.y, width: area.width, height: 1 },
        input_area: Rect { x: area.x, y: (area.y + 1) as u16, width: area.width, height: 3 },
        messages_area: Rect {
            x: area.x,
            y: (area.y + 4) as u16,
            width: area.width,
            height: (area.height - 4) as u16,
        },
        help_spans: if s.mode == Mode::Command {
            command_help()
        } else {
            composing_help()
        },
        help_blink: s.mode == Mode::Command,
        input_text: s.input,
        input_highlight: s.mode == Mode::Composing,
        input_title: "Input"@,
        cursor: if s.mode == Mode::Composing {
            Some(
                CursorPos {
                    x: (area.x + s.char_index + 1) as u16,
                    y: (area.y + 2) as u16,
                },
            )
        } else {
            None
        },
        list_lines: Seq::new(s.todos.len(), |i: int| list_line_of(i as nat, s.todos[i])),
        messages_title: "Messages"@,
    }
}

/// The help line for the given mode.
fn help_spans_for(mode: Mode) -> (r: Vec<HelpSpan>)
    ensures
        r@.map_values(|h: HelpSpan| h@) == (if mode == Mode::Command {
            command_help()
        } else {
            composing_help()
        }),
{
    let mut r: Vec<HelpSpan> = Vec::new();
    match mode {
        Mode::Command => {
            r.push(HelpSpan { text: String::from_str("Press "), bold: false });
            r.push(HelpSpan { text: String::from_str("q"), bold: true });
            r.push(HelpSpan { text: String::from_str(" to exit, "), bold: false });
            r.push(HelpSpan { text: String::from_str("s"), bold: true });
            r.push(HelpSpan { text: String::from_str(" to save, "), bold: false });
            r.push(HelpSpan { text: String::from_str("a"), bold: true });
            r.push(HelpSpan { text: String::from_str(" to starting editing."), bold: false });
            proof {
                assert(r@.map_values(|h: HelpSpan| h@) =~~= command_help());
            }
        },
        Mode::Composing => {
            r.push(HelpSpan { text: String::from_str("Press "), bold: false });
            r.push(HelpSpan { text: String::from_str("Esc"), bold: true });
            r.push(HelpSpan { text: String::from_str(" to stop editing, "), bold: false });
            r.push(HelpSpan { text: String::from_str("Enter"), bold: true });
            r.push(HelpSpan { text: String::from_str(" to record the message"), bold: false });
            proof {
                assert(r@.map_values(|h: HelpSpan| h@) =~~= composing_help());
            }
        },
    }
    r
}

/// The list-box lines for the committed entries, in order.
fn build_list_lines(todos: &Vec<String>) -> (r: Vec<String>)
    ensures
        r@.map_values(|t: String| t@) == (Seq::new(
            todos@.len(),
            |i: int| list_line_of(i as nat, todos@[i]@),
        )),
{
    let mut r: Vec<String> = Vec::new();
    let mut i: usize = 0;
    while i < todos.len()
        invariant
            i <= todos@.len(),
            r@.len() == i,
            forall|j: int| 0 <= j < i ==> r@[j]@ == list_line_of(j as nat, todos@[j]@),
        decreases todos@.len() - i,
    {
        let line = list_line(i, &todos[i]);
        r.push(line);
        i = i + 1;
    }
    proof {
        assert(r@.map_values(|t: String| t@) =~= Seq::new(
            todos@.len(),
            |i: int| list_line_of(i as nat, todos@[i]@),
        ));
    }
    r
}

/// Render the state onto the given terminal area, exactly as
/// [`render_spec`] says.
///
/// The area must be at least five rows tall, so that the help line, the
/// input box and at least one list row fit; the bounds on the area and on
/// the caret column keep every cell coordinate within a terminal cell
/// index.
pub fn render(app: &App, area: Rect) -> (r: RenderModel)
    requires
        area.height >= 5,
        area.y + area.height <= u16::MAX,
        app@.mode == Mode::Composing ==> area.x + app@.char_index + 1 <= u16::MAX,
    ensures
        r@ == render_spec(app@, area),
{
    let help_area = Rect { x: area.x, y: area.y, width: area.width, height: 1 };
    let input_area = Rect { x: area.x, y: area.y + 1, width: area.width, height: 3 };
    let messages_area = Rect {
        x: area.x,
        y: area.y + 4,
        width: area.width,
        height: area.height - 4,
    };
    let help_spans = help_spans_for(app.mode);
    let help_blink = app.mode == Mode::Command;
    let input_text = string_of_chars(&app.input);
    let input_highlight = app.mode == Mode::Composing;
    let cursor = match app.mode {
        Mode::Command => None,
        Mode::Composing => Some(
            CursorPos { x: area.x + (app.char_index as u16) + 1, y: area.y + 2 },
        ),
    };
    let list_lines = build_list_lines(&app.todos);
    let r = RenderModel {
        help_area,
        input_area,
        messages_area,
        help_spans,
        help_blink,
        input_text,
        input_highlight,
        input_title: String::from_str("Input"),
        cursor,
        list_lines,
        messages_title: String::from_str("Messages"),
    };
    proof {
        assert(r@ =~~= render_spec(app@, area));
    }
    r
}

/// Rendering the same state twice, with no mutation in between, yields
/// identical layout, content and cursor directive both times.
pub proof fn lemma_render_deterministic(
    s: AppView,
    area: Rect,
    r1: RenderModelView,
    r2: RenderModelView,
)
    requires
        r1 == render_spec(s, area),
        r2 == render_spec(s, area),
    ensures
        r1 == r2,
{
}

} // verus!
