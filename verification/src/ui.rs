//! The renderer: a pure function from the application state to a frame
//! description — the bordered frame's title and instruction spans, the query
//! line with its caret, and one line per page with the selected one
//! highlighted. Drawing the description on a terminal is the caller's work.

use vstd::prelude::*;
use vstd::string::StringExecFns;
use crate::app::App;

verus! {

/// A color of the two-color scheme, by name.
#[derive(Debug, Clone, Copy, PartialEq, Eq, Structural)]
pub enum TextColor {
    Black,
    LightYellow,
    Reset,
}

/// Foreground and background of one rendered line.
#[derive(Debug, Clone, Copy, PartialEq, Eq, Structural)]
pub struct TextColors {
    pub foreground: TextColor,
    pub background: TextColor,
}

/// One piece of the bottom instruction line; an emphasized span names a key.
#[derive(Debug)]
pub struct InstructionSpan {
    pub text: String,
    pub emphasized: bool,
}

/// One line of the page list: the page's name in its colors.
#[derive(Debug)]
pub struct OptionLine {
    pub text: String,
    pub colors: TextColors,
}

/// Everything one frame shows, free of any terminal type.
#[derive(Debug)]
pub struct FrameDescription {
    pub title: String,
    pub instructions: Vec<InstructionSpan>,
    pub search_line: String,
    pub options: Vec<OptionLine>,
}

/// The colors of a list line: the selected line is black on light yellow,
/// every other line light yellow on the default background.
pub open spec fn colors_spec(selected: int, index: int) -> TextColors {
    if index == selected {
        TextColors { foreground: TextColor::Black, background: TextColor::LightYellow }
    } else {
        TextColors { foreground: TextColor::LightYellow, background: TextColor::Reset }
    }
}

/// The query line: a fixed label, the query text, and a caret glyph.
pub open spec fn search_line_spec(query: Seq<char>) -> Seq<char> {
    "Search content: "@ + query + "█"@
}

/// The fixed instruction line: three labels, each followed by its emphasized
/// key name.
pub open spec fn instructions_spec(spans: Seq<InstructionSpan>) -> bool {
    &&& spans.len() == 6
    &&& spans[0].text@ == " Previous "@ && !spans[0].emphasized
    &&& spans[1].text@ == "<Up>"@ && spans[1].emphasized
    &&& spans[2].text@ == " Next "@ && !spans[2].emphasized
    &&& spans[3].text@ == "<Down>"@ && spans[3].emphasized
    &&& spans[4].text@ == " Quit "@ && !spans[4].emphasized
    &&& spans[5].text@ == "<Esc> "@ && spans[5].emphasized
}

/// The colors for the list line at `index` while `selected` is highlighted.
pub fn get_colors(selected: usize, index: usize) -> (r: TextColors)
    ensures
        r == colors_spec(selected as int, index as int),
{
    if index == selected {
        TextColors { foreground: TextColor::Black, background: TextColor::LightYellow }
    } else {
        TextColors { foreground: TextColor::LightYellow, background: TextColor::Reset }
    }
}

/// The bottom instruction line.
pub fn get_instructions() -> (r: Vec<InstructionSpan>)
    ensures
        instructions_spec(r@),
{
    let mut spans: Vec<InstructionSpan> = Vec::new();
    spans.push(InstructionSpan { text: String::from_str(" Previous "), emphasized: false });
    spans.push(InstructionSpan { text: String::from_str("<Up>"), emphasized: true });
    spans.push(InstructionSpan { text: String::from_str(" Next "), emphasized: false });
    spans.push(InstructionSpan { text: String::from_str("<Down>"), emphasized: true });
    spans.push(InstructionSpan { text: String::from_str(" Quit "), emphasized: false });
    spans.push(InstructionSpan { text: String::from_str("<Esc> "), emphasized: true });
    spans
}

/// The query line for the current state.
pub fn render_search(app: &App) -> (r: String)
    ensures
        r@ == search_line_spec(app.search_content@),
{
    let mut line: String = String::from_str("Search content: ");
    line.append(app.search_content.as_str());
    line.push('█');
    proof {
        reveal_strlit("█");
        assert(line@ =~= search_line_spec(app.search_content@));
    }
    line
}

/// The page list for the current state: every name in original order, the
/// selected one highlighted.
pub fn render_options(app: &App) -> (r: Vec<OptionLine>)
    ensures
        r@.len() == app.pages@.len(),
        forall|i: int|
            0 <= i < r@.len() ==> (#[trigger] r@[i]).text@ == app.pages@[i].name@ && r@[i].colors
                == colors_spec(app.selected as int, i),
{
    let mut lines: Vec<OptionLine> = Vec::new();
    let mut i: usize = 0;
    while i < app.pages.len()
        invariant
            i <= app.pages@.len(),
            lines@.len() == i,
            forall|j: int|
                0 <= j < i ==> (#[trigger] lines@[j]).text@ == app.pages@[j].name@
                    && lines@[j].colors == colors_spec(app.selected as int, j),
        decreases app.pages@.len() - i,
    {
        let colors = get_colors(app.selected, i);
        lines.push(OptionLine { text: app.pages[i].name.clone(), colors });
        i = i + 1;
    }
    lines
}

/// Describe one frame for the given state: fixed title and instructions, the
/// query line, and the page list with its highlight. Pure: the state is only
/// read.
pub fn render(app: &App) -> (r: FrameDescription)
    ensures
        r.title@ == " Quick Search "@,
        instructions_spec(r.instructions@),
        r.search_line@ == search_line_spec(app.search_content@),
        r.options@.len() == app.pages@.len(),
        forall|i: int|
            0 <= i < r.options@.len() ==> (#[trigger] r.options@[i]).text@ == app.pages@[i].name@
                && r.options@[i].colors == colors_spec(app.selected as int, i),
{
    FrameDescription {
        title: String::from_str(" Quick Search "),
        instructions: get_instructions(),
        search_line: render_search(app),
        options: render_options(app),
    }
}

} // verus!
