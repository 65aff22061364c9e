use vstd::prelude::*;
use crate::menu::{MenuItem, MenuState, Event, Outcome, menu_index, title_of, next_outcome, apply_event, is_quit};
use crate::qr::{StartupError, glyph_grid, qr_glyphs_of};

verus! {

/// How a line of a panel is coloured.
#[derive(Clone, Copy, Debug, PartialEq, Eq, Structural)]
pub enum Tone {
    Plain,
    /// The product name on the home panel.
    Brand,
    /// The footer's text.
    Note,
}

/// Horizontal placement of a panel's lines.
#[derive(Clone, Copy, Debug, PartialEq, Eq, Structural)]
pub enum Align {
    Left,
    Center,
}

/// One entry of a panel's body; a glyph grid spans several terminal rows.
pub struct Line {
    pub text: String,
    pub tone: Tone,
}

/// A bordered panel: its title, its body, how the body is placed, and whether
/// long lines wrap at the panel's width.
pub struct Panel {
    pub title: String,
    pub lines: Vec<Line>,
    pub align: Align,
    pub wrap: bool,
}

pub open spec fn line_view(l: Line) -> (Seq<char>, Tone) {
    (l.text@, l.tone)
}

pub open spec fn lines_view(p: &Panel) -> Seq<(Seq<char>, Tone)> {
    p.lines@.map_values(|l: Line| line_view(l))
}

pub open spec fn plain(s: Seq<char>) -> (Seq<char>, Tone) {
    (s, Tone::Plain)
}

pub open spec fn home_lines() -> Seq<(Seq<char>, Tone)> {
    seq![
        plain(""@),
        plain("Welcome"@),
        plain(""@),
        plain("to"@),
        plain(""@),
        ("SSI @ IOTA"@, Tone::Brand),
        plain(""@),
        plain("Press q to quit."@),
    ]
}

pub open spec fn issue_lines(did: Seq<char>, did_glyphs: Seq<char>, credential_glyphs: Seq<char>) -> Seq<
    (Seq<char>, Tone),
> {
    seq![
        plain(""@),
        plain("Issue"@),
        plain(did_glyphs),
        plain(credential_glyphs),
        plain("issued by "@ + did),
        plain("Press q to quit."@),
    ]
}

pub open spec fn verify_lines() -> Seq<(Seq<char>, Tone)> {
    seq![plain(""@), plain("Verify"@), plain(""@), plain(""@), plain("Press q to quit."@)]
}

fn line(s: &str, tone: Tone) -> (r: Line)
    ensures
        line_view(r) == (s@, tone),
{
    Line { text: String::from_str(s), tone }
}

/// The welcome panel.
pub fn render_home() -> (r: Panel)
    ensures
        r.title@ == "Home"@,
        lines_view(&r) == home_lines(),
        r.align == Align::Center,
        !r.wrap,
{
    let mut lines: Vec<Line> = Vec::new();
    lines.push(line("", Tone::Plain));
    lines.push(line("Welcome", Tone::Plain));
    lines.push(line("", Tone::Plain));
    lines.push(line("to", Tone::Plain));
    lines.push(line("", Tone::Plain));
    lines.push(line("SSI @ IOTA", Tone::Brand));
    lines.push(line("", Tone::Plain));
    lines.push(line("Press q to quit.", Tone::Plain));
    let r = Panel { title: String::from_str("Home"), lines, align: Align::Center, wrap: false };
    assert(lines_view(&r) =~= home_lines());
    r
}

/// The issuing panel: the issuer's DID and the credential as QR glyph grids,
/// then who issued it.
pub fn render_issue(did: &str, did_glyphs: &str, credential_glyphs: &str) -> (r: Panel)
    ensures
        r.title@ == "Issue"@,
        lines_view(&r) == issue_lines(did@, did_glyphs@, credential_glyphs@),
        r.align == Align::Center,
        r.wrap,
{
    let mut attribution = String::from_str("issued by ");
    attribution.append(did);
    let mut lines: Vec<Line> = Vec::new();
    lines.push(line("", Tone::Plain));
    lines.push(line("Issue", Tone::Plain));
    lines.push(line(did_glyphs, Tone::Plain));
    lines.push(line(credential_glyphs, Tone::Plain));
    lines.push(Line { text: attribution, tone: Tone::Plain });
    lines.push(line("Press q to quit.", Tone::Plain));
    let r = Panel { title: String::from_str("Issue"), lines, align: Align::Center, wrap: true };
    assert(lines_view(&r) =~= issue_lines(did@, did_glyphs@, credential_glyphs@));
    r
}

/// The verification panel, which for now holds only its heading.
pub fn render_verify() -> (r: Panel)
    ensures
        r.title@ == "Verify"@,
        lines_view(&r) == verify_lines(),
        r.align == Align::Center,
        !r.wrap,
{
    let mut lines: Vec<Line> = Vec::new();
    lines.push(line("", Tone::Plain));
    lines.push(line("Verify", Tone::Plain));
    lines.push(line("", Tone::Plain));
    lines.push(line("", Tone::Plain));
    lines.push(line("Press q to quit.", Tone::Plain));
    let r = Panel { title: String::from_str("Verify"), lines, align: Align::Center, wrap: false };
    assert(lines_view(&r) =~= verify_lines());
    r
}

/// The footer below every panel.
pub fn render_footer() -> (r: Panel)
    ensures
        r.title@ == "Copyright"@,
        lines_view(&r) == seq![("Do what you want."@, Tone::Note)],
        r.align == Align::Center,
        !r.wrap,
{
    let mut lines: Vec<Line> = Vec::new();
    lines.push(line("Do what you want.", Tone::Note));
    let r = Panel { title: String::from_str("Copyright"), lines, align: Align::Center, wrap: false };
    assert(lines_view(&r) =~= seq![("Do what you want."@, Tone::Note)]);
    r
}


/// A tab of the menu bar: the label's first character, which is the key that
/// selects the panel and is drawn highlighted, and the rest of the label.
pub struct Tab {
    pub key: String,
    pub rest: String,
}

/// The menu bar: one tab per panel, in menu order, and the active one.
pub struct MenuBar {
    pub tabs: Vec<Tab>,
    pub selected: usize,
}

pub open spec fn menu_item_at(i: int) -> MenuItem {
    if i == 0 {
        MenuItem::Home
    } else if i == 1 {
        MenuItem::Issue
    } else {
        MenuItem::Verify
    }
}

fn tab(key: &str, rest: &str) -> (r: Tab)
    ensures
        r.key@ == key@,
        r.rest@ == rest@,
{
    Tab { key: String::from_str(key), rest: String::from_str(rest) }
}

/// The menu bar with `active` selected.
pub fn menu_bar(active: MenuItem) -> (r: MenuBar)
    ensures
        r.tabs@.len() == 3,
        forall|i: int|
            0 <= i < 3 ==> (#[trigger] r.tabs@[i]).key@ == title_of(menu_item_at(i)).take(1)
                && r.tabs@[i].rest@ == title_of(menu_item_at(i)).skip(1),
        r.selected == menu_index(active),
{
    proof {
        reveal_strlit("Home");
        reveal_strlit("H");
        reveal_strlit("ome");
        reveal_strlit("Issue");
        reveal_strlit("I");
        reveal_strlit("ssue");
        reveal_strlit("Verify");
        reveal_strlit("V");
        reveal_strlit("erify");
        assert("Home"@.take(1) =~= "H"@);
        assert("Home"@.skip(1) =~= "ome"@);
        assert("Issue"@.take(1) =~= "I"@);
        assert("Issue"@.skip(1) =~= "ssue"@);
        assert("Verify"@.take(1) =~= "V"@);
        assert("Verify"@.skip(1) =~= "erify"@);
    }
    let mut tabs: Vec<Tab> = Vec::new();
    tabs.push(tab("H", "ome"));
    tabs.push(tab("I", "ssue"));
    tabs.push(tab("V", "erify"));
    MenuBar { tabs, selected: usize::from(active) }
}

/// Height of a row of the dashboard's layout, in terminal rows.
#[derive(Clone, Copy, Debug, PartialEq, Eq, Structural)]
pub enum RowSize {
    Exactly(u16),
    AtLeast(u16),
}

/// Blank cells kept around the layout on every side.
pub const LAYOUT_MARGIN: u16 = 2;

/// The dashboard's three rows, top to bottom: menu bar, active panel, footer.
pub fn layout_rows() -> (r: Vec<RowSize>)
    ensures
        r@ == seq![RowSize::Exactly(3), RowSize::AtLeast(2), RowSize::Exactly(3)],
{
    let mut r: Vec<RowSize> = Vec::new();
    r.push(RowSize::Exactly(3));
    r.push(RowSize::AtLeast(2));
    r.push(RowSize::Exactly(3));
    assert(r@ =~= seq![RowSize::Exactly(3), RowSize::AtLeast(2), RowSize::Exactly(3)]);
    r
}

/// Why the render loop ends.
#[derive(Clone, Copy, Debug, PartialEq, Eq, Structural)]
pub enum ExitReason {
    /// The quit key was pressed.
    Quit,
    /// The event channel closed: the producer has died.
    ChannelClosed,
}

/// What the render loop does after waiting on the channel.
#[derive(Clone, Copy, Debug, PartialEq, Eq, Structural)]
pub enum Command {
    /// Draw the active panel and wait again.
    Redraw,
    /// Leave raw mode, show the cursor, and leave the loop.
    RestoreAndExit(ExitReason),
}

/// What the render loop owns: the menu, and the strings prepared before it
/// started.
pub struct Dashboard {
    pub menu: MenuState,
    pub did: String,
    pub did_glyphs: String,
    pub credential_glyphs: String,
}

impl Dashboard {
    /// A running dashboard on the home panel that shows the given strings.
    pub fn from_glyphs(did: String, did_glyphs: String, credential_glyphs: String) -> (r: Dashboard)
        ensures
            r.menu.active == MenuItem::Home,
            r.menu.running,
            r.did@ == did@,
            r.did_glyphs@ == did_glyphs@,
            r.credential_glyphs@ == credential_glyphs@,
    {
        Dashboard { menu: MenuState::new(), did, did_glyphs, credential_glyphs }
    }

    /// Draws the issuer's DID and the credential text as QR glyph grids and
    /// starts the dashboard with them; fails when either cannot be encoded.
    pub fn new(did: &str, credential_text: &str) -> (r: Result<Dashboard, StartupError>)
        ensures
            r is Ok <==> (qr_glyphs_of(did@) is Some && qr_glyphs_of(credential_text@) is Some),
            r is Err ==> r == Err::<Dashboard, StartupError>(StartupError::QrEncoding),
            r matches Ok(d) ==> {
                &&& d.menu.active == MenuItem::Home
                &&& d.menu.running
                &&& d.did@ == did@
                &&& Some(d.did_glyphs@) == qr_glyphs_of(did@)
                &&& Some(d.credential_glyphs@) == qr_glyphs_of(credential_text@)
            },
    {
        let did_glyphs = match glyph_grid(did) {
            Ok(g) => g,
            Err(e) => {
                return Err(e);
            },
        };
        let credential_glyphs = match glyph_grid(credential_text) {
            Ok(g) => g,
            Err(e) => {
                return Err(e);
            },
        };
        Ok(Dashboard::from_glyphs(String::from_str(did), did_glyphs, credential_glyphs))
    }

    /// Applies one event to the menu; the prepared strings never change.
    pub fn handle(&mut self, event: Event) -> (r: Outcome)
        ensures
            old(self).menu.running ==> r == next_outcome(old(self).menu.active, event),
            old(self).menu.running ==> final(self).menu.active == apply_event(
                old(self).menu.active,
                event,
            ),
            old(self).menu.running ==> final(self).menu.running == !is_quit(event),
            !old(self).menu.running ==> r == Outcome::Quit && final(self).menu == old(self).menu,
            final(self).did@ == old(self).did@,
            final(self).did_glyphs@ == old(self).did_glyphs@,
            final(self).credential_glyphs@ == old(self).credential_glyphs@,
    {
        self.menu.handle(event)
    }

    /// Decides what follows a wait on the channel, where `received` is `None`
    /// when the channel has closed. Every way out of the loop restores the
    /// terminal, and once the loop has been left the menu takes no more events.
    pub fn step(&mut self, received: Option<Event>) -> (c: Command)
        ensures
            c == match received {
                Some(e) => if old(self).menu.running && !is_quit(e) {
                    Command::Redraw
                } else {
                    Command::RestoreAndExit(ExitReason::Quit)
                },
                None => Command::RestoreAndExit(ExitReason::ChannelClosed),
            },
            c is RestoreAndExit ==> !final(self).menu.running,
            c is Redraw ==> final(self).menu.running,
            final(self).menu.active == match received {
                Some(e) => if old(self).menu.running {
                    apply_event(old(self).menu.active, e)
                } else {
                    old(self).menu.active
                },
                None => old(self).menu.active,
            },
            final(self).did@ == old(self).did@,
            final(self).did_glyphs@ == old(self).did_glyphs@,
            final(self).credential_glyphs@ == old(self).credential_glyphs@,
    {
        match received {
            Some(e) => match self.handle(e) {
                Outcome::Show(_) => Command::Redraw,
                Outcome::Quit => Command::RestoreAndExit(ExitReason::Quit),
            },
            None => {
                self.menu.running = false;
                Command::RestoreAndExit(ExitReason::ChannelClosed)
            },
        }
    }

    /// The panel of the active menu item.
    pub fn panel(&self) -> (r: Panel)
        ensures
            r.title@ == title_of(self.menu.active),
            r.align == Align::Center,
            r.wrap == (self.menu.active == MenuItem::Issue),
            self.menu.active == MenuItem::Home ==> lines_view(&r) == home_lines(),
            self.menu.active == MenuItem::Issue ==> lines_view(&r) == issue_lines(
                self.did@,
                self.did_glyphs@,
                self.credential_glyphs@,
            ),
            self.menu.active == MenuItem::Verify ==> lines_view(&r) == verify_lines(),
    {
        match self.menu.active {
            MenuItem::Home => render_home(),
            MenuItem::Issue => render_issue(
                self.did.as_str(),
                self.did_glyphs.as_str(),
                self.credential_glyphs.as_str(),
            ),
            MenuItem::Verify => render_verify(),
        }
    }
}

} // verus!
