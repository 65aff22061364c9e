use ssi_dashboard::{
    glyph_grid, issue_degree, layout_rows, menu_bar, render_footer, render_home, render_issue,
    render_verify, transition, Align, Command, Dashboard, Event, ExitReason, IdentityRecord, Key,
    MenuItem, MenuState, Outcome, RowSize, StartupError, TickClock, Tone, LAYOUT_MARGIN,
    TICK_RATE_MS,
};

fn key(c: char) -> Event {
    Event::Input(Key::Char(c))
}

fn texts(lines: &[ssi_dashboard::Line]) -> Vec<String> {
    lines.iter().map(|l| l.text.clone()).collect()
}

#[test]
fn scenario_issue_tick_verify_quit() {
    let mut menu = MenuState::new();
    let events = vec![key('i'), Event::Tick, key('v'), key('q')];
    let trace = menu.feed(&events);
    assert_eq!(trace, vec![MenuItem::Issue, MenuItem::Issue, MenuItem::Verify]);
    assert!(!menu.running);
    assert_eq!(menu.active, MenuItem::Verify);
}

#[test]
fn scenario_loop_commands_restore_on_quit() {
    let mut d = Dashboard::from_glyphs("did:x".to_string(), "G1".to_string(), "G2".to_string());
    let events = [key('i'), Event::Tick, key('v'), key('q')];
    let mut commands = Vec::new();
    let mut actives = Vec::new();
    for e in events {
        commands.push(d.step(Some(e)));
        actives.push(d.menu.active);
    }
    assert_eq!(
        commands,
        vec![
            Command::Redraw,
            Command::Redraw,
            Command::Redraw,
            Command::RestoreAndExit(ExitReason::Quit)
        ]
    );
    assert_eq!(actives[..3], [MenuItem::Issue, MenuItem::Issue, MenuItem::Verify]);
    assert!(!d.menu.running);
}

#[test]
fn closed_channel_restores_terminal() {
    let mut d = Dashboard::from_glyphs("d".to_string(), "a".to_string(), "b".to_string());
    assert_eq!(d.step(None), Command::RestoreAndExit(ExitReason::ChannelClosed));
    assert!(!d.menu.running);
    assert_eq!(d.step(Some(key('i'))), Command::RestoreAndExit(ExitReason::Quit));
    assert_eq!(d.menu.active, MenuItem::Home);
}

#[test]
fn last_navigation_key_wins_and_quit_stops() {
    let mut menu = MenuState::new();
    let events = vec![
        key('v'),
        key('x'),
        Event::Input(Key::Other),
        key('h'),
        Event::Tick,
        key('z'),
        key('q'),
        key('i'),
        key('v'),
    ];
    let trace = menu.feed(&events);
    assert_eq!(trace.len(), 6);
    assert_eq!(menu.active, MenuItem::Home);
    assert!(!menu.running);
    assert_eq!(menu.handle(key('i')), Outcome::Quit);
    assert_eq!(menu.active, MenuItem::Home);
}

#[test]
fn feed_without_quit_keeps_running() {
    let mut menu = MenuState::new();
    let trace = menu.feed(&vec![key('i'), key('a')]);
    assert_eq!(trace, vec![MenuItem::Issue, MenuItem::Issue]);
    assert!(menu.running);
    let empty = menu.feed(&vec![]);
    assert!(empty.is_empty());
    assert_eq!(menu.active, MenuItem::Issue);
}

#[test]
fn transitions_of_each_key() {
    assert_eq!(transition(MenuItem::Issue, key('h')), Outcome::Show(MenuItem::Home));
    assert_eq!(transition(MenuItem::Home, key('i')), Outcome::Show(MenuItem::Issue));
    assert_eq!(transition(MenuItem::Home, key('v')), Outcome::Show(MenuItem::Verify));
    assert_eq!(transition(MenuItem::Verify, key('q')), Outcome::Quit);
    assert_eq!(transition(MenuItem::Verify, key('H')), Outcome::Show(MenuItem::Verify));
    assert_eq!(transition(MenuItem::Issue, Event::Tick), Outcome::Show(MenuItem::Issue));
    assert_eq!(
        transition(MenuItem::Issue, Event::Input(Key::Other)),
        Outcome::Show(MenuItem::Issue)
    );
}

#[test]
fn menu_index_mapping() {
    assert_eq!(usize::from(MenuItem::Home), 0);
    assert_eq!(usize::from(MenuItem::Issue), 1);
    assert_eq!(usize::from(MenuItem::Verify), 2);
    assert_eq!(MenuItem::Verify.title(), "Verify");
}

#[test]
fn tick_clock_timeouts() {
    let mut c = TickClock::new(TICK_RATE_MS, 1000);
    assert_eq!(TICK_RATE_MS, 200);
    assert_eq!(c.poll_timeout(1000), 200);
    assert_eq!(c.poll_timeout(1150), 50);
    assert_eq!(c.poll_timeout(1200), 0);
    assert_eq!(c.poll_timeout(5000), 0);
    assert!(!c.on_wake(1199));
    assert_eq!(c.last_tick, 1000);
    assert!(c.on_wake(1203));
    assert_eq!(c.last_tick, 1203);
    assert_eq!(c.poll_timeout(1210), 193);
}

#[test]
fn ticks_spaced_under_key_input() {
    // Keys wake the producer early; ticks still go out once per interval.
    let mut c = TickClock::new(200, 0);
    let wakes = [30u64, 90, 150, 201, 260, 330, 405, 420, 600, 610];
    let mut ticks = vec![0u64];
    for w in wakes {
        if c.on_wake(w) {
            ticks.push(w);
        }
    }
    assert_eq!(ticks, vec![0, 201, 405, 610]);
    for pair in ticks.windows(2) {
        assert!(pair[1] - pair[0] <= 200 + 10);
    }
}

#[test]
fn credential_references_both_identities() {
    let issuer = IdentityRecord { id: "did:iota:issuer".to_string() };
    let subject = IdentityRecord { id: "did:iota:subject".to_string() };
    let c = issue_degree(&issuer, &subject);
    assert_eq!(c.issuer_id, "did:iota:issuer");
    assert_eq!(c.subject_id, "did:iota:subject");
    assert_eq!(c.id, "https://example.edu/credentials/3732");
    assert_eq!(c.credential_type, "UniversityDegreeCredential");
    assert_eq!(c.claims.name, "Alice");
    assert_eq!(c.claims.degree_type, "BachelorDegree");
    assert_eq!(c.claims.degree_name, "Bachelor of Science and Arts");
    assert_eq!(c.claims.gpa, "4.0");
    let again = issue_degree(&issuer, &subject);
    assert_eq!(again.issuer_id, c.issuer_id);
    assert_eq!(issuer.id, "did:iota:issuer");
    assert_eq!(subject.id, "did:iota:subject");
}

#[test]
fn glyph_grid_draws_a_square_of_blocks() {
    let g = glyph_grid("did:iota:abc").unwrap();
    assert_ne!(g, "did:iota:abc");
    let rows: Vec<&str> = g.lines().collect();
    assert!(rows.len() > 5);
    let width = rows[0].chars().count();
    assert!(rows.iter().all(|r| r.chars().count() == width));
    assert!(g.chars().all(|c| c == '\n' || c == ' ' || c == '█' || c == '▀' || c == '▄'));
    assert_eq!(glyph_grid("did:iota:abc").unwrap(), g);
}

#[test]
fn glyph_grid_refuses_too_long_text() {
    let long = "x".repeat(5000);
    assert_eq!(glyph_grid(&long), Err(StartupError::QrEncoding));
}

#[test]
fn dashboard_new_prepares_glyphs() {
    let d = Dashboard::new("did:iota:abc", "{\"id\":\"cred\"}").unwrap();
    assert_eq!(d.menu.active, MenuItem::Home);
    assert!(d.menu.running);
    assert_eq!(d.did, "did:iota:abc");
    assert_eq!(d.did_glyphs, glyph_grid("did:iota:abc").unwrap());
    assert_eq!(d.credential_glyphs, glyph_grid("{\"id\":\"cred\"}").unwrap());
    assert!(Dashboard::new("did", &"y".repeat(5000)).is_err());
}

#[test]
fn panels_hold_their_text() {
    let home = render_home();
    assert_eq!(home.title, "Home");
    assert_eq!(
        texts(&home.lines),
        vec!["", "Welcome", "", "to", "", "SSI @ IOTA", "", "Press q to quit."]
    );
    assert_eq!(home.lines[5].tone, Tone::Brand);
    assert_eq!(home.align, Align::Center);
    let verify = render_verify();
    assert_eq!(verify.title, "Verify");
    assert_eq!(texts(&verify.lines), vec!["", "Verify", "", "", "Press q to quit."]);
    let footer = render_footer();
    assert_eq!(footer.title, "Copyright");
    assert_eq!(texts(&footer.lines), vec!["Do what you want."]);
    assert_eq!(footer.lines[0].tone, Tone::Note);
}

#[test]
fn issue_panel_shows_grids_and_issuer() {
    let p = render_issue("did:iota:xyz", "GRID-A", "GRID-B");
    assert_eq!(p.title, "Issue");
    assert!(p.wrap);
    assert_eq!(
        texts(&p.lines),
        vec!["", "Issue", "GRID-A", "GRID-B", "issued by did:iota:xyz", "Press q to quit."]
    );
}

#[test]
fn dashboard_panel_follows_menu() {
    let mut d = Dashboard::from_glyphs("did:z".to_string(), "A".to_string(), "B".to_string());
    assert_eq!(d.panel().title, "Home");
    d.step(Some(key('i')));
    assert_eq!(d.panel().lines[4].text, "issued by did:z");
    d.step(Some(key('v')));
    assert_eq!(d.panel().title, "Verify");
}

#[test]
fn menu_bar_splits_labels() {
    let bar = menu_bar(MenuItem::Issue);
    assert_eq!(bar.selected, 1);
    let labels: Vec<(String, String)> =
        bar.tabs.iter().map(|t| (t.key.clone(), t.rest.clone())).collect();
    assert_eq!(
        labels,
        vec![
            ("H".to_string(), "ome".to_string()),
            ("I".to_string(), "ssue".to_string()),
            ("V".to_string(), "erify".to_string())
        ]
    );
    assert_eq!(menu_bar(MenuItem::Verify).selected, 2);
}

#[test]
fn layout_has_three_rows() {
    assert_eq!(
        layout_rows(),
        vec![RowSize::Exactly(3), RowSize::AtLeast(2), RowSize::Exactly(3)]
    );
    assert_eq!(LAYOUT_MARGIN, 2);
}
