//! State machine, event timing and panel content of a terminal dashboard that
//! shows a decentralized-identity workflow: two identities, a credential issued
//! from one to the other, and both shown as QR glyph grids.
mod credential;
mod menu;
mod qr;
mod ticker;
mod view;

pub use credential::{CredentialRecord, DegreeClaims, IdentityRecord, degree_claims_hold, issue_degree};
pub use menu::{
    Event, Key, MenuItem, MenuState, Outcome, apply_event, is_quit, last_nav,
    lemma_menu_follows_last_nav, menu_after, menu_index, nav_target, next_outcome, quit_index,
    title_of, transition,
};
pub use qr::{StartupError, glyph_grid, qr_glyphs_of};
pub use ticker::{
    TICK_RATE_MS, TickClock, last_after, lemma_tick_spacing, paced, tick_is_due, tick_times,
    timeout_at,
};
pub use view::{
    Align, Command, Dashboard, ExitReason, LAYOUT_MARGIN, Line, MenuBar, Panel, RowSize, Tab, Tone,
    home_lines, issue_lines, layout_rows, line_view, lines_view, menu_bar, menu_item_at, plain,
    render_footer, render_home, render_issue, render_verify, verify_lines,
};
