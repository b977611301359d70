//! A verified model of an interactive font-browsing panel.
//!
//! The panel lets a user browse two glyph tables (a standard font table and an
//! emoji table), filter the entries by name or by a literal character, pick a
//! text style for the preview, and copy any glyph to a per-frame clipboard
//! slot. The host toolkit draws the widgets; this crate holds the panel state
//! and every per-frame decision: which entries are visible, what each button
//! and tooltip shows, how the filter text is normalized, and what ends up in
//! the copied-text slot.

pub mod glyph;
pub mod panel;
pub mod style;
pub mod text;
