//! The font-browsing panel: its per-instance state, the per-frame rendering
//! model, and the click-to-copy behaviour.
//!
//! The host toolkit owns the widgets. Each frame it hands the panel the
//! interaction events (style selection, checkbox and button clicks, the
//! edited filter text) and the two glyph tables; the panel updates its state
//! and answers with exactly what to draw and what to place in the per-frame
//! copied-text slot.

use vstd::prelude::*;
use vstd::string::StringExecFns;
use crate::glyph::GlyphEntry;
use crate::glyph::entry_matches;
use crate::glyph::entry_passes;
use crate::glyph::visible_of;
use crate::style::TextStyle;
use crate::text::char_to_string;
use crate::text::dec_of;
use crate::text::dec_string;
use crate::text::hex_of;
use crate::text::hex_upper;
use crate::text::lower_of;
use crate::text::lowercase;

verus! {

/// The state of one open font-book panel. It persists across frames; every
/// transition is an independent field mutation driven by one frame's events.
pub struct FontBook {
    /// Whether the standard-font section is shown.
    pub standard: bool,
    /// Whether the emoji section is shown.
    pub emojis: bool,
    /// The filter text; held in lowercase form after each edit.
    pub filter: String,
    /// The text style the glyph buttons and tooltips render in.
    pub text_style: TextStyle,
}

impl Default for FontBook {
    /// A fresh panel: emoji section shown, standard section hidden, empty
    /// filter, button text style.
    fn default() -> (r: Self)
        ensures
            r.standard == false,
            r.emojis == true,
            r.filter@ == Seq::<char>::empty(),
            r.text_style == TextStyle::Button,
    {
        FontBook {
            standard: false,
            emojis: true,
            filter: String::new(),
            text_style: TextStyle::Button,
        }
    }
}

/// One glyph button as the panel asks the host to draw it: the character, the
/// text style to render it in, and the hover tooltip's text block.
#[derive(Debug)]
pub struct RenderedGlyph {
    pub character: char,
    pub text_style: TextStyle,
    pub tooltip: String,
}

/// The text block of an entry's hover tooltip: the entry's name, its
/// codepoint in `U+` hexadecimal form, and the click-to-copy hint.
pub open spec fn tooltip_text(e: GlyphEntry) -> Seq<char> {
    e.name@ + "\nU+"@ + hex_of(e.character as u32 as nat) + "\n\nClick to copy"@
}

/// `r` renders exactly the entries of `visible`, in order: one button per
/// entry, each in style `style`, each with its tooltip text.
pub open spec fn rendered_matches(r: Seq<RenderedGlyph>, style: TextStyle, visible: Seq<GlyphEntry>) -> bool {
    &&& r.len() == visible.len()
    &&& forall|i: int|
        0 <= i < r.len() ==> {
            &&& (#[trigger] r[i]).character == visible[i].character
            &&& r[i].text_style == style
            &&& r[i].tooltip@ == tooltip_text(visible[i])
        }
}

/// The character whose button click wins within one table walk: the last
/// entry that is both rendered (it passes the filter) and clicked. `None`
/// when no rendered entry is clicked.
pub open spec fn last_copied(filter: Seq<char>, table: Seq<GlyphEntry>, clicked: Seq<bool>) -> Option<char>
    decreases table.len(),
{
    if table.len() == 0 || clicked.len() == 0 {
        None
    } else if entry_matches(filter, table.last()) && clicked.last() {
        Some(table.last().character)
    } else {
        last_copied(filter, table.drop_last(), clicked.drop_last())
    }
}

/// How a table walk leaves the copied-text slot: a winning click writes that
/// entry's one-character string, and without one the slot keeps its previous
/// value.
pub open spec fn copied_update(before: Option<String>, after: Option<String>, hit: Option<char>) -> bool {
    match hit {
        Some(c) => after matches Some(s) && s@ == seq![c],
        None => after == before,
    }
}

/// The events of one frame, as the host toolkit reports them: the style
/// picked in the drop-down (if any), whether each checkbox and the clear
/// button were clicked, the filter text after this frame's editing, and one
/// click flag per entry of each table.
pub struct FrameInput {
    pub selected_style: Option<TextStyle>,
    pub standard_clicked: bool,
    pub emojis_clicked: bool,
    pub filter_text: String,
    pub clear_clicked: bool,
    pub standard_clicks: Vec<bool>,
    pub emoji_clicks: Vec<bool>,
}

/// What one frame asks the host to draw and to do: the header line, the
/// glyph buttons of the enabled sections in order, and the value for the
/// frame's copied-text slot (`None` when nothing was clicked).
#[derive(Debug)]
pub struct FrameOutput {
    pub header: String,
    pub rendered: Vec<RenderedGlyph>,
    pub copied_text: Option<String>,
}

/// The header line: the counts of the two tables and the click-to-copy hint.
pub open spec fn header_text(n_standard: nat, n_emoji: nat) -> Seq<char> {
    "This font book holds "@ + dec_of(n_standard) + " standard characters and "@ + dec_of(n_emoji)
        + " emojis.\nClick on a character to copy it."@
}

/// The glyph entries one frame renders, top to bottom: the standard section
/// if it is enabled, then the emoji section if it is enabled, each filtered
/// in table order.
pub open spec fn frame_glyphs(
    standard: bool,
    emojis: bool,
    filter: Seq<char>,
    standard_table: Seq<GlyphEntry>,
    emoji_table: Seq<GlyphEntry>,
) -> Seq<GlyphEntry> {
    (if standard {
        visible_of(filter, standard_table)
    } else {
        Seq::<GlyphEntry>::empty()
    }) + (if emojis {
        visible_of(filter, emoji_table)
    } else {
        Seq::<GlyphEntry>::empty()
    })
}

/// The character one frame copies: the winning click of the emoji section if
/// it has one (that section renders later, so its clicks overwrite), else
/// the winning click of the standard section; clicks in a disabled section
/// do not exist.
pub open spec fn frame_copied(
    standard: bool,
    emojis: bool,
    filter: Seq<char>,
    standard_table: Seq<GlyphEntry>,
    emoji_table: Seq<GlyphEntry>,
    standard_clicks: Seq<bool>,
    emoji_clicks: Seq<bool>,
) -> Option<char> {
    let standard_hit = if standard {
        last_copied(filter, standard_table, standard_clicks)
    } else {
        None
    };
    let emoji_hit = if emojis {
        last_copied(filter, emoji_table, emoji_clicks)
    } else {
        None
    };
    if emoji_hit is Some {
        emoji_hit
    } else {
        standard_hit
    }
}

impl FontBook {
    /// Decides the filter predicate for one entry against the panel's current
    /// filter text.
    pub fn matches_filter(&self, e: &GlyphEntry) -> (r: bool)
        ensures
            r == entry_matches(self.filter@, *e),
    {
        entry_passes(&self.filter, e)
    }

    /// Applies one text edit: the filter becomes the lowercase form of the
    /// edited text, so after every edit the filter equals its own lowercase
    /// form. No other field changes.
    pub fn set_filter(&mut self, text: &str)
        ensures
            final(self).filter@ == lower_of(text@),
            lower_of(final(self).filter@) == final(self).filter@,
            final(self).standard == old(self).standard,
            final(self).emojis == old(self).emojis,
            final(self).text_style == old(self).text_style,
    {
        self.filter = lowercase(text);
    }

    /// Applies a click on the clear button: the filter becomes empty. No
    /// other field changes.
    pub fn clear_filter(&mut self)
        ensures
            final(self).filter@ == Seq::<char>::empty(),
            final(self).standard == old(self).standard,
            final(self).emojis == old(self).emojis,
            final(self).text_style == old(self).text_style,
    {
        self.filter = String::new();
    }

    /// Applies a selection in the style drop-down. No other field changes.
    pub fn set_text_style(&mut self, style: TextStyle)
        ensures
            final(self).text_style == style,
            final(self).standard == old(self).standard,
            final(self).emojis == old(self).emojis,
            final(self).filter == old(self).filter,
    {
        self.text_style = style;
    }

    /// Renders one glyph button with its tooltip in the panel's current
    /// style.
    fn render_entry(&self, e: &GlyphEntry) -> (r: RenderedGlyph)
        ensures
            r.character == e.character,
            r.text_style == self.text_style,
            r.tooltip@ == tooltip_text(*e),
    {
        let mut tip = e.name.clone();
        tip.append("\nU+");
        let hex = hex_upper(e.character as u32);
        tip.append(hex.as_str());
        tip.append("\n\nClick to copy");
        proof {
            assert(tip@ =~= tooltip_text(*e));
        }
        RenderedGlyph { character: e.character, text_style: self.text_style, tooltip: tip }
    }

    /// Walks one glyph table: renders every entry that passes the filter, in
    /// table order, and lets each clicked one overwrite the copied-text slot
    /// with its character, so the last clicked rendered entry wins.
    ///
    /// `clicked[i]` reports whether entry `i`'s button was clicked this
    /// frame; a click on an entry that is not rendered cannot happen and is
    /// ignored.
    pub fn characters_ui(&self, characters: &Vec<GlyphEntry>, clicked: &Vec<bool>, copied: &mut Option<String>) -> (r: Vec<RenderedGlyph>)
        requires
            clicked@.len() == characters@.len(),
        ensures
            rendered_matches(r@, self.text_style, visible_of(self.filter@, characters@)),
            copied_update(*old(copied), *final(copied), last_copied(self.filter@, characters@, clicked@)),
    {
        let mut out: Vec<RenderedGlyph> = Vec::new();
        let mut i: usize = 0;
        while i < characters.len()
            invariant
                i <= characters@.len(),
                clicked@.len() == characters@.len(),
                rendered_matches(out@, self.text_style, visible_of(self.filter@, characters@.take(i as int))),
                copied_update(
                    *old(copied),
                    *copied,
                    last_copied(self.filter@, characters@.take(i as int), clicked@.take(i as int)),
                ),
            decreases characters@.len() - i,
        {
            proof {
                assert(characters@.take(i + 1).drop_last() =~= characters@.take(i as int));
                assert(clicked@.take(i + 1).drop_last() =~= clicked@.take(i as int));
            }
            let e = &characters[i];
            if self.matches_filter(e) {
                let button = self.render_entry(e);
                out.push(button);
                if clicked[i] {
                    *copied = Some(char_to_string(e.character));
                }
            }
            i = i + 1;
        }
        proof {
            assert(characters@.take(characters@.len() as int) =~= characters@);
            assert(clicked@.take(clicked@.len() as int) =~= clicked@);
        }
        out
    }

    /// The display name the panel registers with the host under.
    pub fn name(&self) -> (r: String)
        ensures
            r@ == "🔤 Font Book"@,
    {
        String::from_str("🔤 Font Book")
    }

    /// Runs one frame of the panel: applies this frame's events to the state
    /// in layout order (style selection, section checkboxes, filter edit,
    /// then the clear button), and renders the enabled sections with the
    /// updated state.
    pub fn ui(&mut self, input: &FrameInput, standard_chars: &Vec<GlyphEntry>, emoji_chars: &Vec<GlyphEntry>) -> (out: FrameOutput)
        requires
            input.standard_clicks@.len() == standard_chars@.len(),
            input.emoji_clicks@.len() == emoji_chars@.len(),
        ensures
            final(self).text_style == (match input.selected_style {
                Some(style) => style,
                None => old(self).text_style,
            }),
            final(self).standard == (if input.standard_clicked {
                !old(self).standard
            } else {
                old(self).standard
            }),
            final(self).emojis == (if input.emojis_clicked {
                !old(self).emojis
            } else {
                old(self).emojis
            }),
            input.clear_clicked ==> final(self).filter@ == Seq::<char>::empty(),
            !input.clear_clicked ==> final(self).filter@ == lower_of(input.filter_text@)
                && lower_of(final(self).filter@) == final(self).filter@,
            out.header@ == header_text(standard_chars@.len(), emoji_chars@.len()),
            rendered_matches(
                out.rendered@,
                final(self).text_style,
                frame_glyphs(
                    final(self).standard,
                    final(self).emojis,
                    final(self).filter@,
                    standard_chars@,
                    emoji_chars@,
                ),
            ),
            copied_update(
                None,
                out.copied_text,
                frame_copied(
                    final(self).standard,
                    final(self).emojis,
                    final(self).filter@,
                    standard_chars@,
                    emoji_chars@,
                    input.standard_clicks@,
                    input.emoji_clicks@,
                ),
            ),
    {
        let header = header_line(standard_chars.len(), emoji_chars.len());

        match input.selected_style {
            Some(style) => self.set_text_style(style),
            None => {},
        }
        if input.standard_clicked {
            self.standard = !self.standard;
        }
        if input.emojis_clicked {
            self.emojis = !self.emojis;
        }
        self.set_filter(input.filter_text.as_str());
        if input.clear_clicked {
            self.clear_filter();
        }

        let ghost shown = frame_glyphs(
            self.standard,
            self.emojis,
            self.filter@,
            standard_chars@,
            emoji_chars@,
        );
        let mut rendered: Vec<RenderedGlyph> = Vec::new();
        let mut copied: Option<String> = None;
        if self.standard {
            rendered = self.characters_ui(standard_chars, &input.standard_clicks, &mut copied);
        }
        if self.emojis {
            let mut emoji_buttons = self.characters_ui(emoji_chars, &input.emoji_clicks, &mut copied);
            rendered.append(&mut emoji_buttons);
        }
        proof {
            if !self.standard {
                assert(shown =~= (if self.emojis {
                    visible_of(self.filter@, emoji_chars@)
                } else {
                    Seq::<GlyphEntry>::empty()
                }));
            }
            if !self.emojis {
                assert(shown =~= (if self.standard {
                    visible_of(self.filter@, standard_chars@)
                } else {
                    Seq::<GlyphEntry>::empty()
                }));
            }
            assert(rendered_matches(rendered@, self.text_style, shown));
        }
        FrameOutput { header, rendered, copied_text: copied }
    }
}

/// Builds the header line for the two table sizes.
pub fn header_line(n_standard: usize, n_emoji: usize) -> (r: String)
    ensures
        r@ == header_text(n_standard as nat, n_emoji as nat),
{
    let mut r = String::from_str("This font book holds ");
    let standard_count = dec_string(n_standard);
    r.append(standard_count.as_str());
    r.append(" standard characters and ");
    let emoji_count = dec_string(n_emoji);
    r.append(emoji_count.as_str());
    r.append(" emojis.\nClick on a character to copy it.");
    proof {
        assert(r@ =~= header_text(n_standard as nat, n_emoji as nat));
    }
    r
}

/// Switching a section off removes exactly that section's entries and leaves
/// the other section's entries untouched: with `standard` off the frame shows
/// exactly the emoji section, with `emojis` off exactly the standard section,
/// and with both on exactly the standard section followed by the emoji
/// section.
pub proof fn lemma_section_toggle_exact(
    standard: bool,
    emojis: bool,
    filter: Seq<char>,
    standard_table: Seq<GlyphEntry>,
    emoji_table: Seq<GlyphEntry>,
)
    ensures
        frame_glyphs(false, emojis, filter, standard_table, emoji_table) == (if emojis {
            visible_of(filter, emoji_table)
        } else {
            Seq::<GlyphEntry>::empty()
        }),
        frame_glyphs(standard, false, filter, standard_table, emoji_table) == (if standard {
            visible_of(filter, standard_table)
        } else {
            Seq::<GlyphEntry>::empty()
        }),
        frame_glyphs(true, emojis, filter, standard_table, emoji_table) == visible_of(
            filter,
            standard_table,
        ) + frame_glyphs(false, emojis, filter, standard_table, emoji_table),
{
    assert(frame_glyphs(false, emojis, filter, standard_table, emoji_table) =~= (if emojis {
        visible_of(filter, emoji_table)
    } else {
        Seq::<GlyphEntry>::empty()
    }));
    assert(frame_glyphs(standard, false, filter, standard_table, emoji_table) =~= (if standard {
        visible_of(filter, standard_table)
    } else {
        Seq::<GlyphEntry>::empty()
    }));
    assert(frame_glyphs(true, emojis, filter, standard_table, emoji_table) =~= visible_of(
        filter,
        standard_table,
    ) + frame_glyphs(false, emojis, filter, standard_table, emoji_table));
}

/// A click on a rendered entry's button, with no click after it in the same
/// walk, puts exactly that entry's character in the copied-text slot.
pub proof fn lemma_click_copies_character(
    filter: Seq<char>,
    table: Seq<GlyphEntry>,
    clicked: Seq<bool>,
    i: int,
)
    requires
        table.len() == clicked.len(),
        0 <= i < table.len(),
        clicked[i],
        entry_matches(filter, table[i]),
        forall|j: int| i < j < clicked.len() ==> !clicked[j],
    ensures
        last_copied(filter, table, clicked) == Some(table[i].character),
    decreases table.len(),
{
    if i == table.len() - 1 {
    } else {
        lemma_click_copies_character(filter, table.drop_last(), clicked.drop_last(), i);
    }
}

} // verus!
