use window_controls::error::{win_err, Error};
use window_controls::glyph::{
    font_family, glyph_not_found, glyph_path, next_step, path_data, FaceLookup, GlyphStep,
    PathCommand, Point, FAMILY_COUNT,
};

fn pt(x: &str, y: &str) -> Point {
    Point { x: x.to_string(), y: y.to_string() }
}

/// Resolves a caption glyph as far as the library decides it: the codepoint
/// is looked up in the preferred icon font, a hit there is taken, and the
/// outline of the glyph, which opens a figure, is written as path data.
#[test]
fn extracts_caption_glyphs() {
    for (name, glyph) in [
        ("minimize", "\u{E921}"),
        ("maximize", "\u{E922}"),
        ("restore", "\u{E923}"),
        ("close", "\u{E8BB}"),
    ] {
        let codepoint = glyph.chars().next().unwrap() as u32;
        let step = glyph_path(glyph);
        assert_eq!(step, GlyphStep::Lookup { codepoint, family: 0 }, "{name}");
        let found = next_step(codepoint, 0, FaceLookup::GlyphIndex(7));
        assert_eq!(found, GlyphStep::Found { codepoint, family: 0, glyph_index: 7 }, "{name}");
        let outline = vec![
            PathCommand::Move(pt("10.00", "10.00")),
            PathCommand::Line(pt("90.00", "10.00")),
            PathCommand::Close,
        ];
        let d = path_data(&outline);
        assert!(!d.is_empty(), "{name} produced no path data");
        assert!(d.starts_with('M'), "{name}: {d}");
    }
}

#[test]
fn empty_outline_is_blank() {
    assert!(path_data(&vec![]).is_empty());
}

#[test]
fn path_data_spells_each_command() {
    let commands = vec![
        PathCommand::Move(pt("0.00", "0.00")),
        PathCommand::Line(pt("100.00", "0.00")),
        PathCommand::Line(pt("100.00", "100.00")),
        PathCommand::Close,
    ];
    assert_eq!(path_data(&commands), "M0.00 0.00L100.00 0.00L100.00 100.00Z");
}

#[test]
fn cubic_segments_list_three_points() {
    let commands = vec![
        PathCommand::Move(pt("1.50", "2.00")),
        PathCommand::Cubic(pt("3.00", "4.00"), pt("5.00", "6.00"), pt("7.25", "8.00")),
        PathCommand::Close,
        PathCommand::Move(pt("0.00", "0.00")),
    ];
    assert_eq!(path_data(&commands), "M1.50 2.00C3.00 4.00 5.00 6.00 7.25 8.00ZM0.00 0.00");
}

#[test]
fn empty_text_fails() {
    assert_eq!(glyph_path(""), GlyphStep::Failed(Error::Glyph("empty glyph text".to_string())));
}

#[test]
fn only_first_character_counts() {
    assert_eq!(glyph_path("ab"), GlyphStep::Lookup { codepoint: 0x61, family: 0 });
    assert_eq!(glyph_path("é!"), GlyphStep::Lookup { codepoint: 0xE9, family: 0 });
}

#[test]
fn families_are_searched_in_order() {
    assert_eq!(FAMILY_COUNT, 2);
    assert_eq!(font_family(0), "Segoe Fluent Icons");
    assert_eq!(font_family(1), "Segoe MDL2 Assets");
    assert_eq!(next_step(0xE921, 0, FaceLookup::NoFace), GlyphStep::Lookup { codepoint: 0xE921, family: 1 });
    assert_eq!(
        next_step(0xE921, 0, FaceLookup::GlyphIndex(0)),
        GlyphStep::Lookup { codepoint: 0xE921, family: 1 }
    );
    assert_eq!(
        next_step(0xE921, 1, FaceLookup::GlyphIndex(12)),
        GlyphStep::Found { codepoint: 0xE921, family: 1, glyph_index: 12 }
    );
    assert_eq!(
        next_step(0xE921, 1, FaceLookup::NoFace),
        GlyphStep::Failed(Error::Glyph("no glyph found for U+E921".to_string()))
    );
    assert_eq!(
        next_step(0x41, 1, FaceLookup::GlyphIndex(0)),
        GlyphStep::Failed(Error::Glyph("no glyph found for U+0041".to_string()))
    );
}

#[test]
fn not_found_message_pads_to_four_hex_digits() {
    assert_eq!(glyph_not_found(0), Error::Glyph("no glyph found for U+0000".to_string()));
    assert_eq!(glyph_not_found(0xA), Error::Glyph("no glyph found for U+000A".to_string()));
    assert_eq!(glyph_not_found(0xFF), Error::Glyph("no glyph found for U+00FF".to_string()));
    assert_eq!(glyph_not_found(0xE8BB), Error::Glyph("no glyph found for U+E8BB".to_string()));
    assert_eq!(glyph_not_found(0x1F600), Error::Glyph("no glyph found for U+1F600".to_string()));
    assert_eq!(glyph_not_found(u32::MAX), Error::Glyph("no glyph found for U+FFFFFFFF".to_string()));
}

#[test]
fn platform_errors_become_glyph_errors() {
    assert_eq!(win_err("Class not registered".to_string()), Error::Glyph("Class not registered".to_string()));
}
