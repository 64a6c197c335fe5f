use glyph_rain::alphabet::{alphabet_chars, alphabet_contains};
use glyph_rain::canvas::{Canvas, CanvasState};
use glyph_rain::color::{fade_colour, saturation_lightness_pct, Rgb};
use glyph_rain::column::{
    GlyphColumn, GlyphColumnState, GlyphRecord, FADE_RATE_MAX, FADE_RATE_MIN,
};
use glyph_rain::glyph::Glyph;

fn green() -> Rgb {
    Rgb { r: 0, g: 255, b: 0 }
}

fn black() -> Rgb {
    Rgb { r: 0, g: 0, b: 0 }
}

/// The lightness of a colour in percent, read straight through colorsys.
fn lightness_of(c: Rgb) -> f64 {
    colorsys::Hsl::from(colorsys::Rgb::from((c.r, c.g, c.b))).lightness()
}

#[test]
fn alphabet_has_the_expected_characters() {
    let chars = alphabet_chars();
    assert_eq!(chars.len(), 69);
    assert_eq!(chars[0], 'ﾊ');
    assert_eq!(chars[4], 'ｳ');
    assert_eq!(chars[47], '0');
    assert_eq!(chars[68], 'ç');
    // The digit run skips 6.
    assert!(!chars.contains(&'6'));
    assert!(!chars.contains(&' '));
}

#[test]
fn alphabet_membership_test_agrees_with_the_characters() {
    let chars = alphabet_chars();
    for &ch in chars.iter() {
        assert!(alphabet_contains(ch));
    }
    assert!(!alphabet_contains(' '));
    assert!(!alphabet_contains('6'));
    assert!(!alphabet_contains('x'));
}

#[test]
fn blank_glyph_is_a_black_space() {
    let g = Glyph::new();
    assert_eq!(g.character, ' ');
    assert_eq!(g.colour, black());
}

#[test]
fn indexed_glyph_shows_the_alphabet_character() {
    let g = Glyph::new_with_index(green(), 0);
    assert_eq!(g.character, 'ﾊ');
    assert_eq!(g.colour, green());
    let g = Glyph::new_with_index(black(), 5);
    assert_eq!(g.character, 'ｼ');
}

#[test]
fn random_glyph_keeps_the_colour_and_stays_in_the_alphabet() {
    for _ in 0..20 {
        let g = Glyph::new_random(green());
        assert_eq!(g.colour, green());
        assert!(alphabet_contains(g.character));
    }
}

#[test]
fn retype_changes_only_nearly_dark_glyphs_and_never_the_colour() {
    // A bright glyph keeps its character.
    let mut bright = Glyph::new_with_index(green(), 0);
    bright.retype_with_index(3);
    assert_eq!(bright.character, 'ﾊ');
    assert_eq!(bright.colour, green());

    // A black glyph takes the offered character; the colour stays.
    let mut dark = Glyph::new_with_index(black(), 0);
    dark.retype_with_index(3);
    assert_eq!(dark.character, 'ｰ');
    assert_eq!(dark.colour, black());

    let mut dark = Glyph::new_with_index(black(), 7);
    dark.randomly_change_character();
    assert!(alphabet_contains(dark.character));
    assert_eq!(dark.colour, black());
}

#[test]
fn saturation_and_lightness_match_colorsys() {
    for c in [green(), black(), Rgb { r: 255, g: 255, b: 255 }, Rgb { r: 12, g: 200, b: 99 }] {
        let (sat, light) = saturation_lightness_pct(c);
        let hsl = colorsys::Hsl::from(colorsys::Rgb::from((c.r, c.g, c.b)));
        assert_eq!(sat, hsl.saturation() as u8);
        assert_eq!(light, hsl.lightness() as u8);
    }
    assert_eq!(saturation_lightness_pct(green()), (100, 50));
    assert_eq!(saturation_lightness_pct(black()), (0, 0));
    assert_eq!(saturation_lightness_pct(Rgb { r: 255, g: 255, b: 255 }), (0, 100));
}

#[test]
fn fade_matches_colorsys_and_lowers_lightness() {
    let faded = fade_colour(green(), 2);
    let mut hsl = colorsys::Hsl::from(colorsys::Rgb::from((0u8, 255u8, 0u8)));
    colorsys::ColorTransform::lighten(&mut hsl, -2.0);
    let rgb = colorsys::Rgb::from(hsl);
    let expected = Rgb { r: rgb.red() as u8, g: rgb.green() as u8, b: rgb.blue() as u8 };
    assert_eq!(faded, expected);
    assert_ne!(faded, green());
    assert!(lightness_of(faded) < lightness_of(green()));
}

#[test]
fn repeated_fades_reach_black() {
    let mut c = green();
    for _ in 0..60 {
        c = fade_colour(c, 3);
    }
    assert_eq!(lightness_of(c), 0.0);
    assert_eq!(c, black());
}

#[test]
fn new_column_starts_at_full_brightness() {
    let col = GlyphColumnState::new(green(), 5);
    assert_eq!(col.glyphs.len(), 5);
    assert_eq!(col.trail_start, 0);
    assert_eq!(col.fade_rate, FADE_RATE_MAX);
    assert_eq!(col.initial_colour, green());
    assert_eq!(col.current_colour, green());
    for g in col.glyphs.iter() {
        assert_eq!(g.colour, green());
        assert!(alphabet_contains(g.character));
    }
}

#[test]
fn spark_free_revolution_darkens_the_head() {
    // Height 5, seed colour pure green; five ticks whose spark row never
    // hits the trail pointer.
    let mut col = GlyphColumnState::new(green(), 5);
    let idxs = vec![0usize; 5];
    for step in 0..5usize {
        let trail = col.trail_start;
        // Any row other than the trail pointer avoids the spark.
        let spark_row = (trail + 1) % 5;
        col.tick_with(spark_row, FADE_RATE_MIN, &idxs, 0);
        assert_eq!(col.glyphs.len(), 5);
        assert_eq!(col.trail_start, (trail + 1) % 5);
        assert_eq!(col.fade_rate, FADE_RATE_MAX, "no spark fired at step {step}");
    }
    assert_eq!(col.trail_start, 0);
    let head = col.glyphs[0];
    assert_eq!(head.colour, col.current_colour);
    assert!(lightness_of(head.colour) < lightness_of(green()));
}

#[test]
fn height_one_column_sparks_every_tick() {
    let mut col = GlyphColumnState::new(green(), 1);
    // The spark decision alone resets the trail colour exactly.
    for _ in 0..3 {
        col.spark_check(0, 1);
        assert_eq!(col.current_colour, col.initial_colour);
        assert_eq!(col.fade_rate, 1);
    }
    // A whole tick sparks, then fades the reborn trail colour once.
    let idxs = vec![0usize];
    for _ in 0..4 {
        col.tick_with(0, 1, &idxs, 0);
        assert_eq!(col.trail_start, 0);
        assert_eq!(col.current_colour, fade_colour(green(), 1));
    }
    // The only random row of a height-1 column is 0, so the random tick
    // sparks as well: the new trail colour is the seed faded once, by
    // whichever fresh rate the spark drew.
    col.tick();
    assert!(
        col.current_colour == fade_colour(green(), 1)
            || col.current_colour == fade_colour(green(), 2)
    );
}

#[test]
fn shift_discards_the_tail_and_injects_the_faded_head() {
    let mut col = GlyphColumnState::new(green(), 3);
    let before = col.glyphs.clone();
    col.shift(4);
    assert_eq!(col.glyphs.len(), 3);
    assert_eq!(col.glyphs[0].character, 'ｳ');
    assert_eq!(col.glyphs[0].colour, col.current_colour);
    assert_eq!(col.glyphs[1], before[0]);
    assert_eq!(col.glyphs[2], before[1]);
}

#[test]
fn random_ticks_keep_the_glyph_count_and_advance_the_trail() {
    let mut col = GlyphColumnState::new(green(), 7);
    for _ in 0..50 {
        let trail = col.trail_start;
        col.tick();
        assert_eq!(col.glyphs.len(), 7);
        assert_eq!(col.trail_start, (trail + 1) % 7);
        assert_eq!(col.initial_colour, green());
        for g in col.glyphs.iter() {
            assert!(alphabet_contains(g.character));
        }
    }
}

#[test]
fn records_round_trip_rebuilds_an_identical_column() {
    let mut col = GlyphColumnState::new(green(), 4);
    let idxs = vec![3usize, 1, 4, 1];
    col.tick_with(2, 1, &idxs, 5);
    col.tick_with(0, 2, &idxs, 9);

    let records = col.glyph_records();
    assert_eq!(records.len(), 4);
    let rebuilt = GlyphColumnState::from_records(
        &records,
        col.trail_start,
        col.fade_rate,
        col.initial_colour,
        col.current_colour,
    )
    .expect("a column's own records rebuild it");
    assert_eq!(rebuilt.glyphs, col.glyphs);
    assert_eq!(rebuilt.trail_start, col.trail_start);
    assert_eq!(rebuilt.fade_rate, col.fade_rate);
    assert_eq!(rebuilt.initial_colour, col.initial_colour);
    assert_eq!(rebuilt.current_colour, col.current_colour);
    assert_eq!(rebuilt.glyph_records(), records);
}

#[test]
fn from_records_rejects_ill_formed_columns() {
    let ok = GlyphRecord { character: 'ﾊ', r: 0, g: 255, b: 0 };
    // No glyphs at all.
    assert!(GlyphColumnState::from_records(&vec![], 0, 1, green(), green()).is_none());
    // Trail pointer outside the column.
    assert!(GlyphColumnState::from_records(&vec![ok], 1, 1, green(), green()).is_none());
    // Fade rate outside its working band.
    assert!(GlyphColumnState::from_records(&vec![ok], 0, 0, green(), green()).is_none());
    assert!(GlyphColumnState::from_records(&vec![ok], 0, 4, green(), green()).is_none());
    // A character from outside the alphabet.
    let bad = GlyphRecord { character: 'x', r: 0, g: 255, b: 0 };
    assert!(GlyphColumnState::from_records(&vec![ok, bad], 0, 1, green(), green()).is_none());
    // The well-formed record alone is accepted.
    assert!(GlyphColumnState::from_records(&vec![ok], 0, 1, green(), green()).is_some());
}

#[test]
fn canvas_lists_one_entry_per_column() {
    let canvas = CanvasState::new(5);
    assert_eq!(canvas.columns, vec![0, 1, 2, 3, 4]);
    let empty = CanvasState::new(0);
    assert!(empty.columns.is_empty());
    let _ = Canvas::new();
    let _ = GlyphColumn::new();
}
