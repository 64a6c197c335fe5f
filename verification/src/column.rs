//! One vertical strip of glyphs and its per-tick evolution.
//!
//! A column is a fixed-length sequence of glyphs with a trail pointer that
//! completes one revolution every `height` ticks.  Each tick runs five
//! steps: the randomized trail-restart ("spark") decision, a flicker pass
//! over every glyph, the pointer advance, the colour fade, and the shift
//! that discards the tail glyph and injects a fresh one at the head.
//!
//! The whole tick is deterministic once its random draws are fixed, so the
//! exec functions promise equality with the spec-level step functions
//! below; the random entry points then state what holds of every draw.

use vstd::prelude::*;

use crate::alphabet::{alphabet, alphabet_chars, alphabet_contains};
use crate::color::{fade_colour, faded, light_pct, Rgb};
use crate::glyph::{glyph_wf, retyped, Glyph};
use crate::rng::rand_below;

verus! {

/// The fade rate a freshly built column starts with, in lightness
/// percentage points per tick.
pub const FADE_RATE_MAX: u8 = 3;

/// The smallest fade rate a spark can select.
pub const FADE_RATE_MIN: u8 = 1;

/// The mathematical value of a column: its glyph sequence and the four
/// trail-tracking fields.
#[verifier::ext_equal]
pub struct ColumnModel {
    pub glyphs: Seq<Glyph>,
    pub trail_start: usize,
    pub fade_rate: u8,
    pub initial_colour: Rgb,
    pub current_colour: Rgb,
}

/// A column's invariant: at least one glyph, the trail pointer inside the
/// column, the fade rate within its working band, and every glyph showing
/// an alphabet character.
pub open spec fn col_wf(c: ColumnModel) -> bool {
    &&& c.glyphs.len() >= 1
    &&& c.glyphs.len() <= usize::MAX
    &&& (c.trail_start as int) < c.glyphs.len()
    &&& FADE_RATE_MIN <= c.fade_rate <= FADE_RATE_MAX
    &&& forall|i: int| 0 <= i < c.glyphs.len() ==> glyph_wf(#[trigger] c.glyphs[i])
}

/// The random draws one tick consumes: the row compared against the trail
/// pointer, the fade rate a spark would select, one character index per
/// glyph for the flicker pass, and the character index of the new head.
pub struct TickInput {
    pub spark_row: usize,
    pub rate: u8,
    pub retype: Seq<usize>,
    pub head: usize,
}

/// The bounds every draw of [`TickInput`] satisfies by construction.
pub open spec fn input_valid(c: ColumnModel, i: TickInput) -> bool {
    &&& (i.spark_row as int) < c.glyphs.len()
    &&& FADE_RATE_MIN <= i.rate < FADE_RATE_MAX
    &&& i.retype.len() == c.glyphs.len()
    &&& forall|j: int| 0 <= j < i.retype.len() ==> (#[trigger] i.retype[j]) < alphabet().len()
    &&& (i.head as int) < alphabet().len()
}

/// Step 1, the trail restart decision: when the drawn row equals the trail
/// pointer, the fade rate is renewed and the trail colour snaps back to
/// full brightness; otherwise nothing changes.
pub open spec fn spec_spark(c: ColumnModel, spark_row: usize, rate: u8) -> ColumnModel {
    if spark_row == c.trail_start {
        ColumnModel { fade_rate: rate, current_colour: c.initial_colour, ..c }
    } else {
        c
    }
}

/// The glyph sequence after the flicker pass: each glyph retyped with its
/// own drawn character index.
pub open spec fn flickered(gs: Seq<Glyph>, idxs: Seq<usize>) -> Seq<Glyph> {
    Seq::new(gs.len(), |i: int| retyped(gs[i], idxs[i]))
}

/// Step 2, the flicker pass over the whole column.
pub open spec fn spec_flicker(c: ColumnModel, idxs: Seq<usize>) -> ColumnModel {
    ColumnModel { glyphs: flickered(c.glyphs, idxs), ..c }
}

/// Step 3, the pointer advance: one step forward, wrapping to 0 at the
/// column height.
pub open spec fn spec_advance(c: ColumnModel) -> ColumnModel {
    ColumnModel {
        trail_start: if c.trail_start + 1 == c.glyphs.len() {
            0
        } else {
            (c.trail_start + 1) as usize
        },
        ..c
    }
}

/// Step 4, the fade: the trail colour darkens by the column's fade rate.
pub open spec fn spec_fade(c: ColumnModel) -> ColumnModel {
    ColumnModel { current_colour: faded(c.current_colour, c.fade_rate), ..c }
}

/// Step 5, the shift: the tail glyph is discarded and a fresh glyph —
/// the alphabet character at `head`, painted the freshly faded trail
/// colour — enters at the head.
pub open spec fn spec_shift(c: ColumnModel, head: usize) -> ColumnModel {
    ColumnModel {
        glyphs: seq![Glyph { character: alphabet()[head as int], colour: c.current_colour }]
            + c.glyphs.take(c.glyphs.len() - 1),
        ..c
    }
}

/// One whole tick: spark decision, flicker, advance, fade, shift.
pub open spec fn spec_tick(c: ColumnModel, i: TickInput) -> ColumnModel {
    spec_shift(
        spec_fade(spec_advance(spec_flicker(spec_spark(c, i.spark_row, i.rate), i.retype))),
        i.head,
    )
}

/// The column a sequence of ticks leaves behind.
pub open spec fn run(c: ColumnModel, inputs: Seq<TickInput>) -> ColumnModel
    decreases inputs.len(),
{
    if inputs.len() == 0 {
        c
    } else {
        run(spec_tick(c, inputs[0]), inputs.drop_first())
    }
}

/// Whether every input of a sequence of ticks is in bounds for the column
/// state it meets.
pub open spec fn inputs_valid(c: ColumnModel, inputs: Seq<TickInput>) -> bool
    decreases inputs.len(),
{
    inputs.len() == 0
        || (input_valid(c, inputs[0]) && inputs_valid(spec_tick(c, inputs[0]), inputs.drop_first()))
}

/// One tick preserves the column invariant and the glyph count, and moves
/// the trail pointer forward by exactly one, modulo the column height.
pub proof fn lemma_tick_wf(c: ColumnModel, i: TickInput)
    requires
        col_wf(c),
        input_valid(c, i),
    ensures
        col_wf(spec_tick(c, i)),
        spec_tick(c, i).glyphs.len() == c.glyphs.len(),
        spec_tick(c, i).trail_start as int == (c.trail_start + 1) % (c.glyphs.len() as int),
        spec_tick(c, i).initial_colour == c.initial_colour,
{
    let len = c.glyphs.len() as int;
    let after_spark = spec_spark(c, i.spark_row, i.rate);
    let after_flicker = spec_flicker(after_spark, i.retype);
    let after_advance = spec_advance(after_flicker);
    let after_fade = spec_fade(after_advance);
    let end = spec_shift(after_fade, i.head);
    assert forall|j: int| 0 <= j < len implies glyph_wf(#[trigger] after_flicker.glyphs[j]) by {
        crate::glyph::lemma_retyped_keeps_colour(c.glyphs[j], i.retype[j]);
    }
    assert forall|j: int| 0 <= j < len implies glyph_wf(#[trigger] end.glyphs[j]) by {
        if j == 0 {
            assert(alphabet().contains(alphabet()[i.head as int]));
        } else {
            assert(end.glyphs[j] == after_flicker.glyphs[j - 1]);
        }
    }
    assert(end.glyphs.len() == len);
    let t = c.trail_start as int;
    assert(end.trail_start == after_advance.trail_start);
    if t + 1 == len {
        assert(len % len == 0) by (nonlinear_arith)
            requires len >= 1;
    } else {
        assert((t + 1) % len == t + 1) by (nonlinear_arith)
            requires 0 <= t + 1 < len;
    }
}

/// Any number of ticks preserves the column invariant and leaves the glyph
/// count unchanged; in particular the trail pointer stays inside
/// `[0, height)` before and after every tick.
pub proof fn lemma_run_wf(c: ColumnModel, inputs: Seq<TickInput>)
    requires
        col_wf(c),
        inputs_valid(c, inputs),
    ensures
        col_wf(run(c, inputs)),
        run(c, inputs).glyphs.len() == c.glyphs.len(),
        run(c, inputs).initial_colour == c.initial_colour,
    decreases inputs.len(),
{
    if inputs.len() > 0 {
        lemma_tick_wf(c, inputs[0]);
        lemma_run_wf(spec_tick(c, inputs[0]), inputs.drop_first());
    }
}

/// One serialized glyph: its character and its colour channels, flattened
/// to plain values.
#[derive(Clone, Copy, Debug, PartialEq, Eq, Structural)]
pub struct GlyphRecord {
    pub character: char,
    pub r: u8,
    pub g: u8,
    pub b: u8,
}

/// The glyph sequence as plain character–colour records.
pub open spec fn records_of(gs: Seq<Glyph>) -> Seq<GlyphRecord> {
    Seq::new(
        gs.len(),
        |i: int| GlyphRecord {
            character: gs[i].character,
            r: gs[i].colour.r,
            g: gs[i].colour.g,
            b: gs[i].colour.b,
        },
    )
}

/// The glyph sequence that a sequence of character–colour records
/// describes.
pub open spec fn glyphs_of(rs: Seq<GlyphRecord>) -> Seq<Glyph> {
    Seq::new(
        rs.len(),
        |i: int| Glyph {
            character: rs[i].character,
            colour: Rgb { r: rs[i].r, g: rs[i].g, b: rs[i].b },
        },
    )
}

/// A glyph sequence survives a round trip through its character–colour
/// records unchanged: the records carry the glyphs' whole state.
pub proof fn lemma_records_round_trip(gs: Seq<Glyph>)
    ensures
        glyphs_of(records_of(gs)) == gs,
{
    assert(records_of(gs).len() == gs.len());
    assert forall|i: int| 0 <= i < gs.len() implies glyphs_of(records_of(gs))[i] == gs[i] by {
        assert(records_of(gs)[i] == (GlyphRecord {
            character: gs[i].character,
            r: gs[i].colour.r,
            g: gs[i].colour.g,
            b: gs[i].colour.b,
        }));
        assert(glyphs_of(records_of(gs))[i] == (Glyph {
            character: records_of(gs)[i].character,
            colour: Rgb {
                r: records_of(gs)[i].r,
                g: records_of(gs)[i].g,
                b: records_of(gs)[i].b,
            },
        }));
    }
    assert(glyphs_of(records_of(gs)) =~= gs);
}

/// The state of one column.
pub struct GlyphColumnState {
    pub glyphs: Vec<Glyph>,
    pub trail_start: usize,
    pub fade_rate: u8,
    pub initial_colour: Rgb,
    pub current_colour: Rgb,
}

impl View for GlyphColumnState {
    type V = ColumnModel;

    open spec fn view(&self) -> ColumnModel {
        ColumnModel {
            glyphs: self.glyphs@,
            trail_start: self.trail_start,
            fade_rate: self.fade_rate,
            initial_colour: self.initial_colour,
            current_colour: self.current_colour,
        }
    }
}

impl GlyphColumnState {
    /// Build a column of `height` glyphs, each showing a random alphabet
    /// character painted with the seed colour.  The trail pointer starts at
    /// the top and the fade rate at its largest value.
    ///
    /// A zero height has no valid random row, so it is rejected at
    /// construction by the precondition.
    pub fn new(colour: Rgb, height: usize) -> (s: GlyphColumnState)
        requires
            height >= 1,
        ensures
            col_wf(s@),
            s@.glyphs.len() == height,
            s@.trail_start == 0,
            s@.fade_rate == FADE_RATE_MAX,
            s@.initial_colour == colour,
            s@.current_colour == colour,
            forall|i: int| 0 <= i < height ==> (#[trigger] s@.glyphs[i]).colour == colour,
    {
        let mut glyphs: Vec<Glyph> = Vec::new();
        let mut k: usize = 0;
        while k < height
            invariant
                k <= height,
                glyphs@.len() == k,
                forall|i: int|
                    0 <= i < k ==> glyph_wf(#[trigger] glyphs@[i]) && glyphs@[i].colour == colour,
            decreases height - k,
        {
            glyphs.push(Glyph::new_random(colour));
            k += 1;
        }
        GlyphColumnState {
            glyphs,
            trail_start: 0,
            fade_rate: FADE_RATE_MAX,
            initial_colour: colour,
            current_colour: colour,
        }
    }

    /// Step 1, the trail restart decision: when `spark_row` hits the trail
    /// pointer, the trail is reborn — the fade rate is renewed and the
    /// trail colour equals the seed colour exactly.
    pub fn spark_check(&mut self, spark_row: usize, rate: u8)
        requires
            col_wf(old(self)@),
            (spark_row as int) < old(self)@.glyphs.len(),
            FADE_RATE_MIN <= rate < FADE_RATE_MAX,
        ensures
            final(self)@ == spec_spark(old(self)@, spark_row, rate),
            col_wf(final(self)@),
            spark_row == old(self).trail_start ==> final(self).current_colour
                == old(self).initial_colour && final(self).fade_rate == rate,
            spark_row != old(self).trail_start ==> final(self)@ == old(self)@,
    {
        if self.trail_start == spark_row {
            self.fade_rate = rate;
            self.current_colour = self.initial_colour;
        }
    }

    /// Step 2, the flicker pass: every glyph is offered a re-roll, which it
    /// takes only while nearly dark.  No colour changes.
    pub fn flicker(&mut self, retype_idxs: &Vec<usize>)
        requires
            col_wf(old(self)@),
            retype_idxs@.len() == old(self)@.glyphs.len(),
            forall|j: int|
                0 <= j < retype_idxs@.len() ==> (#[trigger] retype_idxs@[j]) < alphabet().len(),
        ensures
            final(self)@ == spec_flicker(old(self)@, retype_idxs@),
            col_wf(final(self)@),
    {
        let len = self.glyphs.len();
        let mut k: usize = 0;
        while k < len
            invariant
                k <= len,
                len == old(self)@.glyphs.len(),
                self.glyphs@.len() == len,
                self.trail_start == old(self).trail_start,
                self.fade_rate == old(self).fade_rate,
                self.initial_colour == old(self).initial_colour,
                self.current_colour == old(self).current_colour,
                col_wf(old(self)@),
                retype_idxs@.len() == len,
                forall|j: int|
                    0 <= j < len ==> (#[trigger] retype_idxs@[j]) < alphabet().len(),
                forall|i: int|
                    0 <= i < k ==> self.glyphs@[i] == retyped(
                        old(self)@.glyphs[i],
                        retype_idxs@[i],
                    ),
                forall|i: int| k <= i < len ==> self.glyphs@[i] == old(self)@.glyphs[i],
            decreases len - k,
        {
            let mut g = self.glyphs[k];
            g.retype_with_index(retype_idxs[k]);
            self.glyphs.set(k, g);
            k += 1;
        }
        proof {
            assert(self.glyphs@ =~= flickered(old(self)@.glyphs, retype_idxs@));
            assert(self@ =~= spec_flicker(old(self)@, retype_idxs@));
            assert forall|i: int|
                0 <= i < len implies glyph_wf(#[trigger] self.glyphs@[i]) by {
                crate::glyph::lemma_retyped_keeps_colour(old(self)@.glyphs[i], retype_idxs@[i]);
            }
        }
    }

    /// Step 3, the pointer advance: the trail pointer moves forward by
    /// exactly one, modulo the column height.
    pub fn advance_trail(&mut self)
        requires
            col_wf(old(self)@),
        ensures
            final(self)@ == spec_advance(old(self)@),
            col_wf(final(self)@),
            final(self).trail_start as int
                == (old(self).trail_start + 1) % (old(self)@.glyphs.len() as int),
    {
        proof {
            let len = old(self)@.glyphs.len() as int;
            let t = old(self).trail_start as int;
            if t + 1 == len {
                assert(len % len == 0) by (nonlinear_arith)
                    requires len >= 1;
            } else {
                assert((t + 1) % len == t + 1) by (nonlinear_arith)
                    requires 0 <= t + 1 < len;
            }
        }
        let len = self.glyphs.len();
        self.trail_start = self.trail_start + 1;
        if self.trail_start == len {
            self.trail_start = 0;
        }
    }

    /// Step 4, the fade: the trail colour darkens by the fade rate; its
    /// lightness reading never rises.
    pub fn fade(&mut self)
        requires
            col_wf(old(self)@),
        ensures
            final(self)@ == spec_fade(old(self)@),
            col_wf(final(self)@),
            light_pct(final(self).current_colour) <= light_pct(old(self).current_colour),
    {
        let c = fade_colour(self.current_colour, self.fade_rate);
        self.current_colour = c;
    }

    /// Step 5, the shift: the tail glyph is removed and discarded, and a
    /// fresh glyph — showing the alphabet character at `head_idx`, painted
    /// the freshly faded trail colour — is inserted at the head.
    pub fn shift(&mut self, head_idx: usize)
        requires
            col_wf(old(self)@),
            (head_idx as int) < alphabet().len(),
        ensures
            final(self)@ == spec_shift(old(self)@, head_idx),
            col_wf(final(self)@),
            final(self)@.glyphs.len() == old(self)@.glyphs.len(),
            final(self).glyphs[0] == (Glyph {
                character: alphabet()[head_idx as int],
                colour: old(self).current_colour,
            }),
    {
        let g = Glyph::new_with_index(self.current_colour, head_idx);
        self.glyphs.insert(0, g);
        let last = self.glyphs.len() - 1;
        self.glyphs.remove(last);
        proof {
            assert(self.glyphs@ =~= spec_shift(old(self)@, head_idx).glyphs);
            assert(self@ =~= spec_shift(old(self)@, head_idx));
        }
    }

    /// One whole tick, with every random draw supplied by the caller: the
    /// spark decision, the flicker pass, the pointer advance, the fade and
    /// the shift, in that order.
    ///
    /// The result is exactly the spec-level tick; the further clauses spell
    /// out the glyph-count invariant, the pointer advance, the spark
    /// outcome, and the monotone fade of a spark-free tick.
    pub fn tick_with(
        &mut self,
        spark_row: usize,
        rate: u8,
        retype_idxs: &Vec<usize>,
        head_idx: usize,
    )
        requires
            col_wf(old(self)@),
            input_valid(
                old(self)@,
                (TickInput { spark_row, rate, retype: retype_idxs@, head: head_idx }),
            ),
        ensures
            final(self)@ == spec_tick(
                old(self)@,
                (TickInput { spark_row, rate, retype: retype_idxs@, head: head_idx }),
            ),
            col_wf(final(self)@),
            final(self)@.glyphs.len() == old(self)@.glyphs.len(),
            final(self).trail_start as int
                == (old(self).trail_start + 1) % (old(self)@.glyphs.len() as int),
            final(self).initial_colour == old(self).initial_colour,
            spark_row == old(self).trail_start ==> final(self).fade_rate == rate
                && final(self).current_colour == faded(old(self).initial_colour, rate),
            spark_row != old(self).trail_start ==> final(self).fade_rate == old(self).fade_rate
                && light_pct(final(self).current_colour) <= light_pct(old(self).current_colour),
    {
        self.spark_check(spark_row, rate);
        self.flicker(retype_idxs);
        self.advance_trail();
        self.fade();
        self.shift(head_idx);
    }

    /// One whole tick with fresh random draws: a spark roughly once per
    /// revolution, a fresh fade rate when it fires, and uniform character
    /// draws for the flicker pass and the new head glyph.
    ///
    /// Whatever the draws return, the tick is some valid deterministic
    /// tick: the glyph count is kept, the trail pointer advances by one
    /// modulo the height, and the seed colour is untouched.
    pub fn tick(&mut self)
        requires
            col_wf(old(self)@),
        ensures
            col_wf(final(self)@),
            final(self)@.glyphs.len() == old(self)@.glyphs.len(),
            final(self).trail_start as int
                == (old(self).trail_start + 1) % (old(self)@.glyphs.len() as int),
            final(self).initial_colour == old(self).initial_colour,
            exists|i: TickInput|
                input_valid(old(self)@, i) && final(self)@ == spec_tick(old(self)@, i),
    {
        let height = self.glyphs.len();
        let spark_row = rand_below(height);
        let rate_offset = rand_below((FADE_RATE_MAX - FADE_RATE_MIN) as usize);
        let rate = FADE_RATE_MIN + (rate_offset as u8);
        let chars = alphabet_chars();
        let mut retype_idxs: Vec<usize> = Vec::new();
        let mut k: usize = 0;
        while k < height
            invariant
                k <= height,
                retype_idxs@.len() == k,
                chars@ == alphabet(),
                forall|j: int| 0 <= j < k ==> (#[trigger] retype_idxs@[j]) < alphabet().len(),
            decreases height - k,
        {
            retype_idxs.push(rand_below(chars.len()));
            k += 1;
        }
        let head_idx = rand_below(chars.len());
        self.tick_with(spark_row, rate, &retype_idxs, head_idx);
        proof {
            let wit = TickInput { spark_row, rate, retype: retype_idxs@, head: head_idx };
            assert(input_valid(old(self)@, wit) && self@ == spec_tick(old(self)@, wit));
        }
    }

    /// The column's glyph sequence as plain character–colour records, in
    /// display order.
    pub fn glyph_records(&self) -> (v: Vec<GlyphRecord>)
        ensures
            v@ == records_of(self@.glyphs),
    {
        let mut v: Vec<GlyphRecord> = Vec::new();
        let mut k: usize = 0;
        while k < self.glyphs.len()
            invariant
                k <= self.glyphs@.len(),
                v@.len() == k,
                forall|i: int|
                    0 <= i < k ==> #[trigger] v@[i] == (GlyphRecord {
                        character: self.glyphs@[i].character,
                        r: self.glyphs@[i].colour.r,
                        g: self.glyphs@[i].colour.g,
                        b: self.glyphs@[i].colour.b,
                    }),
            decreases self.glyphs@.len() - k,
        {
            let g = self.glyphs[k];
            v.push(GlyphRecord { character: g.character, r: g.colour.r, g: g.colour.g, b: g.colour.b });
            k += 1;
        }
        proof {
            assert(v@ =~= records_of(self@.glyphs));
        }
        v
    }

    /// Rebuild a column from its character–colour records and the four
    /// column-level fields.  Succeeds exactly when the records describe a
    /// well-formed column: at least one glyph, the trail pointer inside the
    /// column, the fade rate within its working band, and every character
    /// in the alphabet.
    pub fn from_records(
        records: &Vec<GlyphRecord>,
        trail_start: usize,
        fade_rate: u8,
        initial_colour: Rgb,
        current_colour: Rgb,
    ) -> (r: Option<GlyphColumnState>)
        ensures
            r is Some <==> {
                &&& records@.len() >= 1
                &&& (trail_start as int) < records@.len()
                &&& FADE_RATE_MIN <= fade_rate <= FADE_RATE_MAX
                &&& forall|i: int|
                    0 <= i < records@.len() ==> alphabet().contains(
                        (#[trigger] records@[i]).character,
                    )
            },
            r matches Some(s) ==> s@ == (ColumnModel {
                glyphs: glyphs_of(records@),
                trail_start,
                fade_rate,
                initial_colour,
                current_colour,
            }) && col_wf(s@),
    {
        if records.len() < 1 || trail_start >= records.len() || fade_rate < FADE_RATE_MIN
            || fade_rate > FADE_RATE_MAX {
            return None;
        }
        let mut glyphs: Vec<Glyph> = Vec::new();
        let mut k: usize = 0;
        while k < records.len()
            invariant
                k <= records@.len(),
                glyphs@.len() == k,
                forall|i: int|
                    0 <= i < k ==> #[trigger] glyphs@[i] == (Glyph {
                        character: records@[i].character,
                        colour: Rgb { r: records@[i].r, g: records@[i].g, b: records@[i].b },
                    }),
                forall|i: int|
                    0 <= i < k ==> alphabet().contains((#[trigger] records@[i]).character),
            decreases records@.len() - k,
        {
            let rec = records[k];
            if !alphabet_contains(rec.character) {
                return None;
            }
            glyphs.push(Glyph {
                character: rec.character,
                colour: Rgb { r: rec.r, g: rec.g, b: rec.b },
            });
            k += 1;
        }
        proof {
            assert forall|i: int|
                0 <= i < records@.len() implies glyphs@[i] == glyphs_of(records@)[i] by {
                assert(glyphs_of(records@)[i] == (Glyph {
                    character: records@[i].character,
                    colour: Rgb { r: records@[i].r, g: records@[i].g, b: records@[i].b },
                }));
            }
            assert(glyphs@ =~= glyphs_of(records@));
        }
        Some(GlyphColumnState { glyphs, trail_start, fade_rate, initial_colour, current_colour })
    }
}

/// The marker for one column rendered by the host runtime; the state it
/// animates lives in [`GlyphColumnState`].
pub struct GlyphColumn {}

impl GlyphColumn {
    /// A new column marker.
    pub fn new() -> (c: GlyphColumn)
        ensures
            c == (GlyphColumn {}),
    {
        GlyphColumn {}
    }
}

} // verus!
