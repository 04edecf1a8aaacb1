//! The note grid: fixed-size patterns of rows by channels.

use vstd::prelude::*;

verus! {

/// Number of channels in every pattern row.
pub const NUM_CHANNELS: usize = 16;

/// Number of rows in a pattern; one row is consumed per scheduler tick.
pub const ROWS_PER_PATTERN: usize = 64;

/// Number of instrument slots; channel `i` is bound to instrument
/// `i % NUM_INSTRUMENTS`.
pub const NUM_INSTRUMENTS: usize = 32;

/// One cell of the note grid. `key == 0` means the cell is empty (note off
/// on playback); otherwise `key` is a MIDI note number in `1..=127`.
#[derive(Clone, Copy, PartialEq, Eq, Structural, Debug)]
pub struct Note {
    pub key: u8,
}

impl Default for Note {
    fn default() -> (n: Note)
        ensures
            n.key == 0,
    {
        Note { key: 0 }
    }
}

/// A fixed grid of `ROWS_PER_PATTERN` rows, each `NUM_CHANNELS` notes wide.
pub struct Pattern {
    pub rows: Vec<Vec<Note>>,
}

impl View for Pattern {
    type V = Seq<Seq<Note>>;

    open spec fn view(&self) -> Seq<Seq<Note>> {
        self.rows@.map_values(|r: Vec<Note>| r@)
    }
}

/// Shape invariant of a pattern grid: exactly `ROWS_PER_PATTERN` rows of
/// `NUM_CHANNELS` notes each.
pub open spec fn grid_wf(g: Seq<Seq<Note>>) -> bool {
    &&& g.len() == ROWS_PER_PATTERN
    &&& forall|r: int| 0 <= r < g.len() ==> (#[trigger] g[r]).len() == NUM_CHANNELS
}

/// The grid with every note cleared.
pub open spec fn empty_grid() -> Seq<Seq<Note>> {
    Seq::new(ROWS_PER_PATTERN as nat, |r: int| Seq::new(NUM_CHANNELS as nat, |c: int| Note { key: 0 }))
}

/// `g` cut or padded with empty notes to the fixed pattern shape.
pub open spec fn normalized_grid(g: Seq<Seq<Note>>) -> Seq<Seq<Note>> {
    Seq::new(
        ROWS_PER_PATTERN as nat,
        |r: int|
            Seq::new(
                NUM_CHANNELS as nat,
                |c: int|
                    if r < g.len() && c < g[r].len() {
                        g[r][c]
                    } else {
                        Note { key: 0 }
                    },
            ),
    )
}

impl Pattern {
    /// Shape invariant: exactly `ROWS_PER_PATTERN` rows of `NUM_CHANNELS`
    /// notes each.
    pub open spec fn wf(&self) -> bool {
        grid_wf(self@)
    }

    /// This pattern cut or padded with empty notes to the fixed shape.
    /// Notes inside the shape are kept; a project whose grid has the wrong
    /// shape is mended rather than refused.
    pub fn normalized(&self) -> (p: Pattern)
        ensures
            p@ == normalized_grid(self@),
            p.wf(),
    {
        let mut rows: Vec<Vec<Note>> = Vec::new();
        let mut r: usize = 0;
        while r < ROWS_PER_PATTERN
            invariant
                r <= ROWS_PER_PATTERN,
                rows@.len() == r as int,
                forall|i: int| 0 <= i < r as int ==> (#[trigger] rows@[i])@ == normalized_grid(self@)[i],
            decreases ROWS_PER_PATTERN - r,
        {
            let mut row: Vec<Note> = Vec::new();
            let mut c: usize = 0;
            while c < NUM_CHANNELS
                invariant
                    c <= NUM_CHANNELS,
                    r < ROWS_PER_PATTERN,
                    row@.len() == c as int,
                    forall|j: int|
                        0 <= j < c as int ==> row@[j] == normalized_grid(self@)[r as int][j],
                decreases NUM_CHANNELS - c,
            {
                let note = if r < self.rows.len() && c < self.rows[r].len() {
                    self.rows[r][c]
                } else {
                    Note { key: 0 }
                };
                row.push(note);
                c = c + 1;
            }
            assert(row@ =~= normalized_grid(self@)[r as int]);
            rows.push(row);
            r = r + 1;
        }
        let p = Pattern { rows };
        assert(p@ =~= normalized_grid(self@));
        p
    }
}

impl Clone for Pattern {
    fn clone(&self) -> (p: Pattern)
        ensures
            p@ == self@,
    {
        let mut rows: Vec<Vec<Note>> = Vec::new();
        let mut r: usize = 0;
        while r < self.rows.len()
            invariant
                r <= self.rows@.len(),
                rows@.len() == r as int,
                forall|i: int| 0 <= i < r as int ==> (#[trigger] rows@[i])@ == self@[i],
            decreases self.rows@.len() - r,
        {
            let mut row: Vec<Note> = Vec::new();
            let mut c: usize = 0;
            let src = &self.rows[r];
            while c < src.len()
                invariant
                    c <= src@.len(),
                    row@ =~= src@.subrange(0, c as int),
                decreases src@.len() - c,
            {
                row.push(src[c]);
                c = c + 1;
            }
            assert(row@ =~= src@);
            rows.push(row);
            r = r + 1;
        }
        let p = Pattern { rows };
        assert(p@ =~= self@);
        p
    }
}

impl Default for Pattern {
    /// The empty pattern: every note cleared.
    fn default() -> (p: Pattern)
        ensures
            p.wf(),
            p@ == empty_grid(),
    {
        let mut rows: Vec<Vec<Note>> = Vec::new();
        while rows.len() < ROWS_PER_PATTERN
            invariant
                rows@.len() <= ROWS_PER_PATTERN,
                forall|r: int|
                    0 <= r < rows@.len() ==> (#[trigger] rows@[r])@.len() == NUM_CHANNELS,
                forall|r: int, c: int|
                    0 <= r < rows@.len() && 0 <= c < NUM_CHANNELS ==> (#[trigger] rows@[r]@[c]).key
                        == 0,
            decreases ROWS_PER_PATTERN - rows@.len(),
        {
            let mut row: Vec<Note> = Vec::new();
            while row.len() < NUM_CHANNELS
                invariant
                    row@.len() <= NUM_CHANNELS,
                    forall|c: int| 0 <= c < row@.len() ==> (#[trigger] row@[c]).key == 0,
                decreases NUM_CHANNELS - row@.len(),
            {
                row.push(Note { key: 0 });
            }
            rows.push(row);
        }
        let p = Pattern { rows };
        assert(p@ =~~= empty_grid());
        p
    }
}

} // verus!
