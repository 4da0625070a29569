//! The immutable multi-line text buffer the cursor navigates.
//!
//! A buffer is fixed at startup and never changes afterwards; its
//! mathematical content is a sequence of lines, each a sequence of
//! characters.  Line lengths are counted in characters, not bytes.

use vstd::prelude::*;
use vstd::string::StrSliceExecFns;

verus! {

/// The most lines a buffer may hold, so that every derived pixel
/// coordinate fits comfortably in the fixed-point range.
pub const MAX_LINES: usize = 1_000_000;

/// The most characters a line may hold, for the same reason.
pub const MAX_COLS: usize = 1_000_000;

/// The largest line length in a sequence of lines (zero when there are none).
pub open spec fn max_line_len_of(lines: Seq<Seq<char>>) -> int
    decreases lines.len(),
{
    if lines.len() == 0 {
        0
    } else {
        let rest = max_line_len_of(lines.drop_last());
        let last = lines.last().len() as int;
        if last > rest {
            last
        } else {
            rest
        }
    }
}

/// `max_line_len_of` bounds every line's length from above, and is itself
/// the length of some line whenever there is one.
pub proof fn lemma_max_line_len_is_bound(lines: Seq<Seq<char>>)
    ensures
        max_line_len_of(lines) >= 0,
        forall|i: int| 0 <= i < lines.len() ==> lines[i].len() <= max_line_len_of(lines),
        lines.len() > 0 ==> exists|i: int|
            0 <= i < lines.len() && max_line_len_of(lines) == lines[i].len(),
    decreases lines.len(),
{
    if lines.len() > 0 {
        lemma_max_line_len_is_bound(lines.drop_last());
        assert(lines.last() == lines[lines.len() - 1]);
        if max_line_len_of(lines) == lines.last().len() {
            assert(max_line_len_of(lines) == lines[lines.len() - 1].len());
        } else {
            let j = choose|i: int|
                0 <= i < lines.drop_last().len() && max_line_len_of(lines.drop_last())
                    == lines.drop_last()[i].len();
            assert(lines.drop_last()[j] == lines[j]);
            assert(max_line_len_of(lines) == lines[j].len());
        }
        assert forall|i: int| 0 <= i < lines.len() implies lines[i].len() <= max_line_len_of(
            lines,
        ) by {
            if i < lines.len() - 1 {
                assert(lines.drop_last()[i] == lines[i]);
            }
        }
    }
}

/// An immutable buffer of text lines, fixed at startup.
pub struct TextBuffer {
    lines: Vec<String>,
}

impl View for TextBuffer {
    type V = Seq<Seq<char>>;

    closed spec fn view(&self) -> Seq<Seq<char>> {
        self.lines@.map_values(|s: String| s@)
    }
}

impl TextBuffer {
    /// A buffer is well formed when it has at least one line and its
    /// dimensions stay within the fixed-point-safe limits.
    pub open spec fn wf(&self) -> bool {
        &&& 1 <= self@.len() <= MAX_LINES
        &&& forall|i: int| 0 <= i < self@.len() ==> self@[i].len() <= MAX_COLS
    }

    /// Builds the buffer from its lines.
    pub fn new(lines: Vec<String>) -> (r: TextBuffer)
        requires
            1 <= lines@.len() <= MAX_LINES,
            forall|i: int| 0 <= i < lines@.len() ==> lines@[i]@.len() <= MAX_COLS,
        ensures
            r@ == lines@.map_values(|s: String| s@),
            r.wf(),
    {
        let r = TextBuffer { lines };
        proof {
            assert(forall|i: int| 0 <= i < r@.len() ==> r@[i] == r.lines@[i]@);
        }
        r
    }

    /// The number of lines.
    pub fn line_count(&self) -> (r: usize)
        ensures
            r == self@.len(),
    {
        self.lines.len()
    }

    /// The number of characters in line `i`.
    pub fn line_len(&self, i: usize) -> (r: usize)
        requires
            i < self@.len(),
        ensures
            r == self@[i as int].len(),
    {
        self.lines[i].as_str().unicode_len()
    }

    /// The number of characters in the longest line.
    pub fn max_line_len(&self) -> (r: usize)
        ensures
            r == max_line_len_of(self@),
    {
        let n = self.lines.len();
        let mut m: usize = 0;
        let mut i: usize = 0;
        while i < n
            invariant
                n == self@.len(),
                0 <= i <= n,
                m == max_line_len_of(self@.take(i as int)),
            decreases n - i,
        {
            let l = self.line_len(i);
            proof {
                assert(self@.take(i + 1).drop_last() =~= self@.take(i as int));
                assert(self@.take(i + 1).last() == self@[i as int]);
            }
            if l > m {
                m = l;
            }
            i = i + 1;
        }
        proof {
            assert(self@.take(n as int) =~= self@);
        }
        m
    }
}

} // verus!
