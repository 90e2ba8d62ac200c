use vstd::prelude::*;
use vstd::string::StringExecFns;

use crate::color::{colorize, styled, Color};
use crate::text::{
    char_len, concat_all, lemma_concat_take, push_char, push_repeated, repeated, views,
};

verus! {

broadcast use vstd::string::group_string_axioms;

/// `a - b`, or 0 where `b` is the larger.
pub open spec fn sat_sub(a: int, b: int) -> int {
    if a > b {
        a - b
    } else {
        0
    }
}

/// The margin before every line of the left column: half of the room that
/// the widest left line leaves in its half of the terminal.
pub open spec fn begin_pad(half: int, longest: int) -> int {
    sat_sub(half, longest) / 2
}

/// The gap between a left line of `len` characters and the right column.
pub open spec fn end_pad(half: int, longest: int, len: int) -> int {
    sat_sub(sat_sub(half, len), begin_pad(half, longest))
}

/// `n` spaces.
pub open spec fn spaces(n: int) -> Seq<char> {
    repeated(' ', n as nat)
}

/// A row that holds a left line, drawn in `color`, and a right line.
pub open spec fn paired_row(
    half: int,
    longest: int,
    left: Seq<char>,
    right: Seq<char>,
    color: Color,
) -> Seq<char> {
    spaces(begin_pad(half, longest)) + styled(left, color) + spaces(
        end_pad(half, longest, left.len() as int),
    ) + right + seq!['\n']
}

/// A row past the end of the left column: the right line after `half` spaces.
pub open spec fn drain_row(half: int, right: Seq<char>) -> Seq<char> {
    spaces(half) + right + seq!['\n']
}

/// The rows of the two columns: the i-th left line beside the i-th right
/// line (or nothing once the right lines run out), then the right lines that
/// are left over.
pub open spec fn layout_rows(
    half: int,
    left: Seq<Seq<char>>,
    right: Seq<Seq<char>>,
    longest: int,
    color: Color,
) -> Seq<Seq<char>> {
    let n = if left.len() >= right.len() {
        left.len()
    } else {
        right.len()
    };
    Seq::new(
        n,
        |i: int|
            if i < left.len() {
                paired_row(
                    half,
                    longest,
                    left[i],
                    if i < right.len() {
                        right[i]
                    } else {
                        Seq::empty()
                    },
                    color,
                )
            } else {
                drain_row(half, right[i])
            },
    )
}

/// With as many right lines as left lines, there is one row per pair, and
/// the i-th row holds the i-th left line, drawn in the left colour, then the
/// i-th right line.
pub proof fn lemma_equal_columns_pair_up(
    half: int,
    left: Seq<Seq<char>>,
    right: Seq<Seq<char>>,
    longest: int,
    color: Color,
)
    requires
        left.len() == right.len(),
    ensures
        layout_rows(half, left, right, longest, color).len() == left.len(),
        forall|i: int|
            0 <= i < left.len() ==> #[trigger] layout_rows(half, left, right, longest, color)[i]
                == spaces(begin_pad(half, longest)) + styled(left[i], color) + spaces(
                end_pad(half, longest, left[i].len() as int),
            ) + right[i] + seq!['\n'],
{
}

/// With `k` more right lines than left lines, the paired rows are followed by
/// exactly `k` rows, each the next leftover right line after `half` spaces,
/// in the order they were given.
pub proof fn lemma_leftover_right_lines(
    half: int,
    left: Seq<Seq<char>>,
    right: Seq<Seq<char>>,
    longest: int,
    color: Color,
    k: int,
)
    requires
        k >= 0,
        left.len() + k == right.len(),
        half >= 0,
    ensures
        layout_rows(half, left, right, longest, color).len() == left.len() + k,
        forall|j: int|
            0 <= j < k ==> #[trigger] layout_rows(half, left, right, longest, color)[left.len() + j]
                == spaces(half) + right[left.len() + j] + seq!['\n'],
        forall|j: int|
            0 <= j < k ==> #[trigger] layout_rows(half, left, right, longest, color)[left.len()
                + j].take(half) == spaces(half),
{
    assert forall|j: int| 0 <= j < k implies #[trigger] layout_rows(half, left, right, longest, color)[left.len()
        + j].take(half) == spaces(half) by {
        let row = layout_rows(half, left, right, longest, color)[left.len() + j];
        assert(row.take(half) =~= spaces(half));
    }
}

/// With fewer right lines than left lines, every left line still has its row,
/// and those past the last right line are paired with an empty right line.
pub proof fn lemma_leftover_left_lines(
    half: int,
    left: Seq<Seq<char>>,
    right: Seq<Seq<char>>,
    longest: int,
    color: Color,
)
    requires
        left.len() > right.len(),
    ensures
        layout_rows(half, left, right, longest, color).len() == left.len(),
        forall|i: int|
            right.len() <= i < left.len() ==> #[trigger] layout_rows(half, left, right, longest, color)[i]
                == paired_row(half, longest, left[i], Seq::empty(), color),
{
}

/// The paddings are never negative, and while a left line is no wider than
/// the widest one, which fits in half the terminal, the margin, the line and
/// the gap after it fill exactly half the terminal.
pub proof fn lemma_padding(half: int, longest: int, len: int)
    requires
        half >= 0,
        longest >= 0,
        len >= 0,
    ensures
        0 <= begin_pad(half, longest) <= half,
        0 <= end_pad(half, longest, len) <= half,
        len <= longest <= half ==> begin_pad(half, longest) + len + end_pad(half, longest, len)
            == half,
{
}

/// The terminal that the summary is printed to.
pub struct Terminal {
    width: u16,
}

impl Terminal {
    /// The terminal's width in columns.
    pub closed spec fn width(&self) -> nat {
        self.width as nat
    }

    /// A terminal `width` columns wide.
    pub fn new(width: u16) -> (r: Terminal)
        ensures
            r.width() == width,
    {
        Terminal { width }
    }

    /// Lays the `left` lines, drawn in `primary`, and the `right` lines out as
    /// two columns on either side of the middle of the terminal, one row per
    /// line, each row ended by a newline.
    pub fn render(&self, left: &Vec<String>, right: &Vec<String>, longest_left: usize, primary: Color) -> (r: String)
        ensures
            r@ == concat_all(
                layout_rows(
                    self.width() as int / 2,
                    views(left@),
                    views(right@),
                    longest_left as int,
                    primary,
                ),
            ),
    {
        let half: usize = (self.width / 2) as usize;
        let ghost rows = layout_rows(
            half as int,
            views(left@),
            views(right@),
            longest_left as int,
            primary,
        );
        let begin: usize = if half > longest_left {
            (half - longest_left) / 2
        } else {
            0
        };
        let mut out = String::new();
        let mut i: usize = 0;
        while i < left.len()
            invariant
                half as int == self.width() as int / 2,
                begin as int == begin_pad(half as int, longest_left as int),
                rows == layout_rows(half as int, views(left@), views(right@), longest_left as int, primary),
                i <= left@.len(),
                i <= rows.len(),
                out@ == concat_all(rows.take(i as int)),
            decreases left@.len() - i,
        {
            let line: &str = left[i].as_str();
            let len = char_len(line);
            let room: usize = if half > len {
                half - len
            } else {
                0
            };
            let end: usize = if room > begin {
                room - begin
            } else {
                0
            };
            let mut row = String::new();
            push_repeated(&mut row, ' ', begin);
            let drawn = colorize(line, primary);
            row.append(drawn.as_str());
            push_repeated(&mut row, ' ', end);
            if i < right.len() {
                row.append(right[i].as_str());
            }
            push_char(&mut row, '\n');
            proof {
                let r = if i < right@.len() { right@[i as int]@ } else { Seq::<char>::empty() };
                assert(row@ =~= paired_row(half as int, longest_left as int, left@[i as int]@, r, primary));
                lemma_concat_take(rows, i as int);
            }
            out.append(row.as_str());
            i = i + 1;
        }
        while i < right.len()
            invariant
                half as int == self.width() as int / 2,
                rows == layout_rows(half as int, views(left@), views(right@), longest_left as int, primary),
                left@.len() <= i,
                i <= rows.len(),
                out@ == concat_all(rows.take(i as int)),
            decreases rows.len() - i,
        {
            let mut row = String::new();
            push_repeated(&mut row, ' ', half);
            row.append(right[i].as_str());
            push_char(&mut row, '\n');
            proof {
                assert(row@ =~= drain_row(half as int, right@[i as int]@));
                lemma_concat_take(rows, i as int);
            }
            out.append(row.as_str());
            i = i + 1;
        }
        assert(rows.take(i as int) =~= rows);
        out
    }
}

} // verus!
