//! The batch builder: token ids of several texts, padded to one rectangle.

use crate::common::error::{RustBertError, RustBertErrorView};
use vstd::prelude::*;

verus! {

/// The token ids of several texts, one sequence per text.
pub open spec fn ids_view(token_ids: Seq<Vec<i64>>) -> Seq<Seq<i64>> {
    Seq::new(token_ids.len(), |i: int| token_ids[i]@)
}

/// The length of the longest of `rows`, zero where there is no row.
pub open spec fn row_max(rows: Seq<Seq<i64>>) -> nat
    decreases rows.len(),
{
    if rows.len() == 0 {
        0
    } else {
        let before = row_max(rows.drop_last());
        if rows.last().len() > before {
            rows.last().len()
        } else {
            before
        }
    }
}

/// `row` brought to the length `width`: its own entries first, `pad` in every
/// place behind them.
pub open spec fn padded(row: Seq<i64>, width: nat, pad: i64) -> Seq<i64> {
    Seq::new(
        width,
        |j: int|
            if j < row.len() {
                row[j]
            } else {
                pad
            },
    )
}

/// `rows`, each padded with `pad` to the length of the longest of them.
pub open spec fn padded_rows(rows: Seq<Seq<i64>>, pad: i64) -> Seq<Seq<i64>> {
    Seq::new(rows.len(), |i: int| padded(rows[i], row_max(rows), pad))
}

/// The description of the error for a tokenizer that has no padding token.
pub open spec fn missing_pad_message() -> Seq<char> {
    "The Tokenizer used for sequence classification should contain a PAD id"@
}

/// No row is longer than [`row_max`] says, and where there is a row, one of
/// them has that length.
pub proof fn lemma_row_max(rows: Seq<Seq<i64>>)
    ensures
        forall|i: int| 0 <= i < rows.len() ==> (#[trigger] rows[i]).len() <= row_max(rows),
        rows.len() > 0 ==> exists|i: int|
            0 <= i < rows.len() && (#[trigger] rows[i]).len() == row_max(rows),
        rows.len() == 0 ==> row_max(rows) == 0,
    decreases rows.len(),
{
    if rows.len() > 0 {
        let front = rows.drop_last();
        lemma_row_max(front);
        assert forall|i: int| 0 <= i < rows.len() implies (#[trigger] rows[i]).len() <= row_max(
            rows,
        ) by {
            if i < rows.len() - 1 {
                assert(front[i] == rows[i]);
            }
        }
        if rows.last().len() > row_max(front) || front.len() == 0 {
            assert(rows[rows.len() - 1].len() == row_max(rows));
        } else {
            let i = choose|i: int|
                0 <= i < front.len() && (#[trigger] front[i]).len() == row_max(front);
            assert(rows[i] == front[i]);
        }
    }
}

/// A rectangular grid of token ids: one row per text, every row of the same
/// length.
pub struct TokenizedBatch {
    rows: Vec<Vec<i64>>,
    width: usize,
}

impl View for TokenizedBatch {
    type V = Seq<Seq<i64>>;

    closed spec fn view(&self) -> Seq<Seq<i64>> {
        ids_view(self.rows@)
    }
}

impl TokenizedBatch {
    #[verifier::type_invariant]
    closed spec fn rectangular(self) -> bool {
        &&& forall|i: int| 0 <= i < self.rows.len() ==> (#[trigger] self.rows[i]).len() == self.width
        &&& self.rows.len() == 0 ==> self.width == 0
    }

    /// The number of columns of the grid: the length of each row, zero where
    /// there is no row.
    pub closed spec fn spec_width(&self) -> nat {
        self.width as nat
    }

    /// Builds the batch of the given token ids: each row padded with the
    /// padding id to the length of the longest row.
    ///
    /// Fails exactly when there is a row and no padding id. A batch of no
    /// rows needs none.
    pub fn from_token_ids(token_ids: Vec<Vec<i64>>, pad_id: Option<i64>) -> (r: Result<
        TokenizedBatch,
        RustBertError,
    >)
        ensures
            r is Err <==> token_ids.len() > 0 && pad_id is None,
            r matches Err(e) ==> e@ == RustBertErrorView::TokenizerError(missing_pad_message()),
            r matches Ok(batch) ==> match pad_id {
                Some(pad) => batch@ == padded_rows(ids_view(token_ids@), pad),
                None => batch@ == Seq::<Seq<i64>>::empty(),
            },
            r matches Ok(batch) ==> batch.spec_width() == row_max(ids_view(token_ids@)),
    {
        let ghost given = ids_view(token_ids@);
        if token_ids.len() == 0 {
            return Ok(TokenizedBatch { rows: Vec::new(), width: 0 });
        }
        let pad = match pad_id {
            Some(pad) => pad,
            None => {
                return Err(
                    RustBertError::TokenizerError(
                        "The Tokenizer used for sequence classification should contain a PAD id".to_owned(),
                    ),
                );
            },
        };
        let width = longest(&token_ids);
        proof {
            lemma_row_max(given);
        }
        let mut rows: Vec<Vec<i64>> = Vec::new();
        let mut i: usize = 0;
        while i < token_ids.len()
            invariant
                given == ids_view(token_ids@),
                width == row_max(given),
                forall|k: int| 0 <= k < given.len() ==> (#[trigger] given[k]).len() <= width,
                0 <= i <= token_ids.len(),
                rows.len() == i,
                forall|k: int| 0 <= k < i ==> (#[trigger] rows[k])@ == padded(given[k], width as nat, pad),
            decreases token_ids.len() - i,
        {
            let source = &token_ids[i];
            assert(given[i as int] == source@);
            let row = pad_row(source, width, pad);
            rows.push(row);
            i += 1;
        }
        Ok(TokenizedBatch { rows, width })
    }

    /// The number of rows: one per text.
    pub fn num_rows(&self) -> (n: usize)
        ensures
            n == self@.len(),
    {
        self.rows.len()
    }

    /// The number of columns: the length of each row, zero where there is no
    /// row.
    pub fn width(&self) -> (w: usize)
        ensures
            w == self.spec_width(),
            forall|i: int| 0 <= i < self@.len() ==> (#[trigger] self@[i]).len() == w,
            self@.len() == 0 ==> w == 0,
    {
        proof {
            use_type_invariant(self);
        }
        self.width
    }

    /// The rows of the grid, first text first.
    pub fn rows(&self) -> (rows: &Vec<Vec<i64>>)
        ensures
            ids_view(rows@) == self@,
            forall|i: int| 0 <= i < rows.len() ==> (#[trigger] rows[i]).len() == self.spec_width(),
    {
        proof {
            use_type_invariant(self);
        }
        &self.rows
    }
}

/// The length of the longest row, zero where there is no row.
fn longest(token_ids: &Vec<Vec<i64>>) -> (width: usize)
    ensures
        width == row_max(ids_view(token_ids@)),
{
    let ghost given = ids_view(token_ids@);
    let mut width: usize = 0;
    let mut i: usize = 0;
    while i < token_ids.len()
        invariant
            given == ids_view(token_ids@),
            0 <= i <= token_ids.len(),
            width == row_max(given.take(i as int)),
        decreases token_ids.len() - i,
    {
        assert(given.take(i + 1).drop_last() =~= given.take(i as int));
        if token_ids[i].len() > width {
            width = token_ids[i].len();
        }
        i += 1;
    }
    assert(given.take(token_ids.len() as int) =~= given);
    width
}

/// A copy of `source` brought to the length `width` with `pad`.
fn pad_row(source: &Vec<i64>, width: usize, pad: i64) -> (row: Vec<i64>)
    requires
        source.len() <= width,
    ensures
        row@ == padded(source@, width as nat, pad),
{
    let mut row: Vec<i64> = Vec::new();
    let mut j: usize = 0;
    while j < width
        invariant
            source.len() <= width,
            0 <= j <= width,
            row.len() == j,
            forall|k: int| 0 <= k < j ==> #[trigger] row[k] == padded(source@, width as nat, pad)[k],
        decreases width - j,
    {
        if j < source.len() {
            row.push(source[j]);
        } else {
            row.push(pad);
        }
        j += 1;
    }
    row
}

} // verus!
