//! Helpers for talking to the price provider.

use vstd::prelude::*;
use crate::model::{Contract, Symbol};

verus! {

/// A value that can stand as one cell of a comma-separated list.
pub trait CsvCell {
    /// The text of the cell.
    spec fn cell_text(&self) -> Seq<char>;

    /// The text of the cell.
    fn to_cell(&self) -> (s: String)
        ensures
            s@ == self.cell_text(),
    ;
}

impl CsvCell for &str {
    open spec fn cell_text(&self) -> Seq<char> {
        (*self)@
    }

    fn to_cell(&self) -> (s: String) {
        (*self).to_owned()
    }
}

impl CsvCell for String {
    open spec fn cell_text(&self) -> Seq<char> {
        self@
    }

    fn to_cell(&self) -> (s: String) {
        self.clone()
    }
}

impl CsvCell for Contract {
    open spec fn cell_text(&self) -> Seq<char> {
        self.0@
    }

    fn to_cell(&self) -> (s: String) {
        self.to_text()
    }
}

impl CsvCell for Symbol {
    open spec fn cell_text(&self) -> Seq<char> {
        self.0@
    }

    fn to_cell(&self) -> (s: String) {
        self.to_text()
    }
}

/// The texts of the cells, in order.
pub open spec fn cell_texts<T: CsvCell>(v: Seq<T>) -> Seq<Seq<char>> {
    v.map_values(|x: T| x.cell_text())
}

/// The texts joined with `,` between consecutive ones.
pub open spec fn comma_joined(cells: Seq<Seq<char>>) -> Seq<char>
    decreases cells.len(),
{
    if cells.len() == 0 {
        Seq::empty()
    } else if cells.len() == 1 {
        cells[0]
    } else {
        comma_joined(cells.drop_last()) + ","@ + cells.last()
    }
}

/// The pieces of `s` between commas, as splitting on `,` gives them: one
/// more piece than there are commas, empty pieces included.
pub open spec fn split_on_commas(s: Seq<char>) -> Seq<Seq<char>>
    decreases s.len(),
{
    if s.len() == 0 {
        seq![Seq::empty()]
    } else {
        let rest = split_on_commas(s.drop_last());
        if s.last() == ',' {
            rest.push(Seq::empty())
        } else {
            rest.update(rest.len() - 1, rest.last().push(s.last()))
        }
    }
}

/// Splitting never gives an empty list of pieces.
proof fn lemma_split_nonempty(s: Seq<char>)
    ensures
        split_on_commas(s).len() >= 1,
    decreases s.len(),
{
    if s.len() > 0 {
        lemma_split_nonempty(s.drop_last());
    }
}

/// Appending text without commas extends the last piece.
proof fn lemma_split_append_plain(p: Seq<char>, c: Seq<char>)
    requires
        !c.contains(','),
    ensures
        split_on_commas(p + c).len() == split_on_commas(p).len(),
        split_on_commas(p + c) == split_on_commas(p).update(
            split_on_commas(p).len() - 1,
            split_on_commas(p).last() + c,
        ),
    decreases c.len(),
{
    lemma_split_nonempty(p);
    if c.len() == 0 {
        assert(p + c =~= p);
        assert(split_on_commas(p).last() + c =~= split_on_commas(p).last());
        assert(split_on_commas(p).update(split_on_commas(p).len() - 1, split_on_commas(p).last())
            =~= split_on_commas(p));
    } else {
        let c0 = c.drop_last();
        assert(!c0.contains(',')) by {
            if c0.contains(',') {
                let i = choose|i: int| 0 <= i < c0.len() && c0[i] == ',';
                assert(c[i] == ',');
            }
        }
        assert(c.last() != ',') by {
            assert(c[c.len() - 1] == c.last());
        }
        lemma_split_append_plain(p, c0);
        assert((p + c).drop_last() =~= p + c0);
        assert((p + c).last() == c.last());
        lemma_split_nonempty(p + c0);
        let r = split_on_commas(p);
        assert(split_on_commas(p + c) =~= r.update(r.len() - 1, r.last() + c)) by {
            assert((r.last() + c0).push(c.last()) =~= r.last() + c);
        }
    }
}

/// Splitting the comma-joined texts of cells that hold no comma gives the
/// cells back.
pub proof fn lemma_split_recovers_cells(cells: Seq<Seq<char>>)
    requires
        cells.len() >= 1,
        forall|i: int| 0 <= i < cells.len() ==> !(#[trigger] cells[i]).contains(','),
    ensures
        split_on_commas(comma_joined(cells)) == cells,
    decreases cells.len(),
{
    if cells.len() == 1 {
        lemma_split_append_plain(Seq::empty(), cells[0]);
        assert(Seq::<char>::empty() + cells[0] =~= cells[0]);
        assert(split_on_commas(Seq::empty()) =~= seq![Seq::<char>::empty()]);
        assert(Seq::<char>::empty() + cells[0] =~= cells[0]);
        assert(split_on_commas(cells[0]) =~= cells);
    } else {
        let front = cells.drop_last();
        assert forall|i: int| 0 <= i < front.len() implies !(#[trigger] front[i]).contains(',') by {
            assert(front[i] == cells[i]);
        }
        lemma_split_recovers_cells(front);
        let x = comma_joined(front);
        let xc = x + ","@;
        reveal_strlit(",");
        assert(xc.drop_last() =~= x);
        assert(xc.last() == ',');
        assert(split_on_commas(xc) == front.push(Seq::empty()));
        assert(!cells.last().contains(',')) by {
            assert(cells[cells.len() - 1] == cells.last());
        }
        lemma_split_append_plain(xc, cells.last());
        assert(comma_joined(cells) == xc + cells.last());
        assert(Seq::<char>::empty() + cells.last() =~= cells.last());
        assert(front.push(Seq::empty()).update(front.len() as int, cells.last()) =~= cells);
    }
}

/// The values' texts joined with commas: `a,b,c`.
pub fn join_as_csv<T: CsvCell>(v: &[T]) -> (s: String)
    ensures
        s@ == comma_joined(cell_texts(v@)),
{
    let mut s = String::new();
    let mut i: usize = 0;
    while i < v.len()
        invariant
            i <= v@.len(),
            s@ == comma_joined(cell_texts(v@.take(i as int))),
        decreases v.len() - i,
    {
        let cell = v[i].to_cell();
        proof {
            let prev = cell_texts(v@.take(i as int));
            let next = cell_texts(v@.take(i + 1));
            assert(next.drop_last() =~= prev);
            assert(next.last() == v@[i as int].cell_text());
        }
        if i > 0 {
            s.append(",");
        }
        s.append(cell.as_str());
        i = i + 1;
    }
    assert(v@.take(v@.len() as int) =~= v@);
    s
}

/// Turning a value received from the provider into a domain value, with
/// data that the caller adds.
pub trait WithEnrichment<T, OUTPUT> {
    fn into_domain(self, enrichment_data: T) -> OUTPUT;
}

} // verus!
