//! Preparing pieces for a bulk import into the catalog: the works of the
//! popular composers, each title and composer once.

use crate::models::{lemma_rows_push, rows, InsertablePiece};
use vstd::prelude::*;
use vstd::string::StringExecFns;

verus! {

/// A title and the composer it is by, as contracts see a piece without id.
pub struct PieceName {
    pub title: Seq<char>,
    pub composer: Seq<char>,
}

impl View for InsertablePiece {
    type V = PieceName;

    open spec fn view(&self) -> PieceName {
        PieceName { title: self.title@, composer: self.composer@ }
    }
}

/// A composer as a catalogue of works lists them.
#[derive(Debug, PartialEq, Eq)]
pub struct ComposerEntry {
    pub complete_name: String,
    /// `"1"` marks a popular composer.
    pub popular: String,
    pub works: Vec<String>,
}

/// Whether the composer is marked as popular.
pub open spec fn is_popular(composer: ComposerEntry) -> bool {
    composer.popular@ == "1"@
}

/// The works of one composer as pieces, in their order.
pub open spec fn works_of(composer: ComposerEntry) -> Seq<PieceName> {
    Seq::new(
        composer.works@.len(),
        |k: int| PieceName { title: composer.works@[k]@, composer: composer.complete_name@ },
    )
}

/// The works of the popular composers among the given ones as pieces,
/// composer by composer.
pub open spec fn popular_works(composers: Seq<ComposerEntry>) -> Seq<PieceName>
    decreases composers.len(),
{
    if composers.len() == 0 {
        Seq::empty()
    } else if is_popular(composers.last()) {
        popular_works(composers.drop_last()) + works_of(composers.last())
    } else {
        popular_works(composers.drop_last())
    }
}

/// The first occurrence of each item, in the order of the list.
pub open spec fn first_occurrences<A>(items: Seq<A>) -> Seq<A>
    decreases items.len(),
{
    if items.len() == 0 {
        Seq::empty()
    } else if items.drop_last().contains(items.last()) {
        first_occurrences(items.drop_last())
    } else {
        first_occurrences(items.drop_last()).push(items.last())
    }
}

/// An item is among the first occurrences exactly if it is in the list.
pub proof fn lemma_first_occurrences_member<A>(items: Seq<A>, item: A)
    ensures
        first_occurrences(items).contains(item) <==> items.contains(item),
    decreases items.len(),
{
    if items.len() > 0 {
        let head = items.drop_last();
        let last = items.last();
        let firsts = first_occurrences(items);
        let before = first_occurrences(head);
        lemma_first_occurrences_member(head, item);
        lemma_first_occurrences_member(head, last);
        if items.contains(item) {
            let i = choose|i: int| 0 <= i < items.len() && items[i] == item;
            if i < head.len() {
                assert(head[i] == item);
                assert(head.contains(item));
            }
            if before.contains(item) {
                let k = choose|k: int| 0 <= k < before.len() && before[k] == item;
                assert(firsts[k] == item);
            } else {
                assert(item == last);
                assert(firsts[firsts.len() - 1] == item);
            }
        }
        if firsts.contains(item) {
            let k = choose|k: int| 0 <= k < firsts.len() && firsts[k] == item;
            if k < before.len() {
                assert(before[k] == item);
                assert(before.contains(item));
                let i = choose|i: int| 0 <= i < head.len() && head[i] == item;
                assert(items[i] == item);
            } else {
                assert(items[items.len() - 1] == item);
            }
        }
    }
}

/// No item is twice among the first occurrences.
pub proof fn lemma_first_occurrences_distinct<A>(items: Seq<A>)
    ensures
        first_occurrences(items).no_duplicates(),
    decreases items.len(),
{
    if items.len() > 0 {
        let head = items.drop_last();
        let last = items.last();
        let firsts = first_occurrences(items);
        let before = first_occurrences(head);
        lemma_first_occurrences_distinct(head);
        lemma_first_occurrences_member(head, last);
        assert forall|i: int, j: int| 0 <= i < firsts.len() && 0 <= j < firsts.len() && i
            != j implies firsts[i] != firsts[j] by {
            let n = before.len();
            if i < n && j < n {
                assert(before[i] == firsts[i]);
                assert(before[j] == firsts[j]);
            } else if i < n {
                assert(before[i] == firsts[i]);
                assert(before.contains(before[i]));
            } else if j < n {
                assert(before[j] == firsts[j]);
                assert(before.contains(before[j]));
            }
        }
    }
}

fn is_marked(popular: &String) -> (marked: bool)
    ensures
        marked == (popular@ == "1"@),
{
    let mark = String::from_str("1");
    *popular == mark
}

/// The works of the popular composers as pieces, composer by composer and
/// work by work.
pub fn popular_pieces(composers: &Vec<ComposerEntry>) -> (pieces: Vec<InsertablePiece>)
    ensures
        rows(pieces@) == popular_works(composers@),
{
    let mut pieces: Vec<InsertablePiece> = Vec::new();
    let mut i: usize = 0;
    proof {
        assert(composers@.take(0) =~= Seq::empty());
        assert(rows(pieces@) =~= Seq::empty());
    }
    while i < composers.len()
        invariant
            i <= composers.len(),
            rows(pieces@) == popular_works(composers@.take(i as int)),
        decreases composers.len() - i,
    {
        let composer = &composers[i];
        proof {
            assert(composers@.take(i + 1).drop_last() =~= composers@.take(i as int));
            assert(composers@.take(i + 1).last() == composers@[i as int]);
        }
        if is_marked(&composer.popular) {
            let ghost before = rows(pieces@);
            let mut k: usize = 0;
            while k < composer.works.len()
                invariant
                    k <= composer.works.len(),
                    composer == &composers@[i as int],
                    rows(pieces@) == before + works_of(*composer).take(k as int),
                decreases composer.works.len() - k,
            {
                let piece = InsertablePiece {
                    title: composer.works[k].clone(),
                    composer: composer.complete_name.clone(),
                };
                proof {
                    lemma_rows_push(pieces@, piece);
                    assert(before + works_of(*composer).take(k + 1) =~= (before + works_of(
                        *composer,
                    ).take(k as int)).push(piece@));
                }
                pieces.push(piece);
                k += 1;
            }
            proof {
                assert(works_of(*composer).take(k as int) =~= works_of(*composer));
            }
        }
        i += 1;
    }
    proof {
        assert(composers@.take(i as int) =~= composers@);
    }
    pieces
}

fn holds_piece(pieces: &Vec<InsertablePiece>, piece: &InsertablePiece) -> (found: bool)
    ensures
        found == rows(pieces@).contains(piece@),
{
    let mut i: usize = 0;
    while i < pieces.len()
        invariant
            i <= pieces.len(),
            forall|k: int| 0 <= k < i ==> rows(pieces@)[k] != piece@,
        decreases pieces.len() - i,
    {
        if pieces[i].same_as(piece) {
            assert(rows(pieces@)[i as int] == piece@);
            return true;
        }
        i += 1;
    }
    false
}

/// The pieces without those that repeat an earlier one, title and composer
/// letter for letter.
pub fn without_duplicates(pieces: &Vec<InsertablePiece>) -> (kept: Vec<InsertablePiece>)
    ensures
        rows(kept@) == first_occurrences(rows(pieces@)),
        rows(kept@).no_duplicates(),
        forall|name: PieceName| rows(kept@).contains(name) <==> rows(pieces@).contains(name),
{
    let ghost all = rows(pieces@);
    let mut kept: Vec<InsertablePiece> = Vec::new();
    let mut i: usize = 0;
    proof {
        assert(all.take(0) =~= Seq::empty());
        assert(rows(kept@) =~= Seq::empty());
    }
    while i < pieces.len()
        invariant
            i <= pieces.len(),
            all == rows(pieces@),
            rows(kept@) == first_occurrences(all.take(i as int)),
        decreases pieces.len() - i,
    {
        proof {
            assert(all.take(i + 1).drop_last() =~= all.take(i as int));
            assert(all.take(i + 1).last() == all[i as int]);
            lemma_first_occurrences_member(all.take(i as int), all[i as int]);
        }
        if !holds_piece(&kept, &pieces[i]) {
            let copy = pieces[i].clone();
            proof {
                lemma_rows_push(kept@, copy);
            }
            kept.push(copy);
        }
        i += 1;
    }
    proof {
        assert(all.take(i as int) =~= all);
        lemma_first_occurrences_distinct(all);
        assert forall|name: PieceName| rows(kept@).contains(name) <==> all.contains(name) by {
            lemma_first_occurrences_member(all, name);
        }
    }
    kept
}

} // verus!
