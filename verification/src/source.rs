//! A restartable sequence of code pairs with one-pair push-back.
//!
//! The source hands out pairs (or the faults of whatever produced them) in
//! order, keeps a single-slot buffer for the one pair of lookahead that the
//! header read loop needs, and records the one-way switch to extended string
//! decoding that a new-enough format version triggers.

use vstd::prelude::*;

use crate::error::{DxfError, ErrV};
use crate::pair::{CodePair, PairV};

verus! {

/// Abstract value of a source item: a pair, or a fault of the producer.
pub open spec fn item_view(x: Result<CodePair, DxfError>) -> Result<PairV, ErrV> {
    match x {
        Ok(p) => Ok(p@),
        Err(e) => Err(e@),
    }
}

/// Abstract state of a source: the items still to be handed out, in order,
/// and whether the extended-decoding switch has been made.
pub ghost struct SourceV {
    pub items: Seq<Result<PairV, ErrV>>,
    pub utf8: bool,
}

/// A source of code pairs with a single-slot push-back buffer.
pub struct CodePairSource {
    pending: Option<Result<CodePair, DxfError>>,
    items: Vec<Result<CodePair, DxfError>>,
    utf8: bool,
}

impl View for CodePairSource {
    type V = SourceV;

    closed spec fn view(&self) -> SourceV {
        SourceV {
            items: match self.pending {
                Some(x) => seq![item_view(x)] + self.items@.map_values(|y: Result<CodePair, DxfError>| item_view(y)),
                None => self.items@.map_values(|y: Result<CodePair, DxfError>| item_view(y)),
            },
            utf8: self.utf8,
        }
    }
}

impl CodePairSource {
    /// Whether the push-back slot is free; it holds exactly one pair.
    pub closed spec fn can_put_back(&self) -> bool {
        self.pending is None
    }

    /// A source over the given items, faults included.
    pub fn from_items(items: Vec<Result<CodePair, DxfError>>) -> (r: CodePairSource)
        ensures
            r@.items == items@.map_values(|y: Result<CodePair, DxfError>| item_view(y)),
            r@.utf8 == false,
            r.can_put_back(),
    {
        CodePairSource { pending: None, items, utf8: false }
    }

    /// A source over the given pairs, with no faults.
    pub fn from_pairs(pairs: Vec<CodePair>) -> (r: CodePairSource)
        ensures
            r@.items == pairs@.map_values(|p: CodePair| Ok::<PairV, ErrV>(p@)),
            r@.utf8 == false,
            r.can_put_back(),
    {
        let mut rest = pairs;
        let mut wrapped: Vec<Result<CodePair, DxfError>> = Vec::new();
        let ghost all: Seq<CodePair> = rest@;
        while rest.len() > 0
            invariant
                wrapped@.map_values(|y: Result<CodePair, DxfError>| item_view(y))
                    == all.take(wrapped@.len() as int).map_values(|p: CodePair| Ok::<PairV, ErrV>(p@)),
                wrapped@.len() + rest@.len() == all.len(),
                all.skip(wrapped@.len() as int) == rest@,
            decreases rest@.len(),
        {
            let ghost k = wrapped@.len() as int;
            let ghost prev_rest = rest@;
            let ghost prev_wrapped = wrapped@;
            let p = rest.remove(0);
            wrapped.push(Ok(p));
            proof {
                assert(all.skip(k)[0] == all[k]);
                assert(all[k] == p);
                assert(all.skip(k + 1) =~= rest@);
                assert forall|i: int| 0 <= i < k + 1 implies
                    item_view(wrapped@[i]) == Ok::<PairV, ErrV>(all.take(k + 1)[i]@) by {
                    if i < k {
                        assert(item_view(prev_wrapped[i])
                            == prev_wrapped.map_values(|y: Result<CodePair, DxfError>| item_view(y))[i]);
                        assert(all.take(k).map_values(|q: CodePair| Ok::<PairV, ErrV>(q@))[i]
                            == Ok::<PairV, ErrV>(all.take(k)[i]@));
                    }
                }
                assert(wrapped@.map_values(|y: Result<CodePair, DxfError>| item_view(y))
                    =~= all.take(k + 1).map_values(|q: CodePair| Ok::<PairV, ErrV>(q@)));
            }
        }
        proof {
            assert(all.take(wrapped@.len() as int) =~= all);
            assert(all.map_values(|p: CodePair| Ok::<PairV, ErrV>(p@))
                == wrapped@.map_values(|y: Result<CodePair, DxfError>| item_view(y)));
        }
        CodePairSource { pending: None, items: wrapped, utf8: false }
    }

    /// Hand out the next item: the pushed-back one if present, else the
    /// first remaining item; `None` once the source is exhausted.
    pub fn next(&mut self) -> (r: Option<Result<CodePair, DxfError>>)
        ensures
            final(self)@.utf8 == old(self)@.utf8,
            final(self).can_put_back(),
            old(self)@.items.len() == 0 ==> r is None && final(self)@.items == old(self)@.items,
            old(self)@.items.len() > 0 ==> (r matches Some(x)
                && item_view(x) == old(self)@.items[0]
                && final(self)@.items == old(self)@.items.skip(1)),
    {
        match self.pending.take() {
            Some(x) => {
                proof {
                    assert(final(self)@.items =~= old(self)@.items.skip(1));
                }
                Some(x)
            },
            None => {
                if self.items.len() > 0 {
                    let x = self.items.remove(0);
                    proof {
                        assert(final(self)@.items =~= old(self)@.items.skip(1));
                        assert(item_view(x) == old(self)@.items[0]);
                    }
                    Some(x)
                } else {
                    proof {
                        assert(final(self)@.items =~= old(self)@.items);
                    }
                    None
                }
            },
        }
    }

    /// Push one item back; the slot must be free.
    pub fn put_back(&mut self, item: Result<CodePair, DxfError>)
        requires
            old(self).can_put_back(),
        ensures
            final(self)@.items == seq![item_view(item)] + old(self)@.items,
            final(self)@.utf8 == old(self)@.utf8,
    {
        self.pending = Some(item);
    }

    /// Switch string decoding to the extended character set; one-way.
    pub fn read_as_utf8(&mut self)
        ensures
            final(self)@.items == old(self)@.items,
            final(self)@.utf8 == true,
            final(self).can_put_back() == old(self).can_put_back(),
    {
        self.utf8 = true;
    }

    /// Whether the extended-decoding switch has been made.
    pub fn reads_utf8(&self) -> (r: bool)
        ensures
            r == self@.utf8,
    {
        self.utf8
    }
}

} // verus!
