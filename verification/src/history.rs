//! The history store: the ordered, capacity-bounded scrollback of
//! interpreted entries, oldest first. It is created empty per session,
//! mutated only by appends and full clears, and never trims from the front.

use vstd::prelude::*;

use crate::terminal::{
    classify, interpret, interpret_model, Command, CommandModel, HistoryOp, HistoryOpModel,
    Interpretation, SideEffect, HISTORY_LIMIT,
};

verus! {

/// The scrollback: an insertion-ordered list of interpreted entries.
#[derive(Clone, Debug, PartialEq, Eq)]
pub struct History {
    entries: Vec<Command>,
}

impl View for History {
    type V = Seq<CommandModel>;

    closed spec fn view(&self) -> Seq<CommandModel> {
        self.entries@.map_values(|c: Command| c@)
    }
}

/// What a history operation leaves of a scrollback: a wipe, one more entry
/// at the end, or a wipe followed by one fresh entry.
pub open spec fn apply_op(h: Seq<CommandModel>, op: HistoryOpModel) -> Seq<CommandModel> {
    match op {
        HistoryOpModel::Clear => Seq::empty(),
        HistoryOpModel::Append(c) => h.push(c),
        HistoryOpModel::ClearThenAppend(c) => Seq::empty().push(c),
    }
}

/// From a scrollback holding more than twelve entries, one submission —
/// whatever its input — keeps none of the old entries: `clear` leaves the
/// scrollback empty, and every other input wipes it before appending its one
/// fresh entry, so the post-state holds at most one entry.
pub proof fn lemma_capacity(h: Seq<CommandModel>, s: Seq<char>)
    requires
        h.len() > HISTORY_LIMIT,
    ensures
        apply_op(h, interpret_model(s, h.len()).op).len() <= 1,
        s == "clear"@ ==> apply_op(h, interpret_model(s, h.len()).op) == Seq::<
            CommandModel,
        >::empty(),
        s != "clear"@ ==> apply_op(h, interpret_model(s, h.len()).op) == seq![classify(s)],
{
    if s != "clear"@ {
        assert(apply_op(h, interpret_model(s, h.len()).op) =~= seq![classify(s)]);
    }
}

impl History {
    /// A fresh, empty scrollback.
    pub fn new() -> (h: History)
        ensures
            h@ == Seq::<CommandModel>::empty(),
    {
        let h = History { entries: Vec::new() };
        proof {
            assert(h@ =~= Seq::<CommandModel>::empty());
        }
        h
    }

    /// How many entries the scrollback holds.
    pub fn len(&self) -> (n: usize)
        ensures
            n == self@.len(),
    {
        self.entries.len()
    }

    /// The entry at position `i`, oldest first.
    pub fn get(&self, i: usize) -> (c: &Command)
        requires
            i < self@.len(),
        ensures
            c@ == self@[i as int],
    {
        &self.entries[i]
    }

    /// Appends one entry at the end; every older entry stays in place.
    pub fn append(&mut self, c: Command)
        ensures
            final(self)@ == old(self)@.push(c@),
    {
        let ghost prev = self.entries@;
        self.entries.push(c);
        proof {
            assert(self@ =~= prev.map_values(|x: Command| x@).push(self.entries@.last()@));
        }
    }

    /// Wipes the scrollback, whatever it held — clearing an already-empty
    /// history leaves it empty.
    pub fn clear(&mut self)
        ensures
            final(self)@ == Seq::<CommandModel>::empty(),
    {
        self.entries.clear();
        proof {
            assert(self@ =~= Seq::<CommandModel>::empty());
        }
    }

    /// Applies one history operation.
    pub fn apply(&mut self, op: HistoryOp)
        ensures
            final(self)@ == apply_op(old(self)@, op@),
    {
        match op {
            HistoryOp::Clear => self.clear(),
            HistoryOp::Append(c) => self.append(c),
            HistoryOp::ClearThenAppend(c) => {
                self.clear();
                self.append(c);
            },
        }
    }

    /// Runs one full submission: interprets `raw` against the current
    /// length, applies the resulting operation, and reports the side effect
    /// for the host to perform.
    pub fn submit(&mut self, raw: String) -> (effect: SideEffect)
        ensures
            final(self)@ == apply_op(old(self)@, interpret_model(raw@, old(self)@.len()).op),
            effect@ == interpret_model(raw@, old(self)@.len()).effect,
            old(self)@.len() > HISTORY_LIMIT ==> final(self)@.len() <= 1,
    {
        let n = self.len();
        let Interpretation { op, effect } = interpret(raw, n);
        self.apply(op);
        effect
    }
}

} // verus!
