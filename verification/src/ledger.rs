//! The contribution ledger: who has pledged how much.
//!
//! The ledger is modelled as the list of its lines by ascending contributor.
//! A contributor has a line only while their cumulative pledge is not zero,
//! and never more than one.

use vstd::prelude::*;
use crate::error::ContractError;
use crate::identity::{
    comes_before, lemma_precedes_connected, lemma_precedes_irreflexive, lemma_precedes_transitive,
    precedes,
};
use crate::msg::{contribution_views, ContributionResponse, ContributionView};

verus! {

/// The contributors of `lines` come in strictly ascending order; so none
/// occurs twice.
pub open spec fn ascending(lines: Seq<ContributionView>) -> bool {
    forall|i: int, j: int|
        #![trigger lines[i], lines[j]]
        0 <= i < j < lines.len() ==> precedes(lines[i].contributor, lines[j].contributor)
}

/// No line of `lines` has a zero amount.
pub open spec fn all_positive(lines: Seq<ContributionView>) -> bool {
    forall|i: int| 0 <= i < lines.len() ==> (#[trigger] lines[i]).amount > 0
}

/// What holds of every ledger.
pub open spec fn well_formed(lines: Seq<ContributionView>) -> bool {
    ascending(lines) && all_positive(lines)
}

/// The sum of all amounts in `lines`.
pub open spec fn total(lines: Seq<ContributionView>) -> nat
    decreases lines.len(),
{
    if lines.len() == 0 {
        0
    } else {
        total(lines.drop_last()) + lines.last().amount as nat
    }
}

/// Whether `who` has a line in `lines`.
pub open spec fn holds(lines: Seq<ContributionView>, who: Seq<char>) -> bool {
    exists|i: int| 0 <= i < lines.len() && (#[trigger] lines[i]).contributor == who
}

/// The number of lines whose contributor comes before `who`. In a ledger this
/// is the place of `who`'s line, if there is one, and else the place where it
/// would go.
pub open spec fn rank(lines: Seq<ContributionView>, who: Seq<char>) -> nat
    decreases lines.len(),
{
    if lines.len() == 0 {
        0
    } else {
        rank(lines.drop_last(), who) + if precedes(lines.last().contributor, who) {
            1nat
        } else {
            0nat
        }
    }
}

/// The cumulative pledge of `who`: the amount on their line, and zero when
/// they have none.
pub open spec fn amount_of(lines: Seq<ContributionView>, who: Seq<char>) -> u128 {
    if holds(lines, who) {
        lines[rank(lines, who) as int].amount
    } else {
        0
    }
}

/// The ledger after `who` has pledged `amount` more: their line grows by
/// `amount`, or is created in its place. Pledging nothing changes nothing.
pub open spec fn credited(lines: Seq<ContributionView>, who: Seq<char>, amount: u128) -> Seq<
    ContributionView,
> {
    let at = rank(lines, who) as int;
    if amount == 0 {
        lines
    } else if holds(lines, who) {
        lines.update(
            at,
            ContributionView { contributor: who, amount: (lines[at].amount + amount) as u128 },
        )
    } else {
        lines.insert(at, ContributionView { contributor: who, amount })
    }
}

/// The ledger after `who` has taken back `amount`: their line shrinks by
/// `amount`, and goes when nothing is left on it. Where `who` has no line or
/// not that much on it, nothing changes.
pub open spec fn debited(lines: Seq<ContributionView>, who: Seq<char>, amount: u128) -> Seq<
    ContributionView,
> {
    let at = rank(lines, who) as int;
    if !holds(lines, who) || amount > lines[at].amount {
        lines
    } else if amount == lines[at].amount {
        lines.remove(at)
    } else {
        lines.update(
            at,
            ContributionView { contributor: who, amount: (lines[at].amount - amount) as u128 },
        )
    }
}

/// In ascending lines, those whose contributor comes before `who` are exactly
/// the first `rank(lines, who)` of them.
pub proof fn lemma_rank_splits(lines: Seq<ContributionView>, who: Seq<char>)
    requires
        ascending(lines),
    ensures
        rank(lines, who) <= lines.len(),
        forall|j: int|
            0 <= j < rank(lines, who) ==> precedes((#[trigger] lines[j]).contributor, who),
        forall|j: int|
            rank(lines, who) <= j < lines.len() ==> !precedes(
                (#[trigger] lines[j]).contributor,
                who,
            ),
    decreases lines.len(),
{
    if lines.len() > 0 {
        let front = lines.drop_last();
        let last = lines.last();
        assert(ascending(front)) by {
            assert forall|i: int, j: int| 0 <= i < j < front.len() implies precedes(
                (#[trigger] front[i]).contributor,
                (#[trigger] front[j]).contributor,
            ) by {
                assert(front[i] == lines[i] && front[j] == lines[j]);
            }
        }
        lemma_rank_splits(front, who);
        if precedes(last.contributor, who) {
            assert forall|j: int| 0 <= j < front.len() implies precedes(
                (#[trigger] front[j]).contributor,
                who,
            ) by {
                assert(front[j] == lines[j]);
                assert(last == lines[lines.len() - 1]);
                lemma_precedes_transitive(front[j].contributor, last.contributor, who);
            }
            if rank(front, who) < front.len() {
                assert(!precedes(front[rank(front, who) as int].contributor, who));
            }
            assert(rank(front, who) == front.len());
            assert forall|j: int| 0 <= j < rank(lines, who) implies precedes(
                (#[trigger] lines[j]).contributor,
                who,
            ) by {
                if j < front.len() {
                    assert(front[j] == lines[j]);
                }
            }
        } else {
            assert forall|j: int| 0 <= j < rank(lines, who) implies precedes(
                (#[trigger] lines[j]).contributor,
                who,
            ) by {
                assert(front[j] == lines[j]);
            }
            assert forall|j: int| rank(lines, who) <= j < lines.len() implies !precedes(
                (#[trigger] lines[j]).contributor,
                who,
            ) by {
                if j < front.len() {
                    assert(front[j] == lines[j]);
                }
            }
        }
    }
}

/// In ascending lines, a place before which every contributor comes before
/// `who`, and from which on none does, is the rank of `who`.
pub proof fn lemma_rank_is(lines: Seq<ContributionView>, who: Seq<char>, at: int)
    requires
        ascending(lines),
        0 <= at <= lines.len(),
        forall|j: int| 0 <= j < at ==> precedes((#[trigger] lines[j]).contributor, who),
        at < lines.len() ==> !precedes(lines[at].contributor, who),
    ensures
        rank(lines, who) == at,
{
    lemma_rank_splits(lines, who);
    let r = rank(lines, who) as int;
    if at < r {
        assert(precedes(lines[at].contributor, who));
    }
    if r < at {
        assert(precedes(lines[r].contributor, who));
        assert(!precedes(lines[r].contributor, who));
    }
}

/// In ascending lines, the contributor of the line at `at` has that line, and
/// no other: their rank is `at` and their cumulative pledge is its amount.
pub proof fn lemma_line_found(lines: Seq<ContributionView>, at: int)
    requires
        ascending(lines),
        0 <= at < lines.len(),
    ensures
        holds(lines, lines[at].contributor),
        rank(lines, lines[at].contributor) == at,
        amount_of(lines, lines[at].contributor) == lines[at].amount,
{
    let who = lines[at].contributor;
    lemma_precedes_irreflexive(who);
    lemma_rank_is(lines, who, at);
}

/// In ascending lines, a contributor without a line differs from every
/// contributor listed, comes after those before their rank and before those
/// from their rank on.
pub proof fn lemma_gap_found(lines: Seq<ContributionView>, who: Seq<char>)
    requires
        ascending(lines),
        !holds(lines, who),
    ensures
        rank(lines, who) <= lines.len(),
        forall|j: int|
            0 <= j < rank(lines, who) ==> precedes((#[trigger] lines[j]).contributor, who),
        forall|j: int|
            rank(lines, who) <= j < lines.len() ==> precedes(
                who,
                (#[trigger] lines[j]).contributor,
            ),
{
    lemma_rank_splits(lines, who);
    assert forall|j: int| rank(lines, who) <= j < lines.len() implies precedes(
        who,
        (#[trigger] lines[j]).contributor,
    ) by {
        lemma_precedes_connected(who, lines[j].contributor);
    }
}

/// A line put into `lines` adds its amount to the total.
pub proof fn lemma_total_insert(lines: Seq<ContributionView>, at: int, line: ContributionView)
    requires
        0 <= at <= lines.len(),
    ensures
        total(lines.insert(at, line)) == total(lines) + line.amount,
    decreases lines.len(),
{
    let longer = lines.insert(at, line);
    if at == lines.len() {
        assert(longer.drop_last() =~= lines);
    } else {
        assert(longer.drop_last() =~= lines.drop_last().insert(at, line));
        assert(longer.last() == lines.last());
        lemma_total_insert(lines.drop_last(), at, line);
    }
}

/// A line taken out of `lines` takes its amount from the total.
pub proof fn lemma_total_remove(lines: Seq<ContributionView>, at: int)
    requires
        0 <= at < lines.len(),
    ensures
        total(lines.remove(at)) == total(lines) - lines[at].amount,
    decreases lines.len(),
{
    let shorter = lines.remove(at);
    if at == lines.len() - 1 {
        assert(shorter =~= lines.drop_last());
    } else {
        assert(shorter.drop_last() =~= lines.drop_last().remove(at));
        assert(shorter.last() == lines.last());
        lemma_total_remove(lines.drop_last(), at);
    }
}

/// A line replaced in `lines` changes the total by the difference of the two
/// amounts.
pub proof fn lemma_total_update(lines: Seq<ContributionView>, at: int, line: ContributionView)
    requires
        0 <= at < lines.len(),
    ensures
        total(lines.update(at, line)) == total(lines) - lines[at].amount + line.amount,
    decreases lines.len(),
{
    let changed = lines.update(at, line);
    if at == lines.len() - 1 {
        assert(changed.drop_last() =~= lines.drop_last());
    } else {
        assert(changed.drop_last() =~= lines.drop_last().update(at, line));
        assert(changed.last() == lines.last());
        lemma_total_update(lines.drop_last(), at, line);
    }
}

/// In ascending lines, a contributor with a line has it at their rank.
pub proof fn lemma_holder_at_rank(lines: Seq<ContributionView>, who: Seq<char>)
    requires
        ascending(lines),
        holds(lines, who),
    ensures
        rank(lines, who) < lines.len(),
        lines[rank(lines, who) as int].contributor == who,
{
    let at = choose|i: int| 0 <= i < lines.len() && (#[trigger] lines[i]).contributor == who;
    lemma_line_found(lines, at);
}

/// A pledge keeps the ledger a ledger.
pub proof fn lemma_credited_well_formed(lines: Seq<ContributionView>, who: Seq<char>, amount: u128)
    requires
        well_formed(lines),
        amount_of(lines, who) + amount <= u128::MAX,
    ensures
        well_formed(credited(lines, who, amount)),
{
    let after = credited(lines, who, amount);
    let at = rank(lines, who) as int;
    if amount == 0 {
    } else if holds(lines, who) {
        lemma_holder_at_rank(lines, who);
        assert forall|i: int, j: int| 0 <= i < j < after.len() implies precedes(
            (#[trigger] after[i]).contributor,
            (#[trigger] after[j]).contributor,
        ) by {
            assert(after[i].contributor == lines[i].contributor);
            assert(after[j].contributor == lines[j].contributor);
        }
        assert forall|i: int| 0 <= i < after.len() implies (#[trigger] after[i]).amount > 0 by {
            if i != at {
                assert(after[i] == lines[i]);
            }
        }
    } else {
        lemma_gap_found(lines, who);
        assert forall|i: int, j: int| 0 <= i < j < after.len() implies precedes(
            (#[trigger] after[i]).contributor,
            (#[trigger] after[j]).contributor,
        ) by {
            if j < at {
                assert(after[i] == lines[i] && after[j] == lines[j]);
            } else if j == at {
                assert(after[i] == lines[i]);
            } else if i < at {
                assert(after[i] == lines[i] && after[j] == lines[j - 1]);
            } else if i == at {
                assert(after[j] == lines[j - 1]);
            } else {
                assert(after[i] == lines[i - 1] && after[j] == lines[j - 1]);
            }
        }
        assert forall|i: int| 0 <= i < after.len() implies (#[trigger] after[i]).amount > 0 by {
            if i < at {
                assert(after[i] == lines[i]);
            } else if i > at {
                assert(after[i] == lines[i - 1]);
            }
        }
    }
}

/// A pledge adds its amount to the contributor's cumulative pledge and to the
/// total.
pub proof fn lemma_credited_amount(lines: Seq<ContributionView>, who: Seq<char>, amount: u128)
    requires
        well_formed(lines),
        amount_of(lines, who) + amount <= u128::MAX,
    ensures
        amount_of(credited(lines, who, amount), who) == amount_of(lines, who) + amount,
        total(credited(lines, who, amount)) == total(lines) + amount,
{
    let after = credited(lines, who, amount);
    let at = rank(lines, who) as int;
    lemma_credited_well_formed(lines, who, amount);
    if amount == 0 {
    } else if holds(lines, who) {
        lemma_holder_at_rank(lines, who);
        lemma_line_found(after, at);
        lemma_total_update(lines, at, after[at]);
    } else {
        lemma_gap_found(lines, who);
        lemma_line_found(after, at);
        lemma_total_insert(lines, at, after[at]);
    }
}

/// A pledge leaves every other contributor's cumulative pledge as it was.
pub proof fn lemma_credited_others(
    lines: Seq<ContributionView>,
    who: Seq<char>,
    amount: u128,
    other: Seq<char>,
)
    requires
        well_formed(lines),
        amount_of(lines, who) + amount <= u128::MAX,
        other != who,
    ensures
        holds(credited(lines, who, amount), other) == holds(lines, other),
        amount_of(credited(lines, who, amount), other) == amount_of(lines, other),
{
    let after = credited(lines, who, amount);
    let at = rank(lines, who) as int;
    lemma_credited_well_formed(lines, who, amount);
    if amount == 0 {
    } else if holds(lines, who) {
        lemma_holder_at_rank(lines, who);
        if holds(lines, other) {
            let k = choose|i: int| 0 <= i < lines.len() && (#[trigger] lines[i]).contributor == other;
            lemma_line_found(lines, k);
            assert(after[k] == lines[k]);
            lemma_line_found(after, k);
        } else {
            assert forall|j: int| 0 <= j < after.len() implies (#[trigger] after[j]).contributor
                != other by {
                assert(after[j].contributor == lines[j].contributor);
            }
        }
    } else {
        lemma_gap_found(lines, who);
        if holds(lines, other) {
            let k = choose|i: int| 0 <= i < lines.len() && (#[trigger] lines[i]).contributor == other;
            lemma_line_found(lines, k);
            let moved = if k < at { k } else { k + 1 };
            assert(after[moved] == lines[k]);
            lemma_line_found(after, moved);
        } else {
            assert forall|j: int| 0 <= j < after.len() implies (#[trigger] after[j]).contributor
                != other by {
                if j < at {
                    assert(after[j] == lines[j]);
                } else if j > at {
                    assert(after[j] == lines[j - 1]);
                }
            }
        }
    }
}

/// Taking back keeps the ledger a ledger.
pub proof fn lemma_debited_well_formed(lines: Seq<ContributionView>, who: Seq<char>, amount: u128)
    requires
        well_formed(lines),
    ensures
        well_formed(debited(lines, who, amount)),
{
    let after = debited(lines, who, amount);
    let at = rank(lines, who) as int;
    if !holds(lines, who) || amount > lines[at].amount {
    } else {
        lemma_holder_at_rank(lines, who);
        if amount == lines[at].amount {
            assert forall|i: int, j: int| 0 <= i < j < after.len() implies precedes(
                (#[trigger] after[i]).contributor,
                (#[trigger] after[j]).contributor,
            ) by {
                let from_i = if i < at { i } else { i + 1 };
                let from_j = if j < at { j } else { j + 1 };
                assert(after[i] == lines[from_i] && after[j] == lines[from_j]);
            }
            assert forall|i: int| 0 <= i < after.len() implies (#[trigger] after[i]).amount
                > 0 by {
                let from_i = if i < at { i } else { i + 1 };
                assert(after[i] == lines[from_i]);
            }
        } else {
            assert forall|i: int, j: int| 0 <= i < j < after.len() implies precedes(
                (#[trigger] after[i]).contributor,
                (#[trigger] after[j]).contributor,
            ) by {
                assert(after[i].contributor == lines[i].contributor);
                assert(after[j].contributor == lines[j].contributor);
            }
            assert forall|i: int| 0 <= i < after.len() implies (#[trigger] after[i]).amount
                > 0 by {
                if i != at {
                    assert(after[i] == lines[i]);
                }
            }
        }
    }
}

/// Taking back what the contributor has takes its amount from their
/// cumulative pledge and from the total; their line goes exactly when nothing
/// is left on it.
pub proof fn lemma_debited_amount(lines: Seq<ContributionView>, who: Seq<char>, amount: u128)
    requires
        well_formed(lines),
        holds(lines, who),
        amount <= amount_of(lines, who),
    ensures
        amount_of(debited(lines, who, amount), who) == amount_of(lines, who) - amount,
        holds(debited(lines, who, amount), who) == (amount < amount_of(lines, who)),
        total(debited(lines, who, amount)) == total(lines) - amount,
{
    let after = debited(lines, who, amount);
    let at = rank(lines, who) as int;
    lemma_debited_well_formed(lines, who, amount);
    lemma_holder_at_rank(lines, who);
    if amount == lines[at].amount {
        lemma_total_remove(lines, at);
        assert forall|j: int| 0 <= j < after.len() implies (#[trigger] after[j]).contributor
            != who by {
            let from_j = if j < at { j } else { j + 1 };
            assert(after[j] == lines[from_j]);
            if from_j < at {
                lemma_precedes_irreflexive(who);
            } else {
                lemma_precedes_irreflexive(who);
                assert(precedes(lines[at].contributor, lines[from_j].contributor));
            }
        }
    } else {
        lemma_line_found(after, at);
        lemma_total_update(lines, at, after[at]);
    }
}

/// Taking back leaves every other contributor's cumulative pledge as it was.
pub proof fn lemma_debited_others(
    lines: Seq<ContributionView>,
    who: Seq<char>,
    amount: u128,
    other: Seq<char>,
)
    requires
        well_formed(lines),
        other != who,
    ensures
        holds(debited(lines, who, amount), other) == holds(lines, other),
        amount_of(debited(lines, who, amount), other) == amount_of(lines, other),
{
    let after = debited(lines, who, amount);
    let at = rank(lines, who) as int;
    lemma_debited_well_formed(lines, who, amount);
    if !holds(lines, who) || amount > lines[at].amount {
    } else {
        lemma_holder_at_rank(lines, who);
        if amount == lines[at].amount {
            if holds(lines, other) {
                let k = choose|i: int|
                    0 <= i < lines.len() && (#[trigger] lines[i]).contributor == other;
                lemma_line_found(lines, k);
                let moved = if k < at { k } else { k - 1 };
                assert(after[moved] == lines[k]);
                lemma_line_found(after, moved);
            } else {
                assert forall|j: int| 0 <= j < after.len() implies (
                #[trigger] after[j]).contributor != other by {
                    let from_j = if j < at { j } else { j + 1 };
                    assert(after[j] == lines[from_j]);
                }
            }
        } else {
            if holds(lines, other) {
                let k = choose|i: int|
                    0 <= i < lines.len() && (#[trigger] lines[i]).contributor == other;
                lemma_line_found(lines, k);
                assert(after[k] == lines[k]);
                lemma_line_found(after, k);
            } else {
                assert forall|j: int| 0 <= j < after.len() implies (
                #[trigger] after[j]).contributor != other by {
                    assert(after[j].contributor == lines[j].contributor);
                }
            }
        }
    }
}

/// The contribution ledger.
///
/// Its view is the list of its lines by ascending contributor, and is always
/// [`well_formed`].
#[derive(Debug)]
pub struct Ledger {
    entries: Vec<ContributionResponse>,
}

impl View for Ledger {
    type V = Seq<ContributionView>;

    closed spec fn view(&self) -> Seq<ContributionView> {
        contribution_views(self.entries@)
    }
}

/// Finds the rank of `who` among `entries`.
fn locate(entries: &Vec<ContributionResponse>, who: &String) -> (at: usize)
    requires
        ascending(contribution_views(entries@)),
    ensures
        at == rank(contribution_views(entries@), who@),
        at <= entries@.len(),
        at < entries@.len() ==> (entries@[at as int].contributor@ == who@ <==> holds(
            contribution_views(entries@),
            who@,
        )),
        at == entries@.len() ==> !holds(contribution_views(entries@), who@),
{
    let ghost lines = contribution_views(entries@);
    let mut at: usize = 0;
    while at < entries.len() && comes_before(&entries[at].contributor, who)
        invariant
            at <= entries@.len(),
            lines == contribution_views(entries@),
            forall|j: int| 0 <= j < at ==> precedes((#[trigger] lines[j]).contributor, who@),
        decreases entries@.len() - at,
    {
        at += 1;
    }
    proof {
        lemma_rank_is(lines, who@, at as int);
        if holds(lines, who@) {
            lemma_holder_at_rank(lines, who@);
        } else if at < lines.len() {
            assert(lines[at as int].contributor != who@);
        }
    }
    at
}

impl Ledger {
    /// What holds of every ledger: its lines are [`well_formed`].
    #[verifier::type_invariant]
    pub open spec fn is_ledger(&self) -> bool {
        well_formed(self@)
    }

    /// A ledger without lines.
    pub fn new() -> (ledger: Self)
        ensures
            ledger@ == Seq::<ContributionView>::empty(),
    {
        let ledger = Ledger { entries: Vec::new() };
        assert(ledger@ =~= Seq::<ContributionView>::empty());
        ledger
    }

    /// Makes a ledger of the given lines, if they are the lines of one: by
    /// strictly ascending contributor and none with a zero amount.
    pub fn from_entries(entries: Vec<ContributionResponse>) -> (ledger: Option<Self>)
        ensures
            ledger is Some <==> well_formed(contribution_views(entries@)),
            ledger matches Some(made) ==> made@ == contribution_views(entries@),
    {
        let ghost lines = contribution_views(entries@);
        let mut i: usize = 0;
        while i < entries.len()
            invariant
                i <= entries@.len(),
                lines == contribution_views(entries@),
                forall|j: int| 0 <= j < i ==> (#[trigger] lines[j]).amount > 0,
                forall|j: int, k: int|
                    #![trigger lines[j], lines[k]]
                    0 <= j < k < i ==> precedes(lines[j].contributor, lines[k].contributor),
            decreases entries@.len() - i,
        {
            if entries[i].amount == 0 {
                assert(lines[i as int].amount == 0);
                return None;
            }
            if i > 0 {
                if !comes_before(&entries[i - 1].contributor, &entries[i].contributor) {
                    assert(!precedes(lines[i - 1].contributor, lines[i as int].contributor));
                    return None;
                }
                assert forall|j: int| 0 <= j < i implies precedes(
                    (#[trigger] lines[j]).contributor,
                    lines[i as int].contributor,
                ) by {
                    if j < i - 1 {
                        lemma_precedes_transitive(
                            lines[j].contributor,
                            lines[i - 1].contributor,
                            lines[i as int].contributor,
                        );
                    }
                }
            }
            i += 1;
        }
        Some(Ledger { entries })
    }

    /// The number of contributors.
    pub fn len(&self) -> (count: usize)
        ensures
            count == self@.len(),
    {
        self.entries.len()
    }

    /// Whether nobody has anything pledged.
    pub fn is_empty(&self) -> (empty: bool)
        ensures
            empty == (self@.len() == 0),
    {
        self.entries.len() == 0
    }

    /// The cumulative pledge of `who`, which is zero where they have no line.
    pub fn contribution(&self, who: &String) -> (amount: u128)
        ensures
            amount == amount_of(self@, who@),
            amount > 0 <==> holds(self@, who@),
    {
        proof {
            use_type_invariant(self);
        }
        let at = locate(&self.entries, who);
        if at < self.entries.len() && self.entries[at].contributor == *who {
            self.entries[at].amount
        } else {
            0
        }
    }

    /// The lines of the ledger, by ascending contributor.
    pub fn entries(&self) -> (lines: Vec<ContributionResponse>)
        ensures
            contribution_views(lines@) == self@,
            well_formed(contribution_views(lines@)),
    {
        proof {
            use_type_invariant(self);
        }
        let mut lines: Vec<ContributionResponse> = Vec::new();
        let mut i: usize = 0;
        while i < self.entries.len()
            invariant
                i <= self.entries@.len(),
                lines@.len() == i,
                forall|k: int| 0 <= k < i ==> lines@[k]@ == self.entries@[k]@,
            decreases self.entries@.len() - i,
        {
            lines.push(self.entries[i].clone());
            i += 1;
        }
        assert(contribution_views(lines@) =~= self@);
        lines
    }

    /// Adds `amount` to what `who` has pledged and returns their new
    /// cumulative pledge.
    pub fn credit(&mut self, who: String, amount: u128) -> (cumulative: u128)
        requires
            amount_of(old(self)@, who@) + amount <= u128::MAX,
        ensures
            final(self)@ == credited(old(self)@, who@, amount),
            cumulative == amount_of(old(self)@, who@) + amount,
            cumulative == amount_of(final(self)@, who@),
            forall|other: Seq<char>|
                other != who@ ==> #[trigger] amount_of(final(self)@, other) == amount_of(
                    old(self)@,
                    other,
                ),
            total(final(self)@) == total(old(self)@) + amount,
    {
        proof {
            use_type_invariant(&*self);
            lemma_credited_well_formed(self@, who@, amount);
            lemma_credited_amount(self@, who@, amount);
            assert forall|other: Seq<char>| other != who@ implies #[trigger] amount_of(
                credited(self@, who@, amount),
                other,
            ) == amount_of(self@, other) by {
                lemma_credited_others(self@, who@, amount, other);
            }
        }
        let at = locate(&self.entries, &who);
        let listed = at < self.entries.len() && self.entries[at].contributor == who;
        if amount == 0 {
            return if listed { self.entries[at].amount } else { 0 };
        }
        let mut entries: Vec<ContributionResponse> = Vec::new();
        std::mem::swap(&mut entries, &mut self.entries);
        assert(contribution_views(entries@) == old(self)@);
        let cumulative: u128;
        if listed {
            cumulative = entries[at].amount + amount;
            entries.set(at, ContributionResponse { contributor: who, amount: cumulative });
        } else {
            cumulative = amount;
            entries.insert(at, ContributionResponse { contributor: who, amount });
        }
        assert(contribution_views(entries@) =~= credited(old(self)@, who@, amount));
        self.entries = entries;
        cumulative
    }

    /// Takes `amount` from what `who` has pledged and returns what is left of
    /// it. Fails, and changes nothing, where `who` has no line or less than
    /// `amount` on it.
    pub fn debit(&mut self, who: &String, amount: u128) -> (left: Result<u128, ContractError>)
        ensures
            final(self)@ == debited(old(self)@, who@, amount),
            !holds(old(self)@, who@) ==> left == Err::<u128, ContractError>(
                ContractError::NoContribution,
            ),
            holds(old(self)@, who@) && amount > amount_of(old(self)@, who@) ==> left == Err::<
                u128,
                ContractError,
            >(ContractError::AmountExceedsContribution),
            holds(old(self)@, who@) && amount <= amount_of(old(self)@, who@) ==> left == Ok::<
                u128,
                ContractError,
            >((amount_of(old(self)@, who@) - amount) as u128),
            left is Ok ==> amount_of(final(self)@, who@) == amount_of(old(self)@, who@) - amount
                && total(final(self)@) == total(old(self)@) - amount,
            forall|other: Seq<char>|
                other != who@ ==> #[trigger] amount_of(final(self)@, other) == amount_of(
                    old(self)@,
                    other,
                ),
    {
        proof {
            use_type_invariant(&*self);
            lemma_debited_well_formed(self@, who@, amount);
            if holds(self@, who@) && amount <= amount_of(self@, who@) {
                lemma_debited_amount(self@, who@, amount);
            }
            assert forall|other: Seq<char>| other != who@ implies #[trigger] amount_of(
                debited(self@, who@, amount),
                other,
            ) == amount_of(self@, other) by {
                lemma_debited_others(self@, who@, amount, other);
            }
        }
        let at = locate(&self.entries, who);
        if !(at < self.entries.len() && self.entries[at].contributor == *who) {
            return Err(ContractError::NoContribution);
        }
        let held = self.entries[at].amount;
        if amount > held {
            return Err(ContractError::AmountExceedsContribution);
        }
        let mut entries: Vec<ContributionResponse> = Vec::new();
        std::mem::swap(&mut entries, &mut self.entries);
        assert(contribution_views(entries@) == old(self)@);
        if amount == held {
            entries.remove(at);
        } else {
            let contributor = entries[at].contributor.clone();
            entries.set(at, ContributionResponse { contributor, amount: held - amount });
        }
        assert(contribution_views(entries@) =~= debited(old(self)@, who@, amount));
        self.entries = entries;
        Ok(held - amount)
    }

    /// Removes every line.
    pub fn clear(&mut self)
        ensures
            final(self)@ == Seq::<ContributionView>::empty(),
    {
        self.entries = Vec::new();
        assert(self@ =~= Seq::<ContributionView>::empty());
    }
}

/// A movement asked of the ledger: a pledge or the reversal of one.
pub enum Movement {
    /// `contributor` pledges `amount`.
    Pledge { contributor: Seq<char>, amount: u128 },
    /// `contributor` takes back `amount`.
    Reversal { contributor: Seq<char>, amount: u128 },
}

/// Whether the ledger takes `movement`: a pledge, if the cumulative pledge
/// stays within 128 bits; a reversal, if the contributor has that much.
pub open spec fn accepted(lines: Seq<ContributionView>, movement: Movement) -> bool {
    match movement {
        Movement::Pledge { contributor, amount } => amount_of(lines, contributor) + amount
            <= u128::MAX,
        Movement::Reversal { contributor, amount } => holds(lines, contributor) && amount
            <= amount_of(lines, contributor),
    }
}

/// The ledger after `movement` was asked of it. A movement that is not taken
/// changes nothing.
pub open spec fn moved(lines: Seq<ContributionView>, movement: Movement) -> Seq<ContributionView> {
    if !accepted(lines, movement) {
        lines
    } else {
        match movement {
            Movement::Pledge { contributor, amount } => credited(lines, contributor, amount),
            Movement::Reversal { contributor, amount } => debited(lines, contributor, amount),
        }
    }
}

/// The ledger after `movements` were asked of it, one after the other.
pub open spec fn replayed(lines: Seq<ContributionView>, movements: Seq<Movement>) -> Seq<
    ContributionView,
>
    decreases movements.len(),
{
    if movements.len() == 0 {
        lines
    } else {
        replayed(moved(lines, movements[0]), movements.drop_first())
    }
}

/// All that was pledged by those of `movements` that the ledger took.
pub open spec fn pledged_in(lines: Seq<ContributionView>, movements: Seq<Movement>) -> nat
    decreases movements.len(),
{
    if movements.len() == 0 {
        0
    } else {
        let first = movements[0];
        let here = if first is Pledge && accepted(lines, first) {
            first->Pledge_amount as nat
        } else {
            0nat
        };
        here + pledged_in(moved(lines, first), movements.drop_first())
    }
}

/// All that was taken back by those of `movements` that the ledger took.
pub open spec fn reversed_in(lines: Seq<ContributionView>, movements: Seq<Movement>) -> nat
    decreases movements.len(),
{
    if movements.len() == 0 {
        0
    } else {
        let first = movements[0];
        let here = if first is Reversal && accepted(lines, first) {
            first->Reversal_amount as nat
        } else {
            0nat
        };
        here + reversed_in(moved(lines, first), movements.drop_first())
    }
}

/// Conservation: whatever pledges and reversals are asked of a ledger, in
/// whatever order, it stays a ledger, and its total is what it was, plus all
/// that was pledged, minus all that was taken back.
pub proof fn lemma_conservation(lines: Seq<ContributionView>, movements: Seq<Movement>)
    requires
        well_formed(lines),
    ensures
        well_formed(replayed(lines, movements)),
        total(replayed(lines, movements)) == total(lines) + pledged_in(lines, movements)
            - reversed_in(lines, movements),
    decreases movements.len(),
{
    if movements.len() > 0 {
        let first = movements[0];
        if accepted(lines, first) {
            match first {
                Movement::Pledge { contributor, amount } => {
                    lemma_credited_well_formed(lines, contributor, amount);
                    lemma_credited_amount(lines, contributor, amount);
                },
                Movement::Reversal { contributor, amount } => {
                    lemma_debited_well_formed(lines, contributor, amount);
                    lemma_debited_amount(lines, contributor, amount);
                },
            }
        }
        lemma_conservation(moved(lines, first), movements.drop_first());
    }
}

/// From an empty ledger on, the total is all that was pledged minus all that
/// was taken back.
pub proof fn lemma_conservation_from_empty(movements: Seq<Movement>)
    ensures
        total(replayed(Seq::empty(), movements)) == pledged_in(Seq::empty(), movements)
            - reversed_in(Seq::empty(), movements),
{
    lemma_conservation(Seq::empty(), movements);
}

} // verus!
