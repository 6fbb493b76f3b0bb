//! Rank construction: the ordered criteria list, the fixed five-slot rank
//! tuple, and the total order over matched items that delegates to the rank.

use vstd::prelude::*;
use core::cmp::Ordering;
use vstd::std_specs::cmp::PartialEqSpec;
use vstd::std_specs::cmp::PartialOrdSpec;
use std::sync::Arc;
use crate::pool::arc_clone;

verus! {

/// One dimension contributing to a rank tuple: the score, a match position,
/// the candidate length or the ingestion index, or a sign-inverted variant.
#[derive(Debug, PartialEq, Eq, Structural, Clone, Copy, Hash)]
pub enum RankCriteria {
    Score,
    NegScore,
    Begin,
    NegBegin,
    End,
    NegEnd,
    Length,
    NegLength,
    Index,
    NegIndex,
}

impl RankCriteria {
    /// Every criterion, in the order the configuration surface lists them.
    pub fn value_variants() -> (r: Vec<RankCriteria>)
        ensures
            r@ =~= seq![
                RankCriteria::Score,
                RankCriteria::NegScore,
                RankCriteria::Begin,
                RankCriteria::NegBegin,
                RankCriteria::End,
                RankCriteria::NegEnd,
                RankCriteria::Length,
                RankCriteria::NegLength,
                RankCriteria::Index,
                RankCriteria::NegIndex,
            ],
    {
        let mut v: Vec<RankCriteria> = Vec::new();
        v.push(RankCriteria::Score);
        v.push(RankCriteria::NegScore);
        v.push(RankCriteria::Begin);
        v.push(RankCriteria::NegBegin);
        v.push(RankCriteria::End);
        v.push(RankCriteria::NegEnd);
        v.push(RankCriteria::Length);
        v.push(RankCriteria::NegLength);
        v.push(RankCriteria::Index);
        v.push(RankCriteria::NegIndex);
        v
    }

    /// The configuration token naming this criterion.
    pub fn token(&self) -> (r: &'static str)
        ensures
            r@ == spec_token(*self),
    {
        match self {
            RankCriteria::Score => "score",
            RankCriteria::NegScore => "-score",
            RankCriteria::Begin => "begin",
            RankCriteria::NegBegin => "-begin",
            RankCriteria::End => "end",
            RankCriteria::NegEnd => "-end",
            RankCriteria::Length => "length",
            RankCriteria::NegLength => "-length",
            RankCriteria::Index => "index",
            RankCriteria::NegIndex => "-index",
        }
    }
}

/// The configuration token of each criterion, as a character sequence.
pub open spec fn spec_token(c: RankCriteria) -> Seq<char> {
    match c {
        RankCriteria::Score => "score"@,
        RankCriteria::NegScore => "-score"@,
        RankCriteria::Begin => "begin"@,
        RankCriteria::NegBegin => "-begin"@,
        RankCriteria::End => "end"@,
        RankCriteria::NegEnd => "-end"@,
        RankCriteria::Length => "length"@,
        RankCriteria::NegLength => "-length"@,
        RankCriteria::Index => "index"@,
        RankCriteria::NegIndex => "-index"@,
    }
}

/// Fixed five-slot signed sort key; slot 0 has the highest priority and
/// unused trailing slots are zero. Order is lexicographic over the slots.
#[derive(Debug, PartialEq, Eq, Structural, Clone, Copy, Hash)]
pub struct Rank(pub i32, pub i32, pub i32, pub i32, pub i32);

/// The value the given criterion contributes to its rank slot: the score is
/// negated (so that greater scores sort first), positions, length and index
/// are taken raw, and each `Neg` variant flips the sign of its base value.
pub open spec fn criterion_value(
    c: RankCriteria,
    score: int,
    begin: int,
    end: int,
    length: int,
    index: int,
) -> int {
    match c {
        RankCriteria::Score => -score,
        RankCriteria::NegScore => score,
        RankCriteria::Begin => begin,
        RankCriteria::NegBegin => -begin,
        RankCriteria::End => end,
        RankCriteria::NegEnd => -end,
        RankCriteria::Length => length,
        RankCriteria::NegLength => -length,
        RankCriteria::Index => index,
        RankCriteria::NegIndex => -index,
    }
}

/// The value of slot `i` of a rank built from the criteria list `crit`:
/// the `i`-th criterion's contribution, or zero past the end of the list.
pub open spec fn rank_slot(
    crit: Seq<RankCriteria>,
    i: int,
    score: int,
    begin: int,
    end: int,
    length: int,
    index: int,
) -> int {
    if 0 <= i < crit.len() {
        criterion_value(crit[i], score, begin, end, length, index)
    } else {
        0
    }
}

/// The input criteria list with `Score` forced in at priority 0 when neither
/// `Score` nor `NegScore` is present.
pub open spec fn with_score(s: Seq<RankCriteria>) -> Seq<RankCriteria> {
    if s.contains(RankCriteria::Score) || s.contains(RankCriteria::NegScore) {
        s
    } else {
        seq![RankCriteria::Score] + s
    }
}

/// The list with every repeated criterion dropped: the first occurrence of
/// each element is kept, in its original position relative to the others.
pub open spec fn dedup_first(s: Seq<RankCriteria>) -> Seq<RankCriteria>
    decreases s.len(),
{
    if s.len() == 0 {
        Seq::empty()
    } else {
        let prefix = dedup_first(s.drop_last());
        if prefix.contains(s.last()) {
            prefix
        } else {
            prefix.push(s.last())
        }
    }
}

/// What `RankBuilder::new` makes of an input criteria list: `Score` forced
/// in when no score criterion is present, duplicates dropped (first
/// occurrence wins), and the result capped at the five available slots.
pub open spec fn normalized_criteria(s: Seq<RankCriteria>) -> Seq<RankCriteria> {
    let d = dedup_first(with_score(s));
    if d.len() <= 5 {
        d
    } else {
        d.subrange(0, 5)
    }
}

/// Whether `v` holds the criterion `c`.
fn contains_criteria(v: &Vec<RankCriteria>, c: RankCriteria) -> (r: bool)
    ensures
        r == v@.contains(c),
{
    let mut i: usize = 0;
    while i < v.len()
        invariant
            i <= v@.len(),
            forall|k: int| 0 <= k < i ==> v@[k] != c,
        decreases v@.len() - i,
    {
        if v[i] == c {
            return true;
        }
        i += 1;
    }
    false
}

/// Pure constructor of rank tuples for a configured priority list of
/// criteria, deduplicated and capped at the five rank slots.
#[derive(Debug)]
pub struct RankBuilder {
    criterion: Vec<RankCriteria>,
}

impl RankBuilder {
    /// The configured criteria list, one entry per used rank slot.
    pub closed spec fn criteria(&self) -> Seq<RankCriteria> {
        self.criterion@
    }

    /// A builder holds at most one criterion per rank slot.
    pub open spec fn wf(&self) -> bool {
        self.criteria().len() <= 5
    }

    pub fn new(criterion: Vec<RankCriteria>) -> (r: Self)
        ensures
            r.criteria() == normalized_criteria(criterion@),
            r.wf(),
    {
        let ghost input = criterion@;
        let mut criterion = criterion;
        if !(contains_criteria(&criterion, RankCriteria::Score) || contains_criteria(
            &criterion,
            RankCriteria::NegScore,
        )) {
            criterion.insert(0, RankCriteria::Score);
            proof {
                assert(criterion@ =~= with_score(input));
            }
        }
        let mut out: Vec<RankCriteria> = Vec::new();
        let mut i: usize = 0;
        while i < criterion.len()
            invariant
                i <= criterion@.len(),
                criterion@ == with_score(input),
                out@ == dedup_first(criterion@.subrange(0, i as int)),
            decreases criterion@.len() - i,
        {
            let c = criterion[i];
            let dup = contains_criteria(&out, c);
            if !dup {
                out.push(c);
            }
            proof {
                let pre = criterion@.subrange(0, i as int);
                let cur = criterion@.subrange(0, i + 1 as int);
                assert(cur.drop_last() =~= pre);
                assert(cur.last() == c);
            }
            i += 1;
        }
        proof {
            assert(criterion@.subrange(0, criterion@.len() as int) =~= criterion@);
        }
        out.truncate(5);
        RankBuilder { criterion: out }
    }

    /// The configured criteria, in priority order, one entry per used slot.
    pub fn criterion(&self) -> (r: Vec<RankCriteria>)
        ensures
            r@ == self.criteria(),
    {
        let mut out: Vec<RankCriteria> = Vec::new();
        let mut i: usize = 0;
        while i < self.criterion.len()
            invariant
                i <= self.criterion@.len(),
                out@ == self.criterion@.subrange(0, i as int),
            decreases self.criterion@.len() - i,
        {
            out.push(self.criterion[i]);
            proof {
                assert(self.criterion@.subrange(0, i as int).push(self.criterion@[i as int])
                    =~= self.criterion@.subrange(0, i + 1 as int));
            }
            i += 1;
        }
        proof {
            assert(self.criterion@.subrange(0, self.criterion@.len() as int) =~= self.criterion@);
        }
        out
    }

    /// The value of rank slot `i` for the given measurements.
    fn slot(&self, i: usize, score: i32, begin: i32, end: i32, length: i32, index: i32) -> (v: i32)
        requires
            score != i32::MIN,
            begin >= 0,
            end >= 0,
            length >= 0,
            index >= 0,
        ensures
            v == rank_slot(
                self.criteria(),
                i as int,
                score as int,
                begin as int,
                end as int,
                length as int,
                index as int,
            ),
    {
        if i < self.criterion.len() {
            match self.criterion[i] {
                RankCriteria::Score => -score,
                RankCriteria::NegScore => score,
                RankCriteria::Begin => begin,
                RankCriteria::NegBegin => -begin,
                RankCriteria::End => end,
                RankCriteria::NegEnd => -end,
                RankCriteria::Length => length,
                RankCriteria::NegLength => -length,
                RankCriteria::Index => index,
                RankCriteria::NegIndex => -index,
            }
        } else {
            0
        }
    }

    /// Builds the composite sort key: slot `i` holds the contribution of the
    /// `i`-th configured criterion, unused trailing slots are zero. The score
    /// is "the greater the better", so `Score` contributes its negation.
    pub fn build_rank(&self, score: i32, begin: usize, end: usize, length: usize, index: usize) -> (r:
        Rank)
        requires
            score != i32::MIN,
            begin <= i32::MAX as usize,
            end <= i32::MAX as usize,
            length <= i32::MAX as usize,
            index <= i32::MAX as usize,
        ensures
            r.0 == rank_slot(self.criteria(), 0, score as int, begin as int, end as int, length as int, index as int),
            r.1 == rank_slot(self.criteria(), 1, score as int, begin as int, end as int, length as int, index as int),
            r.2 == rank_slot(self.criteria(), 2, score as int, begin as int, end as int, length as int, index as int),
            r.3 == rank_slot(self.criteria(), 3, score as int, begin as int, end as int, length as int, index as int),
            r.4 == rank_slot(self.criteria(), 4, score as int, begin as int, end as int, length as int, index as int),
    {
        let begin = begin as i32;
        let end = end as i32;
        let length = length as i32;
        let index = index as i32;
        Rank(
            self.slot(0, score, begin, end, length, index),
            self.slot(1, score, begin, end, length, index),
            self.slot(2, score, begin, end, length, index),
            self.slot(3, score, begin, end, length, index),
            self.slot(4, score, begin, end, length, index),
        )
    }
}

/// Membership in a list is membership in all but the last entry, or being
/// the last entry.
proof fn lemma_contains_split(s: Seq<RankCriteria>, x: RankCriteria)
    requires
        s.len() > 0,
    ensures
        s.contains(x) <==> (s.drop_last().contains(x) || s.last() == x),
{
    if s.contains(x) {
        let i = choose|i: int| 0 <= i < s.len() && s[i] == x;
        if i < s.len() - 1 {
            assert(s.drop_last()[i] == x);
        }
    }
    if s.drop_last().contains(x) {
        let i = choose|i: int| 0 <= i < s.drop_last().len() && s.drop_last()[i] == x;
        assert(s[i] == x);
    }
}

/// The deduplicated list keeps the head of its input.
proof fn lemma_dedup_first_head(s: Seq<RankCriteria>)
    requires
        s.len() > 0,
    ensures
        dedup_first(s).len() > 0,
        dedup_first(s)[0] == s[0],
    decreases s.len(),
{
    if s.len() == 1 {
        assert(dedup_first(s.drop_last()) =~= Seq::<RankCriteria>::empty());
    } else {
        lemma_dedup_first_head(s.drop_last());
        assert(s.drop_last()[0] == s[0]);
    }
}

/// The deduplicated list holds exactly the elements of its input.
pub proof fn lemma_dedup_first_same_elements(s: Seq<RankCriteria>)
    ensures
        forall|x: RankCriteria| dedup_first(s).contains(x) <==> s.contains(x),
    decreases s.len(),
{
    if s.len() > 0 {
        lemma_dedup_first_same_elements(s.drop_last());
        assert forall|x: RankCriteria| dedup_first(s).contains(x) <==> s.contains(x) by {
            lemma_contains_split(s, x);
            let prefix = dedup_first(s.drop_last());
            if !prefix.contains(s.last()) {
                lemma_contains_split(prefix.push(s.last()), x);
                assert(prefix.push(s.last()).drop_last() =~= prefix);
            }
        }
    }
}

/// No element occurs twice in the deduplicated list.
pub proof fn lemma_dedup_first_no_duplicates(s: Seq<RankCriteria>)
    ensures
        forall|i: int, j: int|
            0 <= i < j < dedup_first(s).len() ==> dedup_first(s)[i] != dedup_first(s)[j],
    decreases s.len(),
{
    if s.len() > 0 {
        lemma_dedup_first_no_duplicates(s.drop_last());
        let prefix = dedup_first(s.drop_last());
        if !prefix.contains(s.last()) {
            let d = prefix.push(s.last());
            assert forall|i: int, j: int| 0 <= i < j < d.len() implies d[i] != d[j] by {
                if j == d.len() - 1 {
                    assert(prefix[i] == d[i]);
                    assert(prefix.contains(prefix[i]));
                }
            }
        }
    }
}

/// The position of the first occurrence of `x` in `s`.
pub open spec fn first_index(s: Seq<RankCriteria>, x: RankCriteria) -> int
    decreases s.len(),
{
    if s.len() == 0 {
        0
    } else if s.drop_last().contains(x) {
        first_index(s.drop_last(), x)
    } else {
        s.len() - 1
    }
}

/// `first_index` names the first occurrence: the element is there, and
/// nowhere earlier.
pub proof fn lemma_first_index(s: Seq<RankCriteria>, x: RankCriteria)
    requires
        s.contains(x),
    ensures
        0 <= first_index(s, x) < s.len(),
        s[first_index(s, x)] == x,
        forall|k: int| 0 <= k < first_index(s, x) ==> s[k] != x,
    decreases s.len(),
{
    lemma_contains_split(s, x);
    if s.drop_last().contains(x) {
        lemma_first_index(s.drop_last(), x);
        assert(s.drop_last()[first_index(s, x)] == s[first_index(s, x)]);
        assert(forall|k: int|
            0 <= k < first_index(s, x) ==> s.drop_last()[k] == s[k] && s.drop_last()[k] != x);
    } else {
        assert(s[s.len() - 1] == s.last());
        assert forall|k: int| 0 <= k < s.len() - 1 implies s[k] != x by {
            assert(s.drop_last()[k] == s[k]);
        }
    }
}

/// Entries of the deduplicated list stand in the order of their first
/// occurrences in the input: earlier entries occurred first earlier.
pub proof fn lemma_dedup_first_order(s: Seq<RankCriteria>)
    ensures
        forall|i: int, j: int|
            0 <= i < j < dedup_first(s).len() ==> first_index(s, dedup_first(s)[i]) < first_index(
                s,
                dedup_first(s)[j],
            ),
    decreases s.len(),
{
    if s.len() > 0 {
        lemma_dedup_first_order(s.drop_last());
        lemma_dedup_first_same_elements(s.drop_last());
        let prefix = dedup_first(s.drop_last());
        let d = dedup_first(s);
        assert forall|i: int, j: int| 0 <= i < j < d.len() implies first_index(s, d[i])
            < first_index(s, d[j]) by {
            if prefix.contains(s.last()) {
                assert(d == prefix);
                assert(s.drop_last().contains(d[i]) && s.drop_last().contains(d[j]));
            } else {
                assert(d == prefix.push(s.last()));
                if j < d.len() - 1 {
                    assert(prefix[i] == d[i] && prefix[j] == d[j]);
                    assert(s.drop_last().contains(d[i]) && s.drop_last().contains(d[j]));
                } else {
                    assert(d[j] == s.last());
                    assert(!s.drop_last().contains(d[j]));
                    assert(first_index(s, d[j]) == s.len() - 1);
                    assert(prefix[i] == d[i]);
                    assert(prefix.contains(prefix[i]));
                    assert(s.drop_last().contains(d[i]));
                    lemma_first_index(s.drop_last(), d[i]);
                }
            }
        }
    }
}

/// What a builder makes of its input list never repeats a criterion, its
/// entries stand in the order of their first occurrences in the
/// (score-forced) input, and it holds nothing the input did not name —
/// everything it kept is a first occurrence.
pub proof fn lemma_criteria_normalized(s: Seq<RankCriteria>)
    ensures
        forall|i: int, j: int|
            0 <= i < j < normalized_criteria(s).len() ==> normalized_criteria(s)[i]
                != normalized_criteria(s)[j],
        forall|i: int, j: int|
            0 <= i < j < normalized_criteria(s).len() ==> first_index(
                with_score(s),
                normalized_criteria(s)[i],
            ) < first_index(with_score(s), normalized_criteria(s)[j]),
        forall|x: RankCriteria| normalized_criteria(s).contains(x) ==> with_score(s).contains(x),
        dedup_first(with_score(s)).len() <= 5 ==> forall|x: RankCriteria|
            normalized_criteria(s).contains(x) <==> with_score(s).contains(x),
{
    let w = with_score(s);
    let d = dedup_first(w);
    let n = normalized_criteria(s);
    lemma_dedup_first_no_duplicates(w);
    lemma_dedup_first_order(w);
    lemma_dedup_first_same_elements(w);
    assert(forall|i: int| 0 <= i < n.len() ==> n[i] == d[i]);
    assert forall|x: RankCriteria| n.contains(x) implies w.contains(x) by {
        let i = choose|i: int| 0 <= i < n.len() && n[i] == x;
        assert(d[i] == x);
        assert(d.contains(x));
    }
}

/// When the input list names neither `Score` nor `NegScore`, the built
/// criteria list places `Score` first, at priority 0.
pub proof fn lemma_score_forced(s: Seq<RankCriteria>)
    requires
        !s.contains(RankCriteria::Score),
        !s.contains(RankCriteria::NegScore),
    ensures
        normalized_criteria(s).len() > 0,
        normalized_criteria(s)[0] == RankCriteria::Score,
{
    let w = seq![RankCriteria::Score] + s;
    assert(w == with_score(s));
    assert(w[0] == RankCriteria::Score);
    lemma_dedup_first_head(w);
}

/// A rank is a function of the criteria list and the five measurements
/// alone: any two tuples whose slots satisfy `build_rank`'s contract for the
/// same inputs are one and the same tuple.
pub proof fn lemma_build_rank_deterministic(
    crit: Seq<RankCriteria>,
    score: int,
    begin: int,
    end: int,
    length: int,
    index: int,
    r1: Rank,
    r2: Rank,
)
    requires
        forall|i: int|
            0 <= i < 5 ==> rank_value_at(r1, i) == rank_slot(crit, i, score, begin, end, length, index),
        forall|i: int|
            0 <= i < 5 ==> rank_value_at(r2, i) == rank_slot(crit, i, score, begin, end, length, index),
    ensures
        r1 == r2,
{
    assert(rank_value_at(r1, 0) == rank_value_at(r2, 0));
    assert(rank_value_at(r1, 1) == rank_value_at(r2, 1));
    assert(rank_value_at(r1, 2) == rank_value_at(r2, 2));
    assert(rank_value_at(r1, 3) == rank_value_at(r2, 3));
    assert(rank_value_at(r1, 4) == rank_value_at(r2, 4));
}

/// The slot of a rank tuple, by position.
pub open spec fn rank_value_at(r: Rank, i: int) -> int {
    if i == 0 {
        r.0 as int
    } else if i == 1 {
        r.1 as int
    } else if i == 2 {
        r.2 as int
    } else if i == 3 {
        r.3 as int
    } else {
        r.4 as int
    }
}

/// A `Score` criterion contributes the negated score to its slot and a
/// `NegScore` criterion the score unchanged.
pub proof fn lemma_score_contribution(
    crit: Seq<RankCriteria>,
    i: int,
    score: int,
    begin: int,
    end: int,
    length: int,
    index: int,
)
    requires
        0 <= i < crit.len(),
    ensures
        crit[i] == RankCriteria::Score ==> rank_slot(crit, i, score, begin, end, length, index)
            == -score,
        crit[i] == RankCriteria::NegScore ==> rank_slot(crit, i, score, begin, end, length, index)
            == score,
{
}

/// Three-way comparison of two integers.
pub open spec fn cmp_int(a: int, b: int) -> Ordering {
    if a < b {
        Ordering::Less
    } else if a == b {
        Ordering::Equal
    } else {
        Ordering::Greater
    }
}

/// Lexicographic comparison of two ranks, slot 0 deciding first.
pub open spec fn spec_rank_cmp(a: Rank, b: Rank) -> Ordering {
    if a.0 != b.0 {
        cmp_int(a.0 as int, b.0 as int)
    } else if a.1 != b.1 {
        cmp_int(a.1 as int, b.1 as int)
    } else if a.2 != b.2 {
        cmp_int(a.2 as int, b.2 as int)
    } else if a.3 != b.3 {
        cmp_int(a.3 as int, b.3 as int)
    } else if a.4 != b.4 {
        cmp_int(a.4 as int, b.4 as int)
    } else {
        Ordering::Equal
    }
}

/// Lexicographic comparison of two ranks, slot 0 deciding first.
pub fn rank_cmp(a: &Rank, b: &Rank) -> (r: Ordering)
    ensures
        r == spec_rank_cmp(*a, *b),
{
    if a.0 != b.0 {
        if a.0 < b.0 { Ordering::Less } else { Ordering::Greater }
    } else if a.1 != b.1 {
        if a.1 < b.1 { Ordering::Less } else { Ordering::Greater }
    } else if a.2 != b.2 {
        if a.2 < b.2 { Ordering::Less } else { Ordering::Greater }
    } else if a.3 != b.3 {
        if a.3 < b.3 { Ordering::Less } else { Ordering::Greater }
    } else if a.4 != b.4 {
        if a.4 < b.4 { Ordering::Less } else { Ordering::Greater }
    } else {
        Ordering::Equal
    }
}

/// The rank order is total: two ranks compare equal exactly when they are
/// the same tuple, comparison flips with its arguments, and it is
/// transitive.
pub proof fn lemma_rank_order_total(a: Rank, b: Rank, c: Rank)
    ensures
        (spec_rank_cmp(a, b) == Ordering::Equal) <==> a == b,
        (spec_rank_cmp(a, b) == Ordering::Less) <==> (spec_rank_cmp(b, a) == Ordering::Greater),
        spec_rank_cmp(a, b) == Ordering::Less && spec_rank_cmp(b, c) == Ordering::Less
            ==> spec_rank_cmp(a, c) == Ordering::Less,
{
}

/// A matched range of the candidate's text, in bytes or in characters.
#[derive(Debug, PartialEq, Eq, Structural, Clone, Copy, Hash)]
pub enum MatchRange {
    ByteRange(usize, usize),
    CharRange(usize, usize),
}

/// A candidate together with its sort key and match metadata. Equality and
/// ordering delegate entirely to the rank: two distinct items with equal
/// ranks compare equal, so this is not a strict total order over items.
pub struct MatchedItem<T> {
    pub item: Arc<T>,
    pub rank: Rank,
    pub matched_range: Option<MatchRange>,
    pub item_idx: u32,
}

impl<T> Clone for MatchedItem<T> {
    fn clone(&self) -> (r: Self)
        ensures
            r == *self,
    {
        MatchedItem {
            item: arc_clone(&self.item),
            rank: self.rank,
            matched_range: self.matched_range,
            item_idx: self.item_idx,
        }
    }
}

impl<T> PartialEq for MatchedItem<T> {
    fn eq(&self, other: &Self) -> (r: bool) {
        self.rank == other.rank
    }
}

impl<T> vstd::std_specs::cmp::PartialEqSpecImpl for MatchedItem<T> {
    open spec fn obeys_eq_spec() -> bool {
        true
    }

    open spec fn eq_spec(&self, other: &Self) -> bool {
        self.rank == other.rank
    }
}

impl<T> Eq for MatchedItem<T> {

}

impl<T> PartialOrd for MatchedItem<T> {
    fn partial_cmp(&self, other: &Self) -> (r: Option<Ordering>) {
        Some(rank_cmp(&self.rank, &other.rank))
    }
}

impl<T> vstd::std_specs::cmp::PartialOrdSpecImpl for MatchedItem<T> {
    open spec fn obeys_partial_cmp_spec() -> bool {
        true
    }

    open spec fn partial_cmp_spec(&self, other: &Self) -> Option<Ordering> {
        Some(spec_rank_cmp(self.rank, other.rank))
    }
}

impl<T> MatchedItem<T> {
    /// The total order over matched items: the rank alone decides.
    pub fn cmp(&self, other: &Self) -> (r: Ordering)
        ensures
            r == spec_rank_cmp(self.rank, other.rank),
    {
        rank_cmp(&self.rank, &other.rank)
    }
}

/// Two matched items with identical rank tuples compare equal, whatever
/// their items, matched ranges or ingestion indices.
pub proof fn lemma_equal_ranks_compare_equal<T>(a: MatchedItem<T>, b: MatchedItem<T>)
    requires
        a.rank == b.rank,
    ensures
        a.eq_spec(&b),
        a.partial_cmp_spec(&b) == Some(Ordering::Equal),
        spec_rank_cmp(a.rank, b.rank) == Ordering::Equal,
{
}

impl Default for RankBuilder {
    /// The default priority list: score first, then match begin and end.
    fn default() -> (r: Self)
        ensures
            r.criteria() =~= seq![RankCriteria::Score, RankCriteria::Begin, RankCriteria::End],
            r.wf(),
    {
        let mut criterion: Vec<RankCriteria> = Vec::new();
        criterion.push(RankCriteria::Score);
        criterion.push(RankCriteria::Begin);
        criterion.push(RankCriteria::End);
        RankBuilder { criterion }
    }
}

} // verus!
