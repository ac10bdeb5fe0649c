//! Which track goes with which detection.

use vstd::prelude::*;

verus! {

/// An assignment of columns to rows that keeps the total cost low.
#[derive(Debug)]
pub struct Assignment {
    /// The column of each row. There may be more columns than there are detections.
    pub columns: Vec<usize>,
    /// For each row, whether the cost of each column is low enough.
    pub within: Vec<Vec<bool>>,
}

/// The number of columns of a matrix given by its rows; without rows there are none.
pub open spec fn width<T>(rows: Seq<Vec<T>>) -> nat {
    if rows.len() == 0 {
        0
    } else {
        rows[0]@.len()
    }
}

/// All rows are equally long.
pub open spec fn rectangular<T>(rows: Seq<Vec<T>>) -> bool {
    forall|i: int| 0 <= i < rows.len() ==> (#[trigger] rows[i])@.len() == width(rows)
}

impl Assignment {
    /// The rows are equally long, and each has a column where there are columns at all.
    pub open spec fn wf(&self) -> bool {
        &&& rectangular(self.within@)
        &&& self.matchable() ==> self.columns@.len() >= self.within@.len()
    }

    /// Whether there is anything to match.
    pub open spec fn matchable(&self) -> bool {
        self.within@.len() > 0 && width(self.within@) > 0
    }

    /// Whether the row is matched with its column.
    pub open spec fn matched(&self, i: int) -> bool {
        &&& self.matchable()
        &&& self.columns@[i] < width(self.within@)
        &&& self.within@[i]@[self.columns@[i] as int]
    }

    /// Whether some row among the first `count` is matched with the column.
    pub open spec fn taken(&self, count: int, j: int) -> bool {
        exists|i: int| 0 <= i < count && #[trigger] self.matched(i) && self.columns@[i] == j
    }

    /// The matched pairs among the first `count` rows, in order.
    pub open spec fn matches(&self, count: nat) -> Seq<(usize, usize)>
        decreases count,
    {
        if count == 0 {
            seq![]
        } else {
            let before = self.matches((count - 1) as nat);
            if self.matched(count - 1) {
                before.push(((count - 1) as usize, self.columns@[count - 1]))
            } else {
                before
            }
        }
    }

    /// The rows among the first `count` that are not matched, in order.
    pub open spec fn unmatched_rows(&self, count: nat) -> Seq<usize>
        decreases count,
    {
        if count == 0 {
            seq![]
        } else {
            let before = self.unmatched_rows((count - 1) as nat);
            if self.matched(count - 1) {
                before
            } else {
                before.push((count - 1) as usize)
            }
        }
    }

    /// The columns among the first `count` that no row is matched with, in order.
    pub open spec fn unmatched_columns(&self, count: nat) -> Seq<usize>
        decreases count,
    {
        if count == 0 {
            seq![]
        } else {
            let before = self.unmatched_columns((count - 1) as nat);
            if self.taken(self.within@.len() as int, count - 1) {
                before
            } else {
                before.push((count - 1) as usize)
            }
        }
    }

    /// The matched pairs.
    pub open spec fn all_matches(&self) -> Seq<(usize, usize)> {
        self.matches(self.within@.len())
    }

    /// The rows that are left.
    pub open spec fn rest_rows(&self) -> Seq<usize> {
        self.unmatched_rows(self.within@.len())
    }

    /// The columns that are left.
    pub open spec fn rest_columns(&self) -> Seq<usize> {
        self.unmatched_columns(width(self.within@))
    }
}

/// The side of the smallest square that holds all costs.
pub open spec fn square_side<T>(costs: Seq<Vec<T>>) -> nat {
    if costs.len() >= width(costs) {
        costs.len()
    } else {
        width(costs)
    }
}

/// Fills the costs up to a square, row by row, with a cost that forbids a match.
pub fn pad_costs<T: Copy>(costs: &Vec<Vec<T>>, forbidden: T) -> (res: Vec<T>)
    requires
        rectangular(costs@),
        square_side(costs@) * square_side(costs@) <= usize::MAX,
    ensures
        res@.len() == square_side(costs@) * square_side(costs@),
        forall|i: int, j: int|
            #![trigger res@[i * square_side(costs@) + j]]
            0 <= i < square_side(costs@) && 0 <= j < square_side(costs@) ==> res@[i * square_side(
                costs@,
            ) + j] == if i < costs@.len() && j < width(costs@) {
                costs@[i]@[j]
            } else {
                forbidden
            },
{
    let n: usize = costs.len();
    let m: usize = if n > 0 {
        costs[0].len()
    } else {
        0
    };
    let k: usize = if n >= m {
        n
    } else {
        m
    };
    let mut data: Vec<T> = Vec::new();
    let mut i: usize = 0;
    assert(k * 0 == 0) by (nonlinear_arith);
    while i < k
        invariant
            i <= k,
            n == costs@.len(),
            m == width(costs@),
            k == square_side(costs@),
            rectangular(costs@),
            k * k <= usize::MAX,
            data@.len() == k * i,
            forall|a: int, b: int|
                #![trigger data@[a * k + b]]
                0 <= a < i && 0 <= b < k ==> data@[a * k + b] == if a < n && b < m {
                    costs@[a]@[b]
                } else {
                    forbidden
                },
        decreases k - i,
    {
        let mut j: usize = 0;
        while j < k
            invariant
                j <= k,
                i < k,
                n == costs@.len(),
                m == width(costs@),
                k == square_side(costs@),
                rectangular(costs@),
                data@.len() == k * i + j,
                forall|a: int, b: int|
                    #![trigger data@[a * k + b]]
                    0 <= a < k && 0 <= b < k && (a < i || a == i && b < j) ==> data@[a * k + b]
                        == if a < n && b < m {
                        costs@[a]@[b]
                    } else {
                        forbidden
                    },
            decreases k - j,
        {
            let ghost before = data@;
            if i < n && j < m {
                data.push(costs[i][j]);
            } else {
                data.push(forbidden);
            }
            proof {
                assert forall|a: int, b: int|
                    #![trigger data@[a * k + b]]
                    0 <= a < k && 0 <= b < k && (a < i || a == i && b < j + 1) implies data@[a * k
                    + b] == if a < n && b < m {
                    costs@[a]@[b]
                } else {
                    forbidden
                } by {
                    if a < i {
                        assert(a * k + b < k * i) by (nonlinear_arith)
                            requires
                                0 <= a < i,
                                0 <= b < k,
                        ;
                        assert(0 <= a * k + b) by (nonlinear_arith)
                            requires
                                0 <= a,
                                0 <= b < k,
                        ;
                        assert(data@[a * k + b] == before[a * k + b]);
                    } else {
                        assert(a * k == k * i) by (nonlinear_arith)
                            requires
                                a == i,
                        ;
                        assert(0 <= k * i) by (nonlinear_arith)
                            requires
                                0 <= i,
                                0 <= k,
                        ;
                        if b < j {
                            assert(data@[a * k + b] == before[a * k + b]);
                        }
                    }
                }
            }
            j = j + 1;
        }
        assert(k * (i + 1) == k * i + k) by (nonlinear_arith);
        i = i + 1;
    }
    data
}

/// Splits rows and columns into those that are matched and those that are left.
///
/// Where there are no rows or no columns, all rows are left and no column is.
pub fn linear_assignment(assignment: &Assignment) -> (res: (
    Vec<(usize, usize)>,
    Vec<usize>,
    Vec<usize>,
))
    requires
        assignment.wf(),
    ensures
        res.0@ == assignment.all_matches(),
        res.1@ == assignment.rest_rows(),
        res.2@ == assignment.rest_columns(),
{
    let n: usize = assignment.within.len();
    let m: usize = if n > 0 {
        assignment.within[0].len()
    } else {
        0
    };
    let mut matches: Vec<(usize, usize)> = Vec::new();
    let mut unmatched_a: Vec<usize> = Vec::new();
    let mut taken: Vec<bool> = Vec::new();
    let mut j: usize = 0;
    while j < m
        invariant
            j <= m,
            taken@.len() == j,
            forall|b: int| 0 <= b < j ==> !#[trigger] taken@[b],
        decreases m - j,
    {
        taken.push(false);
        j = j + 1;
    }
    let mut i: usize = 0;
    while i < n
        invariant
            i <= n,
            n == assignment.within@.len(),
            m == width(assignment.within@),
            assignment.wf(),
            taken@.len() == m,
            matches@ == assignment.matches(i as nat),
            unmatched_a@ == assignment.unmatched_rows(i as nat),
            forall|b: int|
                0 <= b < m ==> #[trigger] taken@[b] == assignment.taken(i as int, b),
        decreases n - i,
    {
        let mut matched: bool = false;
        if m > 0 {
            let column: usize = assignment.columns[i];
            if column < m && assignment.within[i][column] {
                matched = true;
                matches.push((i, column));
                taken.set(column, true);
            }
        }
        assert(matched == assignment.matched(i as int));
        if !matched {
            unmatched_a.push(i);
        }
        proof {
            assert forall|b: int| 0 <= b < m implies #[trigger] taken@[b] == assignment.taken(
                i + 1,
                b,
            ) by {
                if assignment.taken(i as int, b) {
                    let a = choose|a: int|
                        0 <= a < i && #[trigger] assignment.matched(a) && assignment.columns@[a]
                            == b;
                    assert(assignment.matched(a));
                }
                if matched && assignment.columns@[i as int] == b {
                    assert(assignment.matched(i as int));
                }
            }
        }
        i = i + 1;
    }
    let mut unmatched_b: Vec<usize> = Vec::new();
    let mut j: usize = 0;
    while j < m
        invariant
            j <= m,
            m == width(assignment.within@),
            taken@.len() == m,
            unmatched_b@ == assignment.unmatched_columns(j as nat),
            forall|b: int|
                0 <= b < m ==> #[trigger] taken@[b] == assignment.taken(
                    assignment.within@.len() as int,
                    b,
                ),
        decreases m - j,
    {
        if !taken[j] {
            unmatched_b.push(j);
        }
        j = j + 1;
    }
    (matches, unmatched_a, unmatched_b)
}

/// Every row is either matched or left, and not both: as many are matched or left as there are.
pub proof fn law_rows_are_matched_or_left(assignment: &Assignment, count: nat)
    ensures
        assignment.matches(count).len() + assignment.unmatched_rows(count).len() == count,
        forall|k: int|
            0 <= k < assignment.matches(count).len() ==> {
                let (i, j) = #[trigger] assignment.matches(count)[k];
                count <= usize::MAX ==> i < count && assignment.matched(i as int)
                    && assignment.columns@[i as int] == j
            },
        forall|k: int|
            0 <= k < assignment.unmatched_rows(count).len() ==> {
                let i = #[trigger] assignment.unmatched_rows(count)[k];
                count <= usize::MAX ==> i < count && !assignment.matched(i as int)
            },
    decreases count,
{
    if count > 0 {
        let before = (count - 1) as nat;
        law_rows_are_matched_or_left(assignment, before);
        assert forall|k: int| 0 <= k < assignment.matches(count).len() implies ({
            let (i, j) = #[trigger] assignment.matches(count)[k];
            count <= usize::MAX ==> i < count && assignment.matched(i as int)
                && assignment.columns@[i as int] == j
        }) by {
            if k < assignment.matches(before).len() {
                assert(assignment.matches(count)[k] == assignment.matches(before)[k]);
            }
        }
        assert forall|k: int| 0 <= k < assignment.unmatched_rows(count).len() implies ({
            let i = #[trigger] assignment.unmatched_rows(count)[k];
            count <= usize::MAX ==> i < count && !assignment.matched(i as int)
        }) by {
            if k < assignment.unmatched_rows(before).len() {
                assert(assignment.unmatched_rows(count)[k] == assignment.unmatched_rows(
                    before,
                )[k]);
            }
        }
    }
}

/// As long as no two rows have the same column, no two matched rows are matched with the same one:
/// every detection goes with one track at most.
pub proof fn law_columns_are_matched_once(assignment: &Assignment, count: nat)
    requires
        assignment.wf(),
        count <= assignment.within@.len() <= usize::MAX,
        forall|a: int, b: int|
            0 <= a < b < assignment.columns@.len() ==> assignment.columns@[a]
                != assignment.columns@[b],
    ensures
        forall|k: int, l: int|
            0 <= k < l < assignment.matches(count).len() ==> {
                &&& (#[trigger] assignment.matches(count)[k]).0 < (#[trigger] assignment.matches(
                    count,
                )[l]).0
                &&& assignment.matches(count)[k].1 != assignment.matches(count)[l].1
            },
    decreases count,
{
    if count > 0 {
        let before = (count - 1) as nat;
        law_columns_are_matched_once(assignment, before);
        law_rows_are_matched_or_left(assignment, before);
        let pairs = assignment.matches(count);
        let rest = assignment.matches(before);
        assert forall|k: int, l: int| 0 <= k < l < pairs.len() implies {
            &&& (#[trigger] pairs[k]).0 < (#[trigger] pairs[l]).0
            &&& pairs[k].1 != pairs[l].1
        } by {
            assert(pairs[k] == rest[k]);
            if l < rest.len() {
                assert(pairs[l] == rest[l]);
            } else {
                assert(assignment.matched(rest[k].0 as int));
            }
        }
    }
}

/// A column is left exactly where no row is matched with it.
pub proof fn law_columns_are_taken_or_left(assignment: &Assignment, count: nat)
    requires
        count <= usize::MAX,
    ensures
        forall|j: usize|
            j < count ==> (#[trigger] assignment.unmatched_columns(count).contains(j)
                <==> !assignment.taken(assignment.within@.len() as int, j as int)),
        forall|k: int|
            0 <= k < assignment.unmatched_columns(count).len()
                ==> #[trigger] assignment.unmatched_columns(count)[k] < count,
    decreases count,
{
    if count > 0 {
        let before = (count - 1) as nat;
        law_columns_are_taken_or_left(assignment, before);
        let rest = assignment.unmatched_columns(before);
        let all = assignment.unmatched_columns(count);
        assert forall|k: int| 0 <= k < all.len() implies #[trigger] all[k] < count by {
            if k < rest.len() {
                assert(rest[k] < before);
            }
        }
        assert forall|j: usize| j < count implies (#[trigger] all.contains(j)
            <==> !assignment.taken(assignment.within@.len() as int, j as int)) by {
            if j < before {
                assert(rest.contains(j) <==> !assignment.taken(
                    assignment.within@.len() as int,
                    j as int,
                ));
                if rest.contains(j) {
                    let k = choose|k: int| 0 <= k < rest.len() && rest[k] == j;
                    assert(all[k] == j);
                }
                if all.contains(j) {
                    let k = choose|k: int| 0 <= k < all.len() && all[k] == j;
                    assert(k < rest.len());
                    assert(rest[k] == j);
                }
            } else {
                if all.contains(j) {
                    let k = choose|k: int| 0 <= k < all.len() && all[k] == j;
                    if k < rest.len() {
                        assert(rest[k] < before);
                    }
                } else if !assignment.taken(assignment.within@.len() as int, j as int) {
                    assert(all[all.len() - 1] == j);
                }
            }
        }
    }
}

/// There is something to match just where there are both rows and columns, and then a row is matched
/// just where its column is not one of those that were added and its cost is not too high.
pub proof fn law_rows_are_matched_within_their_columns(assignment: &Assignment, i: int)
    ensures
        assignment.matchable() <==> assignment.within@.len() > 0 && assignment.within@[0]@.len()
            > 0,
        assignment.matched(i) ==> assignment.columns@[i] < assignment.within@[0]@.len()
            && assignment.within@[i]@[assignment.columns@[i] as int],
        assignment.within@.len() > 0 && assignment.columns@[i] < assignment.within@[0]@.len()
            && assignment.within@[i]@[assignment.columns@[i] as int] ==> assignment.matched(i),
{
}

/// A column is taken just where it is that of a matched row.
pub proof fn law_matched_rows_take_their_columns(assignment: &Assignment, count: int, i: int)
    requires
        0 <= i < count,
        assignment.matched(i),
    ensures
        assignment.taken(count, assignment.columns@[i] as int),
        !assignment.taken(0, assignment.columns@[i] as int),
{
}

/// The side of the square is the number of rows or that of columns, whichever is larger.
pub proof fn law_square_holds_all_costs<T>(costs: Seq<Vec<T>>)
    requires
        costs.len() > 0,
    ensures
        square_side(costs) >= costs.len(),
        square_side(costs) >= costs[0]@.len(),
        square_side(costs) == costs.len() || square_side(costs) == costs[0]@.len(),
{
}

} // verus!
