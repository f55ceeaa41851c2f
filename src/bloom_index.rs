//! A block's bloom filter index, as decoded for one predicate, and the test
//! of whether the predicate might hold on the block.
use vstd::prelude::*;
use crate::expression::{BinaryOperator, Expression, Scalar, names_of, point_query, same_value};

verus! {

/// The prefix of a bloom index column's name.
pub open spec fn bloom_prefix() -> Seq<char> {
    seq!['B', 'l', 'o', 'o', 'm', '(']
}

/// The name under which the bloom index stores the filter of column `c`:
/// `Bloom(c)`.
pub open spec fn bloom_column_name(c: Seq<char>) -> Seq<char> {
    bloom_prefix() + c + seq![')']
}

/// The bloom index columns of a set of columns.
pub open spec fn bloom_column_names(columns: Set<Seq<char>>) -> Set<Seq<char>> {
    columns.map(|c: Seq<char>| bloom_column_name(c))
}

/// Distinct columns get distinct bloom index columns.
pub proof fn lemma_bloom_column_name_injective(a: Seq<char>, b: Seq<char>)
    ensures
        bloom_column_name(a) == bloom_column_name(b) ==> a == b,
{
    if bloom_column_name(a) == bloom_column_name(b) {
        let (na, nb) = (bloom_column_name(a), bloom_column_name(b));
        assert(na.len() == b.len() + 7 && na.len() == a.len() + 7);
        assert forall|i: int| 0 <= i < a.len() implies a[i] == b[i] by {
            assert(na[i + 6] == a[i]);
            assert(nb[i + 6] == b[i]);
        }
        assert(a =~= b);
    }
}

/// Translates a column name to the name of its bloom index column.
pub fn to_bloom_column_name(name: &str) -> (r: String)
    ensures
        r@ == bloom_column_name(name@),
{
    let mut r = String::from_str("Bloom(");
    r.append(name);
    r.append(")");
    proof {
        reveal_strlit("Bloom(");
        reveal_strlit(")");
        assert(r@ =~= bloom_column_name(name@));
    }
    r
}

/// The filter of one column for one block, as answers to membership probes:
/// the literals that the filter reports as possibly present. A literal not
/// listed is reported absent from the block.
#[derive(Debug)]
pub struct BloomColumn {
    pub name: String,
    pub present: Vec<Scalar>,
}

/// The bloom index columns loaded for one block.
#[derive(Debug)]
pub struct BloomBlock {
    pub columns: Vec<BloomColumn>,
}

/// The block holds a filter under `name`, and every such filter reports `v`
/// absent.
pub open spec fn reports_absent(block: BloomBlock, name: Seq<char>, v: Scalar) -> bool {
    &&& exists|i: int| 0 <= i < block.columns@.len() && #[trigger] block.columns@[i].name@ == name
    &&& forall|i: int, j: int|
        0 <= i < block.columns@.len() && block.columns@[i].name@ == name && 0 <= j
            < block.columns@[i].present@.len() ==> !same_value(
            #[trigger] block.columns@[i].present@[j],
            v,
        )
}

/// Whether the point query `c = v` might hold on the block: it is ruled out
/// only where the bloom column of `c` was loaded and reports `v` absent.
pub open spec fn point_maybe_true(
    block: BloomBlock,
    index_columns: Seq<String>,
    c: Seq<char>,
    v: Scalar,
) -> bool {
    !(names_of(index_columns).contains(bloom_column_name(c)) && reports_absent(
        block,
        bloom_column_name(c),
        v,
    ))
}

/// Whether `e` might hold on the block. Point queries are decided by the
/// block's filters; `AND` and `OR` combine their operands; every other node
/// is unknown and so might hold.
pub open spec fn maybe_true(block: BloomBlock, index_columns: Seq<String>, e: Expression) -> bool
    decreases e,
{
    match e {
        Expression::BinaryExpression { left, op, right } => {
            if op == BinaryOperator::And {
                maybe_true(block, index_columns, *left) && maybe_true(block, index_columns, *right)
            } else if op == BinaryOperator::Or {
                maybe_true(block, index_columns, *left) || maybe_true(block, index_columns, *right)
            } else if op == BinaryOperator::Eq && point_query(*left, *right) is Some {
                let (c, v) = point_query(*left, *right)->Some_0;
                point_maybe_true(block, index_columns, c, v)
            } else {
                true
            }
        },
        _ => true,
    }
}

/// The block's filters report every value that `row` holds: each filter
/// stored under the bloom name of a column of the row lists the row's value.
pub open spec fn filters_admit_row(block: BloomBlock, row: Map<Seq<char>, Scalar>) -> bool {
    forall|i: int, c: Seq<char>|
        0 <= i < block.columns@.len() && block.columns@[i].name@ == bloom_column_name(c)
            && #[trigger] row.contains_key(c) ==> exists|j: int|
            0 <= j < (#[trigger] block.columns@[i]).present@.len() && same_value(
                block.columns@[i].present@[j],
                row[c],
            )
}

/// Whether `row` may satisfy `e`, as far as point queries, `AND` and `OR`
/// decide: a point query `c = v` holds only where the row holds `v` in `c`;
/// every other node may hold.
pub open spec fn row_may_satisfy(row: Map<Seq<char>, Scalar>, e: Expression) -> bool
    decreases e,
{
    match e {
        Expression::BinaryExpression { left, op, right } => {
            if op == BinaryOperator::And {
                row_may_satisfy(row, *left) && row_may_satisfy(row, *right)
            } else if op == BinaryOperator::Or {
                row_may_satisfy(row, *left) || row_may_satisfy(row, *right)
            } else if op == BinaryOperator::Eq && point_query(*left, *right) is Some {
                let (c, v) = point_query(*left, *right)->Some_0;
                row.contains_key(c) && same_value(row[c], v)
            } else {
                true
            }
        },
        _ => true,
    }
}

/// No false negatives: a block is ruled out only where no row that its
/// filters admit may satisfy the predicate, whichever bloom columns were
/// loaded.
pub proof fn lemma_no_false_negatives(
    block: BloomBlock,
    index_columns: Seq<String>,
    row: Map<Seq<char>, Scalar>,
    e: Expression,
)
    requires
        filters_admit_row(block, row),
        row_may_satisfy(row, e),
    ensures
        maybe_true(block, index_columns, e),
    decreases e,
{
    match e {
        Expression::BinaryExpression { left, op, right } => {
            if op == BinaryOperator::And {
                lemma_no_false_negatives(block, index_columns, row, *left);
                lemma_no_false_negatives(block, index_columns, row, *right);
            } else if op == BinaryOperator::Or {
                if row_may_satisfy(row, *left) {
                    lemma_no_false_negatives(block, index_columns, row, *left);
                } else {
                    lemma_no_false_negatives(block, index_columns, row, *right);
                }
            } else if op == BinaryOperator::Eq && point_query(*left, *right) is Some {
                let (c, v) = point_query(*left, *right)->Some_0;
                let name = bloom_column_name(c);
                if reports_absent(block, name, v) {
                    let i = choose|i: int| 0 <= i < block.columns@.len() && #[trigger] block.columns@[i].name@ == name;
                    assert(row.contains_key(c));
                    let j = choose|j: int|
                        0 <= j < block.columns@[i].present@.len() && same_value(
                            block.columns@[i].present@[j],
                            row[c],
                        );
                    assert(!same_value(block.columns@[i].present@[j], v));
                }
            }
        },
        _ => {},
    }
}

/// Whether a string with the characters of `name` is among `names`.
fn contains_name(names: &Vec<String>, name: &String) -> (r: bool)
    ensures
        r == names_of(names@).contains(name@),
{
    let mut i: usize = 0;
    while i < names.len()
        invariant
            0 <= i <= names.len(),
            forall|k: int| 0 <= k < i ==> names@[k]@ != name@,
        decreases names.len() - i,
    {
        if names[i].eq(name) {
            assert(names@[i as int]@ == name@);
            return true;
        }
        i = i + 1;
    }
    false
}

/// Whether `v` is among the literals of `present`.
fn lists_value(present: &Vec<Scalar>, v: &Scalar) -> (r: bool)
    ensures
        r == exists|j: int| 0 <= j < present@.len() && same_value(#[trigger] present@[j], *v),
{
    let mut j: usize = 0;
    while j < present.len()
        invariant
            0 <= j <= present.len(),
            forall|k: int| 0 <= k < j ==> !same_value(#[trigger] present@[k], *v),
        decreases present.len() - j,
    {
        if present[j].same_as(v) {
            return true;
        }
        j = j + 1;
    }
    false
}

impl BloomBlock {
    /// Whether the block holds a filter under `name` and every such filter
    /// reports `v` absent.
    pub fn reports_absent(&self, name: &String, v: &Scalar) -> (r: bool)
        ensures
            r == reports_absent(*self, name@, *v),
    {
        let mut found = false;
        let mut i: usize = 0;
        while i < self.columns.len()
            invariant
                0 <= i <= self.columns.len(),
                found == exists|k: int| 0 <= k < i && #[trigger] self.columns@[k].name@ == name@,
                forall|k: int, j: int|
                    0 <= k < i && self.columns@[k].name@ == name@ && 0 <= j
                        < self.columns@[k].present@.len() ==> !same_value(
                        #[trigger] self.columns@[k].present@[j],
                        *v,
                    ),
            decreases self.columns.len() - i,
        {
            let column = &self.columns[i];
            if column.name.eq(name) {
                if lists_value(&column.present, v) {
                    return false;
                }
                found = true;
            }
            i = i + 1;
        }
        found
    }

    /// Whether the point query `column = v` might hold on the block, given the
    /// bloom columns that were loaded.
    pub fn point_maybe_true(&self, index_columns: &Vec<String>, column: &String, v: &Scalar) -> (r: bool)
        ensures
            r == point_maybe_true(*self, index_columns@, column@, *v),
    {
        let name = to_bloom_column_name(column.as_str());
        if contains_name(index_columns, &name) {
            !self.reports_absent(&name, v)
        } else {
            true
        }
    }

    /// Whether `expr` might hold on the block, given the bloom columns that
    /// were loaded: `false` only where the filters prove it false.
    pub fn maybe_true(&self, index_columns: &Vec<String>, expr: &Expression) -> (r: bool)
        ensures
            r == maybe_true(*self, index_columns@, *expr),
        decreases expr,
    {
        match expr {
            Expression::BinaryExpression { left, op, right } => {
                match op {
                    BinaryOperator::And => {
                        self.maybe_true(index_columns, left) && self.maybe_true(index_columns, right)
                    },
                    BinaryOperator::Or => {
                        self.maybe_true(index_columns, left) || self.maybe_true(index_columns, right)
                    },
                    BinaryOperator::Eq => {
                        match (&**left, &**right) {
                            (Expression::Column(c), Expression::Literal(v)) => {
                                self.point_maybe_true(index_columns, c, v)
                            },
                            (Expression::Literal(v), Expression::Column(c)) => {
                                self.point_maybe_true(index_columns, c, v)
                            },
                            _ => true,
                        }
                    },
                    _ => true,
                }
            },
            _ => true,
        }
    }
}

} // verus!
