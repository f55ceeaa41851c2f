//! The predicate tree, and the extraction of the columns that point queries
//! (`column = literal`) test.
use vstd::prelude::*;

verus! {

/// A literal value of a predicate.
#[derive(Debug)]
pub enum Scalar {
    Null,
    Boolean(bool),
    Int64(i64),
    UInt64(u64),
    String(String),
}

/// Whether two literals denote the same value.
pub open spec fn same_value(a: Scalar, b: Scalar) -> bool {
    match (a, b) {
        (Scalar::Null, Scalar::Null) => true,
        (Scalar::Boolean(x), Scalar::Boolean(y)) => x == y,
        (Scalar::Int64(x), Scalar::Int64(y)) => x == y,
        (Scalar::UInt64(x), Scalar::UInt64(y)) => x == y,
        (Scalar::String(x), Scalar::String(y)) => x@ == y@,
        _ => false,
    }
}

impl Scalar {
    /// Compares two literals by value.
    pub fn same_as(&self, other: &Scalar) -> (r: bool)
        ensures
            r == same_value(*self, *other),
    {
        match (self, other) {
            (Scalar::Null, Scalar::Null) => true,
            (Scalar::Boolean(x), Scalar::Boolean(y)) => *x == *y,
            (Scalar::Int64(x), Scalar::Int64(y)) => *x == *y,
            (Scalar::UInt64(x), Scalar::UInt64(y)) => *x == *y,
            (Scalar::String(x), Scalar::String(y)) => x.eq(y),
            _ => false,
        }
    }
}

impl Clone for Scalar {
    fn clone(&self) -> (r: Scalar)
        ensures
            r == *self,
    {
        match self {
            Scalar::Null => Scalar::Null,
            Scalar::Boolean(x) => Scalar::Boolean(*x),
            Scalar::Int64(x) => Scalar::Int64(*x),
            Scalar::UInt64(x) => Scalar::UInt64(*x),
            Scalar::String(x) => Scalar::String(x.clone()),
        }
    }
}

/// Operators of binary predicate nodes.
#[derive(Clone, Copy, Debug, PartialEq, Eq, Structural)]
pub enum BinaryOperator {
    Eq,
    NotEq,
    Lt,
    LtEq,
    Gt,
    GtEq,
    And,
    Or,
    Plus,
    Minus,
}

/// Operators of unary predicate nodes.
#[derive(Clone, Copy, Debug, PartialEq, Eq, Structural)]
pub enum UnaryOperator {
    Not,
    Negate,
}

/// A node of a predicate tree.
#[allow(inconsistent_fields)]
#[derive(Debug)]
pub enum Expression {
    Column(String),
    Literal(Scalar),
    BinaryExpression { left: Box<Expression>, op: BinaryOperator, right: Box<Expression> },
    UnaryExpression { op: UnaryOperator, expr: Box<Expression> },
}

impl Clone for Expression {
    fn clone(&self) -> (r: Expression)
        ensures
            r == *self,
        decreases self,
    {
        match self {
            Expression::Column(c) => Expression::Column(c.clone()),
            Expression::Literal(v) => Expression::Literal(v.clone()),
            Expression::BinaryExpression { left, op, right } => Expression::BinaryExpression {
                left: Box::new((**left).clone()),
                op: *op,
                right: Box::new((**right).clone()),
            },
            Expression::UnaryExpression { op, expr } => Expression::UnaryExpression {
                op: *op,
                expr: Box::new((**expr).clone()),
            },
        }
    }
}

/// The column and the literal of a point query `left = right`, where one side
/// is a column reference and the other a literal, in either order.
pub open spec fn point_query(left: Expression, right: Expression) -> Option<(Seq<char>, Scalar)> {
    match (left, right) {
        (Expression::Column(c), Expression::Literal(v)) => Some((c@, v)),
        (Expression::Literal(v), Expression::Column(c)) => Some((c@, v)),
        _ => None,
    }
}

/// The columns tested by point queries in a predicate tree. A point query is
/// terminal: its operands are not searched further. Every other node is
/// searched through its children.
pub open spec fn point_query_columns(e: Expression) -> Set<Seq<char>>
    decreases e,
{
    match e {
        Expression::Column(_) => Set::empty(),
        Expression::Literal(_) => Set::empty(),
        Expression::BinaryExpression { left, op, right } => {
            if op == BinaryOperator::Eq && point_query(*left, *right) is Some {
                set![point_query(*left, *right)->Some_0.0]
            } else {
                point_query_columns(*left).union(point_query_columns(*right))
            }
        },
        Expression::UnaryExpression { op, expr } => point_query_columns(*expr),
    }
}

/// The names held by a sequence of strings.
pub open spec fn names_of(v: Seq<String>) -> Set<Seq<char>> {
    Set::new(|n: Seq<char>| exists|i: int| 0 <= i < v.len() && v[i]@ == n)
}

/// No name occurs twice.
pub open spec fn distinct_names(v: Seq<String>) -> bool {
    forall|i: int, j: int| 0 <= i < v.len() && 0 <= j < v.len() && i != j ==> v[i]@ != v[j]@
}

/// Adds `name` to `names` unless a string with the same characters is there.
fn insert_name(names: &mut Vec<String>, name: &String)
    requires
        distinct_names(old(names)@),
    ensures
        distinct_names(final(names)@),
        names_of(final(names)@) == names_of(old(names)@).insert(name@),
{
    let mut i: usize = 0;
    while i < names.len()
        invariant
            0 <= i <= names.len(),
            names@ == old(names)@,
            distinct_names(names@),
            forall|k: int| 0 <= k < i ==> names@[k]@ != name@,
        decreases names.len() - i,
    {
        if names[i] == *name {
            assert(names_of(names@) =~= names_of(names@).insert(name@));
            return;
        }
        i = i + 1;
    }
    let ghost before = names@;
    names.push(name.clone());
    assert(names@ == before.push(*name));
    assert forall|n: Seq<char>| #[trigger] names_of(names@).contains(n) <==> names_of(before).insert(name@).contains(n) by {
        if names_of(names@).contains(n) {
            let k = choose|k: int| 0 <= k < names@.len() && names@[k]@ == n;
            if k < before.len() {
                assert(before[k]@ == n);
            }
        }
        if names_of(before).contains(n) {
            let k = choose|k: int| 0 <= k < before.len() && before[k]@ == n;
            assert(names@[k]@ == n);
        }
        if n == name@ {
            assert(names@[before.len() as int]@ == n);
        }
    }
    assert(names_of(names@) =~= names_of(before).insert(name@));
}

/// Walks `e` in pre-order and adds to `columns` each column that a point query
/// tests, without descending into point queries.
fn visit_point_queries(e: &Expression, columns: &mut Vec<String>)
    requires
        distinct_names(old(columns)@),
    ensures
        distinct_names(final(columns)@),
        names_of(final(columns)@) == names_of(old(columns)@).union(point_query_columns(*e)),
    decreases e,
{
    match e {
        Expression::Column(_) => {
            assert(names_of(columns@) =~= names_of(columns@).union(Set::empty()));
        },
        Expression::Literal(_) => {
            assert(names_of(columns@) =~= names_of(columns@).union(Set::empty()));
        },
        Expression::BinaryExpression { left, op, right } => {
            if *op == BinaryOperator::Eq {
                match (&**left, &**right) {
                    (Expression::Column(c), Expression::Literal(_)) => {
                        insert_name(columns, c);
                        assert(names_of(old(columns)@).insert(c@) =~= names_of(old(columns)@).union(set![c@]));
                        return;
                    },
                    (Expression::Literal(_), Expression::Column(c)) => {
                        insert_name(columns, c);
                        assert(names_of(old(columns)@).insert(c@) =~= names_of(old(columns)@).union(set![c@]));
                        return;
                    },
                    _ => {},
                }
            }
            visit_point_queries(left, columns);
            visit_point_queries(right, columns);
            assert(names_of(columns@) =~= names_of(old(columns)@).union(point_query_columns(*e)));
        },
        Expression::UnaryExpression { op: _, expr } => {
            visit_point_queries(expr, columns);
        },
    }
}

/// The names of the columns that point queries (`column = literal` or
/// `literal = column`) in `filter_expr` test, each once, in no particular order.
pub fn columns_names_of_eq_expressions(filter_expr: &Expression) -> (r: Vec<String>)
    ensures
        names_of(r@) == point_query_columns(*filter_expr),
        distinct_names(r@),
{
    let mut columns: Vec<String> = Vec::new();
    assert(names_of(columns@) =~= Set::empty());
    visit_point_queries(filter_expr, &mut columns);
    assert(names_of(columns@) =~= point_query_columns(*filter_expr));
    columns
}

} // verus!
