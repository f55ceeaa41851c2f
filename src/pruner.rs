//! Pruners: one is chosen per scan from the scan's predicate, and decides for
//! each block whether it must be read. A block is skipped only where its bloom
//! filter index proves that the predicate cannot hold on it.
use vstd::prelude::*;
use crate::bloom_index::{
    BloomBlock, bloom_column_name, bloom_column_names, filters_admit_row,
    lemma_bloom_column_name_injective, lemma_no_false_negatives, maybe_true, row_may_satisfy,
    to_bloom_column_name,
};
use crate::expression::{
    Expression, Scalar, columns_names_of_eq_expressions, distinct_names, names_of,
    point_query_columns,
};
use crate::schema::DataSchema;

verus! {

/// Why the bloom index of a block could not be had.
#[derive(Debug)]
pub enum IndexError {
    /// The index location of the block could not be resolved.
    Location(String),
    /// Reading the index failed.
    Io(String),
    /// The index bytes could not be decoded.
    Decode(String),
}

impl Clone for IndexError {
    fn clone(&self) -> (r: IndexError)
        ensures
            r == *self,
    {
        match self {
            IndexError::Location(m) => IndexError::Location(m.clone()),
            IndexError::Io(m) => IndexError::Io(m.clone()),
            IndexError::Decode(m) => IndexError::Decode(m.clone()),
        }
    }
}

/// Decides whether a block is kept, from the outcome of loading its bloom
/// index. `true` means the block may hold matching rows (false positives are
/// allowed); `false` that it cannot.
pub trait BloomFilterPruner {
    /// The decision on a block whose index load came out as `loaded`.
    spec fn keeps(&self, loaded: Result<BloomBlock, IndexError>) -> bool;

    /// Returns `true` where the block must not be pruned. A failed load
    /// always keeps the block.
    fn should_keep(&self, loaded: &Result<BloomBlock, IndexError>) -> (r: bool)
        ensures
            r == self.keeps(*loaded),
            loaded is Err ==> r,
    ;
}

/// The pruner that prunes nothing.
#[derive(Debug)]
pub struct NonPruner;

impl BloomFilterPruner for NonPruner {
    open spec fn keeps(&self, loaded: Result<BloomBlock, IndexError>) -> bool {
        true
    }

    fn should_keep(&self, loaded: &Result<BloomBlock, IndexError>) -> (r: bool) {
        true
    }
}

/// The pruner backed by each block's bloom filter index.
#[derive(Debug)]
pub struct BloomFilterIndexPruner {
    /// The bloom index columns to load for each block.
    pub index_columns: Vec<String>,
    /// The predicate that is evaluated against each block's index.
    pub filter_expression: Expression,
    /// The schema of the data being indexed.
    pub data_schema: DataSchema,
}

impl BloomFilterIndexPruner {
    pub fn new(
        index_columns: Vec<String>,
        filter_expression: Expression,
        data_schema: DataSchema,
    ) -> (r: Self)
        ensures
            r.index_columns@ == index_columns@,
            r.filter_expression == filter_expression,
            r.data_schema == data_schema,
    {
        BloomFilterIndexPruner { index_columns, filter_expression, data_schema }
    }
}

/// Whether the predicate might hold on a block whose index load came out as
/// `loaded`; the load's error is passed on.
pub fn filter_block_by_bloom_index(
    filter_expr: &Expression,
    bloom_index_col_names: &Vec<String>,
    loaded: &Result<BloomBlock, IndexError>,
) -> (r: Result<bool, IndexError>)
    ensures
        match *loaded {
            Ok(block) => r == Ok::<bool, IndexError>(
                maybe_true(block, bloom_index_col_names@, *filter_expr),
            ),
            Err(e) => r == Err::<bool, IndexError>(e),
        },
{
    match loaded {
        Ok(block) => Ok(block.maybe_true(bloom_index_col_names, filter_expr)),
        Err(e) => Err(e.clone()),
    }
}

impl BloomFilterPruner for BloomFilterIndexPruner {
    open spec fn keeps(&self, loaded: Result<BloomBlock, IndexError>) -> bool {
        match loaded {
            Ok(block) => maybe_true(block, self.index_columns@, self.filter_expression),
            Err(_) => true,
        }
    }

    fn should_keep(&self, loaded: &Result<BloomBlock, IndexError>) -> (r: bool) {
        match filter_block_by_bloom_index(&self.filter_expression, &self.index_columns, loaded) {
            Ok(v) => v,
            // a damaged or missing index must not stop the scan: keep the block
            Err(_) => true,
        }
    }
}

/// The pruner chosen for one scan.
#[derive(Debug)]
pub enum Pruner {
    NonPruner(NonPruner),
    BloomIndex(BloomFilterIndexPruner),
}

impl Pruner {
    /// The bloom index columns to load for each block, or `None` where the
    /// decision needs no index.
    pub fn index_columns_to_load(&self) -> (r: Option<&Vec<String>>)
        ensures
            match *self {
                Pruner::NonPruner(_) => r is None,
                Pruner::BloomIndex(p) => r is Some && r->Some_0@ == p.index_columns@,
            },
    {
        match self {
            Pruner::NonPruner(_) => None,
            Pruner::BloomIndex(p) => Some(&p.index_columns),
        }
    }
}

impl BloomFilterPruner for Pruner {
    open spec fn keeps(&self, loaded: Result<BloomBlock, IndexError>) -> bool {
        match *self {
            Pruner::NonPruner(p) => p.keeps(loaded),
            Pruner::BloomIndex(p) => p.keeps(loaded),
        }
    }

    fn should_keep(&self, loaded: &Result<BloomBlock, IndexError>) -> (r: bool) {
        match self {
            Pruner::NonPruner(p) => p.should_keep(loaded),
            Pruner::BloomIndex(p) => p.should_keep(loaded),
        }
    }
}

/// The names of the bloom index columns of `columns`, in the same order.
fn to_bloom_column_names(columns: &Vec<String>) -> (r: Vec<String>)
    ensures
        r@.len() == columns@.len(),
        forall|k: int| 0 <= k < r@.len() ==> #[trigger] r@[k]@ == bloom_column_name(columns@[k]@),
{
    let mut r: Vec<String> = Vec::new();
    let mut i: usize = 0;
    while i < columns.len()
        invariant
            0 <= i <= columns.len(),
            r@.len() == i,
            forall|k: int| 0 <= k < i ==> #[trigger] r@[k]@ == bloom_column_name(columns@[k]@),
        decreases columns.len() - i,
    {
        r.push(to_bloom_column_name(columns[i].as_str()));
        i = i + 1;
    }
    r
}

/// Chooses the pruner of a scan. Without a predicate, or where the predicate
/// holds no point query (`column = literal`), nothing can be pruned and the
/// result is a [NonPruner]. Otherwise it is a [BloomFilterIndexPruner] that
/// loads the bloom index columns of exactly the point-queried columns.
pub fn new_bloom_filter_pruner(filter_expr: Option<&Expression>, schema: &DataSchema) -> (r: Pruner)
    ensures
        (r is NonPruner) <==> (filter_expr is None || point_query_columns(
            *filter_expr->Some_0,
        ).is_empty()),
        r is NonPruner ==> forall|loaded: Result<BloomBlock, IndexError>| #[trigger] r.keeps(loaded),
        r is BloomIndex ==> {
            let p = r->BloomIndex_0;
            let e = *filter_expr->Some_0;
            &&& filter_expr is Some
            &&& p.filter_expression == e
            &&& names_of(p.index_columns@) == bloom_column_names(point_query_columns(e))
            &&& distinct_names(p.index_columns@)
            &&& p.data_schema.fields@ == schema.fields@
        },
{
    if let Some(expr) = filter_expr {
        let point_query_cols = columns_names_of_eq_expressions(expr);
        if point_query_cols.len() > 0 {
            assert(names_of(point_query_cols@).contains(point_query_cols@[0]@));
            let filter_block_cols = to_bloom_column_names(&point_query_cols);
            proof {
                let cols = point_query_cols@;
                let out = filter_block_cols@;
                assert forall|n: Seq<char>|
                    names_of(out).contains(n) <==> #[trigger] bloom_column_names(names_of(cols)).contains(n) by {
                    if names_of(out).contains(n) {
                        let k = choose|k: int| 0 <= k < out.len() && out[k]@ == n;
                        assert(out[k]@ == bloom_column_name(cols[k]@));
                        assert(names_of(cols).contains(cols[k]@));
                    }
                    if bloom_column_names(names_of(cols)).contains(n) {
                        let c = choose|c: Seq<char>| names_of(cols).contains(c) && n == bloom_column_name(c);
                        let k = choose|k: int| 0 <= k < cols.len() && cols[k]@ == c;
                        assert(out[k]@ == bloom_column_name(cols[k]@));
                    }
                }
                assert(names_of(out) =~= bloom_column_names(names_of(cols)));
                assert forall|i: int, j: int|
                    0 <= i < out.len() && 0 <= j < out.len() && i != j implies out[i]@ != out[j]@ by {
                    assert(out[i]@ == bloom_column_name(cols[i]@));
                    assert(out[j]@ == bloom_column_name(cols[j]@));
                    lemma_bloom_column_name_injective(cols[i]@, cols[j]@);
                }
            }
            return Pruner::BloomIndex(
                BloomFilterIndexPruner::new(filter_block_cols, expr.clone(), schema.clone()),
            );
        } else {
            assert(names_of(point_query_cols@) =~= Set::empty());
        }
    }
    Pruner::NonPruner(NonPruner)
}

/// The pruner that prunes nothing keeps every block, whatever its index.
pub proof fn lemma_non_pruner_keeps_every_block(p: NonPruner, loaded: Result<BloomBlock, IndexError>)
    ensures
        p.keeps(loaded),
{
}

/// Pruning fails open: a block whose index could not be loaded or decoded is
/// kept by every pruner, whatever the predicate.
pub proof fn lemma_failed_load_keeps_block(p: Pruner, e: IndexError)
    ensures
        p.keeps(Err(e)),
{
}

/// A bloom index pruner never skips a block that holds a row which may
/// satisfy its predicate, as long as the block's filters report that row's
/// values.
pub proof fn lemma_index_pruner_keeps_matching_block(
    p: BloomFilterIndexPruner,
    block: BloomBlock,
    row: Map<Seq<char>, Scalar>,
)
    requires
        filters_admit_row(block, row),
        row_may_satisfy(row, p.filter_expression),
    ensures
        p.keeps(Ok(block)),
{
    lemma_no_false_negatives(block, p.index_columns@, row, p.filter_expression);
}

} // verus!
