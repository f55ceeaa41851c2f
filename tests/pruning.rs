use bloom_pruner::bloom_index::{to_bloom_column_name, BloomBlock, BloomColumn};
use bloom_pruner::expression::{BinaryOperator, Expression, Scalar, UnaryOperator};
use bloom_pruner::file_format::{DropFileFormatPlan, ShowFileFormatsPlan};
use bloom_pruner::pruner::{
    filter_block_by_bloom_index, new_bloom_filter_pruner, BloomFilterIndexPruner,
    BloomFilterPruner, IndexError, NonPruner, Pruner,
};
use bloom_pruner::schema::{DataField, DataSchema, DataType};

fn col(name: &str) -> Expression {
    Expression::Column(name.to_string())
}

fn lit(v: i64) -> Expression {
    Expression::Literal(Scalar::Int64(v))
}

fn bin(left: Expression, op: BinaryOperator, right: Expression) -> Expression {
    Expression::BinaryExpression { left: Box::new(left), op, right: Box::new(right) }
}

fn schema() -> DataSchema {
    DataSchema::new(vec![
        DataField::new("a", DataType::Int64),
        DataField::new("b", DataType::Int64),
    ])
}

fn block(columns: Vec<(&str, Vec<i64>)>) -> Result<BloomBlock, IndexError> {
    Ok(BloomBlock {
        columns: columns
            .into_iter()
            .map(|(c, vs)| BloomColumn {
                name: to_bloom_column_name(c),
                present: vs.into_iter().map(Scalar::Int64).collect(),
            })
            .collect(),
    })
}

fn errors() -> Vec<Result<BloomBlock, IndexError>> {
    vec![
        Err(IndexError::Location("no such block".to_string())),
        Err(IndexError::Io("connection reset".to_string())),
        Err(IndexError::Decode("bad footer".to_string())),
    ]
}

fn bloom_pruner_for(e: &Expression) -> Pruner {
    let p = new_bloom_filter_pruner(Some(e), &schema());
    assert!(matches!(p, Pruner::BloomIndex(_)));
    p
}

#[test]
fn bloom_column_name_wraps_the_column() {
    assert_eq!(to_bloom_column_name("a"), "Bloom(a)");
    assert_eq!(to_bloom_column_name(""), "Bloom()");
}

#[test]
fn non_pruner_keeps_every_block() {
    let p = NonPruner;
    assert!(p.should_keep(&block(vec![("a", vec![])])));
    assert!(p.should_keep(&block(vec![])));
    for e in errors() {
        assert!(p.should_keep(&e));
    }
}

#[test]
fn no_predicate_gives_non_pruner() {
    let p = new_bloom_filter_pruner(None, &schema());
    assert!(matches!(p, Pruner::NonPruner(_)));
    assert!(p.index_columns_to_load().is_none());
    assert!(p.should_keep(&block(vec![("a", vec![])])));
}

#[test]
fn predicate_without_point_query_gives_non_pruner() {
    let e = bin(col("a"), BinaryOperator::Gt, lit(1));
    let p = new_bloom_filter_pruner(Some(&e), &schema());
    assert!(matches!(p, Pruner::NonPruner(_)));
    assert!(p.should_keep(&block(vec![("a", vec![])])));
    for l in errors() {
        assert!(p.should_keep(&l));
    }
}

#[test]
fn point_query_gives_index_pruner_over_translated_columns() {
    let e = bin(
        bin(col("a"), BinaryOperator::Eq, lit(1)),
        BinaryOperator::And,
        bin(lit(2), BinaryOperator::Eq, col("b")),
    );
    let p = bloom_pruner_for(&e);
    let mut cols = p.index_columns_to_load().unwrap().clone();
    cols.sort();
    assert_eq!(cols, vec!["Bloom(a)".to_string(), "Bloom(b)".to_string()]);
    match p {
        Pruner::BloomIndex(q) => {
            assert_eq!(q.data_schema, schema());
            assert_eq!(q.index_columns.len(), 2);
        }
        Pruner::NonPruner(_) => panic!("expected a bloom index pruner"),
    }
}

#[test]
fn absent_value_prunes_block() {
    let p = bloom_pruner_for(&bin(col("a"), BinaryOperator::Eq, lit(1)));
    assert!(!p.should_keep(&block(vec![("a", vec![2, 3])])));
    assert!(!p.should_keep(&block(vec![("a", vec![])])));
}

#[test]
fn present_value_keeps_block() {
    let p = bloom_pruner_for(&bin(col("a"), BinaryOperator::Eq, lit(1)));
    assert!(p.should_keep(&block(vec![("a", vec![1])])));
    assert!(p.should_keep(&block(vec![("a", vec![5, 1])])));
}

#[test]
fn column_without_filter_keeps_block() {
    let p = bloom_pruner_for(&bin(col("a"), BinaryOperator::Eq, lit(1)));
    assert!(p.should_keep(&block(vec![])));
    assert!(p.should_keep(&block(vec![("b", vec![])])));
}

#[test]
fn filter_of_a_column_not_requested_is_ignored() {
    let p = BloomFilterIndexPruner::new(
        vec!["Bloom(b)".to_string()],
        bin(col("a"), BinaryOperator::Eq, lit(1)),
        schema(),
    );
    assert!(p.should_keep(&block(vec![("a", vec![])])));
}

#[test]
fn failed_load_keeps_block() {
    let p = bloom_pruner_for(&bin(col("a"), BinaryOperator::Eq, lit(1)));
    for l in errors() {
        assert!(p.should_keep(&l));
    }
}

#[test]
fn load_error_is_passed_on_by_filter() {
    let e = bin(col("a"), BinaryOperator::Eq, lit(1));
    let cols = vec!["Bloom(a)".to_string()];
    for l in errors() {
        let r = filter_block_by_bloom_index(&e, &cols, &l);
        match (r, l) {
            (Err(IndexError::Location(x)), Err(IndexError::Location(y))) => assert_eq!(x, y),
            (Err(IndexError::Io(x)), Err(IndexError::Io(y))) => assert_eq!(x, y),
            (Err(IndexError::Decode(x)), Err(IndexError::Decode(y))) => assert_eq!(x, y),
            _ => panic!("error not passed on"),
        }
    }
    assert!(matches!(filter_block_by_bloom_index(&e, &cols, &block(vec![("a", vec![])])), Ok(false)));
    assert!(matches!(filter_block_by_bloom_index(&e, &cols, &block(vec![("a", vec![1])])), Ok(true)));
}

#[test]
fn conjunction_is_pruned_by_either_side() {
    let e = bin(
        bin(col("a"), BinaryOperator::Eq, lit(1)),
        BinaryOperator::And,
        bin(col("b"), BinaryOperator::Eq, lit(2)),
    );
    let p = bloom_pruner_for(&e);
    assert!(!p.should_keep(&block(vec![("a", vec![1]), ("b", vec![3])])));
    assert!(!p.should_keep(&block(vec![("a", vec![]), ("b", vec![2])])));
    assert!(p.should_keep(&block(vec![("a", vec![1]), ("b", vec![2])])));
}

#[test]
fn disjunction_is_pruned_only_by_both_sides() {
    let e = bin(
        bin(col("a"), BinaryOperator::Eq, lit(1)),
        BinaryOperator::Or,
        bin(col("b"), BinaryOperator::Eq, lit(2)),
    );
    let p = bloom_pruner_for(&e);
    assert!(p.should_keep(&block(vec![("a", vec![1]), ("b", vec![3])])));
    assert!(p.should_keep(&block(vec![("a", vec![]), ("b", vec![2])])));
    assert!(!p.should_keep(&block(vec![("a", vec![]), ("b", vec![])])));
}

#[test]
fn other_comparisons_never_prune() {
    let e = bin(
        bin(col("a"), BinaryOperator::Eq, lit(1)),
        BinaryOperator::Or,
        bin(col("b"), BinaryOperator::Gt, lit(2)),
    );
    let p = bloom_pruner_for(&e);
    assert!(p.should_keep(&block(vec![("a", vec![]), ("b", vec![])])));
    let n = bin(
        Expression::UnaryExpression {
            op: UnaryOperator::Not,
            expr: Box::new(bin(col("b"), BinaryOperator::Eq, lit(2))),
        },
        BinaryOperator::And,
        bin(col("a"), BinaryOperator::NotEq, lit(1)),
    );
    let q = bloom_pruner_for(&n);
    assert!(q.should_keep(&block(vec![("a", vec![]), ("b", vec![])])));
}

#[test]
fn string_literals_are_probed_by_value() {
    let e = bin(col("a"), BinaryOperator::Eq, Expression::Literal(Scalar::String("x".to_string())));
    let p = bloom_pruner_for(&e);
    let with = |vs: Vec<Scalar>| {
        Ok(BloomBlock { columns: vec![BloomColumn { name: to_bloom_column_name("a"), present: vs }] })
    };
    assert!(p.should_keep(&with(vec![Scalar::String("x".to_string())])));
    assert!(!p.should_keep(&with(vec![Scalar::String("y".to_string()), Scalar::Int64(1)])));
}

#[test]
fn repeated_calls_agree() {
    let p = bloom_pruner_for(&bin(col("a"), BinaryOperator::Eq, lit(1)));
    let pruned = block(vec![("a", vec![2])]);
    let kept = block(vec![("a", vec![1])]);
    for _ in 0..3 {
        assert!(!p.should_keep(&pruned));
        assert!(p.should_keep(&kept));
    }
}

#[test]
fn call_order_does_not_matter() {
    let p = bloom_pruner_for(&bin(col("a"), BinaryOperator::Eq, lit(1)));
    let blocks = vec![
        block(vec![("a", vec![1])]),
        block(vec![("a", vec![2])]),
        Err(IndexError::Io("timeout".to_string())),
        block(vec![]),
    ];
    let forward: Vec<bool> = blocks.iter().map(|b| p.should_keep(b)).collect();
    let mut backward: Vec<bool> = blocks.iter().rev().map(|b| p.should_keep(b)).collect();
    backward.reverse();
    assert_eq!(forward, vec![true, false, true, true]);
    assert_eq!(forward, backward);
}

#[test]
fn drop_file_format_schema_is_empty() {
    let plan = DropFileFormatPlan { if_exists: true, name: "csv".to_string() };
    assert!(plan.schema().fields.is_empty());
}

#[test]
fn show_file_formats_schema_lists_name_and_options() {
    let s = ShowFileFormatsPlan {}.schema();
    assert_eq!(s.fields.len(), 2);
    assert_eq!(s.fields[0].name, "name");
    assert_eq!(s.fields[0].data_type, DataType::String);
    assert_eq!(s.fields[1].name, "format_options");
    assert_eq!(s.fields[1].data_type, DataType::String);
}
