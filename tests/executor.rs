use trading_post::error::Error;
use trading_post::filter::Literal;
use trading_post::pagination::{PageCursor, PaginationParams};
use trading_post::query::Query;

/// Walks a result set of `total` rows in network pages of `size`, as the
/// executor's loop does, and returns the kept rows and the rounds made.
fn walk(total: usize, size: usize, page: i32) -> (Vec<usize>, usize) {
    let params = PaginationParams::new(page, size as i32);
    let mut cursor = PageCursor::start(&params);
    let mut rows: Vec<usize> = Vec::new();
    let mut rounds = 0;
    while cursor.wants_more_pages() {
        let start = rounds * size;
        let end = usize::min(start + size, total);
        rows = (start..end).collect();
        rounds += 1;
        cursor.record_page(end < total);
    }
    (cursor.finish(rows), rounds)
}

#[test]
fn first_page_takes_one_round() {
    let (rows, rounds) = walk(25, 10, 1);
    assert_eq!(rows, (0..10).collect::<Vec<_>>());
    assert_eq!(rounds, 1);
}

#[test]
fn last_partial_page_takes_three_rounds() {
    let (rows, rounds) = walk(25, 10, 3);
    assert_eq!(rows, (20..25).collect::<Vec<_>>());
    assert_eq!(rounds, 3);
}

#[test]
fn page_beyond_the_data_is_empty() {
    let (rows, rounds) = walk(25, 10, 4);
    assert!(rows.is_empty());
    assert_eq!(rounds, 3);
}

#[test]
fn page_zero_reads_the_first_page() {
    let (rows, rounds) = walk(25, 10, 0);
    assert_eq!(rows, (0..10).collect::<Vec<_>>());
    assert_eq!(rounds, 1);
}

#[test]
fn pagination_params_replace_negatives() {
    assert_eq!(PaginationParams::new(-3, -1), PaginationParams { page: 1, page_size: 1 });
    assert_eq!(PaginationParams::new(0, 20), PaginationParams { page: 0, page_size: 20 });
    assert_eq!(PaginationParams::new(4, 10), PaginationParams { page: 4, page_size: 10 });
}

#[test]
fn single_read_of_no_rows_is_not_found() {
    let rows: Vec<u32> = Vec::new();
    assert!(matches!(Query::get_instance(rows), Err(Error::NotFound)));
}

#[test]
fn single_read_takes_the_first_row() {
    assert!(matches!(Query::get_instance(vec![7u32, 8]), Ok(7)));
}

#[test]
fn caller_values_come_before_retained_ones() {
    let query = Query::new("UPDATE T SET v = ? WHERE k = ?", vec![Literal::BigInt(2)]);
    let merged = query.get_merged_query_values(&vec![Literal::BigInt(1)]);
    let numbers: Vec<i64> = merged
        .iter()
        .map(|v| match v {
            Literal::BigInt(n) => *n,
            _ => panic!("unexpected literal"),
        })
        .collect();
    assert_eq!(numbers, vec![1, 2]);
    assert_eq!(query.get_raw_cql(), "UPDATE T SET v = ? WHERE k = ?");
}

#[test]
fn error_messages_are_generic() {
    let validation = Error::ValidationError {
        field: String::from("amount"),
        message: String::from("bad"),
    };
    assert_eq!(validation.message(), "Client specified an invalid argument");
    assert_eq!(validation.code(), tonic::Code::InvalidArgument);
    assert_eq!(Error::NotFound.message(), "Some requested entity was not found");
    assert_eq!(Error::NotFound.code(), tonic::Code::NotFound);
    let store = Error::CassandraError(String::from("socket closed"));
    assert_eq!(store.message(), "Internal error");
    assert_eq!(store.code(), tonic::Code::Internal);
}

#[test]
fn driver_errors_lose_their_detail() {
    let err = Error::from_driver(cdrs_tokio::error::Error::General(String::from("secret detail")));
    match err {
        Error::CassandraError(m) => assert_eq!(m, "Internal error"),
        _ => panic!("expected a store error"),
    }
}
