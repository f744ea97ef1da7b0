use theater::record_id::{ParseError, RecordId};
use theater::seating::{sort_seats, Seat};

fn seat(number: i32, available: bool) -> Seat {
    Seat {
        available,
        seat: number,
        id: RecordId { table: "seats".to_string(), key: format!("s{}", number) },
    }
}

#[test]
fn record_id_splits_at_first_colon() {
    let id = RecordId::parse("showtime:abc").unwrap();
    assert_eq!(id.table, "showtime");
    assert_eq!(id.key, "abc");
    let id = RecordId::parse("a:b:c").unwrap();
    assert_eq!(id.table, "a");
    assert_eq!(id.key, "b:c");
}

#[test]
fn record_id_with_empty_parts() {
    let id = RecordId::parse(":").unwrap();
    assert_eq!(id.table, "");
    assert_eq!(id.key, "");
}

#[test]
fn record_id_without_colon_is_refused() {
    assert!(matches!(RecordId::parse("showtime"), Err(ParseError::MissingSeparator)));
    assert!(matches!(RecordId::parse(""), Err(ParseError::MissingSeparator)));
}

#[test]
fn record_id_text_round_trips() {
    let id = RecordId::parse("theaters:t1").unwrap();
    assert_eq!(id.to_text(), "theaters:t1");
}

#[test]
fn seats_come_out_in_ascending_order() {
    let seats = vec![seat(5, true), seat(1, false), seat(3, true), seat(2, true), seat(4, false)];
    let sorted = sort_seats(seats);
    let numbers: Vec<i32> = sorted.iter().map(|s| s.seat).collect();
    assert_eq!(numbers, vec![1, 2, 3, 4, 5]);
    let available: Vec<bool> = sorted.iter().map(|s| s.available).collect();
    assert_eq!(available, vec![false, true, true, false, true]);
    assert_eq!(sorted[2].id.key, "s3");
}

#[test]
fn sorting_no_seats_gives_none() {
    assert!(sort_seats(Vec::new()).is_empty());
}

#[test]
fn sorting_keeps_equal_numbers_in_given_order() {
    let seats = vec![seat(2, true), seat(1, true), seat(2, false)];
    let sorted = sort_seats(seats);
    let numbers: Vec<i32> = sorted.iter().map(|s| s.seat).collect();
    assert_eq!(numbers, vec![1, 2, 2]);
    let available: Vec<bool> = sorted.iter().map(|s| s.available).collect();
    assert_eq!(available, vec![true, true, false]);
    let seats = vec![seat(2, false), seat(2, true), seat(1, true)];
    let available: Vec<bool> = sort_seats(seats).iter().map(|s| s.available).collect();
    assert_eq!(available, vec![true, false, true]);
}
