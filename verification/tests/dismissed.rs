use frontend::dismissed::{dismiss_message, parse_dismissed_ids, serialize_dismissed_ids};

#[test]
fn stored_ids_are_read_trimmed_and_once() {
    assert_eq!(parse_dismissed_ids("3, 5,x,,3, -7 "), vec![3, 5, -7]);
    assert_eq!(parse_dismissed_ids(""), Vec::<i64>::new());
    assert_eq!(parse_dismissed_ids("abc"), Vec::<i64>::new());
}

#[test]
fn ids_are_stored_comma_separated() {
    assert_eq!(serialize_dismissed_ids(&vec![3, 5, -7]), "3,5,-7");
    assert_eq!(serialize_dismissed_ids(&Vec::new()), "");
}

#[test]
fn stored_ids_read_back_unchanged() {
    let ids = vec![12, -4, 0, 99];
    assert_eq!(parse_dismissed_ids(&serialize_dismissed_ids(&ids)), ids);
}

#[test]
fn dismissing_adds_an_id_once() {
    assert_eq!(dismiss_message("3,5", 9), "3,5,9");
    assert_eq!(dismiss_message("3,5", 5), "3,5");
    assert_eq!(dismiss_message("", 1), "1");
    assert_eq!(dismiss_message(" 3 ,junk", 4), "3,4");
}
