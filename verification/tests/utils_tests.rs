use product_catalog::utils::{get_response_json, normalize_vector};

#[test]
fn response_envelope_has_the_three_fields() {
    assert_eq!(
        get_response_json(200, "ok".to_string(), "[1,2]".to_string()),
        "{\n\"code\":200,\n\"message\":\"ok\",\n\"data\":[1,2]\n}"
    );
}

#[test]
fn response_envelope_matches_the_format() {
    for code in [0, 7, 10, 99, 100, 12345, i32::MAX, -1, -10, -2147483647, i32::MIN] {
        let want = format!("{{\n\"code\":{},\n\"message\":\"{}\",\n\"data\":{}\n}}", code, "m", "null");
        assert_eq!(get_response_json(code, "m".to_string(), "null".to_string()), want);
    }
}

#[test]
fn response_envelope_with_empty_message_and_data() {
    assert_eq!(
        get_response_json(-5, String::new(), String::new()),
        "{\n\"code\":-5,\n\"message\":\"\",\n\"data\":\n}"
    );
}

#[test]
fn response_envelope_of_the_smallest_code() {
    assert_eq!(
        get_response_json(i32::MIN, "x".to_string(), "{}".to_string()),
        "{\n\"code\":-2147483648,\n\"message\":\"x\",\n\"data\":{}\n}"
    );
}

#[test]
fn first_page_leaves_its_last_place_empty() {
    let v: Vec<i32> = (0..10).collect();
    assert_eq!(normalize_vector(1, 3, &v), vec![0, 1]);
}

#[test]
fn second_page_begins_at_the_page_size() {
    let v: Vec<i32> = (0..10).collect();
    assert_eq!(normalize_vector(2, 3, &v), vec![3, 4]);
}

#[test]
fn last_page_ends_with_the_list() {
    let v: Vec<i32> = (0..10).collect();
    assert_eq!(normalize_vector(4, 3, &v), vec![9]);
    assert_eq!(normalize_vector(1, 20, &v), v);
}

#[test]
fn page_behind_the_end_is_empty() {
    let v: Vec<i32> = (0..10).collect();
    assert!(normalize_vector(5, 3, &v).is_empty());
    assert!(normalize_vector(2, 10, &v).is_empty());
}

#[test]
fn page_of_size_one_is_empty() {
    let v: Vec<i32> = (0..10).collect();
    assert!(normalize_vector(1, 1, &v).is_empty());
}

#[test]
fn page_of_an_empty_list_is_empty() {
    let v: Vec<String> = Vec::new();
    assert!(normalize_vector(1, 3, &v).is_empty());
}

#[test]
fn page_of_size_zero_is_empty() {
    let v: Vec<i32> = (0..10).collect();
    assert!(normalize_vector(1, 0, &v).is_empty());
    assert!(normalize_vector(0, 0, &v).is_empty());
}

#[test]
fn page_copies_the_items() {
    let v = vec!["a".to_string(), "b".to_string(), "c".to_string()];
    assert_eq!(normalize_vector(1, 3, &v), vec!["a".to_string(), "b".to_string()]);
}
