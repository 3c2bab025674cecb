use harmon::{BLACK, WHITE};


#[test]
fn fmt_color() {
    assert_eq!(BLACK.to_string(), "Black");
    assert_eq!(WHITE.to_string(), "White");
}
