use distribbuidora_pdv::errors::AppError;
use distribbuidora_pdv::models::MovementType;
use distribbuidora_pdv::text::{
    bytes_contain, bytes_in_order, digit_str, integer_to_string, money_to_string,
    natural_to_string, text_has, text_in_order, text_is,
};

#[test]
fn integers_are_written_in_decimal() {
    assert_eq!(natural_to_string(0), "0");
    assert_eq!(natural_to_string(7), "7");
    assert_eq!(natural_to_string(10), "10");
    assert_eq!(natural_to_string(1234567890), "1234567890");
    assert_eq!(natural_to_string(u128::MAX), u128::MAX.to_string());
    assert_eq!(integer_to_string(0), "0");
    assert_eq!(integer_to_string(-1), "-1");
    assert_eq!(integer_to_string(98), "98");
    assert_eq!(integer_to_string(i64::MIN as i128), "-9223372036854775808");
    assert_eq!(integer_to_string(i64::MAX as i128), "9223372036854775807");
    assert_eq!(integer_to_string(i128::MIN), i128::MIN.to_string());
    assert_eq!(integer_to_string(i128::MAX), i128::MAX.to_string());
}

#[test]
fn digits_are_single_characters() {
    assert_eq!(digit_str(0), "0");
    assert_eq!(digit_str(9), "9");
    assert_eq!(digit_str(10), "");
}

#[test]
fn money_is_written_with_two_decimal_places() {
    assert_eq!(money_to_string(0), "0.00");
    assert_eq!(money_to_string(5), "0.05");
    assert_eq!(money_to_string(50), "0.50");
    assert_eq!(money_to_string(500), "5.00");
    assert_eq!(money_to_string(2000), "20.00");
    assert_eq!(money_to_string(123456), "1234.56");
    assert_eq!(money_to_string(-1), "-0.01");
    assert_eq!(money_to_string(-1050), "-10.50");
    assert_eq!(money_to_string(i64::MAX as i128), "92233720368547758.07");
    assert_eq!(money_to_string(i64::MIN as i128), "-92233720368547758.08");
}

#[test]
fn texts_are_ordered_byte_by_byte() {
    assert!(text_in_order("", ""));
    assert!(text_in_order("", "a"));
    assert!(!text_in_order("a", ""));
    assert!(text_in_order("a", "a"));
    assert!(text_in_order("a", "ab"));
    assert!(!text_in_order("ab", "a"));
    assert!(text_in_order("Z", "a"));
    assert!(!text_in_order("a", "Z"));
    assert!(text_in_order("z", "Água"));
    assert!(text_in_order("Gás", "Gês"));
    assert!(bytes_in_order(&[1, 2, 3], &[1, 2, 4]));
    assert!(!bytes_in_order(&[1, 2, 4], &[1, 2, 3]));
    assert!(bytes_in_order(&[1, 2], &[1, 2, 0]));
    assert!(!bytes_in_order(&[255], &[254, 255]));
}

#[test]
fn substrings_are_found() {
    assert!(text_has("11999999999", "9999"));
    assert!(text_has("11999999999", "11999999999"));
    assert!(text_has("11999999999", ""));
    assert!(text_has("", ""));
    assert!(!text_has("", "1"));
    assert!(!text_has("11999999999", "119999999999"));
    assert!(!text_has("11888888888", "9999"));
    assert!(text_has("abcabd", "abd"));
    assert!(text_has("aab", "ab"));
    assert!(!text_has("abab", "aba b"));
    assert!(bytes_contain(&[1, 2, 3], &[2, 3]));
    assert!(!bytes_contain(&[1, 2, 3], &[3, 2]));
}

#[test]
fn texts_are_compared_whole() {
    assert!(text_is(&"admin".to_string(), "admin"));
    assert!(!text_is(&"admin ".to_string(), "admin"));
    assert!(!text_is(&"Admin".to_string(), "admin"));
    assert!(!text_is(&"".to_string(), "admin"));
}

#[test]
fn errors_are_shown_with_their_kind() {
    let text = |e: AppError| e.to_string();
    assert_eq!(text(AppError::Database("disk full".to_string())), "Database error: disk full");
    assert_eq!(text(AppError::NotFound("Product 3 not found".to_string())), "Not found: Product 3 not found");
    assert_eq!(text(AppError::Validation("bad".to_string())), "Validation error: bad");
    assert_eq!(text(AppError::BusinessLogic("no stock".to_string())), "Business logic error: no stock");
    assert_eq!(text(AppError::Io("denied".to_string())), "IO error: denied");
    assert_eq!(text(AppError::InvalidCredentials), "Invalid credentials");
    assert_eq!(text(AppError::Auth("User not authenticated".to_string())), "Authentication error: User not authenticated");
    assert_eq!(text(AppError::PasswordHashing("salt".to_string())), "Password hashing error: salt");
    assert_eq!(text(AppError::validation("x")), "Validation error: x");
    assert_eq!(text(AppError::auth("y")), "Authentication error: y");
}

#[test]
fn movement_kinds_have_names() {
    assert_eq!(MovementType::In.as_str(), "IN");
    assert_eq!(MovementType::Out.as_str(), "OUT");
    assert_eq!(MovementType::Adjust.as_str(), "ADJUST");
    assert_eq!(MovementType::parse(&"IN".to_string()), Some(MovementType::In));
    assert_eq!(MovementType::parse(&"OUT".to_string()), Some(MovementType::Out));
    assert_eq!(MovementType::parse(&"ADJUST".to_string()), Some(MovementType::Adjust));
    assert_eq!(MovementType::parse(&"in".to_string()), None);
    assert_eq!(MovementType::parse(&"".to_string()), None);
}
