use distribbuidora_pdv::db::products::ByName;
use distribbuidora_pdv::db::stock::LowestStockFirst;
use distribbuidora_pdv::models::Product;
use distribbuidora_pdv::sorting::sort;
use distribbuidora_pdv::text::{
    integer_to_string, money_to_string, natural_to_string, text_has, text_in_order,
};
use distribbuidora_pdv::timestamp::{leap_year, month_length, Timestamp};

fn product(id: i64, name: &str, stock_full: i64) -> Product {
    Product {
        id,
        name: name.to_string(),
        description: None,
        category: "other".to_string(),
        price_refill: 0,
        price_full: 0,
        stock_full,
        stock_empty: 0,
        expiry_month: None,
        expiry_year: None,
    }
}

fn words() -> Vec<&'static str> {
    vec![
        "", "a", "A", "aa", "ab", "abc", "b", "ba", "Z", "z", "Água", "Agua", "água", "Gás",
        "Gas", "gás", "10", "9", "09", " ", "  ", "a ", " a", "ç", "c", "d", "é", "e", "f",
        "日本", "日", "本", "\u{10000}", "\u{ffff}", "\u{7f}", "\u{80}", "\u{7ff}", "\u{800}",
    ]
}

#[test]
fn day_numbers_run_through_the_whole_calendar() {
    let mut expected: i64 = 0;
    for year in 0..=9999u16 {
        for month in 1..=12u8 {
            let length = month_length(year, month);
            assert!(length >= 28 && length <= 31);
            for day in [1, 2, 15, length - 1, length] {
                let t = Timestamp::new(year, month, day, 0, 0, 0).unwrap();
                assert_eq!(t.day_of_era(), expected + day as i64 - 1);
            }
            assert!(Timestamp::new(year, month, length + 1, 0, 0, 0).is_none());
            expected += length as i64;
        }
        let days: i64 = (1..=12u8).map(|m| month_length(year, m) as i64).sum();
        assert_eq!(days, if leap_year(year) { 366 } else { 365 });
    }
    assert_eq!(expected, 3652425);
}

#[test]
fn seconds_run_through_a_day() {
    let midnight = Timestamp::new(2024, 2, 29, 0, 0, 0).unwrap().seconds();
    let mut expected = midnight;
    for hour in 0..24u8 {
        for minute in 0..60u8 {
            for second in [0u8, 1, 30, 59] {
                let t = Timestamp::new(2024, 2, 29, hour, minute, second).unwrap();
                assert_eq!(t.seconds(), expected + second as i64);
            }
            expected += 60;
        }
    }
    assert_eq!(expected, Timestamp::new(2024, 3, 1, 0, 0, 0).unwrap().seconds());
    assert_eq!(expected - midnight, 86400);
}

#[test]
fn written_timestamps_read_back_through_the_years() {
    for year in (0..=9999u16).step_by(7) {
        for month in 1..=12u8 {
            let day = month_length(year, month);
            let t = Timestamp::new(year, month, day, 23, (month * 4) % 60, (day * 2) % 60).unwrap();
            let text = t.render();
            assert_eq!(text.len(), 19);
            assert_eq!(
                text,
                format!(
                    "{:04}-{:02}-{:02} {:02}:{:02}:{:02}",
                    year,
                    month,
                    day,
                    23,
                    (month * 4) % 60,
                    (day * 2) % 60
                )
            );
            assert_eq!(Timestamp::parse(&text), Some(t));
        }
    }
}

#[test]
fn decimal_numerals_agree_with_the_standard_ones() {
    for n in -2000i128..=2000 {
        assert_eq!(integer_to_string(n), n.to_string());
    }
    let mut n: i128 = 1;
    while n < i128::MAX / 7 {
        for m in [n, n - 1, n + 1, -n, -n - 1, -n + 1] {
            assert_eq!(integer_to_string(m), m.to_string());
            assert_eq!(natural_to_string(m.unsigned_abs()), m.unsigned_abs().to_string());
        }
        n *= 7;
    }
}

#[test]
fn amounts_agree_with_units_and_hundredths() {
    for cents in -25000i128..=25000 {
        let sign = if cents < 0 { "-" } else { "" };
        let magnitude = cents.unsigned_abs();
        assert_eq!(
            money_to_string(cents),
            format!("{}{}.{:02}", sign, magnitude / 100, magnitude % 100)
        );
    }
}

#[test]
fn order_of_texts_agrees_with_the_order_of_strings() {
    for a in words() {
        for b in words() {
            assert_eq!(text_in_order(a, b), a <= b, "{:?} {:?}", a, b);
        }
    }
}

#[test]
fn substring_search_agrees_with_contains() {
    let hay = ["", "a", "ab", "aab", "abab", "11999999999", "Água 20L", "日本日", "aaa\u{80}a"];
    let mut needles = words();
    needles.extend(["9999", "99999999", "119", "L", "20", "ua ", "日本", "本日", "aa", "ba"]);
    for whole in hay {
        for part in &needles {
            assert_eq!(text_has(whole, part), whole.contains(part), "{:?} {:?}", whole, part);
        }
    }
}

#[test]
fn sorting_by_name_agrees_with_sorting_the_names() {
    let names = words();
    let rows: Vec<Product> =
        names.iter().enumerate().map(|(i, name)| product(i as i64 + 1, name, 0)).collect();
    let sorted: Vec<String> = sort::<Product, ByName>(rows).into_iter().map(|p| p.name).collect();
    let mut expected: Vec<String> = names.iter().map(|n| n.to_string()).collect();
    expected.sort();
    assert_eq!(sorted, expected);
}

#[test]
fn sorting_by_stock_agrees_with_sorting_the_counts() {
    let counts: Vec<i64> =
        vec![5, -3, 0, i64::MAX, i64::MIN, 5, 7, 1, 0, 0, 12, -3, 99, 5, 2, 8, 8, 1];
    let rows: Vec<Product> =
        counts.iter().enumerate().map(|(i, n)| product(i as i64 + 1, "x", *n)).collect();
    let sorted = sort::<Product, LowestStockFirst>(rows);
    let got: Vec<i64> = sorted.iter().map(|p| p.stock_full).collect();
    let mut expected = counts.clone();
    expected.sort();
    assert_eq!(got, expected);
    let mut ids: Vec<i64> = sorted.iter().map(|p| p.id).collect();
    ids.sort();
    assert_eq!(ids, (1..=counts.len() as i64).collect::<Vec<i64>>());
}
