use ducktape::readout::{founded, grouped, short_hex};

#[test]
fn desk_node_numbers_read_short() {
    assert_eq!(grouped(6230), "6,230");
    assert_eq!(grouped(999), "999");
    assert_eq!(grouped(1_000_000), "1,000,000");
    assert_eq!(short_hex(&[0xab; 32]), "abababab…abab");
    assert_eq!(short_hex(&[1, 2]), "0102");
    assert_eq!(founded(0), "1970-01-01");
    assert_eq!(founded(1_790_121_600), "2026-09-23");
    assert_eq!(founded(1_790_121_600_000), "2026-09-23");
}

#[test]
fn menus_node_numbers_read_short() {
    assert_eq!(grouped(6230), "6,230");
    assert_eq!(grouped(999), "999");
    assert_eq!(grouped(1_000_000), "1,000,000");
    assert_eq!(short_hex(&[0xab; 32]), "abababab…abab");
    assert_eq!(short_hex(&[1, 2]), "0102");
    assert_eq!(founded(0), "1970-01-01");
    assert_eq!(founded(1_790_121_600), "2026-09-23");
    assert_eq!(founded(1_790_121_600_000), "2026-09-23");
}

#[test]
fn grouping_writes_small_numbers_whole_and_the_largest_in_threes() {
    assert_eq!(grouped(0), "0");
    assert_eq!(grouped(1000), "1,000");
    assert_eq!(grouped(u64::MAX), "18,446,744,073,709,551,615");
}

#[test]
fn short_hex_keeps_up_to_seven_bytes_whole() {
    assert_eq!(short_hex(&[]), "");
    assert_eq!(short_hex(&[0xff; 7]), "ffffffffffffff");
    assert_eq!(short_hex(&[0x0f; 8]), "0f0f0f0f…0f0f");
}

#[test]
fn founding_days_cross_leap_years_and_month_ends() {
    assert_eq!(founded(951_782_400), "2000-02-29");
    assert_eq!(founded(86_399), "1970-01-01");
    assert_eq!(founded(86_400), "1970-01-02");
    assert_eq!(founded(1_704_067_199), "2023-12-31");
}

#[test]
fn founding_days_follow_the_leap_years() {
    assert_eq!(founded(1_709_164_800), "2024-02-29");
    // 2100 is no leap year: the day after February 28th is March 1st
    assert_eq!(founded(4_107_542_400 - 86_400), "2100-02-28");
    assert_eq!(founded(4_107_542_400), "2100-03-01");
}
