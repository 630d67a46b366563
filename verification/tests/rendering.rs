use cowin_notify::data::Slot;
use cowin_notify::fetch::{build_district_url, get_today_ist};
use cowin_notify::notify::{debug_message, make_debug_payload, make_slot_payload, slot_message_text};
use cowin_notify::text::{format_ddmmyyyy, i32_to_dec, u64_to_dec, usize_to_dec};

fn sample_slot() -> Slot {
    Slot {
        center: "A".to_string(),
        address: "Addr".to_string(),
        date: "10-05-2021".to_string(),
        available_capacity: 10,
        available_capacity_dose1: 0,
        available_capacity_dose2: 10,
        min_age_limit: 45,
        vaccine: "COVISHIELD".to_string(),
    }
}

#[test]
fn unsigned_decimal_rendering() {
    assert_eq!(u64_to_dec(0), "0");
    assert_eq!(u64_to_dec(7), "7");
    assert_eq!(u64_to_dec(10), "10");
    assert_eq!(u64_to_dec(1234567890), "1234567890");
    assert_eq!(u64_to_dec(u64::MAX), "18446744073709551615");
}

#[test]
fn signed_decimal_rendering() {
    assert_eq!(i32_to_dec(0), "0");
    assert_eq!(i32_to_dec(42), "42");
    assert_eq!(i32_to_dec(-5), "-5");
    assert_eq!(i32_to_dec(i32::MAX), "2147483647");
    assert_eq!(i32_to_dec(i32::MIN), "-2147483648");
    assert_eq!(usize_to_dec(188), "188");
}

#[test]
fn date_rendering_pads_day_month_and_year() {
    assert_eq!(format_ddmmyyyy(10, 5, 2021), "10-05-2021");
    assert_eq!(format_ddmmyyyy(1, 1, 33), "01-01-0033");
    assert_eq!(format_ddmmyyyy(31, 12, 12345), "31-12-12345");
    assert_eq!(format_ddmmyyyy(9, 12, -44), "09-12--0044");
}

#[test]
fn today_is_rendered_as_ddmmyyyy() {
    let today = get_today_ist();
    let chars: Vec<char> = today.chars().collect();
    assert_eq!(chars.len(), 10);
    assert_eq!(chars[2], '-');
    assert_eq!(chars[5], '-');
    for &k in &[0usize, 1, 3, 4, 6, 7, 8, 9] {
        assert!(chars[k].is_ascii_digit());
    }
    let day: u32 = today[0..2].parse().unwrap();
    let month: u32 = today[3..5].parse().unwrap();
    assert!((1..=31).contains(&day));
    assert!((1..=12).contains(&month));
}

#[test]
fn district_url_holds_id_and_date() {
    let url = build_district_url("188", "10-05-2021");
    assert_eq!(
        url,
        "https://cdn-api.co-vin.in/api/v2/appointment/sessions/calendarByDistrict?district_id=188&date=10-05-2021"
    );
}

#[test]
fn slot_message_matches_template() {
    let text = slot_message_text(&sample_slot());
    let expected = ":large_green_circle: [Vaccine Slot]\n        Date: 10-05-2021,\n        Center: A,\n        Address: Addr,\n        Vaccine: COVISHIELD,\n        Available Capacity: 10,\n        1st Dose Capacity: 0,\n        2nd Dose Capacity: 10,\n        Min Age Limit: 45,\n        ";
    assert_eq!(text, expected);
}

#[test]
fn slot_payload_is_addressed_and_signed() {
    let slot = sample_slot();
    let payload = make_slot_payload(&slot, "main".to_string());
    assert_eq!(payload.channel, "main");
    assert_eq!(payload.username, "Tux-Sudo CoWin Bot");
    assert_eq!(payload.text, slot_message_text(&slot));
}

#[test]
fn debug_message_counts_slots() {
    assert_eq!(debug_message(0, "188"), "Found 0 viable slots for District ID: 188");
    assert_eq!(debug_message(3, "512"), "Found 3 viable slots for District ID: 512");
}

#[test]
fn debug_payload_keeps_message_and_channel() {
    let payload = make_debug_payload(
        "Found 0 viable slots for District ID: 188".to_string(),
        "debug".to_string(),
    );
    assert_eq!(payload.channel, "debug");
    assert_eq!(payload.username, "Tux-Sudo CoWin Bot");
    assert_eq!(payload.text, "Found 0 viable slots for District ID: 188");
}
