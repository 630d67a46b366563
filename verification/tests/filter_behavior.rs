use cowin_notify::data::{Center, Resp, Session, Slot};
use cowin_notify::filter::check_viable_slots;

fn session(
    date: &str,
    available_capacity: i32,
    min_age_limit: i32,
    vaccine: &str,
    dose1: i32,
    dose2: i32,
) -> Session {
    Session {
        date: date.to_string(),
        available_capacity,
        min_age_limit,
        vaccine: vaccine.to_string(),
        available_capacity_dose1: dose1,
        available_capacity_dose2: dose2,
    }
}

fn center(name: &str, address: &str, sessions: Vec<Session>) -> Center {
    Center {
        center_id: 1,
        name: name.to_string(),
        address: address.to_string(),
        pincode: 110001,
        fee_type: "Free".to_string(),
        sessions,
    }
}

fn sample_session() -> Session {
    session("10-05-2021", 10, 45, "COVISHIELD", 0, 10)
}

#[test]
fn age_flag_excludes_strict_age_limit() {
    let resp = Resp { centers: vec![center("A", "Addr", vec![sample_session()])] };
    let slots = check_viable_slots(resp, true, false);
    assert!(slots.is_empty());
}

#[test]
fn no_flags_pass_session() {
    let resp = Resp { centers: vec![center("A", "Addr", vec![sample_session()])] };
    let slots = check_viable_slots(resp, false, false);
    assert_eq!(slots.len(), 1);
    let expected = Slot {
        center: "A".to_string(),
        address: "Addr".to_string(),
        date: "10-05-2021".to_string(),
        available_capacity: 10,
        available_capacity_dose1: 0,
        available_capacity_dose2: 10,
        min_age_limit: 45,
        vaccine: "COVISHIELD".to_string(),
    };
    assert_eq!(slots[0], expected);
}

#[test]
fn zero_centers_yield_empty() {
    let resp = Resp { centers: vec![] };
    let slots = check_viable_slots(resp, false, false);
    assert!(slots.is_empty());
}

#[test]
fn zero_capacity_always_excluded() {
    for &only_18plus in &[false, true] {
        for &only_first_dose in &[false, true] {
            let resp = Resp {
                centers: vec![center(
                    "A",
                    "Addr",
                    vec![
                        session("10-05-2021", 0, 18, "COVAXIN", 9, 9),
                        session("11-05-2021", -3, 18, "COVAXIN", 9, 9),
                    ],
                )],
            };
            let slots = check_viable_slots(resp, only_18plus, only_first_dose);
            assert!(slots.is_empty());
        }
    }
}

#[test]
fn age_limit_checked_only_with_flag() {
    let strict = session("10-05-2021", 7, 45, "COVISHIELD", 6, 1);
    let resp = Resp { centers: vec![center("A", "Addr", vec![strict.clone()])] };
    let slots = check_viable_slots(resp, false, false);
    assert_eq!(slots.len(), 1);
    assert_eq!(slots[0].min_age_limit, 45);

    let resp = Resp { centers: vec![center("A", "Addr", vec![strict])] };
    let slots = check_viable_slots(resp, true, false);
    assert!(slots.is_empty());
}

#[test]
fn age_limit_below_18_passes_with_flag() {
    let lax = session("10-05-2021", 7, 12, "COVISHIELD", 6, 1);
    let resp = Resp { centers: vec![center("A", "Addr", vec![lax])] };
    let slots = check_viable_slots(resp, true, false);
    assert_eq!(slots.len(), 1);
}

#[test]
fn first_dose_checked_only_with_flag() {
    let scarce = session("10-05-2021", 8, 18, "COVAXIN", 4, 8);
    let resp = Resp { centers: vec![center("A", "Addr", vec![scarce.clone()])] };
    let slots = check_viable_slots(resp, false, true);
    assert!(slots.is_empty());

    let resp = Resp { centers: vec![center("A", "Addr", vec![scarce])] };
    let slots = check_viable_slots(resp, false, false);
    assert_eq!(slots.len(), 1);
}

#[test]
fn first_dose_threshold_is_five() {
    let at_threshold = session("10-05-2021", 8, 18, "COVAXIN", 5, 8);
    let resp = Resp { centers: vec![center("A", "Addr", vec![at_threshold])] };
    let slots = check_viable_slots(resp, false, true);
    assert_eq!(slots.len(), 1);
}

#[test]
fn ordering_preserved_across_centers_and_sessions() {
    let resp = Resp {
        centers: vec![
            center(
                "First",
                "Addr1",
                vec![
                    session("01-06-2021", 3, 18, "COVISHIELD", 9, 9),
                    session("02-06-2021", 0, 18, "COVISHIELD", 9, 9),
                    session("03-06-2021", 4, 18, "COVAXIN", 9, 9),
                ],
            ),
            center(
                "Second",
                "Addr2",
                vec![
                    session("04-06-2021", 5, 18, "SPUTNIK", 9, 9),
                    session("05-06-2021", 6, 18, "COVAXIN", 9, 9),
                ],
            ),
        ],
    };
    let slots = check_viable_slots(resp, false, false);
    let dates: Vec<&str> = slots.iter().map(|s| s.date.as_str()).collect();
    assert_eq!(dates, vec!["01-06-2021", "03-06-2021", "04-06-2021", "05-06-2021"]);
    assert_eq!(slots[0].center, "First");
    assert_eq!(slots[2].center, "Second");
}
