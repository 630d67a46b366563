use vstd::prelude::*;
use vstd::string::StringExecFns;

use crate::data::{SlackPayload, Slot, SlotV};
use crate::text::{dec_rep, int_rep, usize_to_dec, i32_to_dec};

verus! {

/// The display name every webhook message is sent under.
pub open spec fn sender_name() -> Seq<char> {
    "Tux-Sudo CoWin Bot"@
}

/// The fixed multi-line template one slot is announced with: a green-circle
/// marker, then the date, center, address, vaccine, the three capacity
/// numbers, and the minimum age limit.
pub open spec fn slot_message(t: SlotV) -> Seq<char> {
    ":large_green_circle: [Vaccine Slot]\n        Date: "@ + t.date + ",\n        Center: "@
        + t.center + ",\n        Address: "@ + t.address + ",\n        Vaccine: "@ + t.vaccine
        + ",\n        Available Capacity: "@ + int_rep(t.available_capacity)
        + ",\n        1st Dose Capacity: "@ + int_rep(t.available_capacity_dose1)
        + ",\n        2nd Dose Capacity: "@ + int_rep(t.available_capacity_dose2)
        + ",\n        Min Age Limit: "@ + int_rep(t.min_age_limit) + ",\n        "@
}

/// Renders the announcement text for one slot.
pub fn slot_message_text(slot: &Slot) -> (r: String)
    ensures
        r@ == slot_message(slot@),
{
    let mut r = String::from_str(":large_green_circle: [Vaccine Slot]\n        Date: ");
    r.append(slot.date.as_str());
    r.append(",\n        Center: ");
    r.append(slot.center.as_str());
    r.append(",\n        Address: ");
    r.append(slot.address.as_str());
    r.append(",\n        Vaccine: ");
    r.append(slot.vaccine.as_str());
    r.append(",\n        Available Capacity: ");
    let cap = i32_to_dec(slot.available_capacity);
    r.append(cap.as_str());
    r.append(",\n        1st Dose Capacity: ");
    let dose1 = i32_to_dec(slot.available_capacity_dose1);
    r.append(dose1.as_str());
    r.append(",\n        2nd Dose Capacity: ");
    let dose2 = i32_to_dec(slot.available_capacity_dose2);
    r.append(dose2.as_str());
    r.append(",\n        Min Age Limit: ");
    let age = i32_to_dec(slot.min_age_limit);
    r.append(age.as_str());
    r.append(",\n        ");
    r
}

/// Wraps one slot's announcement in a payload addressed to the main channel.
pub fn make_slot_payload(slot: &Slot, channel: String) -> (p: SlackPayload)
    ensures
        p.text@ == slot_message(slot@),
        p.channel@ == channel@,
        p.username@ == sender_name(),
{
    SlackPayload {
        text: slot_message_text(slot),
        channel,
        username: String::from_str("Tux-Sudo CoWin Bot"),
    }
}

/// The one-line run summary posted to the debug channel.
pub open spec fn debug_text(count: nat, district_id: Seq<char>) -> Seq<char> {
    "Found "@ + dec_rep(count) + " viable slots for District ID: "@ + district_id
}

/// Renders the run summary: how many viable slots were found for which
/// district.
pub fn debug_message(count: usize, district_id: &str) -> (r: String)
    ensures
        r@ == debug_text(count as nat, district_id@),
{
    let mut r = String::from_str("Found ");
    let digits = usize_to_dec(count);
    r.append(digits.as_str());
    r.append(" viable slots for District ID: ");
    r.append(district_id);
    r
}

/// Wraps an already-rendered message in a payload addressed to the given
/// channel.
pub fn make_debug_payload(message: String, channel: String) -> (p: SlackPayload)
    ensures
        p.text@ == message@,
        p.channel@ == channel@,
        p.username@ == sender_name(),
{
    SlackPayload {
        text: message,
        channel,
        username: String::from_str("Tux-Sudo CoWin Bot"),
    }
}

} // verus!
