use vstd::prelude::*;

verus! {

/// One offered appointment window at a center, as the appointment API reports
/// it: a date string, a vaccine name, and capacity / eligibility numbers.
#[derive(Debug, Clone)]
pub struct Session {
    pub date: String,
    pub available_capacity: i32,
    pub min_age_limit: i32,
    pub vaccine: String,
    pub available_capacity_dose1: i32,
    pub available_capacity_dose2: i32,
}

/// A vaccination site within a district, holding its sessions in the order
/// the API returned them.
#[derive(Debug, Clone)]
pub struct Center {
    pub center_id: i32,
    pub name: String,
    pub address: String,
    pub pincode: i32,
    pub fee_type: String,
    pub sessions: Vec<Session>,
}

/// The decoded body of one district query: the centers in response order.
#[derive(Debug, Clone)]
pub struct Resp {
    pub centers: Vec<Center>,
}

/// A session that survived filtering, flattened together with the name and
/// address of its parent center, ready to be formatted for notification.
#[derive(Debug, Clone, PartialEq)]
pub struct Slot {
    pub center: String,
    pub address: String,
    pub date: String,
    pub available_capacity: i32,
    pub available_capacity_dose1: i32,
    pub available_capacity_dose2: i32,
    pub min_age_limit: i32,
    pub vaccine: String,
}

/// One message to the webhook: a channel, a text body, and a display name.
#[derive(Debug, Clone, PartialEq)]
pub struct SlackPayload {
    pub channel: String,
    pub text: String,
    pub username: String,
}

/// Mathematical image of a `Session`: strings as character sequences,
/// capacities as unbounded integers.
pub struct SessionV {
    pub date: Seq<char>,
    pub available_capacity: int,
    pub min_age_limit: int,
    pub vaccine: Seq<char>,
    pub available_capacity_dose1: int,
    pub available_capacity_dose2: int,
}

/// Mathematical image of a `Center`.
pub struct CenterV {
    pub center_id: int,
    pub name: Seq<char>,
    pub address: Seq<char>,
    pub pincode: int,
    pub fee_type: Seq<char>,
    pub sessions: Seq<SessionV>,
}

/// Mathematical image of a `Slot`.
pub struct SlotV {
    pub center: Seq<char>,
    pub address: Seq<char>,
    pub date: Seq<char>,
    pub available_capacity: int,
    pub available_capacity_dose1: int,
    pub available_capacity_dose2: int,
    pub min_age_limit: int,
    pub vaccine: Seq<char>,
}

impl View for Session {
    type V = SessionV;

    open spec fn view(&self) -> SessionV {
        SessionV {
            date: self.date@,
            available_capacity: self.available_capacity as int,
            min_age_limit: self.min_age_limit as int,
            vaccine: self.vaccine@,
            available_capacity_dose1: self.available_capacity_dose1 as int,
            available_capacity_dose2: self.available_capacity_dose2 as int,
        }
    }
}

impl View for Center {
    type V = CenterV;

    open spec fn view(&self) -> CenterV {
        CenterV {
            center_id: self.center_id as int,
            name: self.name@,
            address: self.address@,
            pincode: self.pincode as int,
            fee_type: self.fee_type@,
            sessions: self.sessions@.map_values(|s: Session| s@),
        }
    }
}

impl View for Resp {
    type V = Seq<CenterV>;

    open spec fn view(&self) -> Seq<CenterV> {
        self.centers@.map_values(|c: Center| c@)
    }
}

impl View for Slot {
    type V = SlotV;

    open spec fn view(&self) -> SlotV {
        SlotV {
            center: self.center@,
            address: self.address@,
            date: self.date@,
            available_capacity: self.available_capacity as int,
            available_capacity_dose1: self.available_capacity_dose1 as int,
            available_capacity_dose2: self.available_capacity_dose2 as int,
            min_age_limit: self.min_age_limit as int,
            vaccine: self.vaccine@,
        }
    }
}

} // verus!
