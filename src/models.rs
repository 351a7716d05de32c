//! Data model of a VATSIM snapshot, as plain values.
//!
//! Floating-point readings (coordinates, pressure in inches of mercury) are
//! held as the decimal text that is shown to the user.

use vstd::prelude::*;

verus! {

/// Endpoints advertised by the VATSIM status document.
#[derive(Debug)]
pub struct StatusData {
    pub v3: Vec<String>,
    pub transceivers: Vec<String>,
    pub servers: Vec<String>,
    pub servers_sweatbox: Vec<String>,
    pub servers_all: Vec<String>,
}

/// The VATSIM status document.
#[derive(Debug)]
pub struct Status {
    pub data: StatusData,
    pub user: Vec<String>,
    pub metar: Vec<String>,
}

/// A filed flight plan.
#[derive(Debug)]
pub struct FlightPlan {
    pub flight_rules: String,
    pub aircraft: String,
    pub aircraft_faa: String,
    pub aircraft_short: String,
    pub departure: String,
    pub arrival: String,
    pub alternate: String,
    pub cruise_tas: String,
    pub altitude: String,
    pub deptime: String,
    pub enroute_time: String,
    pub fuel_time: String,
    pub remarks: String,
    pub route: String,
    pub revision_id: i64,
    pub assigned_transponder: String,
}

impl Clone for FlightPlan {
    fn clone(&self) -> (r: Self)
        ensures
            r == *self,
    {
        FlightPlan {
            flight_rules: self.flight_rules.clone(),
            aircraft: self.aircraft.clone(),
            aircraft_faa: self.aircraft_faa.clone(),
            aircraft_short: self.aircraft_short.clone(),
            departure: self.departure.clone(),
            arrival: self.arrival.clone(),
            alternate: self.alternate.clone(),
            cruise_tas: self.cruise_tas.clone(),
            altitude: self.altitude.clone(),
            deptime: self.deptime.clone(),
            enroute_time: self.enroute_time.clone(),
            fuel_time: self.fuel_time.clone(),
            remarks: self.remarks.clone(),
            route: self.route.clone(),
            revision_id: self.revision_id,
            assigned_transponder: self.assigned_transponder.clone(),
        }
    }
}

/// A connected pilot.
///
/// `latitude`, `longitude` and `qnh_i_hg` hold the decimal text of the reading.
#[derive(Debug)]
pub struct Pilot {
    pub cid: i64,
    pub name: String,
    pub callsign: String,
    pub server: String,
    pub pilot_rating: i8,
    pub latitude: String,
    pub longitude: String,
    pub altitude: i64,
    pub groundspeed: i64,
    pub transponder: String,
    pub heading: i64,
    pub qnh_i_hg: String,
    pub qnh_mb: i64,
    pub flight_plan: Option<FlightPlan>,
    pub logon_time: String,
    pub last_updated: String,
}

impl Clone for Pilot {
    fn clone(&self) -> (r: Self)
        ensures
            r == *self,
    {
        let flight_plan = match &self.flight_plan {
            Some(fp) => Some(fp.clone()),
            None => None,
        };
        Pilot {
            cid: self.cid,
            name: self.name.clone(),
            callsign: self.callsign.clone(),
            server: self.server.clone(),
            pilot_rating: self.pilot_rating,
            latitude: self.latitude.clone(),
            longitude: self.longitude.clone(),
            altitude: self.altitude,
            groundspeed: self.groundspeed,
            transponder: self.transponder.clone(),
            heading: self.heading,
            qnh_i_hg: self.qnh_i_hg.clone(),
            qnh_mb: self.qnh_mb,
            flight_plan,
            logon_time: self.logon_time.clone(),
            last_updated: self.last_updated.clone(),
        }
    }
}

/// A connected air traffic controller.
#[derive(Debug)]
pub struct Controller {
    pub cid: i64,
    pub name: String,
    pub callsign: String,
    pub frequency: String,
    pub facility: i64,
    pub rating: i8,
    pub server: String,
    pub visual_range: i64,
    pub text_atis: Option<Vec<String>>,
    pub last_updated: String,
    pub logon_time: String,
}

impl Controller {
    /// Holds when `other` carries the same values as `self`, the ATIS lines
    /// compared by content.
    pub open spec fn same_as(&self, other: &Controller) -> bool {
        &&& self.cid == other.cid
        &&& self.name == other.name
        &&& self.callsign == other.callsign
        &&& self.frequency == other.frequency
        &&& self.facility == other.facility
        &&& self.rating == other.rating
        &&& self.server == other.server
        &&& self.visual_range == other.visual_range
        &&& self.text_atis.is_some() == other.text_atis.is_some()
        &&& self.text_atis.is_some() ==> self.text_atis.unwrap()@ == other.text_atis.unwrap()@
        &&& self.last_updated == other.last_updated
        &&& self.logon_time == other.logon_time
    }
}

/// A copy of a list of strings, element for element.
fn copy_lines(lines: &Vec<String>) -> (r: Vec<String>)
    ensures
        r@ == lines@,
{
    let mut r: Vec<String> = Vec::new();
    let mut i: usize = 0;
    while i < lines.len()
        invariant
            i <= lines@.len(),
            r@ == lines@.subrange(0, i as int),
        decreases lines@.len() - i,
    {
        r.push(lines[i].clone());
        i = i + 1;
    }
    assert(r@ =~= lines@);
    r
}

impl Clone for Controller {
    fn clone(&self) -> (r: Self)
        ensures
            r.same_as(self),
    {
        let text_atis = match &self.text_atis {
            Some(lines) => Some(copy_lines(lines)),
            None => None,
        };
        Controller {
            cid: self.cid,
            name: self.name.clone(),
            callsign: self.callsign.clone(),
            frequency: self.frequency.clone(),
            facility: self.facility,
            rating: self.rating,
            server: self.server.clone(),
            visual_range: self.visual_range,
            text_atis,
            last_updated: self.last_updated.clone(),
            logon_time: self.logon_time.clone(),
        }
    }
}

/// Summary figures of a snapshot.
#[derive(Debug)]
pub struct GeneralData {
    pub version: i64,
    pub reload: i64,
    pub update: String,
    pub update_timestamp: String,
    pub connected_clients: i64,
    pub unique_users: i64,
}

/// One entry of a code table: a numeric code with its short and long labels.
#[derive(Debug)]
pub struct ReferenceItem {
    pub id: i8,
    pub short: String,
    pub long: String,
}

/// A snapshot of the network, as served by the V3 data endpoint.
#[derive(Debug)]
pub struct V3ResponseData {
    pub general: GeneralData,
    pub pilots: Vec<Pilot>,
    pub controllers: Vec<Controller>,
    pub facilities: Vec<ReferenceItem>,
    pub ratings: Vec<ReferenceItem>,
}

} // verus!
