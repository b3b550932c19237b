//! Tasks: observation requests scheduled against a sensor.
use vstd::prelude::*;
use vstd::string::StringExecFns;

use crate::json::Decimal;
use crate::json::Json;
use crate::json::field_keys;
use crate::json::get_i32;
use crate::json::get_opt_dec;
use crate::json::get_opt_i32;
use crate::json::get_opt_str;
use crate::json::get_str;
use crate::json::i32_to_json;
use crate::json::lemma_obj_get_found;
use crate::json::obj_get;
use crate::json::obj_view;
use crate::json::opt_dec_to_json;
use crate::json::opt_i32_to_json;
use crate::json::opt_str_to_json;
use crate::json::opt_vec_view;
use crate::json::push_field;
use crate::json::sget_i32;
use crate::json::sget_opt_dec;
use crate::json::sget_opt_i32;
use crate::json::sget_opt_str;
use crate::json::sget_str;

verus! {

/// The lifecycle state of a tasking request.
#[derive(Clone, Copy, PartialEq, Eq, Structural, Debug)]
pub enum TaskStatus {
    Pending,
    Canceled,
    Scheduled,
    Succeeded,
    Failed,
}

/// The exact wire casing of each value.
pub open spec fn task_status_wire(v: TaskStatus) -> Seq<char> {
    match v {
        TaskStatus::Pending => "Pending"@,
        TaskStatus::Canceled => "Canceled"@,
        TaskStatus::Scheduled => "Scheduled"@,
        TaskStatus::Succeeded => "Succeeded"@,
        TaskStatus::Failed => "Failed"@,
    }
}

/// The value a wire token names, if any.
pub open spec fn task_status_from_wire(s: Seq<char>) -> Option<TaskStatus> {
    if s == "Pending"@ {
        Some(TaskStatus::Pending)
    } else if s == "Canceled"@ {
        Some(TaskStatus::Canceled)
    } else if s == "Scheduled"@ {
        Some(TaskStatus::Scheduled)
    } else if s == "Succeeded"@ {
        Some(TaskStatus::Succeeded)
    } else if s == "Failed"@ {
        Some(TaskStatus::Failed)
    } else {
        None
    }
}

impl TaskStatus {
    /// The exact wire casing of this value.
    pub fn wire_name(&self) -> (r: String)
        ensures
            r@ == task_status_wire(*self),
    {
        match self {
            TaskStatus::Pending => String::from_str("Pending"),
            TaskStatus::Canceled => String::from_str("Canceled"),
            TaskStatus::Scheduled => String::from_str("Scheduled"),
            TaskStatus::Succeeded => String::from_str("Succeeded"),
            TaskStatus::Failed => String::from_str("Failed"),
        }
    }

    /// Parses the exact wire casing; `None` for any other text.
    pub fn from_wire(s: &str) -> (r: Option<TaskStatus>)
        ensures
            r == task_status_from_wire(s@),
    {
        let t = s.to_owned();
        if t == String::from_str("Pending") {
            Some(TaskStatus::Pending)
        } else if t == String::from_str("Canceled") {
            Some(TaskStatus::Canceled)
        } else if t == String::from_str("Scheduled") {
            Some(TaskStatus::Scheduled)
        } else if t == String::from_str("Succeeded") {
            Some(TaskStatus::Succeeded)
        } else if t == String::from_str("Failed") {
            Some(TaskStatus::Failed)
        } else {
            None
        }
    }
}

/// Encoding then decoding any value of this enumeration returns the same
/// value.
pub proof fn lemma_task_status_roundtrip(v: TaskStatus)
    ensures
        task_status_from_wire(task_status_wire(v)) == Some(v),
{
    reveal_strlit("Pending");
    reveal_strlit("Canceled");
    reveal_strlit("Scheduled");
    reveal_strlit("Succeeded");
    reveal_strlit("Failed");
    assert("Pending"@.len() == 7);
    assert("Canceled"@.len() == 8);
    assert("Scheduled"@.len() == 9);
    assert("Succeeded"@.len() == 9);
    assert("Failed"@.len() == 6);
    assert("Scheduled"@[1] == 'c');
    assert("Succeeded"@[1] == 'u');
}

/// A tasking request as the service returns it.
#[derive(Clone, Debug, PartialEq)]
pub struct Task {
    pub id: String,
    pub task_type: String,
    pub status: TaskStatus,
    pub created_at: String,
    pub updated_at: String,
    pub task_start: String,
    pub task_stop: String,
    pub user_id: Option<String>,
    pub username: Option<String>,
    pub satellite_id: String,
    pub satellite_name: Option<String>,
    pub telescope_id: String,
    pub telescope_name: Option<String>,
    pub ground_station_id: String,
    pub ground_station_name: Option<String>,
    pub priority: i32,
    pub scheduled_start: Option<String>,
    pub scheduled_stop: Option<String>,
    pub range_km: Option<Decimal>,
    pub range_rate_km_s: Option<Decimal>,
    pub right_ascension: Option<Decimal>,
    pub right_ascension_rate: Option<Decimal>,
    pub declination: Option<Decimal>,
    pub declination_rate: Option<Decimal>,
}

/// The wire keys of this record, in the order the client writes them.
pub open spec fn task_keys() -> Seq<Seq<char>> {
    seq!["id"@, "type"@, "status"@, "creationEpoch"@, "updateEpoch"@, "taskStart"@, "taskStop"@, "userId"@, "username"@, "satelliteId"@, "satelliteName"@, "telescopeId"@, "telescopeName"@, "groundStationId"@, "groundStationName"@, "priority"@, "scheduledStart"@, "scheduledStop"@, "rangeKm"@, "rangeRateKmS"@, "rightAscension"@, "rightAscensionRate"@, "declination"@, "declinationRate"@]
}

/// Decodes from an object's fields.
pub open spec fn task_from_fields(fs: Seq<(Seq<char>, Json)>) -> Option<Task> {
    if {
        &&& sget_str(fs, "id"@) is Some
        &&& sget_str(fs, "type"@) is Some
        &&& sget_str(fs, "status"@) is Some
        &&& task_status_from_wire(sget_str(fs, "status"@).unwrap()@) is Some
        &&& sget_str(fs, "creationEpoch"@) is Some
        &&& sget_str(fs, "updateEpoch"@) is Some
        &&& sget_str(fs, "taskStart"@) is Some
        &&& sget_str(fs, "taskStop"@) is Some
        &&& sget_opt_str(fs, "userId"@) is Some
        &&& sget_opt_str(fs, "username"@) is Some
        &&& sget_str(fs, "satelliteId"@) is Some
        &&& sget_opt_str(fs, "satelliteName"@) is Some
        &&& sget_str(fs, "telescopeId"@) is Some
        &&& sget_opt_str(fs, "telescopeName"@) is Some
        &&& sget_str(fs, "groundStationId"@) is Some
        &&& sget_opt_str(fs, "groundStationName"@) is Some
        &&& sget_i32(fs, "priority"@) is Some
        &&& sget_opt_str(fs, "scheduledStart"@) is Some
        &&& sget_opt_str(fs, "scheduledStop"@) is Some
        &&& sget_opt_dec(fs, "rangeKm"@) is Some
        &&& sget_opt_dec(fs, "rangeRateKmS"@) is Some
        &&& sget_opt_dec(fs, "rightAscension"@) is Some
        &&& sget_opt_dec(fs, "rightAscensionRate"@) is Some
        &&& sget_opt_dec(fs, "declination"@) is Some
        &&& sget_opt_dec(fs, "declinationRate"@) is Some
    } {
        Some(
            Task {
                id: sget_str(fs, "id"@).unwrap(),
                task_type: sget_str(fs, "type"@).unwrap(),
                status: task_status_from_wire(sget_str(fs, "status"@).unwrap()@).unwrap(),
                created_at: sget_str(fs, "creationEpoch"@).unwrap(),
                updated_at: sget_str(fs, "updateEpoch"@).unwrap(),
                task_start: sget_str(fs, "taskStart"@).unwrap(),
                task_stop: sget_str(fs, "taskStop"@).unwrap(),
                user_id: sget_opt_str(fs, "userId"@).unwrap(),
                username: sget_opt_str(fs, "username"@).unwrap(),
                satellite_id: sget_str(fs, "satelliteId"@).unwrap(),
                satellite_name: sget_opt_str(fs, "satelliteName"@).unwrap(),
                telescope_id: sget_str(fs, "telescopeId"@).unwrap(),
                telescope_name: sget_opt_str(fs, "telescopeName"@).unwrap(),
                ground_station_id: sget_str(fs, "groundStationId"@).unwrap(),
                ground_station_name: sget_opt_str(fs, "groundStationName"@).unwrap(),
                priority: sget_i32(fs, "priority"@).unwrap(),
                scheduled_start: sget_opt_str(fs, "scheduledStart"@).unwrap(),
                scheduled_stop: sget_opt_str(fs, "scheduledStop"@).unwrap(),
                range_km: sget_opt_dec(fs, "rangeKm"@).unwrap(),
                range_rate_km_s: sget_opt_dec(fs, "rangeRateKmS"@).unwrap(),
                right_ascension: sget_opt_dec(fs, "rightAscension"@).unwrap(),
                right_ascension_rate: sget_opt_dec(fs, "rightAscensionRate"@).unwrap(),
                declination: sget_opt_dec(fs, "declination"@).unwrap(),
                declination_rate: sget_opt_dec(fs, "declinationRate"@).unwrap(),
            },
        )
    } else {
        None
    }
}

/// Decodes from a JSON value.
pub open spec fn task_from_json(j: Json) -> Option<Task> {
    match j {
        Json::Obj(fields) => task_from_fields(obj_view(fields@)),
        _ => None,
    }
}

impl Task {
    /// Encodes to the wire object: exactly the keys of `task_keys`, in
    /// order; decoding the result yields this value back.
    pub fn to_json(&self) -> (j: Json)
        ensures
            (j matches Json::Obj(fields) && field_keys(fields@) == task_keys()),
            task_from_json(j) == Some(*self),
    {
        let mut fields: Vec<(String, Json)> = Vec::new();
        push_field(&mut fields, "id", Json::Str(self.id.clone()));
        push_field(&mut fields, "type", Json::Str(self.task_type.clone()));
        push_field(&mut fields, "status", Json::Str(self.status.wire_name()));
        push_field(&mut fields, "creationEpoch", Json::Str(self.created_at.clone()));
        push_field(&mut fields, "updateEpoch", Json::Str(self.updated_at.clone()));
        push_field(&mut fields, "taskStart", Json::Str(self.task_start.clone()));
        push_field(&mut fields, "taskStop", Json::Str(self.task_stop.clone()));
        push_field(&mut fields, "userId", opt_str_to_json(&self.user_id));
        push_field(&mut fields, "username", opt_str_to_json(&self.username));
        push_field(&mut fields, "satelliteId", Json::Str(self.satellite_id.clone()));
        push_field(&mut fields, "satelliteName", opt_str_to_json(&self.satellite_name));
        push_field(&mut fields, "telescopeId", Json::Str(self.telescope_id.clone()));
        push_field(&mut fields, "telescopeName", opt_str_to_json(&self.telescope_name));
        push_field(&mut fields, "groundStationId", Json::Str(self.ground_station_id.clone()));
        push_field(&mut fields, "groundStationName", opt_str_to_json(&self.ground_station_name));
        push_field(&mut fields, "priority", i32_to_json(self.priority));
        push_field(&mut fields, "scheduledStart", opt_str_to_json(&self.scheduled_start));
        push_field(&mut fields, "scheduledStop", opt_str_to_json(&self.scheduled_stop));
        push_field(&mut fields, "rangeKm", opt_dec_to_json(&self.range_km));
        push_field(&mut fields, "rangeRateKmS", opt_dec_to_json(&self.range_rate_km_s));
        push_field(&mut fields, "rightAscension", opt_dec_to_json(&self.right_ascension));
        push_field(&mut fields, "rightAscensionRate", opt_dec_to_json(&self.right_ascension_rate));
        push_field(&mut fields, "declination", opt_dec_to_json(&self.declination));
        push_field(&mut fields, "declinationRate", opt_dec_to_json(&self.declination_rate));
        proof {
            reveal_strlit("id");
            reveal_strlit("type");
            reveal_strlit("status");
            reveal_strlit("creationEpoch");
            reveal_strlit("updateEpoch");
            reveal_strlit("taskStart");
            reveal_strlit("taskStop");
            reveal_strlit("userId");
            reveal_strlit("username");
            reveal_strlit("satelliteId");
            reveal_strlit("satelliteName");
            reveal_strlit("telescopeId");
            reveal_strlit("telescopeName");
            reveal_strlit("groundStationId");
            reveal_strlit("groundStationName");
            reveal_strlit("priority");
            reveal_strlit("scheduledStart");
            reveal_strlit("scheduledStop");
            reveal_strlit("rangeKm");
            reveal_strlit("rangeRateKmS");
            reveal_strlit("rightAscension");
            reveal_strlit("rightAscensionRate");
            reveal_strlit("declination");
            reveal_strlit("declinationRate");
            assert("id"@.len() == 2);
            assert("type"@.len() == 4);
            assert("status"@.len() == 6);
            assert("creationEpoch"@.len() == 13);
            assert("updateEpoch"@.len() == 11);
            assert("taskStart"@.len() == 9);
            assert("taskStop"@.len() == 8);
            assert("userId"@.len() == 6);
            assert("username"@.len() == 8);
            assert("satelliteId"@.len() == 11);
            assert("satelliteName"@.len() == 13);
            assert("telescopeId"@.len() == 11);
            assert("telescopeName"@.len() == 13);
            assert("groundStationId"@.len() == 15);
            assert("groundStationName"@.len() == 17);
            assert("priority"@.len() == 8);
            assert("scheduledStart"@.len() == 14);
            assert("scheduledStop"@.len() == 13);
            assert("rangeKm"@.len() == 7);
            assert("rangeRateKmS"@.len() == 12);
            assert("rightAscension"@.len() == 14);
            assert("rightAscensionRate"@.len() == 18);
            assert("declination"@.len() == 11);
            assert("declinationRate"@.len() == 15);
            assert("status"@[0] == 's');
            assert("userId"@[0] == 'u');
            assert("creationEpoch"@[0] == 'c');
            assert("satelliteName"@[0] == 's');
            assert("telescopeName"@[0] == 't');
            assert("scheduledStop"@[0] == 's');
            assert("satelliteName"@[1] == 'a');
            assert("scheduledStop"@[1] == 'c');
            assert("updateEpoch"@[0] == 'u');
            assert("satelliteId"@[0] == 's');
            assert("telescopeId"@[0] == 't');
            assert("declination"@[0] == 'd');
            assert("taskStop"@[0] == 't');
            assert("username"@[0] == 'u');
            assert("priority"@[0] == 'p');
            assert("groundStationId"@[0] == 'g');
            assert("declinationRate"@[0] == 'd');
            assert("scheduledStart"@[0] == 's');
            assert("rightAscension"@[0] == 'r');
            assert(field_keys(fields@) =~= task_keys());
            let fs = obj_view(fields@);
            assert(fs.len() == 24);
            assert(fs[0].0 == "id"@);
            assert(fs[1].0 == "type"@);
            assert(fs[2].0 == "status"@);
            assert(fs[3].0 == "creationEpoch"@);
            assert(fs[4].0 == "updateEpoch"@);
            assert(fs[5].0 == "taskStart"@);
            assert(fs[6].0 == "taskStop"@);
            assert(fs[7].0 == "userId"@);
            assert(fs[8].0 == "username"@);
            assert(fs[9].0 == "satelliteId"@);
            assert(fs[10].0 == "satelliteName"@);
            assert(fs[11].0 == "telescopeId"@);
            assert(fs[12].0 == "telescopeName"@);
            assert(fs[13].0 == "groundStationId"@);
            assert(fs[14].0 == "groundStationName"@);
            assert(fs[15].0 == "priority"@);
            assert(fs[16].0 == "scheduledStart"@);
            assert(fs[17].0 == "scheduledStop"@);
            assert(fs[18].0 == "rangeKm"@);
            assert(fs[19].0 == "rangeRateKmS"@);
            assert(fs[20].0 == "rightAscension"@);
            assert(fs[21].0 == "rightAscensionRate"@);
            assert(fs[22].0 == "declination"@);
            assert(fs[23].0 == "declinationRate"@);
            lemma_obj_get_found(fs, "id"@, 0);
            lemma_obj_get_found(fs, "type"@, 1);
            lemma_obj_get_found(fs, "status"@, 2);
            lemma_obj_get_found(fs, "creationEpoch"@, 3);
            lemma_obj_get_found(fs, "updateEpoch"@, 4);
            lemma_obj_get_found(fs, "taskStart"@, 5);
            lemma_obj_get_found(fs, "taskStop"@, 6);
            lemma_obj_get_found(fs, "userId"@, 7);
            lemma_obj_get_found(fs, "username"@, 8);
            lemma_obj_get_found(fs, "satelliteId"@, 9);
            lemma_obj_get_found(fs, "satelliteName"@, 10);
            lemma_obj_get_found(fs, "telescopeId"@, 11);
            lemma_obj_get_found(fs, "telescopeName"@, 12);
            lemma_obj_get_found(fs, "groundStationId"@, 13);
            lemma_obj_get_found(fs, "groundStationName"@, 14);
            lemma_obj_get_found(fs, "priority"@, 15);
            lemma_obj_get_found(fs, "scheduledStart"@, 16);
            lemma_obj_get_found(fs, "scheduledStop"@, 17);
            lemma_obj_get_found(fs, "rangeKm"@, 18);
            lemma_obj_get_found(fs, "rangeRateKmS"@, 19);
            lemma_obj_get_found(fs, "rightAscension"@, 20);
            lemma_obj_get_found(fs, "rightAscensionRate"@, 21);
            lemma_obj_get_found(fs, "declination"@, 22);
            lemma_obj_get_found(fs, "declinationRate"@, 23);
            lemma_task_status_roundtrip(self.status);
            crate::num::lemma_parse_dec_i32(self.priority);
            assert(sget_str(fs, "id"@) == Some(self.id));
            assert(sget_str(fs, "type"@) == Some(self.task_type));
            assert(task_status_from_wire(sget_str(fs, "status"@).unwrap()@) == Some(self.status));
            assert(sget_str(fs, "creationEpoch"@) == Some(self.created_at));
            assert(sget_str(fs, "updateEpoch"@) == Some(self.updated_at));
            assert(sget_str(fs, "taskStart"@) == Some(self.task_start));
            assert(sget_str(fs, "taskStop"@) == Some(self.task_stop));
            assert(sget_opt_str(fs, "userId"@) == Some(self.user_id));
            assert(sget_opt_str(fs, "username"@) == Some(self.username));
            assert(sget_str(fs, "satelliteId"@) == Some(self.satellite_id));
            assert(sget_opt_str(fs, "satelliteName"@) == Some(self.satellite_name));
            assert(sget_str(fs, "telescopeId"@) == Some(self.telescope_id));
            assert(sget_opt_str(fs, "telescopeName"@) == Some(self.telescope_name));
            assert(sget_str(fs, "groundStationId"@) == Some(self.ground_station_id));
            assert(sget_opt_str(fs, "groundStationName"@) == Some(self.ground_station_name));
            assert(sget_i32(fs, "priority"@) == Some(self.priority));
            assert(sget_opt_str(fs, "scheduledStart"@) == Some(self.scheduled_start));
            assert(sget_opt_str(fs, "scheduledStop"@) == Some(self.scheduled_stop));
            assert(sget_opt_dec(fs, "rangeKm"@) == Some(self.range_km));
            assert(sget_opt_dec(fs, "rangeRateKmS"@) == Some(self.range_rate_km_s));
            assert(sget_opt_dec(fs, "rightAscension"@) == Some(self.right_ascension));
            assert(sget_opt_dec(fs, "rightAscensionRate"@) == Some(self.right_ascension_rate));
            assert(sget_opt_dec(fs, "declination"@) == Some(self.declination));
            assert(sget_opt_dec(fs, "declinationRate"@) == Some(self.declination_rate));
            assert(task_from_fields(fs) == Some(*self));
        }
        Json::Obj(fields)
    }

    /// Decodes from a JSON value; `None` on any shape mismatch.
    pub fn from_json(j: &Json) -> (r: Option<Task>)
        ensures
            r == task_from_json(*j),
    {
        match j {
            Json::Obj(fields) => {
                let id = match get_str(fields, "id") {
                    Some(v) => v,
                    None => {
                        return None;
                    },
                };
                let task_type = match get_str(fields, "type") {
                    Some(v) => v,
                    None => {
                        return None;
                    },
                };
                let status = match get_str(fields, "status") {
                    Some(s) => match TaskStatus::from_wire(s.as_str()) {
                        Some(v) => v,
                        None => {
                            return None;
                        },
                    },
                    None => {
                        return None;
                    },
                };
                let created_at = match get_str(fields, "creationEpoch") {
                    Some(v) => v,
                    None => {
                        return None;
                    },
                };
                let updated_at = match get_str(fields, "updateEpoch") {
                    Some(v) => v,
                    None => {
                        return None;
                    },
                };
                let task_start = match get_str(fields, "taskStart") {
                    Some(v) => v,
                    None => {
                        return None;
                    },
                };
                let task_stop = match get_str(fields, "taskStop") {
                    Some(v) => v,
                    None => {
                        return None;
                    },
                };
                let user_id = match get_opt_str(fields, "userId") {
                    Some(v) => v,
                    None => {
                        return None;
                    },
                };
                let username = match get_opt_str(fields, "username") {
                    Some(v) => v,
                    None => {
                        return None;
                    },
                };
                let satellite_id = match get_str(fields, "satelliteId") {
                    Some(v) => v,
                    None => {
                        return None;
                    },
                };
                let satellite_name = match get_opt_str(fields, "satelliteName") {
                    Some(v) => v,
                    None => {
                        return None;
                    },
                };
                let telescope_id = match get_str(fields, "telescopeId") {
                    Some(v) => v,
                    None => {
                        return None;
                    },
                };
                let telescope_name = match get_opt_str(fields, "telescopeName") {
                    Some(v) => v,
                    None => {
                        return None;
                    },
                };
                let ground_station_id = match get_str(fields, "groundStationId") {
                    Some(v) => v,
                    None => {
                        return None;
                    },
                };
                let ground_station_name = match get_opt_str(fields, "groundStationName") {
                    Some(v) => v,
                    None => {
                        return None;
                    },
                };
                let priority = match get_i32(fields, "priority") {
                    Some(v) => v,
                    None => {
                        return None;
                    },
                };
                let scheduled_start = match get_opt_str(fields, "scheduledStart") {
                    Some(v) => v,
                    None => {
                        return None;
                    },
                };
                let scheduled_stop = match get_opt_str(fields, "scheduledStop") {
                    Some(v) => v,
                    None => {
                        return None;
                    },
                };
                let range_km = match get_opt_dec(fields, "rangeKm") {
                    Some(v) => v,
                    None => {
                        return None;
                    },
                };
                let range_rate_km_s = match get_opt_dec(fields, "rangeRateKmS") {
                    Some(v) => v,
                    None => {
                        return None;
                    },
                };
                let right_ascension = match get_opt_dec(fields, "rightAscension") {
                    Some(v) => v,
                    None => {
                        return None;
                    },
                };
                let right_ascension_rate = match get_opt_dec(fields, "rightAscensionRate") {
                    Some(v) => v,
                    None => {
                        return None;
                    },
                };
                let declination = match get_opt_dec(fields, "declination") {
                    Some(v) => v,
                    None => {
                        return None;
                    },
                };
                let declination_rate = match get_opt_dec(fields, "declinationRate") {
                    Some(v) => v,
                    None => {
                        return None;
                    },
                };
                Some(
                    Task {
                        id, task_type, status, created_at, updated_at, task_start, task_stop,
                        user_id, username, satellite_id, satellite_name, telescope_id,
                        telescope_name, ground_station_id, ground_station_name, priority,
                        scheduled_start, scheduled_stop, range_km, range_rate_km_s,
                        right_ascension, right_ascension_rate, declination, declination_rate,
                    },
                )
            },
            _ => None,
        }
    }
}

/// Decodes each element of a JSON array.
pub open spec fn tasks_from_arr(items: Seq<Json>) -> Option<Seq<Task>>
    decreases items.len(),
{
    if items.len() == 0 {
        Some(Seq::empty())
    } else {
        match tasks_from_arr(items.drop_last()) {
            Some(init) => match task_from_json(items.last()) {
                Some(x) => Some(init + seq![x]),
                None => None,
            },
            None => None,
        }
    }
}

/// Decodes a JSON array of these records.
pub open spec fn task_vec_from_json(j: Json) -> Option<Seq<Task>> {
    match j {
        Json::Arr(items) => tasks_from_arr(items@),
        _ => None,
    }
}

proof fn lemma_tasks_from_arr_fails(items: Seq<Json>, i: int)
    requires
        0 <= i < items.len(),
        task_from_json(items[i]) is None,
    ensures
        tasks_from_arr(items) is None,
    decreases items.len(),
{
    if items.len() > 0 {
        if i < items.len() - 1 {
            assert(items.drop_last()[i] == items[i]);
            lemma_tasks_from_arr_fails(items.drop_last(), i);
        }
    }
}

/// Decodes a JSON array of these records; `None` on any mismatch.
#[verifier::loop_isolation(false)]
pub fn tasks_from_json(j: &Json) -> (r: Option<Vec<Task>>)
    ensures
        opt_vec_view(r) == task_vec_from_json(*j),
{
    match j {
        Json::Arr(items) => {
            let mut out: Vec<Task> = Vec::new();
            let mut i: usize = 0;
            while i < items.len()
                invariant
                    i <= items@.len(),
                    tasks_from_arr(items@.take(i as int)) == Some(out@),
                decreases items@.len() - i,
            {
                match Task::from_json(&items[i]) {
                    Some(x) => {
                        out.push(x);
                    },
                    None => {
                        proof {
                            lemma_tasks_from_arr_fails(items@, i as int);
                        }
                        return None;
                    },
                }
                proof {
                    let t = items@.take(i + 1);
                    assert(t.drop_last() =~= items@.take(i as int));
                    assert(t.last() == items@[i as int]);
                }
                i += 1;
            }
            proof {
                assert(items@.take(items@.len() as int) =~= items@);
            }
            Some(out)
        },
        _ => None,
    }
}

/// The caller-settable fields of a task update.
#[derive(Clone, Debug, PartialEq)]
pub struct TaskUpdateRequest {
    pub id: String,
    pub status: TaskStatus,
    pub priority: Option<i32>,
    pub scheduled_start: Option<String>,
    pub scheduled_stop: Option<String>,
}

/// The wire keys of this record, in the order the client writes them.
pub open spec fn task_update_request_keys() -> Seq<Seq<char>> {
    seq!["id"@, "status"@, "priority"@, "scheduledStart"@, "scheduledStop"@]
}

/// Decodes from an object's fields.
pub open spec fn task_update_request_from_fields(fs: Seq<(Seq<char>, Json)>) -> Option<TaskUpdateRequest> {
    if {
        &&& sget_str(fs, "id"@) is Some
        &&& sget_str(fs, "status"@) is Some
        &&& task_status_from_wire(sget_str(fs, "status"@).unwrap()@) is Some
        &&& sget_opt_i32(fs, "priority"@) is Some
        &&& sget_opt_str(fs, "scheduledStart"@) is Some
        &&& sget_opt_str(fs, "scheduledStop"@) is Some
    } {
        Some(
            TaskUpdateRequest {
                id: sget_str(fs, "id"@).unwrap(),
                status: task_status_from_wire(sget_str(fs, "status"@).unwrap()@).unwrap(),
                priority: sget_opt_i32(fs, "priority"@).unwrap(),
                scheduled_start: sget_opt_str(fs, "scheduledStart"@).unwrap(),
                scheduled_stop: sget_opt_str(fs, "scheduledStop"@).unwrap(),
            },
        )
    } else {
        None
    }
}

/// Decodes from a JSON value.
pub open spec fn task_update_request_from_json(j: Json) -> Option<TaskUpdateRequest> {
    match j {
        Json::Obj(fields) => task_update_request_from_fields(obj_view(fields@)),
        _ => None,
    }
}

impl TaskUpdateRequest {
    /// Encodes to the wire object: exactly the keys of `task_update_request_keys`, in
    /// order; decoding the result yields this value back.
    pub fn to_json(&self) -> (j: Json)
        ensures
            (j matches Json::Obj(fields) && field_keys(fields@) == task_update_request_keys()),
            task_update_request_from_json(j) == Some(*self),
    {
        let mut fields: Vec<(String, Json)> = Vec::new();
        push_field(&mut fields, "id", Json::Str(self.id.clone()));
        push_field(&mut fields, "status", Json::Str(self.status.wire_name()));
        push_field(&mut fields, "priority", opt_i32_to_json(&self.priority));
        push_field(&mut fields, "scheduledStart", opt_str_to_json(&self.scheduled_start));
        push_field(&mut fields, "scheduledStop", opt_str_to_json(&self.scheduled_stop));
        proof {
            reveal_strlit("id");
            reveal_strlit("status");
            reveal_strlit("priority");
            reveal_strlit("scheduledStart");
            reveal_strlit("scheduledStop");
            assert("id"@.len() == 2);
            assert("status"@.len() == 6);
            assert("priority"@.len() == 8);
            assert("scheduledStart"@.len() == 14);
            assert("scheduledStop"@.len() == 13);
            assert(field_keys(fields@) =~= task_update_request_keys());
            let fs = obj_view(fields@);
            assert(fs.len() == 5);
            assert(fs[0].0 == "id"@);
            assert(fs[1].0 == "status"@);
            assert(fs[2].0 == "priority"@);
            assert(fs[3].0 == "scheduledStart"@);
            assert(fs[4].0 == "scheduledStop"@);
            lemma_obj_get_found(fs, "id"@, 0);
            lemma_obj_get_found(fs, "status"@, 1);
            lemma_obj_get_found(fs, "priority"@, 2);
            lemma_obj_get_found(fs, "scheduledStart"@, 3);
            lemma_obj_get_found(fs, "scheduledStop"@, 4);
            lemma_task_status_roundtrip(self.status);
            if let Some(n) = self.priority {
                crate::num::lemma_parse_dec_i32(n);
            }
            assert(sget_str(fs, "id"@) == Some(self.id));
            assert(task_status_from_wire(sget_str(fs, "status"@).unwrap()@) == Some(self.status));
            assert(sget_opt_i32(fs, "priority"@) == Some(self.priority));
            assert(sget_opt_str(fs, "scheduledStart"@) == Some(self.scheduled_start));
            assert(sget_opt_str(fs, "scheduledStop"@) == Some(self.scheduled_stop));
            assert(task_update_request_from_fields(fs) == Some(*self));
        }
        Json::Obj(fields)
    }

    /// Decodes from a JSON value; `None` on any shape mismatch.
    pub fn from_json(j: &Json) -> (r: Option<TaskUpdateRequest>)
        ensures
            r == task_update_request_from_json(*j),
    {
        match j {
            Json::Obj(fields) => {
                let id = match get_str(fields, "id") {
                    Some(v) => v,
                    None => {
                        return None;
                    },
                };
                let status = match get_str(fields, "status") {
                    Some(s) => match TaskStatus::from_wire(s.as_str()) {
                        Some(v) => v,
                        None => {
                            return None;
                        },
                    },
                    None => {
                        return None;
                    },
                };
                let priority = match get_opt_i32(fields, "priority") {
                    Some(v) => v,
                    None => {
                        return None;
                    },
                };
                let scheduled_start = match get_opt_str(fields, "scheduledStart") {
                    Some(v) => v,
                    None => {
                        return None;
                    },
                };
                let scheduled_stop = match get_opt_str(fields, "scheduledStop") {
                    Some(v) => v,
                    None => {
                        return None;
                    },
                };
                Some(
                    TaskUpdateRequest {
                        id, status, priority, scheduled_start, scheduled_stop,
                    },
                )
            },
            _ => None,
        }
    }
}

/// The caller-settable fields of a new task.
#[derive(Clone, Debug, PartialEq)]
pub struct CreateTaskRequest {
    pub telescope_id: Option<String>,
    pub satellite_id: String,
    pub antenna_id: Option<String>,
    pub task_start: String,
    pub task_stop: String,
}

/// The wire keys of this record, in the order the client writes them.
pub open spec fn create_task_request_keys() -> Seq<Seq<char>> {
    seq!["telescopeId"@, "satelliteId"@, "antennaId"@, "taskStart"@, "taskStop"@]
}

/// Decodes from an object's fields.
pub open spec fn create_task_request_from_fields(fs: Seq<(Seq<char>, Json)>) -> Option<CreateTaskRequest> {
    if {
        &&& sget_opt_str(fs, "telescopeId"@) is Some
        &&& sget_str(fs, "satelliteId"@) is Some
        &&& sget_opt_str(fs, "antennaId"@) is Some
        &&& sget_str(fs, "taskStart"@) is Some
        &&& sget_str(fs, "taskStop"@) is Some
    } {
        Some(
            CreateTaskRequest {
                telescope_id: sget_opt_str(fs, "telescopeId"@).unwrap(),
                satellite_id: sget_str(fs, "satelliteId"@).unwrap(),
                antenna_id: sget_opt_str(fs, "antennaId"@).unwrap(),
                task_start: sget_str(fs, "taskStart"@).unwrap(),
                task_stop: sget_str(fs, "taskStop"@).unwrap(),
            },
        )
    } else {
        None
    }
}

/// Decodes from a JSON value.
pub open spec fn create_task_request_from_json(j: Json) -> Option<CreateTaskRequest> {
    match j {
        Json::Obj(fields) => create_task_request_from_fields(obj_view(fields@)),
        _ => None,
    }
}

impl CreateTaskRequest {
    /// Encodes to the wire object: exactly the keys of `create_task_request_keys`, in
    /// order; decoding the result yields this value back.
    pub fn to_json(&self) -> (j: Json)
        ensures
            (j matches Json::Obj(fields) && field_keys(fields@) == create_task_request_keys()),
            create_task_request_from_json(j) == Some(*self),
    {
        let mut fields: Vec<(String, Json)> = Vec::new();
        push_field(&mut fields, "telescopeId", opt_str_to_json(&self.telescope_id));
        push_field(&mut fields, "satelliteId", Json::Str(self.satellite_id.clone()));
        push_field(&mut fields, "antennaId", opt_str_to_json(&self.antenna_id));
        push_field(&mut fields, "taskStart", Json::Str(self.task_start.clone()));
        push_field(&mut fields, "taskStop", Json::Str(self.task_stop.clone()));
        proof {
            reveal_strlit("telescopeId");
            reveal_strlit("satelliteId");
            reveal_strlit("antennaId");
            reveal_strlit("taskStart");
            reveal_strlit("taskStop");
            assert("telescopeId"@.len() == 11);
            assert("satelliteId"@.len() == 11);
            assert("antennaId"@.len() == 9);
            assert("taskStart"@.len() == 9);
            assert("taskStop"@.len() == 8);
            assert("telescopeId"@[0] == 't');
            assert("satelliteId"@[0] == 's');
            assert("antennaId"@[0] == 'a');
            assert("taskStart"@[0] == 't');
            assert(field_keys(fields@) =~= create_task_request_keys());
            let fs = obj_view(fields@);
            assert(fs.len() == 5);
            assert(fs[0].0 == "telescopeId"@);
            assert(fs[1].0 == "satelliteId"@);
            assert(fs[2].0 == "antennaId"@);
            assert(fs[3].0 == "taskStart"@);
            assert(fs[4].0 == "taskStop"@);
            lemma_obj_get_found(fs, "telescopeId"@, 0);
            lemma_obj_get_found(fs, "satelliteId"@, 1);
            lemma_obj_get_found(fs, "antennaId"@, 2);
            lemma_obj_get_found(fs, "taskStart"@, 3);
            lemma_obj_get_found(fs, "taskStop"@, 4);
            assert(sget_opt_str(fs, "telescopeId"@) == Some(self.telescope_id));
            assert(sget_str(fs, "satelliteId"@) == Some(self.satellite_id));
            assert(sget_opt_str(fs, "antennaId"@) == Some(self.antenna_id));
            assert(sget_str(fs, "taskStart"@) == Some(self.task_start));
            assert(sget_str(fs, "taskStop"@) == Some(self.task_stop));
            assert(create_task_request_from_fields(fs) == Some(*self));
        }
        Json::Obj(fields)
    }

    /// Decodes from a JSON value; `None` on any shape mismatch.
    pub fn from_json(j: &Json) -> (r: Option<CreateTaskRequest>)
        ensures
            r == create_task_request_from_json(*j),
    {
        match j {
            Json::Obj(fields) => {
                let telescope_id = match get_opt_str(fields, "telescopeId") {
                    Some(v) => v,
                    None => {
                        return None;
                    },
                };
                let satellite_id = match get_str(fields, "satelliteId") {
                    Some(v) => v,
                    None => {
                        return None;
                    },
                };
                let antenna_id = match get_opt_str(fields, "antennaId") {
                    Some(v) => v,
                    None => {
                        return None;
                    },
                };
                let task_start = match get_str(fields, "taskStart") {
                    Some(v) => v,
                    None => {
                        return None;
                    },
                };
                let task_stop = match get_str(fields, "taskStop") {
                    Some(v) => v,
                    None => {
                        return None;
                    },
                };
                Some(
                    CreateTaskRequest {
                        telescope_id, satellite_id, antenna_id, task_start, task_stop,
                    },
                )
            },
            _ => None,
        }
    }
}
} // verus!
