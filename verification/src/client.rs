//! The API client: one request description per remote endpoint.
//!
//! Construction fixes the base URL and the bearer credential; every
//! operation builds a complete request value — method, exact URL, the
//! `Authorization` header value, and the JSON body where one is sent. The
//! transport that carries the request lives outside this crate.
use vstd::prelude::*;
use vstd::string::StringExecFns;

use crate::entities::access::FOVAccessRequest;
use crate::entities::access::SatelliteAccessToGroundstationRequest;
use crate::entities::access::fov_access_request_from_json;
use crate::entities::access::satellite_access_to_groundstation_request_from_json;
use crate::entities::antenna::Antenna;
use crate::entities::antenna::antenna_from_json;
use crate::entities::groundstation::Groundstation;
use crate::entities::groundstation::GroundstationCreateRequest;
use crate::entities::groundstation::groundstation_create_request_from_json;
use crate::entities::groundstation::groundstation_from_json;
use crate::entities::groundstation::groundstation_vec_from_json;
use crate::entities::rf_observation::CreateRFCaptureRequest;
use crate::entities::rf_observation::create_rf_capture_request_decodes_to;
use crate::entities::task::CreateTaskRequest;
use crate::entities::task::TaskStatus;
use crate::entities::task::TaskUpdateRequest;
use crate::entities::task::create_task_request_from_json;
use crate::entities::task::task_status_wire;
use crate::entities::task::task_update_request_from_json;
use crate::entities::telescope::Telescope;
use crate::entities::telescope::telescope_from_json;
use crate::entities::telescope::telescope_vec_from_json;
use crate::json::Json;
use crate::json::get_json;
use crate::json::obj_get;
use crate::json::obj_view;
use crate::json::opt_vec_view;
use crate::query::params_view;
use crate::query::push_param;
use crate::query::query_string;
use crate::query::render_query;

verus! {

/// The HTTP method of a request.
#[derive(Clone, Copy, PartialEq, Eq, Structural, Debug)]
pub enum Method {
    Get,
    Post,
    Put,
    Patch,
    Delete,
}

/// A complete description of one HTTP request: everything the transport
/// needs except the wire itself.
pub struct HttpRequest {
    pub method: Method,
    pub url: String,
    /// The full `Authorization` header value.
    pub auth: String,
    pub body: Option<Json>,
}

/// The client: an immutable base URL and credential. It holds no per-call
/// state, so one value serves any number of concurrent operations.
pub struct CitraClient {
    pub base_url: String,
    pub api_key: String,
}

/// One `statuses` parameter per status, in the caller's order, each in the
/// enum's wire casing.
pub open spec fn statuses_params(sts: Seq<TaskStatus>) -> Seq<(Seq<char>, Seq<char>)> {
    sts.map_values(|s: TaskStatus| ("statuses"@, task_status_wire(s)))
}

impl CitraClient {
    /// Builds a client against the production or the development host.
    /// No request is issued.
    pub fn new(api_key: &str, dev: bool) -> (c: CitraClient)
        ensures
            c.api_key@ == api_key@,
            !dev ==> c.base_url@ == "https://api.citra.space/"@,
            dev ==> c.base_url@ == "https://dev.api.citra.space/"@,
    {
        if !dev {
            return CitraClient {
                base_url: String::from_str("https://api.citra.space/"),
                api_key: String::from_str(api_key),
            };
        }
        CitraClient {
            base_url: String::from_str("https://dev.api.citra.space/"),
            api_key: String::from_str(api_key),
        }
    }

    /// The `Authorization` header value carried by every request.
    fn bearer(&self) -> (s: String)
        ensures
            s@ == "Bearer "@ + self.api_key@,
    {
        let mut s = String::from_str("Bearer ");
        s.append(self.api_key.as_str());
        s
    }

    fn path1(&self, a: &str) -> (s: String)
        ensures
            s@ == self.base_url@ + a@,
    {
        let mut s = self.base_url.clone();
        s.append(a);
        s
    }

    fn path2(&self, a: &str, b: &str) -> (s: String)
        ensures
            s@ == self.base_url@ + a@ + b@,
    {
        let mut s = self.base_url.clone();
        s.append(a);
        s.append(b);
        s
    }

    fn path3(&self, a: &str, b: &str, c: &str) -> (s: String)
        ensures
            s@ == self.base_url@ + a@ + b@ + c@,
    {
        let mut s = self.base_url.clone();
        s.append(a);
        s.append(b);
        s.append(c);
        s
    }

    // -----------------------------------------------------------------
    // Telescopes
    // -----------------------------------------------------------------
    /// GET one telescope by id.
    pub fn get_telescope_request(&self, telescope_id: &str) -> (r: HttpRequest)
        ensures
            r.method == Method::Get,
            r.url@ == self.base_url@ + "telescopes/"@ + telescope_id@,
            r.auth@ == "Bearer "@ + self.api_key@,
            r.body is None,
    {
        HttpRequest {
            method: Method::Get,
            url: self.path2("telescopes/", telescope_id),
            auth: self.bearer(),
            body: None,
        }
    }

    /// GET all telescopes.
    pub fn list_telescopes_request(&self) -> (r: HttpRequest)
        ensures
            r.method == Method::Get,
            r.url@ == self.base_url@ + "telescopes"@,
            r.auth@ == "Bearer "@ + self.api_key@,
            r.body is None,
    {
        HttpRequest {
            method: Method::Get,
            url: self.path1("telescopes"),
            auth: self.bearer(),
            body: None,
        }
    }

    /// POST a new telescope. The remote endpoint is a bulk create, so the
    /// one value goes out wrapped in a single-element array.
    pub fn create_telescope_request(&self, telescope: &Telescope) -> (r: HttpRequest)
        ensures
            r.method == Method::Post,
            r.url@ == self.base_url@ + "telescopes"@,
            r.auth@ == "Bearer "@ + self.api_key@,
            (r.body matches Some(j) && j matches Json::Arr(items) && items@.len() == 1
                && telescope_from_json(items@[0]) == Some(*telescope)),
    {
        let mut items: Vec<Json> = Vec::new();
        items.push(telescope.to_json());
        HttpRequest {
            method: Method::Post,
            url: self.path1("telescopes"),
            auth: self.bearer(),
            body: Some(Json::Arr(items)),
        }
    }

    /// PUT a full telescope update; bulk endpoint, single-element array.
    pub fn update_telescope_request(&self, telescope: &Telescope) -> (r: HttpRequest)
        ensures
            r.method == Method::Put,
            r.url@ == self.base_url@ + "telescopes"@,
            r.auth@ == "Bearer "@ + self.api_key@,
            (r.body matches Some(j) && j matches Json::Arr(items) && items@.len() == 1
                && telescope_from_json(items@[0]) == Some(*telescope)),
    {
        let mut items: Vec<Json> = Vec::new();
        items.push(telescope.to_json());
        HttpRequest {
            method: Method::Put,
            url: self.path1("telescopes"),
            auth: self.bearer(),
            body: Some(Json::Arr(items)),
        }
    }

    /// DELETE one telescope; bulk endpoint, a single-element array of ids.
    pub fn delete_telescope_request(&self, telescope_id: &str) -> (r: HttpRequest)
        ensures
            r.method == Method::Delete,
            r.url@ == self.base_url@ + "telescopes"@,
            r.auth@ == "Bearer "@ + self.api_key@,
            (r.body matches Some(j) && j matches Json::Arr(items) && items@[0] matches Json::Str(
                s,
            ) && items@.len() == 1 && s@ == telescope_id@),
    {
        let mut items: Vec<Json> = Vec::new();
        items.push(Json::Str(String::from_str(telescope_id)));
        HttpRequest {
            method: Method::Delete,
            url: self.path1("telescopes"),
            auth: self.bearer(),
            body: Some(Json::Arr(items)),
        }
    }

    /// GET the tasks of one telescope.
    pub fn list_tasks_for_telescope_request(&self, telescope_id: &str) -> (r: HttpRequest)
        ensures
            r.method == Method::Get,
            r.url@ == self.base_url@ + "telescopes/"@ + telescope_id@ + "/tasks"@,
            r.auth@ == "Bearer "@ + self.api_key@,
            r.body is None,
    {
        HttpRequest {
            method: Method::Get,
            url: self.path3("telescopes/", telescope_id, "/tasks"),
            auth: self.bearer(),
            body: None,
        }
    }

    /// GET the tasks of one telescope filtered by status: one `statuses`
    /// parameter per given status, in the given order; an empty set sends
    /// no `statuses` parameter at all. Whether the remote service reads an
    /// empty filter as "no filter" or as "match nothing" is not defined by
    /// this client: the set is surfaced exactly as given.
    pub fn get_telescope_tasks_by_status_request(
        &self,
        telescope_id: &str,
        statuses: &Vec<TaskStatus>,
    ) -> (r: HttpRequest)
        ensures
            r.method == Method::Get,
            r.url@ == self.base_url@ + "telescopes/"@ + telescope_id@ + "/tasks"@ + query_string(
                statuses_params(statuses@),
            ),
            r.auth@ == "Bearer "@ + self.api_key@,
            r.body is None,
    {
        let mut url = self.path3("telescopes/", telescope_id, "/tasks");
        let q = render_statuses(statuses);
        url.append(q.as_str());
        HttpRequest { method: Method::Get, url, auth: self.bearer(), body: None }
    }

    // -----------------------------------------------------------------
    // Ground stations
    // -----------------------------------------------------------------
    /// GET one ground station by id.
    pub fn get_groundstation_request(&self, groundstation_id: &str) -> (r: HttpRequest)
        ensures
            r.method == Method::Get,
            r.url@ == self.base_url@ + "ground-stations/"@ + groundstation_id@,
            r.auth@ == "Bearer "@ + self.api_key@,
            r.body is None,
    {
        HttpRequest {
            method: Method::Get,
            url: self.path2("ground-stations/", groundstation_id),
            auth: self.bearer(),
            body: None,
        }
    }

    /// GET all ground stations. The response nests the list under a
    /// `groundStations` key; see `groundstation_list_from_json`.
    pub fn list_groundstations_request(&self) -> (r: HttpRequest)
        ensures
            r.method == Method::Get,
            r.url@ == self.base_url@ + "ground-stations"@,
            r.auth@ == "Bearer "@ + self.api_key@,
            r.body is None,
    {
        HttpRequest {
            method: Method::Get,
            url: self.path1("ground-stations"),
            auth: self.bearer(),
            body: None,
        }
    }

    /// POST a new ground station; bulk endpoint, single-element array.
    pub fn create_groundstation_request(&self, groundstation: &GroundstationCreateRequest) -> (r:
        HttpRequest)
        ensures
            r.method == Method::Post,
            r.url@ == self.base_url@ + "ground-stations"@,
            r.auth@ == "Bearer "@ + self.api_key@,
            (r.body matches Some(j) && j matches Json::Arr(items) && items@.len() == 1
                && groundstation_create_request_from_json(items@[0]) == Some(*groundstation)),
    {
        let mut items: Vec<Json> = Vec::new();
        items.push(groundstation.to_json());
        HttpRequest {
            method: Method::Post,
            url: self.path1("ground-stations"),
            auth: self.bearer(),
            body: Some(Json::Arr(items)),
        }
    }

    /// PUT a ground-station update; bulk endpoint, single-element array.
    pub fn update_groundstation_request(
        &self,
        groundstation_id: &str,
        groundstation: &GroundstationCreateRequest,
    ) -> (r: HttpRequest)
        ensures
            r.method == Method::Put,
            r.url@ == self.base_url@ + "ground-stations/"@ + groundstation_id@,
            r.auth@ == "Bearer "@ + self.api_key@,
            (r.body matches Some(j) && j matches Json::Arr(items) && items@.len() == 1
                && groundstation_create_request_from_json(items@[0]) == Some(*groundstation)),
    {
        let mut items: Vec<Json> = Vec::new();
        items.push(groundstation.to_json());
        HttpRequest {
            method: Method::Put,
            url: self.path2("ground-stations/", groundstation_id),
            auth: self.bearer(),
            body: Some(Json::Arr(items)),
        }
    }

    /// DELETE one ground station; bulk endpoint, array of ids.
    pub fn delete_groundstation_request(&self, groundstation_id: &str) -> (r: HttpRequest)
        ensures
            r.method == Method::Delete,
            r.url@ == self.base_url@ + "ground-stations"@,
            r.auth@ == "Bearer "@ + self.api_key@,
            (r.body matches Some(j) && j matches Json::Arr(items) && items@[0] matches Json::Str(
                s,
            ) && items@.len() == 1 && s@ == groundstation_id@),
    {
        let mut items: Vec<Json> = Vec::new();
        items.push(Json::Str(String::from_str(groundstation_id)));
        HttpRequest {
            method: Method::Delete,
            url: self.path1("ground-stations"),
            auth: self.bearer(),
            body: Some(Json::Arr(items)),
        }
    }

    // -----------------------------------------------------------------
    // Access solving
    // -----------------------------------------------------------------
    /// POST an access-window solve over a ground station.
    pub fn solve_access_for_groundstation_request(
        &self,
        access_request: &SatelliteAccessToGroundstationRequest,
    ) -> (r: HttpRequest)
        ensures
            r.method == Method::Post,
            r.url@ == self.base_url@ + "access/window/satellites_to_ground_station"@,
            r.auth@ == "Bearer "@ + self.api_key@,
            (r.body matches Some(j) && satellite_access_to_groundstation_request_from_json(j)
                == Some(*access_request)),
    {
        HttpRequest {
            method: Method::Post,
            url: self.path1("access/window/satellites_to_ground_station"),
            auth: self.bearer(),
            body: Some(access_request.to_json()),
        }
    }

    /// POST a field-of-view solve.
    pub fn solve_fov_access_request(&self, fov_request: &FOVAccessRequest) -> (r: HttpRequest)
        ensures
            r.method == Method::Post,
            r.url@ == self.base_url@ + "access/fov"@,
            r.auth@ == "Bearer "@ + self.api_key@,
            (r.body matches Some(j) && fov_access_request_from_json(j) == Some(*fov_request)),
    {
        HttpRequest {
            method: Method::Post,
            url: self.path1("access/fov"),
            auth: self.bearer(),
            body: Some(fov_request.to_json()),
        }
    }

    // -----------------------------------------------------------------
    // Tasks
    // -----------------------------------------------------------------
    /// PUT a task update against the task's own id.
    pub fn update_task_request(&self, task: &TaskUpdateRequest) -> (r: HttpRequest)
        ensures
            r.method == Method::Put,
            r.url@ == self.base_url@ + "tasks/"@ + task.id@,
            r.auth@ == "Bearer "@ + self.api_key@,
            (r.body matches Some(j) && task_update_request_from_json(j) == Some(*task)),
    {
        HttpRequest {
            method: Method::Put,
            url: self.path2("tasks/", task.id.as_str()),
            auth: self.bearer(),
            body: Some(task.to_json()),
        }
    }

    /// POST a new task.
    pub fn create_task_request(&self, task: &CreateTaskRequest) -> (r: HttpRequest)
        ensures
            r.method == Method::Post,
            r.url@ == self.base_url@ + "tasks"@,
            r.auth@ == "Bearer "@ + self.api_key@,
            (r.body matches Some(j) && create_task_request_from_json(j) == Some(*task)),
    {
        HttpRequest {
            method: Method::Post,
            url: self.path1("tasks"),
            auth: self.bearer(),
            body: Some(task.to_json()),
        }
    }

    // -----------------------------------------------------------------
    // Antennas
    // -----------------------------------------------------------------
    /// GET all antennas.
    pub fn list_antennas_request(&self) -> (r: HttpRequest)
        ensures
            r.method == Method::Get,
            r.url@ == self.base_url@ + "antennas"@,
            r.auth@ == "Bearer "@ + self.api_key@,
            r.body is None,
    {
        HttpRequest {
            method: Method::Get,
            url: self.path1("antennas"),
            auth: self.bearer(),
            body: None,
        }
    }

    /// GET one antenna by id.
    pub fn get_antenna_request(&self, antenna_id: &str) -> (r: HttpRequest)
        ensures
            r.method == Method::Get,
            r.url@ == self.base_url@ + "antennas/"@ + antenna_id@,
            r.auth@ == "Bearer "@ + self.api_key@,
            r.body is None,
    {
        HttpRequest {
            method: Method::Get,
            url: self.path2("antennas/", antenna_id),
            auth: self.bearer(),
            body: None,
        }
    }

    /// POST a new antenna; bulk endpoint, single-element array.
    pub fn create_antenna_request(&self, antenna: &Antenna) -> (r: HttpRequest)
        ensures
            r.method == Method::Post,
            r.url@ == self.base_url@ + "antennas"@,
            r.auth@ == "Bearer "@ + self.api_key@,
            (r.body matches Some(j) && j matches Json::Arr(items) && items@.len() == 1
                && antenna_from_json(items@[0]) == Some(*antenna)),
    {
        let mut items: Vec<Json> = Vec::new();
        items.push(antenna.to_json());
        HttpRequest {
            method: Method::Post,
            url: self.path1("antennas"),
            auth: self.bearer(),
            body: Some(Json::Arr(items)),
        }
    }

    /// PUT a full antenna update; bulk endpoint, single-element array.
    pub fn update_antenna_request(&self, antenna: &Antenna) -> (r: HttpRequest)
        ensures
            r.method == Method::Put,
            r.url@ == self.base_url@ + "antennas"@,
            r.auth@ == "Bearer "@ + self.api_key@,
            (r.body matches Some(j) && j matches Json::Arr(items) && items@.len() == 1
                && antenna_from_json(items@[0]) == Some(*antenna)),
    {
        let mut items: Vec<Json> = Vec::new();
        items.push(antenna.to_json());
        HttpRequest {
            method: Method::Put,
            url: self.path1("antennas"),
            auth: self.bearer(),
            body: Some(Json::Arr(items)),
        }
    }

    /// DELETE one antenna; bulk endpoint, array of ids.
    pub fn delete_antenna_request(&self, antenna_id: &str) -> (r: HttpRequest)
        ensures
            r.method == Method::Delete,
            r.url@ == self.base_url@ + "antennas"@,
            r.auth@ == "Bearer "@ + self.api_key@,
            (r.body matches Some(j) && j matches Json::Arr(items) && items@[0] matches Json::Str(
                s,
            ) && items@.len() == 1 && s@ == antenna_id@),
    {
        let mut items: Vec<Json> = Vec::new();
        items.push(Json::Str(String::from_str(antenna_id)));
        HttpRequest {
            method: Method::Delete,
            url: self.path1("antennas"),
            auth: self.bearer(),
            body: Some(Json::Arr(items)),
        }
    }

    /// GET the tasks of one antenna.
    pub fn list_tasks_for_antenna_request(&self, antenna_id: &str) -> (r: HttpRequest)
        ensures
            r.method == Method::Get,
            r.url@ == self.base_url@ + "antennas/"@ + antenna_id@ + "/tasks"@,
            r.auth@ == "Bearer "@ + self.api_key@,
            r.body is None,
    {
        HttpRequest {
            method: Method::Get,
            url: self.path3("antennas/", antenna_id, "/tasks"),
            auth: self.bearer(),
            body: None,
        }
    }

    /// GET the tasks of one antenna filtered by status; parameters as in
    /// `get_telescope_tasks_by_status_request`.
    pub fn get_antenna_tasks_by_status_request(
        &self,
        antenna_id: &str,
        statuses: &Vec<TaskStatus>,
    ) -> (r: HttpRequest)
        ensures
            r.method == Method::Get,
            r.url@ == self.base_url@ + "antennas/"@ + antenna_id@ + "/tasks"@ + query_string(
                statuses_params(statuses@),
            ),
            r.auth@ == "Bearer "@ + self.api_key@,
            r.body is None,
    {
        let mut url = self.path3("antennas/", antenna_id, "/tasks");
        let q = render_statuses(statuses);
        url.append(q.as_str());
        HttpRequest { method: Method::Get, url, auth: self.bearer(), body: None }
    }

    // -----------------------------------------------------------------
    // Radio-frequency captures
    // -----------------------------------------------------------------
    /// POST a new capture.
    pub fn create_rf_capture_request(&self, rf_capture_request: &CreateRFCaptureRequest) -> (r:
        HttpRequest)
        ensures
            r.method == Method::Post,
            r.url@ == self.base_url@ + "rf-captures"@,
            r.auth@ == "Bearer "@ + self.api_key@,
            (r.body matches Some(j) && create_rf_capture_request_decodes_to(
                j,
                *rf_capture_request,
            )),
    {
        HttpRequest {
            method: Method::Post,
            url: self.path1("rf-captures"),
            auth: self.bearer(),
            body: Some(rf_capture_request.to_json()),
        }
    }

    /// GET one capture by id.
    pub fn get_rf_capture_request(&self, rf_capture_id: &str) -> (r: HttpRequest)
        ensures
            r.method == Method::Get,
            r.url@ == self.base_url@ + "rf-captures/"@ + rf_capture_id@,
            r.auth@ == "Bearer "@ + self.api_key@,
            r.body is None,
    {
        HttpRequest {
            method: Method::Get,
            url: self.path2("rf-captures/", rf_capture_id),
            auth: self.bearer(),
            body: None,
        }
    }

    /// GET the capture summaries of one antenna.
    pub fn list_rf_captures_for_antenna_request(&self, antenna_id: &str) -> (r: HttpRequest)
        ensures
            r.method == Method::Get,
            r.url@ == self.base_url@ + "antennas/"@ + antenna_id@ + "/rf-captures"@,
            r.auth@ == "Bearer "@ + self.api_key@,
            r.body is None,
    {
        HttpRequest {
            method: Method::Get,
            url: self.path3("antennas/", antenna_id, "/rf-captures"),
            auth: self.bearer(),
            body: None,
        }
    }

    /// GET the capture summaries of one task.
    pub fn list_rf_captures_for_task_request(&self, task_id: &str) -> (r: HttpRequest)
        ensures
            r.method == Method::Get,
            r.url@ == self.base_url@ + "tasks/"@ + task_id@ + "/rf-captures"@,
            r.auth@ == "Bearer "@ + self.api_key@,
            r.body is None,
    {
        HttpRequest {
            method: Method::Get,
            url: self.path3("tasks/", task_id, "/rf-captures"),
            auth: self.bearer(),
            body: None,
        }
    }
}

/// Renders the status filter as a query string.
fn render_statuses(statuses: &Vec<TaskStatus>) -> (s: String)
    ensures
        s@ == query_string(statuses_params(statuses@)),
{
    let mut ps: Vec<(String, String)> = Vec::new();
    let mut i: usize = 0;
    while i < statuses.len()
        invariant
            i <= statuses@.len(),
            params_view(ps@) == statuses_params(statuses@.take(i as int)),
        decreases statuses@.len() - i,
    {
        push_param(&mut ps, "statuses", statuses[i].wire_name());
        proof {
            assert(statuses_params(statuses@.take(i + 1)) =~= statuses_params(
                statuses@.take(i as int),
            ) + seq![("statuses"@, task_status_wire(statuses@[i as int]))]);
            assert(params_view(ps@) =~= statuses_params(statuses@.take(i + 1)));
        }
        i += 1;
    }
    proof {
        assert(statuses@.take(statuses@.len() as int) =~= statuses@);
    }
    render_query(&ps)
}

// ---------------------------------------------------------------------------
// Response helpers
// ---------------------------------------------------------------------------
/// The ground-station list as the service nests it, under a
/// `groundStations` key.
pub open spec fn groundstation_list_from_json(j: Json) -> Option<Seq<Groundstation>> {
    match j {
        Json::Obj(fields) => match obj_get(obj_view(fields@), "groundStations"@) {
            Some(a) => groundstation_vec_from_json(a),
            None => None,
        },
        _ => None,
    }
}

/// Decodes the nested ground-station list response.
pub fn groundstations_from_list_response(j: &Json) -> (r: Option<Vec<Groundstation>>)
    ensures
        opt_vec_view(r) == groundstation_list_from_json(*j),
{
    match j {
        Json::Obj(fields) => {
            match get_json(fields, "groundStations") {
                Some(a) => crate::entities::groundstation::groundstations_from_json(a),
                None => None,
            }
        },
        _ => None,
    }
}

/// The single element of a batch-of-one response. The remote contract
/// guarantees at least one element; a caller that cannot establish this
/// must treat an empty batch as an unrecoverable error rather than invent
/// a value.
pub fn first_of<T>(v: Vec<T>) -> (r: T)
    requires
        v@.len() >= 1,
    ensures
        r == v@[0],
{
    let mut v = v;
    v.remove(0)
}

/// A batch-of-one telescope body decodes back to exactly the one wrapped
/// value: wrapping on the way out and unwrapping on the way back is the
/// identity.
pub proof fn lemma_batch_of_one_telescope(t: Telescope, j: Json)
    requires
        j matches Json::Arr(items) && items@.len() == 1 && telescope_from_json(items@[0])
            == Some(t),
    ensures
        telescope_vec_from_json(j) == Some(seq![t]),
        telescope_vec_from_json(j).unwrap()[0] == t,
{
    let items = j->Arr_0;
    assert(items@.drop_last() =~= Seq::<Json>::empty());
    assert(items@.last() == items@[0]);
    assert(crate::entities::telescope::telescopes_from_arr(Seq::<Json>::empty()) == Some(
        Seq::<Telescope>::empty(),
    ));
    assert(crate::entities::telescope::telescopes_from_arr(items@) == Some(
        Seq::<Telescope>::empty() + seq![t],
    ));
    assert(Seq::<Telescope>::empty() + seq![t] =~= seq![t]);
}


/// A batch-of-one ground-station reply decodes back to exactly the one
/// carried value.
pub proof fn lemma_batch_of_one_groundstation(g: Groundstation, j: Json)
    requires
        j matches Json::Arr(items) && items@.len() == 1 && groundstation_from_json(items@[0])
            == Some(g),
    ensures
        groundstation_vec_from_json(j) == Some(seq![g]),
        groundstation_vec_from_json(j).unwrap()[0] == g,
{
    let items = j->Arr_0;
    assert(items@.drop_last() =~= Seq::<Json>::empty());
    assert(items@.last() == items@[0]);
    assert(crate::entities::groundstation::groundstations_from_arr(Seq::<Json>::empty()) == Some(
        Seq::<Groundstation>::empty(),
    ));
    assert(crate::entities::groundstation::groundstations_from_arr(items@) == Some(
        Seq::<Groundstation>::empty() + seq![g],
    ));
    assert(Seq::<Groundstation>::empty() + seq![g] =~= seq![g]);
}

} // verus!
