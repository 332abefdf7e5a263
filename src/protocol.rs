use vstd::prelude::*;
use vstd::string::StringExecFns;
use crate::codec::{decode_payload, decoded, encode_record, encoded_view};
use crate::record::{ModelData, ModelResponse, RecordView, opt_view, views_of};

verus! {

/// A client request as it arrives on the wire.
pub struct ModelRequest {
    /// One of `get_by_id`, `get_all` or `insert`; anything else is ignored.
    pub action: String,
    pub id: Option<i32>,
    pub name: Option<String>,
    /// Base64 text of the payload, for `insert`.
    pub model_data: Option<String>,
}

/// A failure of the asset store, with the store's own description.
pub enum StoreError {
    /// No record has the requested id.
    NotFound(String),
    /// The store could not be read or written.
    Unavailable(String),
}

impl StoreError {
    pub open spec fn detail_view(&self) -> Seq<char> {
        match self {
            StoreError::NotFound(d) => d@,
            StoreError::Unavailable(d) => d@,
        }
    }

    /// The store's description of the failure.
    pub fn detail(&self) -> (r: &String)
        ensures
            r@ == self.detail_view(),
    {
        match self {
            StoreError::NotFound(d) => d,
            StoreError::Unavailable(d) => d,
        }
    }
}

/// A reply sent to the client that made a request.
pub enum Response {
    Record(ModelResponse),
    List(Vec<ModelResponse>),
    Error(String),
}

pub enum ResponseView {
    Record(RecordView),
    List(Seq<RecordView>),
    Error(Seq<char>),
}

impl View for Response {
    type V = ResponseView;

    open spec fn view(&self) -> ResponseView {
        match self {
            Response::Record(r) => ResponseView::Record(r@),
            Response::List(rs) => ResponseView::List(views_of(rs@)),
            Response::Error(m) => ResponseView::Error(m@),
        }
    }
}

/// What the connection has to do next to serve a request.
pub enum Plan {
    /// Read the record with this id from the store, then `respond_lookup`.
    Lookup(i32),
    /// Read every record from the store, then `respond_list`.
    ListAll,
    /// Insert the decoded payload under the name, then `respond_insert` with
    /// the name and the payload text.
    Store { name: Option<String>, payload: Vec<u8>, encoded: String },
    /// Send this reply at once; the store is not touched.
    Reply(Response),
    /// Send nothing.
    Ignore,
}

pub enum PlanView {
    Lookup(int),
    ListAll,
    Store(Option<Seq<char>>, Seq<u8>, Seq<char>),
    Reply(ResponseView),
    Ignore,
}

impl View for Plan {
    type V = PlanView;

    open spec fn view(&self) -> PlanView {
        match self {
            Plan::Lookup(i) => PlanView::Lookup(*i as int),
            Plan::ListAll => PlanView::ListAll,
            Plan::Store { name, payload, encoded } => PlanView::Store(
                opt_view(*name),
                payload@,
                encoded@,
            ),
            Plan::Reply(r) => PlanView::Reply(r@),
            Plan::Ignore => PlanView::Ignore,
        }
    }
}

/// Whether `t` begins with `p`.
pub open spec fn starts_with(t: Seq<char>, p: Seq<char>) -> bool {
    p.len() <= t.len() && t.subrange(0, p.len() as int) == p
}

/// What serving `req` takes. `get_by_id` with an id reads that record, and
/// `get_all` reads the whole list. `insert` with a payload that decodes stores
/// the decoded bytes under the given name; with one that does not, it is
/// answered with an error naming the decoding failure. A request that lacks
/// the field its action needs is answered with an error. Any other action is
/// ignored.
pub open spec fn plan_fits(req: ModelRequest, p: PlanView) -> bool {
    let a = req.action@;
    if a == "get_by_id"@ {
        match req.id {
            Some(i) => p == PlanView::Lookup(i as int),
            None => p == PlanView::Reply(ResponseView::Error("Missing id"@)),
        }
    } else if a == "get_all"@ {
        p == PlanView::ListAll
    } else if a == "insert"@ {
        match req.model_data {
            None => p == PlanView::Reply(ResponseView::Error("Missing model data"@)),
            Some(s) => match decoded(s@) {
                Some(b) => p == PlanView::Store(opt_view(req.name), b, s@),
                None => p matches PlanView::Reply(ResponseView::Error(m)) && starts_with(
                    m,
                    "Invalid base64 data: "@,
                ),
            },
        }
    } else {
        p == PlanView::Ignore
    }
}

/// A string holding `prefix` followed by `detail`.
fn message(prefix: &str, detail: &String) -> (r: String)
    ensures
        r@ == prefix@ + detail@,
{
    let mut s = String::from_str(prefix);
    s.append(detail.as_str());
    s
}

/// Decides how to serve one request.
pub fn plan_request(req: ModelRequest) -> (r: Plan)
    ensures
        plan_fits(req, r@),
{
    let ghost orig = req;
    if req.action.eq(&String::from_str("get_by_id")) {
        match req.id {
            Some(i) => Plan::Lookup(i),
            None => Plan::Reply(Response::Error(String::from_str("Missing id"))),
        }
    } else if req.action.eq(&String::from_str("get_all")) {
        Plan::ListAll
    } else if req.action.eq(&String::from_str("insert")) {
        match req.model_data {
            None => Plan::Reply(Response::Error(String::from_str("Missing model data"))),
            Some(s) => match decode_payload(&s) {
                Ok(payload) => Plan::Store { name: req.name, payload, encoded: s },
                Err(e) => {
                    let m = message("Invalid base64 data: ", &e.detail);
                    assert(m@.subrange(0, "Invalid base64 data: "@.len() as int)
                        =~= "Invalid base64 data: "@);
                    Plan::Reply(Response::Error(m))
                },
            },
        }
    } else {
        Plan::Ignore
    }
}

/// The reply to `get_by_id`, from what the store returned for that id.
pub fn respond_lookup(found: Result<ModelData, StoreError>) -> (r: Response)
    requires
        found matches Ok(m) ==> m.model_data@.len() <= isize::MAX,
    ensures
        match found {
            Ok(m) => r@ == ResponseView::Record(encoded_view(m)),
            Err(StoreError::NotFound(d)) => r@ == ResponseView::Error("Model not found: "@ + d@),
            Err(StoreError::Unavailable(d)) => r@ == ResponseView::Error(
                "Failed to load model: "@ + d@,
            ),
        },
{
    match found {
        Ok(m) => Response::Record(encode_record(&m)),
        Err(StoreError::NotFound(d)) => Response::Error(message("Model not found: ", &d)),
        Err(StoreError::Unavailable(d)) => Response::Error(message("Failed to load model: ", &d)),
    }
}

/// The wire forms of a list of stored records, in order.
pub open spec fn encoded_views(ms: Seq<ModelData>) -> Seq<RecordView> {
    ms.map_values(|m: ModelData| encoded_view(m))
}

/// Whether every payload of the list can be encoded.
pub open spec fn payloads_fit(ms: Seq<ModelData>) -> bool {
    forall|i: int| 0 <= i < ms.len() ==> (#[trigger] ms[i]).model_data@.len() <= isize::MAX
}

/// Encodes every record of a list, keeping the order.
pub fn encode_all(ms: &Vec<ModelData>) -> (r: Vec<ModelResponse>)
    requires
        payloads_fit(ms@),
    ensures
        views_of(r@) == encoded_views(ms@),
{
    let mut r: Vec<ModelResponse> = Vec::new();
    let mut i: usize = 0;
    while i < ms.len()
        invariant
            i <= ms@.len(),
            payloads_fit(ms@),
            views_of(r@) == encoded_views(ms@.subrange(0, i as int)),
        decreases ms@.len() - i,
    {
        let e = encode_record(&ms[i]);
        let ghost prev = r@;
        r.push(e);
        proof {
            assert(r@ == prev.push(e));
            assert(views_of(prev).len() == i);
            assert forall|j: int| 0 <= j < i + 1 implies views_of(r@)[j] == encoded_views(
                ms@.subrange(0, i + 1),
            )[j] by {
                if j < i {
                    assert(views_of(prev)[j] == encoded_views(ms@.subrange(0, i as int))[j]);
                }
            }
        }
        i = i + 1;
        assert(views_of(r@) =~= encoded_views(ms@.subrange(0, i as int)));
    }
    assert(ms@.subrange(0, i as int) =~= ms@);
    r
}

/// The reply to `get_all`, from what the store returned.
pub fn respond_list(all: Result<Vec<ModelData>, StoreError>) -> (r: Response)
    requires
        all matches Ok(ms) ==> payloads_fit(ms@),
    ensures
        match all {
            Ok(ms) => r@ == ResponseView::List(encoded_views(ms@)),
            Err(e) => r@ == ResponseView::Error("Failed to load models: "@ + e.detail_view()),
        },
{
    match all {
        Ok(ms) => Response::List(encode_all(&ms)),
        Err(e) => Response::Error(message("Failed to load models: ", e.detail())),
    }
}

/// The reply to `insert`, from the id that the store assigned. The new
/// record carries the name and the payload text of the request.
pub fn respond_insert(name: Option<String>, encoded: String, stored: Result<i32, StoreError>) -> (r:
    Response)
    ensures
        match stored {
            Ok(id) => r@ == ResponseView::Record((id as int, opt_view(name), encoded@)),
            Err(e) => r@ == ResponseView::Error("Failed to insert model: "@ + e.detail_view()),
        },
{
    match stored {
        Ok(id) => Response::Record(ModelResponse { id, name, model_data: encoded }),
        Err(e) => Response::Error(message("Failed to insert model: ", e.detail())),
    }
}

} // verus!
