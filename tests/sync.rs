use model_sync::codec::{decode_payload, encode_payload, encode_record};
use model_sync::connection::{Action, Inbound, Notice, Session};
use model_sync::differ::SnapshotDiffer;
use model_sync::protocol::{
    plan_request, respond_insert, respond_list, respond_lookup, ModelRequest, Plan, Response,
    StoreError,
};
use model_sync::record::{ModelData, ModelResponse};
use model_sync::viewer::{models_from_list, needs_refresh, upload_name, visible_ids, ViewerModel};

fn data(id: i32, name: Option<&str>, bytes: &[u8]) -> ModelData {
    ModelData { id, name: name.map(|n| n.to_string()), model_data: bytes.to_vec() }
}

fn wire(id: i32, name: Option<&str>, text: &str) -> ModelResponse {
    ModelResponse { id, name: name.map(|n| n.to_string()), model_data: text.to_string() }
}

fn request(action: &str, id: Option<i32>, name: Option<&str>, payload: Option<&str>) -> ModelRequest {
    ModelRequest {
        action: action.to_string(),
        id,
        name: name.map(|n| n.to_string()),
        model_data: payload.map(|p| p.to_string()),
    }
}

fn ids(rs: &[ModelResponse]) -> Vec<i32> {
    let mut v: Vec<i32> = rs.iter().map(|r| r.id).collect();
    v.sort();
    v
}

#[test]
fn encode_known_text() {
    assert_eq!(encode_payload(&b"hello".to_vec()), "aGVsbG8=");
    assert_eq!(encode_payload(&vec![]), "");
    assert_eq!(encode_payload(&vec![0xff, 0xfe, 0x00]), "//4A");
}

#[test]
fn round_trip_empty_and_binary() {
    for bytes in [vec![], vec![0u8], vec![0xff, 0xfe, 0x00, 0x80, 0x01], b"glTF model".to_vec()] {
        let text = encode_payload(&bytes);
        match decode_payload(&text) {
            Ok(back) => assert_eq!(back, bytes),
            Err(_) => panic!("round trip failed"),
        }
    }
}

#[test]
fn decode_rejects_bad_text() {
    assert!(decode_payload(&"abc".to_string()).is_err());
    assert!(decode_payload(&"aGVsbG8".to_string()).is_err());
    assert!(decode_payload(&"aGVsbG9=".to_string()).is_err());
    assert!(decode_payload(&"a*==".to_string()).is_err());
    assert!(!decode_payload(&"abc".to_string()).err().unwrap().detail.is_empty());
}

#[test]
fn encode_record_encodes_payload() {
    let r = encode_record(&data(3, Some("car"), b"hello"));
    assert_eq!(r.id, 3);
    assert_eq!(r.name.as_deref(), Some("car"));
    assert_eq!(r.model_data, "aGVsbG8=");
}

#[test]
fn plan_get_by_id() {
    assert!(matches!(plan_request(request("get_by_id", Some(7), None, None)), Plan::Lookup(7)));
    match plan_request(request("get_by_id", None, None, None)) {
        Plan::Reply(Response::Error(m)) => assert_eq!(m, "Missing id"),
        _ => panic!("expected an error reply"),
    }
}

#[test]
fn plan_get_all_and_unknown() {
    assert!(matches!(plan_request(request("get_all", None, None, None)), Plan::ListAll));
    assert!(matches!(plan_request(request("delete", Some(1), None, None)), Plan::Ignore));
    assert!(matches!(plan_request(request("", None, None, None)), Plan::Ignore));
    assert!(matches!(plan_request(request("GET_ALL", None, None, None)), Plan::Ignore));
}

#[test]
fn plan_insert() {
    match plan_request(request("insert", None, Some("car"), Some("aGVsbG8="))) {
        Plan::Store { name, payload, encoded } => {
            assert_eq!(name.as_deref(), Some("car"));
            assert_eq!(payload, b"hello".to_vec());
            assert_eq!(encoded, "aGVsbG8=");
        }
        _ => panic!("expected a store plan"),
    }
    match plan_request(request("insert", None, None, Some("not base64!"))) {
        Plan::Reply(Response::Error(m)) => {
            assert!(m.starts_with("Invalid base64 data: "));
            assert!(m.len() > "Invalid base64 data: ".len());
        }
        _ => panic!("expected an error reply"),
    }
    match plan_request(request("insert", None, Some("car"), None)) {
        Plan::Reply(Response::Error(m)) => assert_eq!(m, "Missing model data"),
        _ => panic!("expected an error reply"),
    }
}

#[test]
fn lookup_of_missing_id_is_an_error() {
    let r = respond_lookup(Err(StoreError::NotFound("Query returned no rows".to_string())));
    match r {
        Response::Error(m) => assert_eq!(m, "Model not found: Query returned no rows"),
        _ => panic!("expected an error reply"),
    }
    match respond_lookup(Err(StoreError::Unavailable("disk I/O error".to_string()))) {
        Response::Error(m) => assert_eq!(m, "Failed to load model: disk I/O error"),
        _ => panic!("expected an error reply"),
    }
}

#[test]
fn lookup_of_present_id() {
    match respond_lookup(Ok(data(1, Some("tree"), b"hello"))) {
        Response::Record(r) => {
            assert_eq!(r.id, 1);
            assert_eq!(r.name.as_deref(), Some("tree"));
            assert_eq!(r.model_data, "aGVsbG8=");
        }
        _ => panic!("expected a record"),
    }
}

#[test]
fn list_reply() {
    match respond_list(Ok(vec![data(1, Some("tree"), b"a"), data(2, None, b"bc")])) {
        Response::List(rs) => {
            assert_eq!(rs.len(), 2);
            assert_eq!(rs[0].model_data, "YQ==");
            assert_eq!(rs[1].id, 2);
            assert_eq!(rs[1].name, None);
            assert_eq!(rs[1].model_data, "YmM=");
        }
        _ => panic!("expected a list"),
    }
    match respond_list(Ok(vec![])) {
        Response::List(rs) => assert!(rs.is_empty()),
        _ => panic!("expected a list"),
    }
    match respond_list(Err(StoreError::Unavailable("locked".to_string()))) {
        Response::Error(m) => assert_eq!(m, "Failed to load models: locked"),
        _ => panic!("expected an error reply"),
    }
}

#[test]
fn insert_reply() {
    match respond_insert(Some("car".to_string()), "aGVsbG8=".to_string(), Ok(9)) {
        Response::Record(r) => {
            assert_eq!(r.id, 9);
            assert_eq!(r.name.as_deref(), Some("car"));
            assert_eq!(r.model_data, "aGVsbG8=");
        }
        _ => panic!("expected a record"),
    }
    match respond_insert(None, "YQ==".to_string(), Err(StoreError::Unavailable("full".to_string()))) {
        Response::Error(m) => assert_eq!(m, "Failed to insert model: full"),
        _ => panic!("expected an error reply"),
    }
}

#[test]
fn differ_starts_empty_and_ignores_empty_store() {
    let mut d = SnapshotDiffer::new();
    assert!(d.last_published().is_empty());
    assert!(d.poll(Ok(vec![])).is_none());
}

#[test]
fn identical_snapshot_is_published_once() {
    let mut d = SnapshotDiffer::new();
    let first = d.poll(Ok(vec![data(1, Some("tree"), b"x")]));
    assert_eq!(ids(&first.unwrap()), vec![1]);
    assert!(d.poll(Ok(vec![data(1, Some("tree"), b"x")])).is_none());
    assert!(d.poll(Ok(vec![data(1, Some("tree"), b"x")])).is_none());
}

#[test]
fn order_does_not_matter() {
    let mut d = SnapshotDiffer::new();
    assert!(d.poll(Ok(vec![data(1, None, b"a"), data(2, None, b"b")])).is_some());
    assert!(d.poll(Ok(vec![data(2, None, b"b"), data(1, None, b"a")])).is_none());
}

#[test]
fn content_change_on_same_id_is_published() {
    let mut d = SnapshotDiffer::new();
    assert!(d.poll(Ok(vec![data(1, Some("tree"), b"a")])).is_some());
    let renamed = d.poll(Ok(vec![data(1, Some("oak"), b"a")])).unwrap();
    assert_eq!(renamed[0].name.as_deref(), Some("oak"));
    let edited = d.poll(Ok(vec![data(1, Some("oak"), b"b")])).unwrap();
    assert_eq!(edited[0].model_data, "Yg==");
}

#[test]
fn failed_read_keeps_snapshot() {
    let mut d = SnapshotDiffer::new();
    assert!(d.poll(Ok(vec![data(1, None, b"a")])).is_some());
    assert!(d.poll(Err(StoreError::Unavailable("busy".to_string()))).is_none());
    assert_eq!(ids(&d.last_published()), vec![1]);
    assert!(d.poll(Ok(vec![data(1, None, b"a")])).is_none());
    let cleared = d.poll(Ok(vec![])).unwrap();
    assert!(cleared.is_empty());
}

#[test]
fn scenario_client_sees_other_clients_insert() {
    let tree = data(1, Some("tree"), b"tree bytes");
    let mut d = SnapshotDiffer::new();
    assert!(d.poll(Ok(vec![data(1, Some("tree"), b"tree bytes")])).is_some());

    // Client A asks for everything.
    let mut a = Session::new();
    let text = r#"{"action":"get_all"}"#.to_string();
    assert!(matches!(a.on_frame(Inbound::Text(text)), Action::Serve(_)));
    match respond_list(Ok(vec![tree])) {
        Response::List(rs) => {
            assert_eq!(rs.len(), 1);
            assert_eq!(rs[0].id, 1);
            assert_eq!(rs[0].name.as_deref(), Some("tree"));
            assert_eq!(rs[0].model_data, encode_payload(&b"tree bytes".to_vec()));
        }
        _ => panic!("expected a list"),
    }

    // Client B inserts a car; the store gives it id 2.
    let car_text = encode_payload(&vec![0u8, 1, 2, 250]);
    let (name, payload, encoded) =
        match plan_request(request("insert", None, Some("car"), Some(&car_text))) {
            Plan::Store { name, payload, encoded } => (name, payload, encoded),
            _ => panic!("expected a store plan"),
        };
    assert_eq!(payload, vec![0u8, 1, 2, 250]);
    assert!(matches!(respond_insert(name, encoded, Ok(2)), Response::Record(ref r) if r.id == 2));

    // The next poll broadcasts both records, and A forwards them unasked.
    let update = d
        .poll(Ok(vec![data(1, Some("tree"), b"tree bytes"), data(2, Some("car"), &[0, 1, 2, 250])]))
        .unwrap();
    assert_eq!(ids(&update), vec![1, 2]);
    assert!(update.iter().any(|r| r.name.as_deref() == Some("car") && r.model_data == car_text));
    match a.on_notice(Notice::Update("both".to_string())) {
        Action::Forward(t) => assert_eq!(t, "both"),
        _ => panic!("expected a forward"),
    }
}

#[test]
fn session_frames() {
    let mut s = Session::new();
    assert!(s.is_open());
    match s.on_frame(Inbound::Ping(vec![1, 2])) {
        Action::Pong(d) => assert_eq!(d, vec![1, 2]),
        _ => panic!("expected a pong"),
    }
    assert!(matches!(s.on_frame(Inbound::Other), Action::Wait));
    assert!(matches!(s.on_notice(Notice::Missed), Action::Wait));
    assert!(s.is_open());
    assert!(matches!(s.on_frame(Inbound::Close), Action::Stop));
    assert!(!s.is_open());
    assert!(matches!(s.on_frame(Inbound::Text("x".to_string())), Action::Stop));
    assert!(matches!(s.on_notice(Notice::Update("x".to_string())), Action::Stop));
}

#[test]
fn session_ends_on_broken_transport_or_failed_write() {
    let mut s = Session::new();
    assert!(matches!(s.on_frame(Inbound::Broken), Action::Stop));
    assert!(!s.is_open());
    let mut t = Session::new();
    assert!(t.on_sent(true));
    assert!(!t.on_sent(false));
    assert!(!t.is_open());
    assert!(!t.on_sent(true));
}

#[test]
fn requests_are_answered_in_order() {
    let mut s = Session::new();
    let mut served = vec![];
    for text in ["first", "second"] {
        if let Action::Serve(t) = s.on_frame(Inbound::Text(text.to_string())) {
            served.push(t);
        }
    }
    assert_eq!(served, vec!["first".to_string(), "second".to_string()]);
    assert!(matches!(plan_request(request("get_by_id", Some(1), None, None)), Plan::Lookup(1)));
    assert!(matches!(plan_request(request("get_by_id", Some(2), None, None)), Plan::Lookup(2)));
}

#[test]
fn viewer_keeps_decodable_models() {
    let list = vec![wire(1, Some("tree"), "aGVsbG8="), wire(2, None, "bad!"), wire(3, None, "")];
    let ms = models_from_list(&list);
    assert_eq!(ms.len(), 2);
    assert_eq!(ms[0].id, 1);
    assert_eq!(ms[0].model_data, b"hello".to_vec());
    assert_eq!(ms[0].name.as_deref(), Some("tree"));
    assert_eq!(ms[1].id, 3);
    assert!(ms[1].model_data.is_empty());
}

#[test]
fn viewer_selection() {
    let ms = vec![
        ViewerModel { id: 1, model_data: vec![1], name: None },
        ViewerModel { id: 2, model_data: vec![2], name: None },
    ];
    assert_eq!(visible_ids(&ms, None), vec![1, 2]);
    assert_eq!(visible_ids(&ms, Some(2)), vec![2]);
    assert_eq!(visible_ids(&ms, Some(5)), Vec::<i32>::new());
    assert!(!needs_refresh(None, None, &vec![1, 2], &ms));
    assert!(needs_refresh(None, None, &vec![1], &ms));
    assert!(needs_refresh(None, Some(2), &vec![2], &ms));
    assert!(!needs_refresh(Some(2), Some(2), &vec![2], &ms));
}

#[test]
fn upload_names() {
    assert_eq!(upload_name("bridge.gltf").as_deref(), Some("bridge"));
    assert_eq!(upload_name(".gltf").as_deref(), Some(""));
    assert_eq!(upload_name("bridge.glb"), None);
    assert_eq!(upload_name("gltf"), None);
    assert_eq!(upload_name("modèle.gltf").as_deref(), Some("modèle"));
}
