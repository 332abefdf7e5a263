use vstd::prelude::*;

verus! {

/// A stored model as the asset store hands it out: raw payload bytes.
pub struct ModelData {
    pub id: i32,
    pub name: Option<String>,
    pub model_data: Vec<u8>,
}

/// A model as it travels on the wire: the payload is base64 text.
pub struct ModelResponse {
    pub id: i32,
    pub name: Option<String>,
    pub model_data: String,
}

/// The mathematical value of a wire record: id, name and payload text.
pub type RecordView = (int, Option<Seq<char>>, Seq<char>);

/// The view of an optional string.
pub open spec fn opt_view(s: Option<String>) -> Option<Seq<char>> {
    match s {
        Some(t) => Some(t@),
        None => None,
    }
}

impl View for ModelResponse {
    type V = RecordView;

    open spec fn view(&self) -> RecordView {
        (self.id as int, opt_view(self.name), self.model_data@)
    }
}

/// The views of a list of wire records, in order.
pub open spec fn views_of(rs: Seq<ModelResponse>) -> Seq<RecordView> {
    rs.map_values(|r: ModelResponse| r@)
}

/// Whether two optional strings hold the same text.
pub fn same_name(a: &Option<String>, b: &Option<String>) -> (r: bool)
    ensures
        r == (opt_view(*a) == opt_view(*b)),
{
    match (a, b) {
        (Some(x), Some(y)) => x.eq(y),
        (None, None) => true,
        _ => false,
    }
}

/// Structural equality of two wire records.
pub fn same_record(a: &ModelResponse, b: &ModelResponse) -> (r: bool)
    ensures
        r == (a@ == b@),
{
    a.id == b.id && same_name(&a.name, &b.name) && a.model_data == b.model_data
}

/// A copy of an optional string.
pub fn copy_name(a: &Option<String>) -> (r: Option<String>)
    ensures
        opt_view(r) == opt_view(*a),
{
    match a {
        Some(x) => Some(x.clone()),
        None => None,
    }
}

/// A copy of a wire record.
pub fn copy_record(a: &ModelResponse) -> (r: ModelResponse)
    ensures
        r@ == a@,
{
    ModelResponse { id: a.id, name: copy_name(&a.name), model_data: a.model_data.clone() }
}

} // verus!
