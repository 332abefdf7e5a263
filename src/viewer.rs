use vstd::prelude::*;
use vstd::string::{StrSliceExecFns, StringExecFns};
use crate::codec::{decode_payload, decoded};
use crate::record::{ModelResponse, RecordView, copy_name, opt_view, views_of};

verus! {

/// A model as a viewer keeps it: id, raw payload and name.
pub struct ViewerModel {
    pub id: i32,
    pub model_data: Vec<u8>,
    pub name: Option<String>,
}

pub type ViewerModelView = (int, Seq<u8>, Option<Seq<char>>);

impl View for ViewerModel {
    type V = ViewerModelView;

    open spec fn view(&self) -> ViewerModelView {
        (self.id as int, self.model_data@, opt_view(self.name))
    }
}

/// The views of a list of viewer models, in order.
pub open spec fn viewer_views(ms: Seq<ViewerModel>) -> Seq<ViewerModelView> {
    ms.map_values(|m: ViewerModel| m@)
}

/// The models of a broadcast list whose payload text decodes, in order, with
/// their payloads decoded; a record whose payload does not decode is left out.
pub open spec fn decoded_models(rs: Seq<RecordView>) -> Seq<ViewerModelView>
    decreases rs.len(),
{
    if rs.len() == 0 {
        Seq::empty()
    } else {
        let prev = decoded_models(rs.drop_last());
        let r = rs.last();
        match decoded(r.2) {
            Some(b) => prev.push((r.0, b, r.1)),
            None => prev,
        }
    }
}

/// The models that a viewer shows after receiving a broadcast list.
pub fn models_from_list(list: &Vec<ModelResponse>) -> (r: Vec<ViewerModel>)
    ensures
        viewer_views(r@) == decoded_models(views_of(list@)),
{
    let mut r: Vec<ViewerModel> = Vec::new();
    let mut i: usize = 0;
    while i < list.len()
        invariant
            i <= list@.len(),
            viewer_views(r@) == decoded_models(views_of(list@).subrange(0, i as int)),
        decreases list@.len() - i,
    {
        let ghost pre = views_of(list@).subrange(0, i as int);
        let ghost next = views_of(list@).subrange(0, i + 1);
        assert(next.drop_last() =~= pre);
        let rec = &list[i];
        match decode_payload(&rec.model_data) {
            Ok(bytes) => {
                let m = ViewerModel { id: rec.id, model_data: bytes, name: copy_name(&rec.name) };
                let ghost prev = r@;
                r.push(m);
                assert(viewer_views(r@) =~= viewer_views(prev).push(m@));
            },
            Err(_) => {},
        }
        i = i + 1;
    }
    assert(views_of(list@).subrange(0, i as int) =~= views_of(list@));
    r
}

/// A list of ids as integers.
pub open spec fn int_ids(s: Seq<i32>) -> Seq<int> {
    s.map_values(|x: i32| x as int)
}

/// The ids of the models to show: all of them, or only the selected one.
pub open spec fn visible(ms: Seq<ViewerModelView>, selected: Option<int>) -> Seq<int>
    decreases ms.len(),
{
    if ms.len() == 0 {
        Seq::empty()
    } else {
        let prev = visible(ms.drop_last(), selected);
        let id = ms.last().0;
        match selected {
            Some(s) => if id == s {
                prev.push(id)
            } else {
                prev
            },
            None => prev.push(id),
        }
    }
}

/// The ids of the models to show, in list order.
pub fn visible_ids(ms: &Vec<ViewerModel>, selected: Option<i32>) -> (r: Vec<i32>)
    ensures
        int_ids(r@) == visible(
            viewer_views(ms@),
            match selected {
                Some(s) => Some(s as int),
                None => None,
            },
        ),
{
    let ghost sel = match selected {
        Some(s) => Some(s as int),
        None => None::<int>,
    };
    let mut r: Vec<i32> = Vec::new();
    let mut i: usize = 0;
    while i < ms.len()
        invariant
            i <= ms@.len(),
            sel == match selected {
                Some(s) => Some(s as int),
                None => None::<int>,
            },
            int_ids(r@) == visible(
                viewer_views(ms@).subrange(0, i as int),
                sel,
            ),
        decreases ms@.len() - i,
    {
        let ghost pre = viewer_views(ms@).subrange(0, i as int);
        let ghost next = viewer_views(ms@).subrange(0, i + 1);
        assert(next.drop_last() =~= pre);
        let id = ms[i].id;
        let keep = match selected {
            Some(s) => id == s,
            None => true,
        };
        if keep {
            let ghost prev = r@;
            r.push(id);
            assert(int_ids(r@) =~= int_ids(prev).push(id as int));
        }
        i = i + 1;
    }
    assert(viewer_views(ms@).subrange(0, i as int) =~= viewer_views(ms@));
    r
}

/// Whether two id lists are equal.
fn same_ids(a: &Vec<i32>, b: &Vec<i32>) -> (r: bool)
    ensures
        r == (a@ == b@),
{
    if a.len() != b.len() {
        return false;
    }
    let mut i: usize = 0;
    while i < a.len()
        invariant
            i <= a@.len(),
            a@.len() == b@.len(),
            forall|j: int| 0 <= j < i ==> a@[j] == b@[j],
        decreases a@.len() - i,
    {
        if a[i] != b[i] {
            return false;
        }
        i = i + 1;
    }
    assert(a@ =~= b@);
    true
}

/// Whether the shown scene must be rebuilt: the selection changed since the
/// last rebuild, or the shown ids differ from those that should be shown.
pub fn needs_refresh(
    last_selected: Option<i32>,
    selected: Option<i32>,
    shown: &Vec<i32>,
    ms: &Vec<ViewerModel>,
) -> (r: bool)
    ensures
        r == (last_selected != selected || int_ids(shown@) != visible(
            viewer_views(ms@),
            match selected {
                Some(s) => Some(s as int),
                None => None,
            },
        )),
{
    let changed = match (last_selected, selected) {
        (Some(a), Some(b)) => a != b,
        (None, None) => false,
        _ => true,
    };
    let want = visible_ids(ms, selected);
    let same = same_ids(shown, &want);
    proof {
        if int_ids(shown@) == int_ids(want@) {
            assert(shown@.len() == int_ids(shown@).len());
            assert(want@.len() == int_ids(want@).len());
            assert forall|j: int| 0 <= j < shown@.len() implies shown@[j] == want@[j] by {
                assert(int_ids(shown@)[j] == shown@[j] as int);
                assert(int_ids(want@)[j] == want@[j] as int);
            }
            assert(shown@ =~= want@);
        }
    }
    changed || !same
}

/// The name under which an uploaded file is stored: its file name without a
/// trailing `.gltf`, or none for a file of any other kind.
pub open spec fn upload_name_of(f: Seq<char>) -> Option<Seq<char>> {
    let ext = ".gltf"@;
    if ext.len() <= f.len() && f.subrange(f.len() - ext.len(), f.len() as int) == ext {
        Some(f.subrange(0, f.len() - ext.len()))
    } else {
        None
    }
}

/// The name to send with an uploaded file.
pub fn upload_name(file_name: &str) -> (r: Option<String>)
    ensures
        opt_view(r) == upload_name_of(file_name@),
{
    let ext = ".gltf";
    proof {
        reveal_strlit(".gltf");
    }
    let n = file_name.unicode_len();
    let k = ext.unicode_len();
    if n < k {
        return None;
    }
    let mut i: usize = 0;
    while i < k
        invariant
            ext@ == ".gltf"@,
            k == ext@.len(),
            k <= n,
            n == file_name@.len(),
            i <= k,
            forall|j: int| 0 <= j < i ==> file_name@[n - k + j] == ext@[j],
        decreases k - i,
    {
        if file_name.get_char(n - k + i) != ext.get_char(i) {
            assert(file_name@.subrange(n - k, n as int)[i as int] != ext@[i as int]);
            return None;
        }
        i = i + 1;
    }
    assert(file_name@.subrange(n - k, n as int) =~= ext@);
    Some(String::from_str(file_name.substring_char(0, n - k)))
}

} // verus!
