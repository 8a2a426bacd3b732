//! The outcome of one logical install or check step ("alias"): the labels of
//! the steps that succeeded and of those that failed, and its one-line text.
use vstd::prelude::*;

verus! {

/// `Installed` where no step failed; `NotInstalled` otherwise.
#[derive(Debug)]
pub enum Status {
    Installed { success: Vec<String> },
    NotInstalled { success: Vec<String>, fail: Vec<String> },
}

/// The debug form of a string: quoted, with special characters escaped.
pub uninterp spec fn debug_of(s: Seq<char>) -> Seq<char>;

/// The characters of each string.
pub open spec fn views(v: Seq<String>) -> Seq<Seq<char>> {
    v.map_values(|s: String| s@)
}

/// The items separated by `", "`.
pub open spec fn joined(items: Seq<Seq<char>>) -> Seq<char>
    decreases items.len(),
{
    if items.len() == 0 {
        Seq::empty()
    } else if items.len() == 1 {
        items[0]
    } else {
        joined(items.drop_last()) + ", "@ + items.last()
    }
}

/// The items, separated by `", "`, between square brackets.
pub open spec fn bracketed(items: Seq<Seq<char>>) -> Seq<char> {
    "["@ + joined(items) + "]"@
}

/// The debug form of a list of labels: `["a", "b"]`.
pub open spec fn list_text(labels: Seq<Seq<char>>) -> Seq<char> {
    bracketed(labels.map_values(|s: Seq<char>| debug_of(s)))
}

/// A variant name with the given fields; the name alone where there are none.
pub open spec fn record_text(name: Seq<char>, fields: Seq<Seq<char>>) -> Seq<char> {
    if fields.len() == 0 {
        name
    } else {
        name + " { "@ + joined(fields) + " }"@
    }
}

/// The field `name: [...]`, or none where the list is empty.
pub open spec fn field(name: Seq<char>, labels: Seq<Seq<char>>) -> Seq<Seq<char>> {
    if labels.len() == 0 {
        Seq::empty()
    } else {
        seq![name + ": "@ + list_text(labels)]
    }
}

/// The text of a status: its variant and its non-empty lists.
pub open spec fn status_text(st: Status) -> Seq<char> {
    match st {
        Status::Installed { success } => record_text(
            "Installed"@,
            field("success"@, views(success@)),
        ),
        Status::NotInstalled { success, fail } => record_text(
            "NotInstalled"@,
            field("success"@, views(success@)) + field("fail"@, views(fail@)),
        ),
    }
}

/// Relies on `String`'s `Debug`: the quoted, escaped form of the string,
/// which depends on its characters alone.
#[verifier::external_body]
fn debug_text(s: &String) -> (r: String)
    ensures
        r@ == debug_of(s@),
{
    format!("{:?}", s)
}

/// `items` separated by `", "`, between square brackets.
pub fn bracketed_list(items: &Vec<String>) -> (r: String)
    ensures
        r@ == bracketed(views(items@)),
{
    let mut out = "[".to_owned();
    let mut i: usize = 0;
    while i < items.len()
        invariant
            i <= items@.len(),
            out@ == "["@ + joined(views(items@.take(i as int))),
        decreases items@.len() - i,
    {
        proof {
            let next = views(items@.take(i + 1));
            assert(next.drop_last() =~= views(items@.take(i as int)));
            assert(next.last() == items@[i as int]@);
        }
        if i > 0 {
            out.append(", ");
        }
        out.append(items[i].as_str());
        i = i + 1;
    }
    assert(items@.take(i as int) =~= items@);
    out.append("]");
    out
}

/// The debug form of a list of labels.
fn list_of(labels: &Vec<String>) -> (r: String)
    ensures
        r@ == list_text(views(labels@)),
{
    let mut quoted: Vec<String> = Vec::new();
    let mut i: usize = 0;
    while i < labels.len()
        invariant
            i <= labels@.len(),
            quoted@.len() == i,
            forall|k: int| 0 <= k < i ==> quoted@[k]@ == debug_of(labels@[k]@),
        decreases labels@.len() - i,
    {
        let q = debug_text(&labels[i]);
        quoted.push(q);
        i = i + 1;
    }
    assert(views(quoted@) =~= views(labels@).map_values(|s: Seq<char>| debug_of(s)));
    bracketed_list(&quoted)
}

impl Status {
    /// `Installed` with the successes where `failure` is empty, else
    /// `NotInstalled` with both lists.
    pub fn new(success: Vec<String>, failure: Vec<String>) -> (r: Self)
        ensures
            failure@.len() == 0 ==> r == (Status::Installed { success }),
            failure@.len() > 0 ==> r == (Status::NotInstalled { success, fail: failure }),
    {
        if failure.is_empty() {
            Status::Installed { success }
        } else {
            Status::NotInstalled { success, fail: failure }
        }
    }

    /// Whether no step failed.
    pub fn is_installed(&self) -> (r: bool)
        ensures
            r == (self is Installed),
    {
        match self {
            Status::Installed { .. } => true,
            Status::NotInstalled { .. } => false,
        }
    }

    /// The one-line text of the status, `NotInstalled { success: ["a"], fail: ["b"] }`,
    /// where an empty list is left out.
    pub fn render(&self) -> (r: String)
        ensures
            r@ == status_text(*self),
    {
        match self {
            Status::Installed { success } => {
                let mut out = "Installed".to_owned();
                if !success.is_empty() {
                    let f = field_text("success", success);
                    out.append(" { ");
                    out.append(f.as_str());
                    out.append(" }");
                    proof {
                        let fs = field("success"@, views(success@));
                        assert(fs =~= seq![f@]);
                    }
                } else {
                    assert(field("success"@, views(success@)) =~= Seq::<Seq<char>>::empty());
                }
                out
            },
            Status::NotInstalled { success, fail } => {
                let mut out = "NotInstalled".to_owned();
                let ghost fs = field("success"@, views(success@));
                let ghost ff = field("fail"@, views(fail@));
                if success.is_empty() && fail.is_empty() {
                    assert(fs + ff =~= Seq::<Seq<char>>::empty());
                    return out;
                }
                out.append(" { ");
                if !success.is_empty() {
                    let f = field_text("success", success);
                    out.append(f.as_str());
                    if !fail.is_empty() {
                        let g = field_text("fail", fail);
                        out.append(", ");
                        out.append(g.as_str());
                        proof {
                            assert(fs + ff =~= seq![f@, g@]);
                            assert(seq![f@, g@].drop_last() =~= seq![f@]);
                            assert(joined(seq![f@]) == f@);
                            assert(seq![f@, g@].last() == g@);
                            assert(joined(fs + ff) == f@ + ", "@ + g@);
                            assert(out@ =~= "NotInstalled"@ + " { "@ + joined(fs + ff));
                        }
                    } else {
                        assert(fs + ff =~= seq![f@]);
                        assert(joined(fs + ff) == f@);
                    }
                } else {
                    let g = field_text("fail", fail);
                    out.append(g.as_str());
                    assert(fs + ff =~= seq![g@]);
                    assert(joined(fs + ff) == g@);
                }
                out.append(" }");
                out
            },
        }
    }
}

/// The field `name: [...]` of a non-empty list of labels.
fn field_text(name: &str, labels: &Vec<String>) -> (r: String)
    requires
        labels@.len() > 0,
    ensures
        seq![r@] == field(name@, views(labels@)),
{
    let mut out = name.to_owned();
    out.append(": ");
    let l = list_of(labels);
    out.append(l.as_str());
    out
}

} // verus!
