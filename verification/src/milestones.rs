//! Milestones: the entity, its open/closed state, the write-only shapes
//! used to create and patch one, and the exact wire rules for all of them.

use vstd::prelude::*;
use vstd::string::StringExecFns;
use crate::json::{
    Json, JsonV, get_opt_str_field, get_str_field, get_u32_field, json_escaped, opt_str_field,
    str_field, u32_field, views_of,
};
use crate::text::str_eq;
use crate::ResponseError;

verus! {

/// The state of a milestone.  On the wire it is exactly the string
/// `"open"` or `"closed"`; nothing else is accepted.
#[derive(Clone, Copy, Debug, PartialEq, Eq, Structural)]
pub enum State {
    Open,
    Closed,
}

/// The wire text of a state.
pub open spec fn state_text(st: State) -> Seq<char> {
    match st {
        State::Open => "open"@,
        State::Closed => "closed"@,
    }
}

/// What a state string deserializes to: exactly `"open"` or `"closed"`,
/// anything else is rejected.
pub open spec fn spec_state_of_text(s: Seq<char>) -> Option<State> {
    if s == "open"@ {
        Some(State::Open)
    } else if s == "closed"@ {
        Some(State::Closed)
    } else {
        None
    }
}

/// Serializing a state and reading it back yields the same state, and
/// the two states have distinct wire texts.
pub proof fn lemma_state_wire_round_trip(st: State)
    ensures
        spec_state_of_text(state_text(st)) == Some(st),
        state_text(State::Open) != state_text(State::Closed),
{
    reveal_strlit("open");
    reveal_strlit("closed");
    assert("open"@.len() != "closed"@.len());
}

impl State {
    /// Renders the exact wire text of this state.
    pub fn to_text(&self) -> (r: String)
        ensures
            r@ == state_text(*self),
    {
        match self {
            State::Open => String::from_str("open"),
            State::Closed => String::from_str("closed"),
        }
    }

    /// Parses the wire text of a state; `None` for anything but the exact
    /// strings `"open"` and `"closed"`.
    pub fn from_text(s: &str) -> (r: Option<State>)
        ensures
            r == spec_state_of_text(s@),
    {
        if str_eq(s, "open") {
            Some(State::Open)
        } else if str_eq(s, "closed") {
            Some(State::Closed)
        } else {
            None
        }
    }
}

/// A milestone as the API reports it.  `number` is the per-repository
/// identifier used in paths; `id` is the global one and never appears in
/// a path.
#[derive(Debug)]
pub struct Milestone {
    pub id: u32,
    pub number: u32,
    pub url: String,
    pub title: String,
    pub state: State,
    pub closed_at: Option<String>,
}

/// The mathematical image of a [`Milestone`].
pub struct MilestoneV {
    pub id: u32,
    pub number: u32,
    pub url: Seq<char>,
    pub title: Seq<char>,
    pub state: State,
    pub closed_at: Option<Seq<char>>,
}

impl View for Milestone {
    type V = MilestoneV;

    open spec fn view(&self) -> MilestoneV {
        MilestoneV {
            id: self.id,
            number: self.number,
            url: self.url@,
            title: self.title@,
            state: self.state,
            closed_at: match self.closed_at {
                Some(s) => Some(s@),
                None => None,
            },
        }
    }
}

impl Milestone {
    /// An owned copy with the same fields.
    pub fn duplicate(&self) -> (r: Milestone)
        ensures
            r@ == self@,
    {
        Milestone {
            id: self.id,
            number: self.number,
            url: self.url.clone(),
            title: self.title.clone(),
            state: self.state,
            closed_at: match &self.closed_at {
                Some(s) => Some(s.clone()),
                None => None,
            },
        }
    }
}

/// Whether `j` has the JSON shape of a milestone record: numeric `id`
/// and `number` fitting in `u32`, string `url` and `title`, a valid
/// `state` string, and a `closed_at` that is a string, `null`, or absent.
pub open spec fn is_milestone_json(j: JsonV) -> bool {
    &&& u32_field(j, "id"@) is Some
    &&& u32_field(j, "number"@) is Some
    &&& str_field(j, "url"@) is Some
    &&& str_field(j, "title"@) is Some
    &&& (match str_field(j, "state"@) {
        Some(st) => spec_state_of_text(st) is Some,
        None => false,
    })
    &&& opt_str_field(j, "closed_at"@) is Some
}

/// How a decoded milestone relates to its JSON record, field by field.
pub open spec fn milestone_matches_json(m: MilestoneV, j: JsonV) -> bool {
    &&& Some(m.id) == u32_field(j, "id"@)
    &&& Some(m.number) == u32_field(j, "number"@)
    &&& Some(m.url) == str_field(j, "url"@)
    &&& Some(m.title) == str_field(j, "title"@)
    &&& (match str_field(j, "state"@) {
        Some(st) => spec_state_of_text(st) == Some(m.state),
        None => false,
    })
    &&& Some(m.closed_at) == opt_str_field(j, "closed_at"@)
}

/// Decodes one milestone record; `None` exactly when the shape is wrong.
pub fn milestone_from_json(j: &Json) -> (r: Option<Milestone>)
    ensures
        (r matches Some(m) ==> is_milestone_json(j@) && milestone_matches_json(m@, j@)),
        (r is None ==> !is_milestone_json(j@)),
{
    let id = match get_u32_field(j, "id") {
        Some(x) => x,
        None => {
            return None;
        },
    };
    let number = match get_u32_field(j, "number") {
        Some(x) => x,
        None => {
            return None;
        },
    };
    let url = match get_str_field(j, "url") {
        Some(s) => s.clone(),
        None => {
            return None;
        },
    };
    let title = match get_str_field(j, "title") {
        Some(s) => s.clone(),
        None => {
            return None;
        },
    };
    let state = match get_str_field(j, "state") {
        Some(s) => match State::from_text(s.as_str()) {
            Some(st) => st,
            None => {
                return None;
            },
        },
        None => {
            return None;
        },
    };
    let closed_at = match get_opt_str_field(j, "closed_at") {
        Some(o) => o,
        None => {
            return None;
        },
    };
    Some(
        Milestone {
            id: id,
            number: number,
            url: url,
            title: title,
            state: state,
            closed_at: closed_at,
        },
    )
}

/// Whether `j` is a JSON array of milestone records.
pub open spec fn is_milestone_list_json(j: JsonV) -> bool {
    match j {
        JsonV::Arr(items) => forall|i: int|
            0 <= i < items.len() ==> is_milestone_json(#[trigger] items[i]),
        _ => false,
    }
}

/// Decodes an array of milestone records, in wire order; `None` exactly
/// when the document is not such an array.
pub fn milestones_from_json(j: &Json) -> (r: Option<Vec<Milestone>>)
    ensures
        (r matches Some(ms) ==> {
            &&& is_milestone_list_json(j@)
            &&& ms@.len() == j@->Arr_0.len()
            &&& (forall|i: int|
                0 <= i < ms@.len() ==> milestone_matches_json((#[trigger] ms@[i])@, j@->Arr_0[i]))
        }),
        (r is None ==> !is_milestone_list_json(j@)),
{
    match j {
        Json::Arr(items) => {
            let ghost gitems = views_of(items@);
            proof {
                assert(crate::json::json_view(*j)->Arr_0 =~= gitems);
                assert(j@ == JsonV::Arr(gitems));
            }
            let mut ms: Vec<Milestone> = Vec::new();
            let mut i: usize = 0;
            while i < items.len()
                invariant
                    *j == Json::Arr(*items),
                    gitems == views_of(items@),
                    j@ == JsonV::Arr(gitems),
                    gitems.len() == items@.len(),
                    i <= items@.len(),
                    ms@.len() == i,
                    forall|k: int| 0 <= k < i ==> is_milestone_json(#[trigger] gitems[k]),
                    forall|k: int|
                        0 <= k < i ==> milestone_matches_json((#[trigger] ms@[k])@, gitems[k]),
                decreases items@.len() - i,
            {
                proof {
                    assert(gitems[i as int] == crate::json::json_view(items@[i as int]));
                }
                match milestone_from_json(&items[i]) {
                    Some(m) => {
                        ms.push(m);
                    },
                    None => {
                        proof {
                            assert(0 <= (i as int) && (i as int) < gitems.len());
                            assert(!is_milestone_json(gitems[i as int]));
                            if is_milestone_list_json(j@) {
                                assert(is_milestone_json(j@->Arr_0[i as int]));
                            }
                        }
                        return None;
                    },
                }
                i = i + 1;
            }
            Some(ms)
        },
        _ => None,
    }
}

/// The write-only shape for creating a milestone: a required title and
/// three optional fields.  An absent field is left off the wire.
#[derive(Debug)]
pub struct MilestoneProperties {
    pub title: String,
    pub state: Option<State>,
    pub description: Option<String>,
    pub due_on: Option<String>,
}

/// The mathematical image of a [`MilestoneProperties`].
pub struct MilestonePropertiesV {
    pub title: Seq<char>,
    pub state: Option<State>,
    pub description: Option<Seq<char>>,
    pub due_on: Option<Seq<char>>,
}

impl View for MilestoneProperties {
    type V = MilestonePropertiesV;

    open spec fn view(&self) -> MilestonePropertiesV {
        MilestonePropertiesV {
            title: self.title@,
            state: self.state,
            description: match self.description {
                Some(s) => Some(s@),
                None => None,
            },
            due_on: match self.due_on {
                Some(s) => Some(s@),
                None => None,
            },
        }
    }
}

/// The write-only shape for a partial update: every field optional, and
/// only present fields are put on the wire, so an omitted field is left
/// unchanged by the server.
#[derive(Debug)]
pub struct MilestonePatch {
    pub title: Option<String>,
    pub state: Option<State>,
    pub description: Option<String>,
    pub due_on: Option<String>,
}

/// The mathematical image of a [`MilestonePatch`].
pub struct MilestonePatchV {
    pub title: Option<Seq<char>>,
    pub state: Option<State>,
    pub description: Option<Seq<char>>,
    pub due_on: Option<Seq<char>>,
}

impl View for MilestonePatch {
    type V = MilestonePatchV;

    open spec fn view(&self) -> MilestonePatchV {
        MilestonePatchV {
            title: match self.title {
                Some(s) => Some(s@),
                None => None,
            },
            state: self.state,
            description: match self.description {
                Some(s) => Some(s@),
                None => None,
            },
            due_on: match self.due_on {
                Some(s) => Some(s@),
                None => None,
            },
        }
    }
}

/// A string as it stands in a JSON document: quoted and escaped.
pub open spec fn quoted(s: Seq<char>) -> Seq<char> {
    "\""@ + json_escaped(s) + "\""@
}

/// A comma when an earlier field was already written, nothing otherwise.
pub open spec fn sep(prior: bool) -> Seq<char> {
    if prior {
        ","@
    } else {
        Seq::empty()
    }
}

/// The exact wire body of a creation request.
pub open spec fn spec_props_json(p: MilestonePropertiesV) -> Seq<char> {
    "{\"title\":"@ + quoted(p.title) + (match p.state {
        Some(st) => ",\"state\":"@ + quoted(state_text(st)),
        None => Seq::empty(),
    }) + (match p.description {
        Some(d) => ",\"description\":"@ + quoted(d),
        None => Seq::empty(),
    }) + (match p.due_on {
        Some(d) => ",\"due_on\":"@ + quoted(d),
        None => Seq::empty(),
    }) + "}"@
}

/// The exact wire body of a patch request: only the present fields, in
/// the order title, state, description, due date.
pub open spec fn spec_patch_json(p: MilestonePatchV) -> Seq<char> {
    let after_title = p.title is Some;
    let after_state = after_title || p.state is Some;
    let after_description = after_state || p.description is Some;
    "{"@ + (match p.title {
        Some(t) => "\"title\":"@ + quoted(t),
        None => Seq::empty(),
    }) + (match p.state {
        Some(st) => sep(after_title) + "\"state\":"@ + quoted(state_text(st)),
        None => Seq::empty(),
    }) + (match p.description {
        Some(d) => sep(after_state) + "\"description\":"@ + quoted(d),
        None => Seq::empty(),
    }) + (match p.due_on {
        Some(d) => sep(after_description) + "\"due_on\":"@ + quoted(d),
        None => Seq::empty(),
    }) + "}"@
}

/// Appends `s` as a quoted, escaped JSON string.
fn append_quoted(out: &mut String, s: &str)
    ensures
        final(out)@ == old(out)@ + quoted(s@),
{
    out.append("\"");
    let e = crate::json::escape_json_string(s);
    out.append(e.as_str());
    out.append("\"");
    proof {
        assert(out@ =~= old(out)@ + quoted(s@));
    }
}

/// Renders the exact creation body for `p`.
pub fn encode_milestone_properties(p: &MilestoneProperties) -> (r: String)
    ensures
        r@ == spec_props_json(p@),
{
    let mut out = String::from_str("{\"title\":");
    append_quoted(&mut out, p.title.as_str());
    match &p.state {
        Some(st) => {
            out.append(",\"state\":");
            let t = st.to_text();
            append_quoted(&mut out, t.as_str());
        },
        None => {},
    }
    match &p.description {
        Some(d) => {
            out.append(",\"description\":");
            append_quoted(&mut out, d.as_str());
        },
        None => {},
    }
    match &p.due_on {
        Some(d) => {
            out.append(",\"due_on\":");
            append_quoted(&mut out, d.as_str());
        },
        None => {},
    }
    out.append("}");
    proof {
        assert(out@ =~= spec_props_json(p@));
    }
    out
}

/// Renders the exact patch body for `p`.
#[verifier::rlimit(100)]
pub fn encode_milestone_patch(p: &MilestonePatch) -> (r: String)
    ensures
        r@ == spec_patch_json(p@),
{
    let mut out = String::from_str("{");
    let mut any = false;
    match &p.title {
        Some(t) => {
            out.append("\"title\":");
            append_quoted(&mut out, t.as_str());
            any = true;
        },
        None => {},
    }
    match &p.state {
        Some(st) => {
            if any {
                out.append(",");
            }
            out.append("\"state\":");
            let t = st.to_text();
            append_quoted(&mut out, t.as_str());
            any = true;
        },
        None => {},
    }
    match &p.description {
        Some(d) => {
            if any {
                out.append(",");
            }
            out.append("\"description\":");
            append_quoted(&mut out, d.as_str());
            any = true;
        },
        None => {},
    }
    match &p.due_on {
        Some(d) => {
            if any {
                out.append(",");
            }
            out.append("\"due_on\":");
            append_quoted(&mut out, d.as_str());
        },
        None => {},
    }
    out.append("}");
    proof {
        assert(out@ =~= spec_patch_json(p@));
    }
    out
}

/// Whether no character of `s` needs an escape inside a JSON string.
pub open spec fn no_escapes(s: Seq<char>) -> bool {
    forall|i: int|
        0 <= i < s.len() ==> (#[trigger] s[i]) != '"' && s[i] != '\\' && s[i] as u32 >= 0x20
}

/// A string without quotes, backslashes or control characters stands in
/// a JSON string exactly as it is.
pub proof fn lemma_plain_string_escapes_to_itself(s: Seq<char>)
    requires
        no_escapes(s),
    ensures
        crate::json::json_escaped(s) == s,
    decreases s.len(),
{
    if s.len() == 0 {
        assert(crate::json::json_escaped(s) =~= s);
    } else {
        assert(s[0] != '"' && s[0] != '\\' && s[0] as u32 >= 0x20);
        assert(forall|i: int|
            0 <= i < s.drop_first().len() ==> (#[trigger] s.drop_first()[i]) == s[i + 1]);
        lemma_plain_string_escapes_to_itself(s.drop_first());
        assert(crate::json::escape_char(s[0]) =~= seq![s[0]]);
        assert(crate::json::json_escaped(s) =~= s);
    }
}

/// The position of the first milestone titled `title`, or `-1`.
pub open spec fn spec_find_idx(ms: Seq<Milestone>, title: Seq<char>) -> int
    decreases ms.len(),
{
    if ms.len() == 0 {
        -1
    } else if ms[0]@.title == title {
        0
    } else {
        let rest = spec_find_idx(ms.drop_first(), title);
        if rest < 0 {
            -1
        } else {
            rest + 1
        }
    }
}

/// The first milestone titled `title`, if any.
pub open spec fn spec_find(ms: Seq<Milestone>, title: Seq<char>) -> Option<Milestone> {
    let i = spec_find_idx(ms, title);
    if i < 0 {
        None
    } else {
        Some(ms[i])
    }
}

/// The title scan finds exactly the first match: it fails precisely when
/// no milestone in the list bears the title, and a hit carries the title
/// looked for while everything before it does not.
pub proof fn lemma_find_by_title(ms: Seq<Milestone>, title: Seq<char>)
    ensures
        (spec_find_idx(ms, title) == -1 <==> (forall|k: int|
            0 <= k < ms.len() ==> (#[trigger] ms[k])@.title != title)),
        (spec_find_idx(ms, title) >= 0 ==> {
            let i = spec_find_idx(ms, title);
            &&& i < ms.len()
            &&& ms[i]@.title == title
            &&& (forall|k: int| 0 <= k < i ==> (#[trigger] ms[k])@.title != title)
        }),
    decreases ms.len(),
{
    if ms.len() == 0 {
    } else if ms[0]@.title == title {
    } else {
        lemma_find_by_title(ms.drop_first(), title);
        assert(forall|k: int|
            1 <= k < ms.len() ==> (#[trigger] ms[k])@ == ms.drop_first()[k - 1]@);
    }
}

/// The linear scan of the listing result: the first milestone whose
/// title equals `title` exactly, or [`ResponseError::NotFound`].
pub fn find_milestone_by_title(ms: &Vec<Milestone>, title: &str) -> (r: Result<
    Milestone,
    ResponseError,
>)
    ensures
        (match spec_find(ms@, title@) {
            Some(m) => r matches Ok(f) && f@ == m@,
            None => r matches Err(e) && e == ResponseError::NotFound,
        }),
{
    let mut i: usize = 0;
    while i < ms.len()
        invariant
            i <= ms@.len(),
            forall|k: int| 0 <= k < i ==> (#[trigger] ms@[k])@.title != title@,
        decreases ms@.len() - i,
    {
        if str_eq(ms[i].title.as_str(), title) {
            proof {
                lemma_find_by_title(ms@, title@);
                assert(spec_find_idx(ms@, title@) == i);
            }
            return Ok(ms[i].duplicate());
        }
        i = i + 1;
    }
    proof {
        lemma_find_by_title(ms@, title@);
    }
    Err(ResponseError::NotFound)
}

} // verus!
