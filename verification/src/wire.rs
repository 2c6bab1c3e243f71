use vstd::prelude::*;

verus! {

/// One member of a wire object: its name, and its text where the value is a string.
/// A member whose value is anything but a string has no text.
pub struct Member {
    pub name: String,
    pub text: Option<String>,
}

/// The model of a member.
pub type MemberModel = (Seq<char>, Option<Seq<char>>);

impl View for Member {
    type V = MemberModel;

    open spec fn view(&self) -> MemberModel {
        (
            self.name@,
            match self.text {
                Some(t) => Some(t@),
                None => None,
            },
        )
    }
}

/// The text of the first member called `name`, if there is such a member and it holds text.
pub open spec fn text_of(members: Seq<MemberModel>, name: Seq<char>) -> Option<Seq<char>>
    decreases members.len(),
{
    if members.len() == 0 {
        None
    } else if members[0].0 == name {
        members[0].1
    } else {
        text_of(members.drop_first(), name)
    }
}

/// What `serde_json` reads from a text as one JSON object: the members of the object, or
/// the parser's complaint when the text is no object.
pub uninterp spec fn json_object(text: Seq<char>) -> Result<Seq<MemberModel>, Seq<char>>;

/// What `serde_json` writes for the object that is filled with the given members in
/// order: its compact JSON text.
pub uninterp spec fn json_text(members: Seq<MemberModel>) -> Seq<char>;

/// Whether two texts are the same.
pub fn same_text(a: &str, b: &str) -> (r: bool)
    ensures
        r == (a@ == b@),
{
    let left = String::from_str(a);
    let right = String::from_str(b);
    left == right
}

/// A flat object as it travels on the wire: named members in order.
pub struct WireObject {
    pub members: Vec<Member>,
}

impl View for WireObject {
    type V = Seq<MemberModel>;

    open spec fn view(&self) -> Seq<MemberModel> {
        self.members@.map_values(|m: Member| m@)
    }
}

/// Reads a text with `serde_json::from_str` as a `serde_json::Map` and hands out each entry
/// of the map, in the map's order, as a `Member`: the key as its name, a string value as
/// its text. The contract gives the outcome its name and claims no more: `json_object` of
/// the text is the members, or the `to_string` of the error that `from_str` returned.
#[verifier::external_body]
fn parse_object(text: &str) -> (r: Result<WireObject, String>)
    ensures
        match r {
            Ok(object) => json_object(text@) == Ok::<Seq<MemberModel>, Seq<char>>(object@),
            Err(detail) => json_object(text@) == Err::<Seq<MemberModel>, Seq<char>>(detail@),
        },
{
    match serde_json::from_str::<serde_json::Map<String, serde_json::Value>>(text) {
        Ok(map) => {
            let mut members = Vec::new();
            for (name, value) in map {
                let text = match value {
                    serde_json::Value::String(s) => Some(s),
                    _ => None,
                };
                members.push(Member { name, text });
            }
            Ok(WireObject { members })
        },
        Err(e) => Err(e.to_string()),
    }
}

/// Puts the members in order into a `serde_json::Map` with `Map::insert`, a member
/// without text as `Value::Null`, and writes the map as a `serde_json::Value` with its
/// `to_string`. The contract gives the result its name and claims no more: `json_text`
/// of the members.
#[verifier::external_body]
fn print_object(object: &WireObject) -> (r: String)
    ensures
        r@ == json_text(object@),
{
    let mut map = serde_json::Map::new();
    for member in object.members.iter() {
        let value = match &member.text {
            Some(text) => serde_json::Value::String(text.clone()),
            None => serde_json::Value::Null,
        };
        map.insert(member.name.clone(), value);
    }
    serde_json::Value::Object(map).to_string()
}

impl WireObject {
    /// The object without members.
    pub fn new() -> (r: Self)
        ensures
            r@ == Seq::<MemberModel>::empty(),
    {
        let object = WireObject { members: Vec::new() };
        assert(object@ =~= Seq::<MemberModel>::empty());
        object
    }

    /// Appends a member that holds text.
    pub fn push_text(&mut self, name: &str, text: &str)
        ensures
            final(self)@ == old(self)@.push((name@, Some(text@))),
    {
        let member = Member { name: String::from_str(name), text: Some(String::from_str(text)) };
        self.members.push(member);
        assert(self@ =~= old(self)@.push((name@, Some(text@))));
    }

    /// The text of the first member called `name`.
    pub fn text(&self, name: &str) -> (r: Option<&String>)
        ensures
            match r {
                Some(t) => text_of(self@, name@) == Some(t@),
                None => text_of(self@, name@) is None,
            },
    {
        let mut i: usize = 0;
        assert(self@.skip(0) =~= self@);
        while i < self.members.len()
            invariant
                i <= self.members.len(),
                text_of(self@, name@) == text_of(self@.skip(i as int), name@),
            decreases self.members.len() - i,
        {
            let ghost rest = self@.skip(i as int);
            assert(rest[0] == self.members[i as int]@);
            assert(rest.drop_first() =~= self@.skip(i as int + 1));
            if same_text(self.members[i].name.as_str(), name) {
                return match &self.members[i].text {
                    Some(t) => Some(t),
                    None => None,
                };
            }
            i += 1;
        }
        None
    }

    /// Whether two objects hold the same members in the same order.
    pub fn same(&self, other: &WireObject) -> (r: bool)
        ensures
            r == (self@ == other@),
    {
        if self.members.len() != other.members.len() {
            assert(self@.len() != other@.len());
            return false;
        }
        let mut i: usize = 0;
        while i < self.members.len()
            invariant
                i <= self.members.len(),
                self.members.len() == other.members.len(),
                forall|j: int| 0 <= j < i ==> self@[j] == other@[j],
            decreases self.members.len() - i,
        {
            let mine = &self.members[i];
            let theirs = &other.members[i];
            assert(self@[i as int] == mine@ && other@[i as int] == theirs@);
            if !same_text(mine.name.as_str(), theirs.name.as_str()) {
                return false;
            }
            let same_value = match (&mine.text, &theirs.text) {
                (Some(a), Some(b)) => same_text(a.as_str(), b.as_str()),
                (None, None) => true,
                _ => false,
            };
            if !same_value {
                return false;
            }
            i += 1;
        }
        assert(self@ =~= other@);
        true
    }

    /// Reads a JSON text as one object.
    pub fn parse(text: &str) -> (r: Result<WireObject, String>)
        ensures
            match r {
                Ok(object) => json_object(text@) == Ok::<Seq<MemberModel>, Seq<char>>(object@),
                Err(detail) => json_object(text@) == Err::<Seq<MemberModel>, Seq<char>>(detail@),
            },
    {
        parse_object(text)
    }

    /// Writes the object as compact JSON text.
    pub fn print(&self) -> (r: String)
        ensures
            r@ == json_text(self@),
    {
        print_object(self)
    }
}

} // verus!
