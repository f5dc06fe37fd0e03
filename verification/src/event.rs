//! Signed events as plain values, and the questions the policy stages ask of
//! their tags.

use vstd::prelude::*;

verus! {

/// Kind of an event that retracts earlier events of its author.
pub const KIND_DELETION: u16 = 5;

/// Kind of the event by which a client answers an authentication challenge.
pub const KIND_AUTHENTICATION: u16 = 22242;

/// Kind by which an admin adds a member to a group or changes a member's role.
pub const KIND_GROUP_PUT_USER: u16 = 9000;

/// Kind by which an admin removes a member from a group.
pub const KIND_GROUP_REMOVE_USER: u16 = 9001;

/// Kind by which an admin changes a group's access mode or visibility.
pub const KIND_GROUP_EDIT_SETTINGS: u16 = 9002;

/// Kind by which an identity asks to join a group.
pub const KIND_GROUP_JOIN: u16 = 9021;

/// Kind by which a member leaves a group.
pub const KIND_GROUP_LEAVE: u16 = 9022;

/// First of the kinds that describe a group's state and that only the relay
/// operator publishes.
pub const KIND_GROUP_STATE_FIRST: u16 = 39000;

/// Last of the kinds that describe a group's state.
pub const KIND_GROUP_STATE_LAST: u16 = 39003;

/// One past the largest kind that the relay accepts.
pub const KIND_LIMIT: u16 = 40000;

/// A signed event. Identifier, author and signature are kept in the lowercase
/// hexadecimal form in which they travel.
#[derive(Clone, PartialEq, Eq, Debug)]
pub struct Event {
    pub id: String,
    pub pubkey: String,
    pub created_at: u64,
    pub kind: u16,
    pub tags: Vec<Vec<String>>,
    pub content: String,
    pub sig: String,
}

/// Mathematical value of an [`Event`].
pub struct EventView {
    pub id: Seq<char>,
    pub pubkey: Seq<char>,
    pub created_at: u64,
    pub kind: u16,
    pub tags: Seq<Seq<Seq<char>>>,
    pub content: Seq<char>,
    pub sig: Seq<char>,
}

impl View for Event {
    type V = EventView;

    open spec fn view(&self) -> EventView {
        EventView {
            id: self.id@,
            pubkey: self.pubkey@,
            created_at: self.created_at,
            kind: self.kind,
            tags: self.tags.deep_view(),
            content: self.content@,
            sig: self.sig@,
        }
    }
}

impl DeepView for Event {
    type V = EventView;

    open spec fn deep_view(&self) -> EventView {
        self@
    }
}

/// A tag carries the value of `name` when `name` is its first element and a
/// second element follows.
pub open spec fn tag_named(tag: Seq<Seq<char>>, name: Seq<char>) -> bool {
    tag.len() >= 2 && tag[0] == name
}

/// The second elements of all tags named `name`, in the order of the tags.
pub open spec fn tag_values(tags: Seq<Seq<Seq<char>>>, name: Seq<char>) -> Seq<Seq<char>> {
    tags.filter(|t: Seq<Seq<char>>| tag_named(t, name)).map_values(|t: Seq<Seq<char>>| t[1])
}

/// The first tag named `name`.
pub open spec fn first_tag(tags: Seq<Seq<Seq<char>>>, name: Seq<char>) -> Option<Seq<Seq<char>>>
    decreases tags.len(),
{
    if tags.len() == 0 {
        None
    } else if tag_named(tags[0], name) {
        Some(tags[0])
    } else {
        first_tag(tags.skip(1), name)
    }
}

/// The second element of the first tag named `name`.
pub open spec fn first_tag_value(tags: Seq<Seq<Seq<char>>>, name: Seq<char>) -> Option<Seq<char>> {
    match first_tag(tags, name) {
        Some(tag) => Some(tag[1]),
        None => None,
    }
}

/// A tag named `name` is found only with a value.
pub proof fn lemma_first_tag_named(tags: Seq<Seq<Seq<char>>>, name: Seq<char>)
    ensures
        first_tag(tags, name) is Some ==> tag_named(first_tag(tags, name).unwrap(), name),
    decreases tags.len(),
{
    if tags.len() > 0 && !tag_named(tags[0], name) {
        lemma_first_tag_named(tags.skip(1), name);
    }
}

/// Some tag has `name` as its first element.
pub open spec fn has_marker(tags: Seq<Seq<Seq<char>>>, name: Seq<char>) -> bool {
    exists|i: int| 0 <= i < tags.len() && #[trigger] tags[i].len() >= 1 && tags[i][0] == name
}

pub open spec fn is_lower_hex_digit(c: char) -> bool {
    ('0' <= c && c <= '9') || ('a' <= c && c <= 'f')
}

/// `s` consists of exactly `len` lowercase hexadecimal digits.
pub open spec fn is_lower_hex(s: Seq<char>, len: nat) -> bool {
    s.len() == len && forall|i: int| 0 <= i < s.len() ==> is_lower_hex_digit(#[trigger] s[i])
}

/// Every tag has a first element, and that element is not empty.
pub open spec fn tags_well_shaped(tags: Seq<Seq<Seq<char>>>) -> bool {
    forall|i: int| 0 <= i < tags.len() ==> (#[trigger] tags[i]).len() >= 1 && tags[i][0].len() >= 1
}

/// Decides whether `text` is `len` lowercase hexadecimal digits.
pub fn check_lower_hex(text: &String, len: usize) -> (ok: bool)
    ensures
        ok == is_lower_hex(text@, len as nat),
{
    let s = text.as_str();
    if !s.is_ascii() {
        return false;
    }
    let n = s.unicode_len();
    if n != len {
        return false;
    }
    let mut i: usize = 0;
    while i < n
        invariant
            s@ == text@,
            s.is_ascii(),
            n == s@.len(),
            i <= n,
            forall|j: int| 0 <= j < i ==> is_lower_hex_digit(#[trigger] s@[j]),
        decreases n - i,
    {
        let b = s.get_ascii(i);
        let digit = (48 <= b && b <= 57) || (97 <= b && b <= 102);
        if !digit {
            assert(!is_lower_hex_digit(s@[i as int]));
            return false;
        }
        i += 1;
    }
    true
}

impl Event {
    /// The first tag named `name`, if there is one.
    pub fn first_tag(&self, name: &String) -> (tag: Option<&Vec<String>>)
        ensures
            tag.deep_view() == first_tag(self@.tags, name@),
            tag is Some ==> tag.unwrap().len() >= 2,
    {
        let mut i: usize = 0;
        assert(self@.tags.skip(0) =~= self@.tags);
        while i < self.tags.len()
            invariant
                i <= self.tags.len(),
                first_tag(self@.tags, name@) == first_tag(self@.tags.skip(i as int), name@),
            decreases self.tags.len() - i,
        {
            let tag = &self.tags[i];
            proof {
                let rest = self@.tags.skip(i as int);
                assert(rest[0] == tag.deep_view());
                assert(rest.skip(1) =~= self@.tags.skip(i as int + 1));
                assert(tag.deep_view().len() == tag.len());
                if tag.len() >= 2 {
                    assert(tag.deep_view()[0] == tag[0]@);
                }
            }
            if tag.len() >= 2 && tag[0] == *name {
                return Some(tag);
            }
            i += 1;
        }
        None
    }

    /// The second element of the first tag named `name`, if there is one.
    pub fn first_tag_value(&self, name: &String) -> (value: Option<String>)
        ensures
            value.deep_view() == first_tag_value(self@.tags, name@),
    {
        match self.first_tag(name) {
            Some(tag) => {
                assert(tag.deep_view()[1] == tag[1]@);
                Some(tag[1].clone())
            },
            None => None,
        }
    }

    /// The second elements of all tags named `name`, in the order of the tags.
    pub fn tag_values(&self, name: &String) -> (values: Vec<String>)
        ensures
            values.deep_view() == tag_values(self@.tags, name@),
    {
        let mut values: Vec<String> = Vec::new();
        let mut i: usize = 0;
        assert(self@.tags.take(0) =~= Seq::empty());
        while i < self.tags.len()
            invariant
                i <= self.tags.len(),
                values.deep_view() == tag_values(self@.tags.take(i as int), name@),
            decreases self.tags.len() - i,
        {
            let tag = &self.tags[i];
            let ghost before = values.deep_view();
            proof {
                let head = self@.tags.take(i as int);
                let next = self@.tags.take(i as int + 1);
                assert(next.drop_last() =~= head);
                assert(next.last() == tag.deep_view());
                assert(tag.deep_view().len() == tag.len());
                reveal(Seq::filter);
                if tag.len() >= 2 {
                    assert(tag.deep_view()[0] == tag[0]@);
                    assert(tag.deep_view()[1] == tag[1]@);
                }
            }
            if tag.len() >= 2 && tag[0] == *name {
                values.push(tag[1].clone());
                assert(values.deep_view() =~= before.push(tag[1]@));
                assert(tag_values(self@.tags.take(i as int + 1), name@) =~= before.push(tag[1]@));
            } else {
                assert(tag_values(self@.tags.take(i as int + 1), name@) =~= before);
            }
            i += 1;
        }
        assert(self@.tags.take(self.tags.len() as int) =~= self@.tags);
        values
    }

    /// Whether some tag has `name` as its first element.
    pub fn has_marker(&self, name: &String) -> (found: bool)
        ensures
            found == has_marker(self@.tags, name@),
    {
        let mut i: usize = 0;
        while i < self.tags.len()
            invariant
                i <= self.tags.len(),
                forall|j: int|
                    0 <= j < i ==> !((#[trigger] self@.tags[j]).len() >= 1 && self@.tags[j][0]
                        == name@),
            decreases self.tags.len() - i,
        {
            let tag = &self.tags[i];
            proof {
                assert(self@.tags[i as int] == tag.deep_view());
                assert(tag.deep_view().len() == tag.len());
                if tag.len() >= 1 {
                    assert(tag.deep_view()[0] == tag[0]@);
                }
            }
            if tag.len() >= 1 && tag[0] == *name {
                return true;
            }
            i += 1;
        }
        false
    }

    /// Whether every tag has a first element that is not empty.
    pub fn tags_well_shaped(&self) -> (ok: bool)
        ensures
            ok == tags_well_shaped(self@.tags),
    {
        let mut i: usize = 0;
        while i < self.tags.len()
            invariant
                i <= self.tags.len(),
                forall|j: int|
                    0 <= j < i ==> (#[trigger] self@.tags[j]).len() >= 1 && self@.tags[j][0].len()
                        >= 1,
            decreases self.tags.len() - i,
        {
            let tag = &self.tags[i];
            proof {
                assert(self@.tags[i as int] == tag.deep_view());
                assert(tag.deep_view().len() == tag.len());
                if tag.len() >= 1 {
                    assert(tag.deep_view()[0] == tag[0]@);
                }
            }
            if tag.len() == 0 || tag[0].as_str().is_empty() {
                return false;
            }
            i += 1;
        }
        true
    }
}

} // verus!
