//! Groups, their rosters, and the decision whether an event may act in its
//! group.

use vstd::prelude::*;
use crate::connection::AuthStatus;
use crate::connection::AuthView;
use crate::connection::authenticated_as;
use crate::event::Event;
use crate::event::EventView;
use crate::event::KIND_GROUP_EDIT_SETTINGS;
use crate::event::KIND_GROUP_JOIN;
use crate::event::KIND_GROUP_LEAVE;
use crate::event::KIND_GROUP_PUT_USER;
use crate::event::KIND_GROUP_REMOVE_USER;
use crate::event::first_tag;
use crate::event::first_tag_value;
use crate::event::has_marker;
use crate::event::lemma_first_tag_named;
use crate::message::Reason;
use crate::registry::Registry;

verus! {

/// What a member of a group may do.
#[derive(Clone, Copy, PartialEq, Eq, Structural, Debug)]
pub enum Role {
    Member,
    Admin,
}

impl View for Role {
    type V = Role;

    open spec fn view(&self) -> Role {
        *self
    }
}

/// Whether a group takes in whoever asks.
#[derive(Clone, Copy, PartialEq, Eq, Structural, Debug)]
pub enum AccessMode {
    Open,
    Closed,
}

/// Whether a group's events are shown to those outside it.
#[derive(Clone, Copy, PartialEq, Eq, Structural, Debug)]
pub enum Visibility {
    Public,
    Private,
}

/// One group: its settings and who belongs to it.
pub struct Group {
    access: AccessMode,
    visibility: Visibility,
    roster: Registry<Role>,
}

#[verifier::ext_equal]
pub struct GroupView {
    pub access: AccessMode,
    pub visibility: Visibility,
    pub roster: Map<Seq<char>, Role>,
}

impl View for Group {
    type V = GroupView;

    closed spec fn view(&self) -> GroupView {
        GroupView { access: self.access, visibility: self.visibility, roster: self.roster@ }
    }
}

/// What an event asks of its group, by the event's kind.
#[derive(Clone, Copy, PartialEq, Eq, Structural, Debug)]
pub enum GroupAction {
    /// To publish in the group: for members.
    Post,
    /// To become a member.
    Join,
    /// To stop being a member.
    Leave,
    /// To make someone a member or change a member's role: for admins.
    PutUser,
    /// To remove a member: for admins.
    RemoveUser,
    /// To change access mode or visibility: for admins.
    EditSettings,
}

pub open spec fn action_of(kind: u16) -> GroupAction {
    if kind == KIND_GROUP_JOIN {
        GroupAction::Join
    } else if kind == KIND_GROUP_LEAVE {
        GroupAction::Leave
    } else if kind == KIND_GROUP_PUT_USER {
        GroupAction::PutUser
    } else if kind == KIND_GROUP_REMOVE_USER {
        GroupAction::RemoveUser
    } else if kind == KIND_GROUP_EDIT_SETTINGS {
        GroupAction::EditSettings
    } else {
        GroupAction::Post
    }
}

/// The kinds that only an admin of the group may publish.
pub open spec fn is_admin_kind(kind: u16) -> bool {
    kind == KIND_GROUP_PUT_USER || kind == KIND_GROUP_REMOVE_USER || kind
        == KIND_GROUP_EDIT_SETTINGS
}

/// The group that an event belongs to: the value of its first `h` tag.
pub open spec fn group_reference(event: EventView) -> Option<Seq<char>> {
    first_tag_value(event.tags, "h"@)
}

/// The member that a management event names: the value of its first `p` tag.
pub open spec fn named_member(event: EventView) -> Option<Seq<char>> {
    first_tag_value(event.tags, "p"@)
}

/// The role that a management event gives: admin where the third element of
/// its first `p` tag is `admin`, member otherwise.
pub open spec fn named_role(event: EventView) -> Role {
    match first_tag(event.tags, "p"@) {
        Some(tag) => if tag.len() >= 3 && tag[2] == "admin"@ {
            Role::Admin
        } else {
            Role::Member
        },
        None => Role::Member,
    }
}

/// The access mode after an edit: `closed` wins over `open`, and without
/// either the mode stays.
pub open spec fn edited_access(current: AccessMode, event: EventView) -> AccessMode {
    if has_marker(event.tags, "closed"@) {
        AccessMode::Closed
    } else if has_marker(event.tags, "open"@) {
        AccessMode::Open
    } else {
        current
    }
}

/// The visibility after an edit: `private` wins over `public`, and without
/// either the visibility stays.
pub open spec fn edited_visibility(current: Visibility, event: EventView) -> Visibility {
    if has_marker(event.tags, "private"@) {
        Visibility::Private
    } else if has_marker(event.tags, "public"@) {
        Visibility::Public
    } else {
        current
    }
}

/// The group as `founder` finds it when the relay makes it on first mention:
/// open, public, with the founder as its admin.
pub open spec fn founded_by(founder: Seq<char>) -> GroupView {
    GroupView {
        access: AccessMode::Open,
        visibility: Visibility::Public,
        roster: Map::empty().insert(founder, Role::Admin),
    }
}

/// The decision on an event in its group: the group as the event leaves it,
/// or the reason for which the event is turned away. The signer of the event
/// acts; an admin's action is taken only from a connection that has proved
/// to be that signer.
pub open spec fn judge_in_group(group: GroupView, auth: AuthView, event: EventView) -> Result<
    GroupView,
    Reason,
> {
    let signer = event.pubkey;
    match action_of(event.kind) {
        GroupAction::Post => if group.roster.contains_key(signer) {
            Ok(group)
        } else {
            Err(Reason::NotMember)
        },
        GroupAction::Join => if group.roster.contains_key(signer) {
            Ok(group)
        } else if group.access == AccessMode::Open {
            Ok(GroupView { roster: group.roster.insert(signer, Role::Member), ..group })
        } else {
            Err(Reason::GroupClosed)
        },
        GroupAction::Leave => if group.roster.contains_key(signer) {
            Ok(GroupView { roster: group.roster.remove(signer), ..group })
        } else {
            Err(Reason::NotMember)
        },
        action => if !authenticated_as(auth, signer) {
            Err(Reason::AuthRequired)
        } else if !(group.roster.contains_key(signer) && group.roster[signer] == Role::Admin) {
            Err(Reason::NotAdmin)
        } else if action == GroupAction::EditSettings {
            Ok(
                GroupView {
                    access: edited_access(group.access, event),
                    visibility: edited_visibility(group.visibility, event),
                    ..group
                },
            )
        } else {
            match named_member(event) {
                None => Err(Reason::MissingTarget),
                Some(target) => if action == GroupAction::PutUser {
                    Ok(GroupView { roster: group.roster.insert(target, named_role(event)), ..group })
                } else {
                    Ok(GroupView { roster: group.roster.remove(target), ..group })
                },
            }
        },
    }
}

/// All groups of the relay, by their identifiers.
pub struct Groups {
    allow_open_creation: bool,
    groups: Registry<Group>,
}

#[verifier::ext_equal]
pub struct GroupsView {
    /// Whether an event that names an unknown group founds that group.
    pub allow_open_creation: bool,
    pub groups: Map<Seq<char>, GroupView>,
}

impl View for Groups {
    type V = GroupsView;

    closed spec fn view(&self) -> GroupsView {
        GroupsView { allow_open_creation: self.allow_open_creation, groups: self.groups@ }
    }
}

/// The group under which an event is judged: the known one, or where the
/// reference is unknown and the relay founds groups on first mention, a new
/// group of the signer.
pub open spec fn resolve(groups: GroupsView, id: Seq<char>, signer: Seq<char>) -> Option<GroupView> {
    if groups.groups.contains_key(id) {
        Some(groups.groups[id])
    } else if groups.allow_open_creation {
        Some(founded_by(signer))
    } else {
        None
    }
}

/// The decision on an event: the groups as the event leaves them, or the
/// reason for which it is turned away. An event without a group reference
/// changes nothing and is let through.
pub open spec fn group_verdict(groups: GroupsView, auth: AuthView, event: EventView) -> Result<
    GroupsView,
    Reason,
> {
    match group_reference(event) {
        None => Ok(groups),
        Some(id) => match resolve(groups, id, event.pubkey) {
            None => Err(Reason::UnknownGroup),
            Some(group) => match judge_in_group(group, auth, event) {
                Ok(after) => Ok(GroupsView { groups: groups.groups.insert(id, after), ..groups }),
                Err(reason) => Err(reason),
            },
        },
    }
}

/// Whether an event may be delivered to a connection: always, unless it
/// belongs to a private group, which shows its events to members only.
pub open spec fn may_receive(groups: GroupsView, auth: AuthView, event: EventView) -> bool {
    match group_reference(event) {
        None => true,
        Some(id) => !groups.groups.contains_key(id) || groups.groups[id].visibility
            == Visibility::Public || (auth matches AuthView::Authenticated { pubkey }
            && groups.groups[id].roster.contains_key(pubkey)),
    }
}

/// The action that an event of this kind asks of its group.
pub fn action_of_kind(kind: u16) -> (action: GroupAction)
    ensures
        action == action_of(kind),
{
    if kind == KIND_GROUP_JOIN {
        GroupAction::Join
    } else if kind == KIND_GROUP_LEAVE {
        GroupAction::Leave
    } else if kind == KIND_GROUP_PUT_USER {
        GroupAction::PutUser
    } else if kind == KIND_GROUP_REMOVE_USER {
        GroupAction::RemoveUser
    } else if kind == KIND_GROUP_EDIT_SETTINGS {
        GroupAction::EditSettings
    } else {
        GroupAction::Post
    }
}

impl Group {
    /// The roster holds no identity twice.
    pub closed spec fn wf(&self) -> bool {
        self.roster.wf()
    }

    /// A group with these settings and nobody in it.
    pub fn new(access: AccessMode, visibility: Visibility) -> (group: Group)
        ensures
            group.wf(),
            group@ == (GroupView { access, visibility, roster: Map::empty() }),
    {
        Group { access, visibility, roster: Registry::new() }
    }

    /// An open, public group with `founder` as its admin.
    pub fn founded_by(founder: String) -> (group: Group)
        ensures
            group.wf(),
            group@ == founded_by(founder@),
    {
        let mut roster: Registry<Role> = Registry::new();
        roster.insert(founder, Role::Admin);
        Group { access: AccessMode::Open, visibility: Visibility::Public, roster }
    }

    pub fn access(&self) -> (mode: AccessMode)
        ensures
            mode == self@.access,
    {
        self.access
    }

    pub fn visibility(&self) -> (visibility: Visibility)
        ensures
            visibility == self@.visibility,
    {
        self.visibility
    }

    /// The role of `pubkey`, if it is in the roster.
    pub fn role_of(&self, pubkey: &String) -> (role: Option<Role>)
        requires
            self.wf(),
        ensures
            role is Some == self@.roster.contains_key(pubkey@),
            role is Some ==> role.unwrap() == self@.roster[pubkey@],
    {
        match self.roster.get(pubkey) {
            Some(role) => Some(*role),
            None => None,
        }
    }

    /// Puts `pubkey` into the roster with `role`, in place of the role it
    /// had.
    pub fn put_member(&mut self, pubkey: String, role: Role)
        requires
            old(self).wf(),
        ensures
            final(self).wf(),
            final(self)@ == (GroupView {
                roster: old(self)@.roster.insert(pubkey@, role),
                ..old(self)@
            }),
    {
        self.roster.insert(pubkey, role);
    }

    /// Takes the event's action in the group if the event is entitled to it,
    /// and leaves the group as it is otherwise.
    pub fn apply(&mut self, auth: &AuthStatus, event: &Event) -> (done: Result<(), Reason>)
        requires
            old(self).wf(),
        ensures
            final(self).wf(),
            match judge_in_group(old(self)@, auth@, event@) {
                Ok(after) => done is Ok && final(self)@ == after,
                Err(reason) => done == Err::<(), Reason>(reason) && final(self)@ == old(self)@,
            },
    {
        let action = action_of_kind(event.kind);
        let role = self.role_of(&event.pubkey);
        match action {
            GroupAction::Post => {
                if role.is_some() {
                    Ok(())
                } else {
                    Err(Reason::NotMember)
                }
            },
            GroupAction::Join => {
                if role.is_some() {
                    Ok(())
                } else if self.access == AccessMode::Open {
                    self.roster.insert(event.pubkey.clone(), Role::Member);
                    Ok(())
                } else {
                    Err(Reason::GroupClosed)
                }
            },
            GroupAction::Leave => {
                if role.is_some() {
                    let _ = self.roster.remove(&event.pubkey);
                    Ok(())
                } else {
                    Err(Reason::NotMember)
                }
            },
            _ => {
                if !auth.is_authenticated_as(&event.pubkey) {
                    return Err(Reason::AuthRequired);
                }
                match role {
                    Some(Role::Admin) => {},
                    _ => {
                        return Err(Reason::NotAdmin);
                    },
                }
                if action == GroupAction::EditSettings {
                    if event.has_marker(&"closed".to_owned()) {
                        self.access = AccessMode::Closed;
                    } else if event.has_marker(&"open".to_owned()) {
                        self.access = AccessMode::Open;
                    }
                    if event.has_marker(&"private".to_owned()) {
                        self.visibility = Visibility::Private;
                    } else if event.has_marker(&"public".to_owned()) {
                        self.visibility = Visibility::Public;
                    }
                    return Ok(());
                }
                match event.first_tag(&"p".to_owned()) {
                    None => Err(Reason::MissingTarget),
                    Some(tag) => {
                        proof {
                            lemma_first_tag_named(event@.tags, "p"@);
                            assert(tag.deep_view()[1] == tag[1]@);
                            if tag.len() >= 3 {
                                assert(tag.deep_view()[2] == tag[2]@);
                            }
                        }
                        if action == GroupAction::PutUser {
                            let role = if tag.len() >= 3 && tag[2] == "admin".to_owned() {
                                Role::Admin
                            } else {
                                Role::Member
                            };
                            self.roster.insert(tag[1].clone(), role);
                        } else {
                            let _ = self.roster.remove(&tag[1]);
                        }
                        Ok(())
                    },
                }
            },
        }
    }
}

impl Groups {
    /// No group is held twice, and every group is well formed.
    pub closed spec fn wf(&self) -> bool {
        &&& self.groups.wf()
        &&& forall|id: Seq<char>| #[trigger]
            self.groups.held().contains_key(id) ==> self.groups.held()[id].wf()
    }

    /// No groups. With `allow_open_creation`, an event that names an unknown
    /// group founds it.
    pub fn new(allow_open_creation: bool) -> (groups: Groups)
        ensures
            groups.wf(),
            groups@ == (GroupsView { allow_open_creation, groups: Map::empty() }),
    {
        Groups { allow_open_creation, groups: Registry::new() }
    }

    /// Files `group` under `id`, in place of the group that was there.
    pub fn put_group(&mut self, id: String, group: Group)
        requires
            old(self).wf(),
            group.wf(),
        ensures
            final(self).wf(),
            final(self)@ == (GroupsView {
                groups: old(self)@.groups.insert(id@, group@),
                ..old(self)@
            }),
    {
        self.groups.insert(id, group);
    }

    /// The group filed under `id`.
    pub fn group(&self, id: &String) -> (group: Option<&Group>)
        requires
            self.wf(),
        ensures
            group is Some == self@.groups.contains_key(id@),
            group is Some ==> group.unwrap()@ == self@.groups[id@] && group.unwrap().wf(),
    {
        self.groups.get(id)
    }

    /// The role of `pubkey` in the group `id`; none where the group is
    /// unknown or does not hold `pubkey`.
    pub fn role_of(&self, id: &String, pubkey: &String) -> (role: Option<Role>)
        requires
            self.wf(),
        ensures
            role is Some == (self@.groups.contains_key(id@) && self@.groups[id@].roster.contains_key(
                pubkey@,
            )),
            role is Some ==> role.unwrap() == self@.groups[id@].roster[pubkey@],
    {
        match self.groups.get(id) {
            Some(group) => group.role_of(pubkey),
            None => None,
        }
    }

    /// Decides on `event` and, where it is let through, takes its action:
    /// one change of one group, or none.
    pub fn authorize(&mut self, auth: &AuthStatus, event: &Event) -> (done: Result<(), Reason>)
        requires
            old(self).wf(),
        ensures
            final(self).wf(),
            match group_verdict(old(self)@, auth@, event@) {
                Ok(after) => done is Ok && final(self)@ == after,
                Err(reason) => done == Err::<(), Reason>(reason) && final(self)@ == old(self)@,
            },
    {
        let id = match event.first_tag_value(&"h".to_owned()) {
            Some(id) => id,
            None => {
                return Ok(());
            },
        };
        let known = self.groups.remove(&id);
        let existed = known.is_some();
        let mut group = match known {
            Some(group) => group,
            None => {
                if !self.allow_open_creation {
                    assert(self@ =~= old(self)@);
                    return Err(Reason::UnknownGroup);
                }
                Group::founded_by(event.pubkey.clone())
            },
        };
        let done = group.apply(auth, event);
        if done.is_ok() || existed {
            self.groups.insert(id, group);
        }
        proof {
            if done.is_ok() {
                assert(self@.groups =~= old(self)@.groups.insert(id@, group@));
            } else {
                assert(self@.groups =~= old(self)@.groups);
            }
        }
        done
    }

    /// Whether `event` may be delivered to a connection in the state `auth`.
    pub fn may_receive(&self, auth: &AuthStatus, event: &Event) -> (yes: bool)
        requires
            self.wf(),
        ensures
            yes == may_receive(self@, auth@, event@),
    {
        let id = match event.first_tag_value(&"h".to_owned()) {
            Some(id) => id,
            None => {
                return true;
            },
        };
        match self.groups.get(&id) {
            None => true,
            Some(group) => {
                if group.visibility == Visibility::Public {
                    true
                } else {
                    match auth {
                        AuthStatus::Authenticated { pubkey } => group.role_of(pubkey).is_some(),
                        _ => false,
                    }
                }
            },
        }
    }
}

} // verus!
