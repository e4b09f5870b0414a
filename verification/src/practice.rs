//! Social practices: reusable scenario templates and their live instances.
//!
//! A template maps roles to display names and to ordered action lists; a
//! practice binds the roles of one template to concrete entities. The
//! `PracticeTemplate` and `Practice` traits are the interfaces the
//! simulation loop queries; the `Simple` types implement them with ordered
//! association lists, so every lookup is deterministic: where a key was
//! bound twice, the earlier binding wins.

use vstd::prelude::*;

use crate::action::{Action, MockAction};
use crate::error::SocialError;
use crate::role::Role;

verus! {

/// The first value bound to a key in an association list, if any;
/// earlier entries win over later ones.
pub open spec fn first_match<K, V>(pairs: Seq<(K, V)>, key: K) -> Option<V>
    decreases pairs,
{
    if pairs.len() == 0 {
        None
    } else if pairs[0].0 == key {
        Some(pairs[0].1)
    } else {
        first_match(pairs.subrange(1, pairs.len() as int), key)
    }
}

/// The first role bound to an entity in a role-to-entity association list,
/// if any; earlier entries win over later ones.
pub open spec fn first_bound_role(pairs: Seq<(Role, u32)>, entity: u32) -> Option<Role>
    decreases pairs,
{
    if pairs.len() == 0 {
        None
    } else if pairs[0].1 == entity {
        Some(pairs[0].0)
    } else {
        first_bound_role(pairs.subrange(1, pairs.len() as int), entity)
    }
}

/// A template for a social practice.
///
/// It defines which roles participate in a social practice and which
/// actions are available for each role. The two role mappings are
/// independent: a role may have a display name without any actions
/// (a purely passive listener), and vice versa.
pub trait PracticeTemplate {
    /// The ordered action list configured for a role; empty where the role
    /// has no configured actions.
    spec fn spec_actions(&self, role: Role) -> Seq<Action>;

    /// The id of this practice template.
    spec fn spec_id(&self) -> u32;

    /// The name of this practice template.
    spec fn spec_name(&self) -> Seq<char>;

    /// The roles that have a display name entry, in authoring order.
    spec fn spec_roles(&self) -> Seq<Role>;

    /// The display name registered for a role, if any.
    spec fn spec_role_name(&self, role: Role) -> Option<Seq<char>>;

    /// Gets all actions of a role in this practice template, in their
    /// authoring-time order; an empty list — not an error — where the role
    /// has no configured actions.
    fn get_actions(&self, role: Role) -> (result: Vec<&Action>)
        ensures
            result@.len() == self.spec_actions(role).len(),
            forall|i: int| 0 <= i < result@.len() ==> *result@[i] == self.spec_actions(role)[i],
    ;

    /// Gets the id of this practice template.
    fn get_id(&self) -> (result: u32)
        ensures
            result == self.spec_id(),
    ;

    /// Gets the name of this practice template.
    fn get_name(&self) -> (result: &str)
        ensures
            result@ == self.spec_name(),
    ;

    /// Gets all roles that participate in this practice template.
    fn get_roles(&self) -> (result: Vec<Role>)
        ensures
            result@ == self.spec_roles(),
    ;

    /// Gets the display name of a role in this practice template, or a
    /// role-not-found error — never a placeholder — where the role was
    /// never registered with a name.
    fn get_role_name(&self, role: Role) -> (result: Result<&String, SocialError>)
        ensures
            match result {
                Ok(name) => self.spec_role_name(role) == Some(name@),
                Err(error) => self.spec_role_name(role) is None && error == (
                SocialError::RoleNotFound { role }),
            },
    ;
}

/// A social practice, which is an instance of a template.
///
/// It defines which entity participates as which role; the bindings are
/// fixed at construction, and the practice is the entry point the
/// simulation loop queries to list an entity's available actions.
pub trait Practice<P: PracticeTemplate> {
    /// The template this practice instantiates.
    spec fn spec_template(&self) -> P;

    /// The id of this social practice.
    spec fn spec_id(&self) -> u32;

    /// The role an entity is bound to, if any.
    spec fn spec_bound_role(&self, entity: u32) -> Option<Role>;

    /// Gets all actions of an entity in this practice: resolves the
    /// entity's role, then delegates to the template; an entity bound to no
    /// role is reported as not found, unchanged from `get_role`.
    fn get_actions(&self, entity: u32) -> (result: Result<Vec<&Action>, SocialError>)
        ensures
            match result {
                Ok(actions) => self.spec_bound_role(entity) matches Some(role) && actions@.len()
                    == self.spec_template().spec_actions(role).len() && (forall|i: int|
                    0 <= i < actions@.len() ==> *actions@[i] == self.spec_template().spec_actions(
                        role,
                    )[i]),
                Err(error) => self.spec_bound_role(entity) is None && error == (
                SocialError::EntityNotFound { entity }),
            },
    ;

    /// Gets the id of this social practice.
    fn get_id(&self) -> (result: u32)
        ensures
            result == self.spec_id(),
    ;

    /// Gets the role of an entity that participates in this practice, or an
    /// entity-not-found error — never a sentinel role — where the entity is
    /// bound to no role.
    fn get_role(&self, entity: u32) -> (result: Result<Role, SocialError>)
        ensures
            match result {
                Ok(role) => self.spec_bound_role(entity) == Some(role),
                Err(error) => self.spec_bound_role(entity) is None && error == (
                SocialError::EntityNotFound { entity }),
            },
    ;

    /// Gets the template of this practice.
    fn get_template(&self) -> (result: &P)
        ensures
            *result == self.spec_template(),
    ;
}

/// A simple implementation of PracticeTemplate, over ordered association
/// lists; immutable after construction.
pub struct SimplePracticeTemplate {
    pub id: u32,
    pub name: String,
    pub role_names: Vec<(Role, String)>,
    pub actions: Vec<(Role, Vec<Action>)>,
}

/// A simple implementation of Practice.
///
/// The template is borrowed, never copied, so it must outlive every
/// practice built from it.
pub struct SimplePractice<'a, P: PracticeTemplate> {
    pub id: u32,
    pub role_to_id_map: Vec<(Role, u32)>,
    pub template: &'a P,
}

impl SimplePracticeTemplate {
    pub fn new(
        id: u32,
        name: String,
        role_names: Vec<(Role, String)>,
        actions: Vec<(Role, Vec<Action>)>,
    ) -> (result: SimplePracticeTemplate)
        ensures
            result.id == id,
            result.name == name,
            result.role_names == role_names,
            result.actions == actions,
    {
        SimplePracticeTemplate { id, name, role_names, actions }
    }
}

impl PracticeTemplate for SimplePracticeTemplate {
    /// The first action list bound to the role, or the empty sequence
    /// where none is.
    open spec fn spec_actions(&self, role: Role) -> Seq<Action> {
        match first_match(self.actions@, role) {
            Some(list) => list@,
            None => Seq::empty(),
        }
    }

    open spec fn spec_id(&self) -> u32 {
        self.id
    }

    open spec fn spec_name(&self) -> Seq<char> {
        self.name@
    }

    open spec fn spec_roles(&self) -> Seq<Role> {
        self.role_names@.map_values(|pair: (Role, String)| pair.0)
    }

    /// The first display name bound to the role, if any.
    open spec fn spec_role_name(&self, role: Role) -> Option<Seq<char>> {
        match first_match(self.role_names@, role) {
            Some(name) => Some(name@),
            None => None,
        }
    }

    fn get_actions(&self, role: Role) -> (result: Vec<&Action>) {
        let count = self.actions.len();
        proof {
            assert(self.actions@.subrange(0, count as int) =~= self.actions@);
        }
        let mut k: usize = 0;
        while k < count
            invariant
                count == self.actions@.len(),
                k <= count,
                first_match(self.actions@, role) == first_match(
                    self.actions@.subrange(k as int, count as int),
                    role,
                ),
            decreases count - k,
        {
            proof {
                assert(self.actions@.subrange(k as int, count as int).subrange(
                    1,
                    (count - k) as int,
                ) =~= self.actions@.subrange(k as int + 1, count as int));
            }
            let pair = &self.actions[k];
            if pair.0 == role {
                let list = &pair.1;
                let mut result: Vec<&Action> = Vec::new();
                let mut j: usize = 0;
                while j < list.len()
                    invariant
                        j <= list@.len(),
                        result@.len() == j,
                        forall|m: int| 0 <= m < j ==> *result@[m] == list@[m],
                    decreases list@.len() - j,
                {
                    result.push(&list[j]);
                    j += 1;
                }
                return result;
            }
            k += 1;
        }
        Vec::new()
    }

    fn get_id(&self) -> (result: u32) {
        self.id
    }

    fn get_name(&self) -> (result: &str) {
        self.name.as_str()
    }

    fn get_roles(&self) -> (result: Vec<Role>) {
        let count = self.role_names.len();
        let mut result: Vec<Role> = Vec::new();
        let mut i: usize = 0;
        while i < count
            invariant
                count == self.role_names@.len(),
                i <= count,
                result@.len() == i,
                forall|j: int| 0 <= j < i ==> result@[j] == self.role_names@[j].0,
            decreases count - i,
        {
            let pair = &self.role_names[i];
            result.push(pair.0);
            i += 1;
        }
        proof {
            assert(result@ =~= self.spec_roles());
        }
        result
    }

    fn get_role_name(&self, role: Role) -> (result: Result<&String, SocialError>) {
        let count = self.role_names.len();
        proof {
            assert(self.role_names@.subrange(0, count as int) =~= self.role_names@);
        }
        let mut i: usize = 0;
        while i < count
            invariant
                count == self.role_names@.len(),
                i <= count,
                first_match(self.role_names@, role) == first_match(
                    self.role_names@.subrange(i as int, count as int),
                    role,
                ),
            decreases count - i,
        {
            proof {
                assert(self.role_names@.subrange(i as int, count as int).subrange(
                    1,
                    (count - i) as int,
                ) =~= self.role_names@.subrange(i as int + 1, count as int));
            }
            let pair = &self.role_names[i];
            if pair.0 == role {
                return Ok(&pair.1);
            }
            i += 1;
        }
        Err(SocialError::RoleNotFound { role })
    }
}

impl<'a, P: PracticeTemplate> SimplePractice<'a, P> {
    pub fn new(id: u32, role_to_id_map: Vec<(Role, u32)>, template: &'a P) -> (result:
        SimplePractice<'a, P>)
        ensures
            result.id == id,
            result.role_to_id_map == role_to_id_map,
            result.template == template,
    {
        SimplePractice { id, role_to_id_map, template }
    }
}

impl<'a, P: PracticeTemplate> Practice<P> for SimplePractice<'a, P> {
    open spec fn spec_template(&self) -> P {
        *self.template
    }

    open spec fn spec_id(&self) -> u32 {
        self.id
    }

    /// The first binding for the entity, if any; with an ordered mapping
    /// the first match wins deterministically even where authoring code
    /// bound two roles to the same entity.
    open spec fn spec_bound_role(&self, entity: u32) -> Option<Role> {
        first_bound_role(self.role_to_id_map@, entity)
    }

    fn get_actions(&self, entity: u32) -> (result: Result<Vec<&Action>, SocialError>) {
        let role = match self.get_role(entity) {
            Ok(role) => role,
            Err(error) => {
                return Err(error);
            },
        };
        Ok(self.template.get_actions(role))
    }

    fn get_id(&self) -> (result: u32) {
        self.id
    }

    fn get_role(&self, entity: u32) -> (result: Result<Role, SocialError>) {
        let count = self.role_to_id_map.len();
        proof {
            assert(self.role_to_id_map@.subrange(0, count as int) =~= self.role_to_id_map@);
        }
        let mut i: usize = 0;
        while i < count
            invariant
                count == self.role_to_id_map@.len(),
                i <= count,
                first_bound_role(self.role_to_id_map@, entity) == first_bound_role(
                    self.role_to_id_map@.subrange(i as int, count as int),
                    entity,
                ),
            decreases count - i,
        {
            proof {
                assert(self.role_to_id_map@.subrange(i as int, count as int).subrange(
                    1,
                    (count - i) as int,
                ) =~= self.role_to_id_map@.subrange(i as int + 1, count as int));
            }
            let pair = &self.role_to_id_map[i];
            if pair.1 == entity {
                return Ok(pair.0);
            }
            i += 1;
        }
        Err(SocialError::EntityNotFound { entity })
    }

    fn get_template(&self) -> (result: &P) {
        self.template
    }
}

/// Create a SimplePracticeTemplate for testing: two named roles, the first
/// of which has two mock actions and the second none.
pub fn create_test_template() -> (result: SimplePracticeTemplate)
    ensures
        result.id == 42,
        result.name@ == "template0"@,
        result.role_names@.len() == 2,
        result.role_names@[0].0 == (Role::Character { id: 0 }),
        result.role_names@[0].1@ == "Speaker"@,
        result.role_names@[1].0 == (Role::Character { id: 1 }),
        result.role_names@[1].1@ == "Listener"@,
        result.actions@.len() == 1,
        result.actions@[0].0 == (Role::Character { id: 0 }),
        result.actions@[0].1@.len() == 2,
        result.actions@[0].1@[0] is Mock,
        result.actions@[0].1@[0].spec_name() == "action0"@,
        result.actions@[0].1@[1] is Mock,
        result.actions@[0].1@[1].spec_name() == "action1"@,
{
    let speaker = Role::Character { id: 0 };
    let listener = Role::Character { id: 1 };

    let mut role_names: Vec<(Role, String)> = Vec::new();
    role_names.push((speaker, String::from_str("Speaker")));
    role_names.push((listener, String::from_str("Listener")));

    let mut speaker_actions: Vec<Action> = Vec::new();
    speaker_actions.push(Action::Mock(MockAction::new(String::from_str("action0"))));
    speaker_actions.push(Action::Mock(MockAction::new(String::from_str("action1"))));

    let mut actions: Vec<(Role, Vec<Action>)> = Vec::new();
    actions.push((speaker, speaker_actions));

    SimplePracticeTemplate::new(42, String::from_str("template0"), role_names, actions)
}

/// Create a SimplePractice for testing: the two roles of the test template,
/// bound to entities 10 and 11.
pub fn create_test_practice(template: &SimplePracticeTemplate) -> (result: SimplePractice<
    SimplePracticeTemplate,
>)
    ensures
        result.id == 5,
        result.role_to_id_map@.len() == 2,
        result.role_to_id_map@[0] == ((Role::Character { id: 0 }), 10u32),
        result.role_to_id_map@[1] == ((Role::Character { id: 1 }), 11u32),
        result.template == template,
{
    let speaker = Role::Character { id: 0 };
    let listener = Role::Character { id: 1 };

    let mut role_to_id_map: Vec<(Role, u32)> = Vec::new();
    role_to_id_map.push((speaker, 10));
    role_to_id_map.push((listener, 11));

    SimplePractice::new(5, role_to_id_map, template)
}

} // verus!
