//! The storage handle: all persisted registry state as one explicit value,
//! with typed accessors over each namespace of the key schema and the
//! well-formedness invariant every operation preserves.

use vstd::prelude::*;
use crate::assoc::{
    assoc_lookup, keys_unique, lemma_lookup_absent, lemma_lookup_at, lemma_lookup_push,
    lemma_lookup_update,
};
use crate::keys::Address;
use crate::roles::Role;
use crate::state::{Entity, EntityView, Transaction};

verus! {

/// The whole persisted state of one registry, plus the stream of audit
/// records it has emitted. Each field realizes one namespace of the key
/// schema; the namespaces are disjoint by construction.
pub struct Registry {
    /// The admin marker, recorded once at initialization.
    admin: Option<Address>,
    /// The id the next created entity will receive.
    next_id: u32,
    /// All entities, in creation order; the entity with id `i` sits at
    /// index `i - 1`.
    entities: Vec<Entity>,
    /// The append-only index of entity ids in creation order.
    entity_list: Vec<u32>,
    /// Role bindings, one per identity that was ever assigned a role.
    roles: Vec<(Address, Role)>,
    /// Attribute bindings, keyed by entity id and attribute key.
    attributes: Vec<(u32, String, String)>,
    /// Configuration bindings, keyed by configuration key.
    config: Vec<(String, String)>,
    /// The audit records emitted so far, in emission order.
    events: Vec<Transaction>,
}

/// The mathematical value of a [`Registry`].
#[verifier::ext_equal]
pub ghost struct RegistryView {
    pub admin: Option<Address>,
    pub next_id: u32,
    pub entities: Seq<EntityView>,
    pub entity_list: Seq<u32>,
    pub roles: Seq<(Address, Role)>,
    pub attributes: Seq<((u32, Seq<char>), Seq<char>)>,
    pub config: Seq<(Seq<char>, Seq<char>)>,
    pub events: Seq<Transaction>,
}

impl View for Registry {
    type V = RegistryView;

    closed spec fn view(&self) -> RegistryView {
        RegistryView {
            admin: self.admin,
            next_id: self.next_id,
            entities: self.entities@.map_values(|e: Entity| e@),
            entity_list: self.entity_list@,
            roles: self.roles@,
            attributes: self.attributes@.map_values(
                |t: (u32, String, String)| ((t.0, t.1@), t.2@),
            ),
            config: self.config@.map_values(|t: (String, String)| (t.0@, t.1@)),
            events: self.events@,
        }
    }
}

impl RegistryView {
    /// The registry of a fresh store: nothing recorded yet.
    pub open spec fn empty() -> RegistryView {
        RegistryView {
            admin: Option::None,
            next_id: 1,
            entities: Seq::empty(),
            entity_list: Seq::empty(),
            roles: Seq::empty(),
            attributes: Seq::empty(),
            config: Seq::empty(),
            events: Seq::empty(),
        }
    }

    /// The admin marker is present: `initialize` has completed once.
    pub open spec fn initialized(self) -> bool {
        self.admin is Some
    }

    /// The role held by `a`: the stored binding, or `NoAccess` where none
    /// was ever written.
    pub open spec fn role_of(self, a: Address) -> Role {
        match assoc_lookup(self.roles, a) {
            Option::Some(r) => r,
            Option::None => Role::NoAccess,
        }
    }

    /// An entity with id `id` exists.
    pub open spec fn has_entity(self, id: u32) -> bool {
        1 <= id && id as int <= self.entities.len()
    }

    /// The entity with id `id`.
    pub open spec fn entity_at(self, id: u32) -> EntityView
        recommends
            self.has_entity(id),
    {
        self.entities[id as int - 1]
    }

    /// The attribute value stored under `(id, key)`, or empty text where
    /// none was ever written.
    pub open spec fn attr_of(self, id: u32, key: Seq<char>) -> Seq<char> {
        match assoc_lookup(self.attributes, (id, key)) {
            Option::Some(v) => v,
            Option::None => Seq::empty(),
        }
    }

    /// The configuration value stored under `key`, or empty text where none
    /// was ever written.
    pub open spec fn config_of(self, key: Seq<char>) -> Seq<char> {
        match assoc_lookup(self.config, key) {
            Option::Some(v) => v,
            Option::None => Seq::empty(),
        }
    }

    /// Well-formedness: ids are assigned 1, 2, 3, ... in creation order, the
    /// entity index mirrors them exactly, timestamps never run backwards,
    /// each table binds a key at most once, and before initialization
    /// nothing is recorded.
    pub open spec fn wf(self) -> bool {
        &&& self.next_id as int == self.entities.len() + 1
        &&& self.entity_list.len() == self.entities.len()
        &&& forall|i: int|
            0 <= i < self.entities.len() ==> (#[trigger] self.entities[i]).id as int == i + 1
        &&& forall|i: int|
            0 <= i < self.entity_list.len() ==> (#[trigger] self.entity_list[i]) as int == i + 1
        &&& forall|i: int|
            0 <= i < self.entities.len() ==> (#[trigger] self.entities[i]).updated_at
                >= self.entities[i].created_at
        &&& keys_unique(self.roles)
        &&& keys_unique(self.attributes)
        &&& keys_unique(self.config)
        &&& !self.initialized() ==> {
            &&& self.entities.len() == 0
            &&& self.roles.len() == 0
            &&& self.attributes.len() == 0
            &&& self.config.len() == 0
        }
    }
}

impl Registry {
    /// A fresh store: no admin marker, no entities, no bindings, no audit
    /// records, and the id counter at its initial value.
    pub fn new() -> (r: Registry)
        ensures
            r@ =~= RegistryView::empty(),
            r@.wf(),
    {
        Registry {
            admin: Option::None,
            next_id: 1,
            entities: Vec::new(),
            entity_list: Vec::new(),
            roles: Vec::new(),
            attributes: Vec::new(),
            config: Vec::new(),
            events: Vec::new(),
        }
    }

    /// Whether the admin marker is present.
    pub(crate) fn has_admin_marker(&self) -> (r: bool)
        ensures
            r == self@.initialized(),
    {
        self.admin.is_some()
    }

    /// Records the admin marker, resets the id counter and the entity
    /// index. Only `initialize` calls this, on an uninitialized store.
    pub(crate) fn init_markers(&mut self, admin: Address)
        requires
            old(self)@.wf(),
            !old(self)@.initialized(),
        ensures
            final(self)@.wf(),
            final(self)@.initialized(),
            final(self)@ =~= (RegistryView { admin: Option::Some(admin), ..old(self)@ }),
    {
        self.admin = Option::Some(admin);
        self.next_id = 1;
        self.entity_list = Vec::new();
        proof {
            assert(self@.entity_list =~= old(self)@.entity_list);
        }
    }

    /// The index of the binding of `a` in the role table, if any.
    fn find_role_index(&self, a: Address) -> (r: Option<usize>)
        ensures
            match r {
                Option::Some(i) => {
                    &&& i < self@.roles.len()
                    &&& self@.roles[i as int].0 == a
                    &&& forall|j: int| 0 <= j < i ==> self@.roles[j].0 != a
                },
                Option::None => forall|j: int|
                    0 <= j < self@.roles.len() ==> self@.roles[j].0 != a,
            },
    {
        let n = self.roles.len();
        let mut i: usize = 0;
        while i < n
            invariant
                n == self.roles.len(),
                i <= n,
                forall|j: int| 0 <= j < i ==> self.roles@[j].0 != a,
            decreases n - i,
        {
            if self.roles[i].0 == a {
                return Option::Some(i);
            }
            i += 1;
        }
        Option::None
    }

    /// The stored role of `a`, defaulting to `NoAccess`.
    pub(crate) fn lookup_role(&self, a: Address) -> (r: Role)
        ensures
            r == self@.role_of(a),
    {
        match self.find_role_index(a) {
            Option::Some(i) => {
                proof {
                    lemma_lookup_at(self@.roles, a, i as int);
                }
                self.roles[i].1
            },
            Option::None => {
                proof {
                    lemma_lookup_absent(self@.roles, a);
                }
                Role::NoAccess
            },
        }
    }

    /// Binds `a` to `role`, overwriting any earlier binding. Leaves every
    /// other identity's role and all other state untouched.
    pub(crate) fn store_role(&mut self, a: Address, role: Role)
        requires
            old(self)@.wf(),
            old(self)@.initialized(),
        ensures
            final(self)@.wf(),
            final(self)@.role_of(a) == role,
            forall|b: Address| b != a ==> final(self)@.role_of(b) == old(self)@.role_of(b),
            final(self)@ == (RegistryView { roles: final(self)@.roles, ..old(self)@ }),
    {
        let ghost prev = self@.roles;
        match self.find_role_index(a) {
            Option::Some(i) => {
                self.roles[i] = (a, role);
                proof {
                    assert(self@.roles =~= prev.update(i as int, (a, role)));
                    lemma_lookup_update(prev, i as int, a, role, a);
                    assert forall|b: Address| b != a implies self@.role_of(b) == old(
                        self,
                    )@.role_of(b) by {
                        lemma_lookup_update(prev, i as int, a, role, b);
                    }
                    assert(forall|j: int|
                        0 <= j < self@.roles.len() ==> self@.roles[j].0 == prev[j].0);
                    assert(keys_unique(self@.roles));
                }
            },
            Option::None => {
                self.roles.push((a, role));
                proof {
                    assert(self@.roles =~= prev.push((a, role)));
                    lemma_lookup_push(prev, a, role, a);
                    assert forall|b: Address| b != a implies self@.role_of(b) == old(
                        self,
                    )@.role_of(b) by {
                        lemma_lookup_push(prev, a, role, b);
                    }
                    assert(keys_unique(self@.roles));
                }
            },
        }
        proof {
            assert(self@ == (RegistryView { roles: self@.roles, ..old(self)@ }));
        }
    }

    /// The index of the binding of `key` in the configuration table, if any.
    fn find_config_index(&self, key: &String) -> (r: Option<usize>)
        ensures
            match r {
                Option::Some(i) => {
                    &&& i < self@.config.len()
                    &&& self@.config[i as int].0 == key@
                    &&& forall|j: int| 0 <= j < i ==> self@.config[j].0 != key@
                },
                Option::None => forall|j: int|
                    0 <= j < self@.config.len() ==> self@.config[j].0 != key@,
            },
    {
        let n = self.config.len();
        let mut i: usize = 0;
        while i < n
            invariant
                n == self.config.len(),
                i <= n,
                forall|j: int| 0 <= j < i ==> self@.config[j].0 != key@,
            decreases n - i,
        {
            if self.config[i].0 == *key {
                return Option::Some(i);
            }
            proof {
                assert(self@.config[i as int].0 == self.config@[i as int].0@);
            }
            i += 1;
        }
        Option::None
    }

    /// The configuration value under `key`, defaulting to empty text.
    pub(crate) fn read_config(&self, key: &String) -> (r: String)
        ensures
            r@ == self@.config_of(key@),
    {
        match self.find_config_index(key) {
            Option::Some(i) => {
                proof {
                    lemma_lookup_at(self@.config, key@, i as int);
                }
                self.config[i].1.clone()
            },
            Option::None => {
                proof {
                    lemma_lookup_absent(self@.config, key@);
                }
                String::new()
            },
        }
    }

    /// Binds `key` to `value` in the configuration table, overwriting any
    /// earlier binding. Leaves every other entry and all other state
    /// untouched.
    pub(crate) fn store_config(&mut self, key: String, value: String)
        requires
            old(self)@.wf(),
            old(self)@.initialized(),
        ensures
            final(self)@.wf(),
            final(self)@.config_of(key@) == value@,
            forall|k2: Seq<char>| k2 != key@ ==> final(self)@.config_of(k2) == old(
                self,
            )@.config_of(k2),
            final(self)@ == (RegistryView { config: final(self)@.config, ..old(self)@ }),
    {
        let ghost prev = self@.config;
        let ghost k = key@;
        let ghost v = value@;
        match self.find_config_index(&key) {
            Option::Some(i) => {
                self.config[i] = (key, value);
                proof {
                    assert(self@.config =~= prev.update(i as int, (k, v)));
                    lemma_lookup_update(prev, i as int, k, v, k);
                    assert forall|k2: Seq<char>| k2 != k implies self@.config_of(k2) == old(
                        self,
                    )@.config_of(k2) by {
                        lemma_lookup_update(prev, i as int, k, v, k2);
                    }
                    assert(forall|j: int|
                        0 <= j < self@.config.len() ==> self@.config[j].0 == prev[j].0);
                    assert(keys_unique(self@.config));
                }
            },
            Option::None => {
                self.config.push((key, value));
                proof {
                    assert(self@.config =~= prev.push((k, v)));
                    lemma_lookup_push(prev, k, v, k);
                    assert forall|k2: Seq<char>| k2 != k implies self@.config_of(k2) == old(
                        self,
                    )@.config_of(k2) by {
                        lemma_lookup_push(prev, k, v, k2);
                    }
                    assert(keys_unique(self@.config));
                }
            },
        }
        proof {
            assert(self@ == (RegistryView { config: self@.config, ..old(self)@ }));
        }
    }

    /// The index of the binding of `(id, key)` in the attribute table, if
    /// any.
    fn find_attr_index(&self, id: u32, key: &String) -> (r: Option<usize>)
        ensures
            match r {
                Option::Some(i) => {
                    &&& i < self@.attributes.len()
                    &&& self@.attributes[i as int].0 == (id, key@)
                    &&& forall|j: int| 0 <= j < i ==> self@.attributes[j].0 != (id, key@)
                },
                Option::None => forall|j: int|
                    0 <= j < self@.attributes.len() ==> self@.attributes[j].0 != (id, key@),
            },
    {
        let n = self.attributes.len();
        let mut i: usize = 0;
        while i < n
            invariant
                n == self.attributes.len(),
                i <= n,
                forall|j: int| 0 <= j < i ==> self@.attributes[j].0 != (id, key@),
            decreases n - i,
        {
            if self.attributes[i].0 == id && self.attributes[i].1 == *key {
                proof {
                    assert(self@.attributes[i as int].0 == (id, key@));
                }
                return Option::Some(i);
            }
            proof {
                assert(self@.attributes[i as int].0 == (
                    self.attributes@[i as int].0,
                    self.attributes@[i as int].1@,
                ));
            }
            i += 1;
        }
        Option::None
    }

    /// The attribute value under `(id, key)`, defaulting to empty text.
    pub(crate) fn read_attr(&self, id: u32, key: &String) -> (r: String)
        ensures
            r@ == self@.attr_of(id, key@),
    {
        match self.find_attr_index(id, key) {
            Option::Some(i) => {
                proof {
                    lemma_lookup_at(self@.attributes, (id, key@), i as int);
                }
                self.attributes[i].2.clone()
            },
            Option::None => {
                proof {
                    lemma_lookup_absent(self@.attributes, (id, key@));
                }
                String::new()
            },
        }
    }

    /// Binds `(id, key)` to `value` in the attribute table, overwriting any
    /// earlier binding. Leaves every other attribute and all other state
    /// untouched.
    pub(crate) fn store_attr(&mut self, id: u32, key: String, value: String)
        requires
            old(self)@.wf(),
            old(self)@.initialized(),
        ensures
            final(self)@.wf(),
            final(self)@.attr_of(id, key@) == value@,
            forall|id2: u32, k2: Seq<char>|
                !(id2 == id && k2 == key@) ==> final(self)@.attr_of(id2, k2) == old(
                    self,
                )@.attr_of(id2, k2),
            final(self)@ == (RegistryView { attributes: final(self)@.attributes, ..old(self)@ }),
    {
        let ghost prev = self@.attributes;
        let ghost k = (id, key@);
        let ghost v = value@;
        match self.find_attr_index(id, &key) {
            Option::Some(i) => {
                self.attributes[i] = (id, key, value);
                proof {
                    assert(self@.attributes =~= prev.update(i as int, (k, v)));
                    lemma_lookup_update(prev, i as int, k, v, k);
                    assert forall|id2: u32, k2: Seq<char>|
                        !(id2 == id && k2 == key@) implies self@.attr_of(id2, k2) == old(
                        self,
                    )@.attr_of(id2, k2) by {
                        lemma_lookup_update(prev, i as int, k, v, (id2, k2));
                    }
                    assert(forall|j: int|
                        0 <= j < self@.attributes.len() ==> self@.attributes[j].0 == prev[j].0);
                    assert(keys_unique(self@.attributes));
                }
            },
            Option::None => {
                self.attributes.push((id, key, value));
                proof {
                    assert(self@.attributes =~= prev.push((k, v)));
                    lemma_lookup_push(prev, k, v, k);
                    assert forall|id2: u32, k2: Seq<char>|
                        !(id2 == id && k2 == key@) implies self@.attr_of(id2, k2) == old(
                        self,
                    )@.attr_of(id2, k2) by {
                        lemma_lookup_push(prev, k, v, (id2, k2));
                    }
                    assert(keys_unique(self@.attributes));
                }
            },
        }
        proof {
            assert(self@ == (RegistryView { attributes: self@.attributes, ..old(self)@ }));
        }
    }

    /// The id the next created entity will receive.
    pub(crate) fn next_id_value(&self) -> (r: u32)
        ensures
            r == self@.next_id,
    {
        self.next_id
    }

    /// Whether an entity with id `id` exists.
    pub(crate) fn entity_exists(&self, id: u32) -> (r: bool)
        ensures
            r == self@.has_entity(id),
    {
        id >= 1 && (id as usize) <= self.entities.len()
    }

    /// A copy of the entity with id `id`.
    pub(crate) fn read_entity(&self, id: u32) -> (r: Entity)
        requires
            self@.has_entity(id),
        ensures
            r@ == self@.entity_at(id),
    {
        self.entities[(id as usize) - 1].clone()
    }

    /// Overwrites the record of entity `id` with `e`, which must keep the
    /// id and a timestamp order the invariant allows. Leaves every other
    /// entity and all other state untouched.
    pub(crate) fn write_entity(&mut self, id: u32, e: Entity)
        requires
            old(self)@.wf(),
            old(self)@.has_entity(id),
            e@.id == id,
            e@.updated_at >= e@.created_at,
        ensures
            final(self)@.wf(),
            final(self)@.entities =~= old(self)@.entities.update(id as int - 1, e@),
            final(self)@ == (RegistryView { entities: final(self)@.entities, ..old(self)@ }),
    {
        let ghost ev = e@;
        self.entities[(id as usize) - 1] = e;
        proof {
            assert(self@.entities =~= old(self)@.entities.update(id as int - 1, ev));
            assert(self@ == (RegistryView { entities: self@.entities, ..old(self)@ }));
        }
    }

    /// Appends a freshly created entity: its record, its id in the entity
    /// index, and the bumped id counter, all in one step.
    pub(crate) fn insert_new_entity(&mut self, e: Entity)
        requires
            old(self)@.wf(),
            old(self)@.initialized(),
            old(self)@.next_id < u32::MAX,
            e@.id == old(self)@.next_id,
            e@.updated_at >= e@.created_at,
        ensures
            final(self)@.wf(),
            final(self)@.entities =~= old(self)@.entities.push(e@),
            final(self)@.entity_list =~= old(self)@.entity_list.push(old(self)@.next_id),
            final(self)@.next_id == old(self)@.next_id + 1,
            final(self)@ == (RegistryView {
                entities: final(self)@.entities,
                entity_list: final(self)@.entity_list,
                next_id: final(self)@.next_id,
                ..old(self)@
            }),
    {
        let ghost ev = e@;
        let id = e.id;
        self.entities.push(e);
        self.entity_list.push(id);
        self.next_id = self.next_id + 1;
        proof {
            assert(self@.entities =~= old(self)@.entities.push(ev));
            assert(self@.entity_list =~= old(self)@.entity_list.push(id));
        }
    }

    /// A copy of the entity index, in creation order.
    pub(crate) fn read_entity_list(&self) -> (r: Vec<u32>)
        ensures
            r@ =~= self@.entity_list,
    {
        let n = self.entity_list.len();
        let mut out: Vec<u32> = Vec::new();
        let mut i: usize = 0;
        while i < n
            invariant
                n == self.entity_list.len(),
                i <= n,
                out@.len() == i,
                forall|j: int| 0 <= j < i ==> out@[j] == self.entity_list@[j],
            decreases n - i,
        {
            out.push(self.entity_list[i]);
            i += 1;
        }
        out
    }

    /// Appends one audit record to the emitted stream.
    pub(crate) fn push_event(&mut self, t: Transaction)
        requires
            old(self)@.wf(),
        ensures
            final(self)@.wf(),
            final(self)@.events =~= old(self)@.events.push(t),
            final(self)@ == (RegistryView { events: final(self)@.events, ..old(self)@ }),
    {
        self.events.push(t);
        proof {
            assert(self@.events =~= old(self)@.events.push(t));
        }
    }

    /// A copy of the audit records emitted so far, in emission order.
    pub fn event_log(&self) -> (r: Vec<Transaction>)
        ensures
            r@ =~= self@.events,
    {
        let n = self.events.len();
        let mut out: Vec<Transaction> = Vec::new();
        let mut i: usize = 0;
        while i < n
            invariant
                n == self.events.len(),
                i <= n,
                out@.len() == i,
                forall|j: int| 0 <= j < i ==> out@[j] == self.events@[j],
            decreases n - i,
        {
            out.push(self.events[i]);
            i += 1;
        }
        out
    }
}



} // verus!
