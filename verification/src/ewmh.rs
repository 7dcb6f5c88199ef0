//! Session hints: the root-window properties that publish this manager's
//! state to other session-aware clients.
//!
//! Every function here builds one property-replace request as a pure value;
//! nothing is cached besides the atom ids, so the published property can
//! never drift from what the workspace handed in.

use vstd::prelude::*;
use vstd::utf8::encode_utf8;
use crate::atoms::{spec_find, AtomManager};
use crate::command::{PropertyRequest, PropertyValue};

verus! {

/// Null-joined UTF-8 encoding of a string list: each name's UTF-8 bytes
/// followed by one zero byte.
pub open spec fn spec_null_joined(names: Seq<Seq<char>>) -> Seq<u8>
    decreases names.len(),
{
    if names.len() == 0 {
        Seq::empty()
    } else {
        spec_null_joined(names.drop_last()) + encode_utf8(names.last()) + seq![0u8]
    }
}

/// Encode a string list as null-joined UTF-8 bytes.
pub fn null_joined(names: &Vec<String>) -> (r: Vec<u8>)
    ensures
        r@ == spec_null_joined(names.deep_view()),
{
    let mut data: Vec<u8> = Vec::new();
    let mut i: usize = 0;
    proof {
        assert(names.deep_view().take(0) =~= Seq::<Seq<char>>::empty());
    }
    while i < names.len()
        invariant
            i <= names@.len(),
            names.deep_view().len() == names@.len(),
            forall|j: int|
                0 <= j < names@.len() ==> names.deep_view()[j] == (#[trigger] names@[j])@,
            data@ == spec_null_joined(names.deep_view().take(i as int)),
        decreases names@.len() - i,
    {
        proof {
            assert(names.deep_view().take(i + 1).drop_last() =~= names.deep_view().take(i as int));
            assert(names.deep_view().take(i + 1).last() == names.deep_view()[i as int]);
        }
        data.extend_from_slice(names[i].as_str().as_bytes());
        data.push(0);
        i = i + 1;
    }
    proof {
        assert(names.deep_view().take(names@.len() as int) =~= names.deep_view());
    }
    data
}

/// Helper for publishing session hints and for general property access.
/// Owns the atom cache; the transport layer interns the names listed by
/// [`required_atom_names`] at startup and records each reply here.
pub struct EWMHManager {
    /// The session root window, target of every hint.
    root: u32,
    /// Memoized atoms.
    atoms: AtomManager,
}

/// The property names the hint functions need interned.
pub fn required_atom_names() -> (r: Vec<String>)
    ensures
        r.deep_view() =~= seq![
            "_NET_SUPPORTED"@,
            "_NET_WM_NAME"@,
            "_NET_WM_PID"@,
            "_NET_CLIENT_LIST"@,
            "_NET_DESKTOP_NAMES"@,
            "_NET_NUMBER_OF_DESKTOPS"@,
            "_NET_ACTIVE_WINDOW"@,
            "UTF8_STRING"@,
        ],
{
    let mut names: Vec<String> = Vec::new();
    names.push("_NET_SUPPORTED".to_owned());
    names.push("_NET_WM_NAME".to_owned());
    names.push("_NET_WM_PID".to_owned());
    names.push("_NET_CLIENT_LIST".to_owned());
    names.push("_NET_DESKTOP_NAMES".to_owned());
    names.push("_NET_NUMBER_OF_DESKTOPS".to_owned());
    names.push("_NET_ACTIVE_WINDOW".to_owned());
    names.push("UTF8_STRING".to_owned());
    proof {
        assert(names.deep_view() =~= seq![
            "_NET_SUPPORTED"@,
            "_NET_WM_NAME"@,
            "_NET_WM_PID"@,
            "_NET_CLIENT_LIST"@,
            "_NET_DESKTOP_NAMES"@,
            "_NET_NUMBER_OF_DESKTOPS"@,
            "_NET_ACTIVE_WINDOW"@,
            "UTF8_STRING"@,
        ]);
    }
    names
}

impl EWMHManager {
    /// The atom recorded for a name, if any.
    pub closed spec fn spec_atom(&self, name: Seq<char>) -> Option<u32> {
        spec_find(self.atoms@, name)
    }

    /// The session root window.
    pub closed spec fn spec_root(&self) -> u32 {
        self.root
    }

    /// The atom cache is well formed.
    pub closed spec fn wf(&self) -> bool {
        self.atoms.wf()
    }

    /// Every atom the hint functions need is recorded.
    pub open spec fn has_hint_atoms(&self) -> bool {
        &&& self.spec_atom("_NET_SUPPORTED"@) is Some
        &&& self.spec_atom("_NET_WM_NAME"@) is Some
        &&& self.spec_atom("_NET_WM_PID"@) is Some
        &&& self.spec_atom("_NET_CLIENT_LIST"@) is Some
        &&& self.spec_atom("_NET_DESKTOP_NAMES"@) is Some
        &&& self.spec_atom("_NET_NUMBER_OF_DESKTOPS"@) is Some
        &&& self.spec_atom("_NET_ACTIVE_WINDOW"@) is Some
        &&& self.spec_atom("UTF8_STRING"@) is Some
    }

    /// A hint helper for the given session root, with an empty atom cache.
    pub fn new(root: u32) -> (r: Self)
        ensures
            r.wf(),
            r.spec_root() == root,
            forall|name: Seq<char>| r.spec_atom(name) is None,
    {
        Self { root, atoms: AtomManager::new() }
    }

    /// The session root window.
    pub fn get_root(&self) -> (r: u32)
        ensures
            r == self.spec_root(),
    {
        self.root
    }

    /// Record the server's reply to an intern request.  See
    /// [`AtomManager::record`]: a name, once recorded, keeps its first atom.
    pub fn record_atom(&mut self, name: &str, value: u32) -> (r: u32)
        requires
            old(self).wf(),
        ensures
            final(self).wf(),
            final(self).spec_root() == old(self).spec_root(),
            final(self).spec_atom(name@) == Some(r),
            old(self).spec_atom(name@) is Some ==> final(self)@ == old(self)@ && Some(r) == old(
                self,
            ).spec_atom(name@),
            old(self).spec_atom(name@) is None ==> r == value,
            forall|other: Seq<char>|
                old(self).spec_atom(other) is Some ==> final(self).spec_atom(other) == old(
                    self,
                ).spec_atom(other),
    {
        let ghost old_entries = self.atoms@;
        let r = self.atoms.record(name, value);
        proof {
            if spec_find(old_entries, name@) is None {
                assert forall|other: Seq<char>|
                    spec_find(old_entries, other) is Some implies spec_find(self.atoms@, other)
                    == spec_find(old_entries, other) by {
                    crate::atoms::lemma_find_extend(old_entries, self.atoms@, other);
                }
            }
        }
        r
    }

    /// The whole hint state, for relating calls in contracts.
    pub closed spec fn view(&self) -> Seq<crate::atoms::AtomEntry> {
        self.atoms@
    }

    /// Look an atom up in the cache.
    pub fn get_atom(&self, name: &str) -> (r: Option<u32>)
        ensures
            r == self.spec_atom(name@),
    {
        self.atoms.get(name)
    }

    /// A property-replace request carrying a list of atoms.
    pub fn set_property_atom(&self, window: u32, property: u32, values: Vec<u32>) -> (r:
        PropertyRequest)
        ensures
            r == (PropertyRequest { window, property, value: PropertyValue::Atoms(values) }),
    {
        PropertyRequest { window, property, value: PropertyValue::Atoms(values) }
    }

    /// A property-replace request carrying a list of 32-bit cardinals.
    pub fn set_property_cardinal(&self, window: u32, property: u32, values: Vec<u32>) -> (r:
        PropertyRequest)
        ensures
            r == (PropertyRequest { window, property, value: PropertyValue::Cardinals(values) }),
    {
        PropertyRequest { window, property, value: PropertyValue::Cardinals(values) }
    }

    /// A property-replace request carrying a list of window identifiers.
    pub fn set_property_window(&self, window: u32, property: u32, values: Vec<u32>) -> (r:
        PropertyRequest)
        ensures
            r == (PropertyRequest { window, property, value: PropertyValue::Windows(values) }),
    {
        PropertyRequest { window, property, value: PropertyValue::Windows(values) }
    }

    /// A property-replace request carrying a null-joined string list.
    pub fn set_property_string(&self, window: u32, property: u32, values: &Vec<String>) -> (r:
        PropertyRequest)
        requires
            self.spec_atom("UTF8_STRING"@) is Some,
        ensures
            r.window == window,
            r.property == property,
            r.value matches PropertyValue::Utf8 { type_atom, data } && Some(type_atom)
                == self.spec_atom("UTF8_STRING"@) && data@ == spec_null_joined(values.deep_view()),
    {
        let type_atom = self.get_atom("UTF8_STRING").unwrap();
        let data = null_joined(values);
        PropertyRequest { window, property, value: PropertyValue::Utf8 { type_atom, data } }
    }

    /// The protocols this manager supports, as atoms, in the order they are
    /// published under the supported-protocols hint.
    pub open spec fn spec_net_supported(&self) -> Seq<u32> {
        seq![
            self.spec_atom("_NET_WM_NAME"@)->Some_0,
            self.spec_atom("_NET_WM_PID"@)->Some_0,
            self.spec_atom("_NET_CLIENT_LIST"@)->Some_0,
            self.spec_atom("_NET_DESKTOP_NAMES"@)->Some_0,
            self.spec_atom("_NET_NUMBER_OF_DESKTOPS"@)->Some_0,
            self.spec_atom("_NET_ACTIVE_WINDOW"@)->Some_0,
        ]
    }

    /// The atoms of the supported protocols.
    pub fn get_net_supported(&self) -> (r: Vec<u32>)
        requires
            self.has_hint_atoms(),
        ensures
            r@ =~= self.spec_net_supported(),
    {
        let mut values: Vec<u32> = Vec::new();
        values.push(self.get_atom("_NET_WM_NAME").unwrap());
        values.push(self.get_atom("_NET_WM_PID").unwrap());
        values.push(self.get_atom("_NET_CLIENT_LIST").unwrap());
        values.push(self.get_atom("_NET_DESKTOP_NAMES").unwrap());
        values.push(self.get_atom("_NET_NUMBER_OF_DESKTOPS").unwrap());
        values.push(self.get_atom("_NET_ACTIVE_WINDOW").unwrap());
        values
    }

    /// Publish the supported-protocols hint.
    pub fn set_supported(&self) -> (r: PropertyRequest)
        requires
            self.has_hint_atoms(),
        ensures
            r.window == self.spec_root(),
            Some(r.property) == self.spec_atom("_NET_SUPPORTED"@),
            r.value matches PropertyValue::Atoms(v) && v@ =~= self.spec_net_supported(),
    {
        let property = self.get_atom("_NET_SUPPORTED").unwrap();
        self.set_property_atom(self.root, property, self.get_net_supported())
    }

    /// Publish the manager's name.
    pub fn set_name(&self, name: &str) -> (r: PropertyRequest)
        requires
            self.has_hint_atoms(),
        ensures
            r.window == self.spec_root(),
            Some(r.property) == self.spec_atom("_NET_WM_NAME"@),
            r.value matches PropertyValue::Utf8 { type_atom, data } && Some(type_atom)
                == self.spec_atom("UTF8_STRING"@) && data@ == spec_null_joined(seq![name@]),
    {
        let mut values: Vec<String> = Vec::new();
        values.push(name.to_owned());
        proof {
            assert(values.deep_view() =~= seq![name@]);
        }
        let property = self.get_atom("_NET_WM_NAME").unwrap();
        self.set_property_string(self.root, property, &values)
    }

    /// Publish the manager's process id.
    pub fn set_pid(&self, pid: u32) -> (r: PropertyRequest)
        requires
            self.has_hint_atoms(),
        ensures
            r.window == self.spec_root(),
            Some(r.property) == self.spec_atom("_NET_WM_PID"@),
            r.value matches PropertyValue::Cardinals(v) && v@ =~= seq![pid],
    {
        let mut values: Vec<u32> = Vec::new();
        values.push(pid);
        let property = self.get_atom("_NET_WM_PID").unwrap();
        self.set_property_cardinal(self.root, property, values)
    }

    /// Publish the desktop hints: how many virtual desktops exist and what
    /// they are called.
    pub fn update_desktops(&self, names: &Vec<String>) -> (r: Vec<PropertyRequest>)
        requires
            self.has_hint_atoms(),
            names@.len() <= u32::MAX,
        ensures
            r@.len() == 2,
            r@[0].window == self.spec_root(),
            Some(r@[0].property) == self.spec_atom("_NET_NUMBER_OF_DESKTOPS"@),
            r@[0].value matches PropertyValue::Cardinals(v) && v@ =~= seq![names@.len() as u32],
            r@[1].window == self.spec_root(),
            Some(r@[1].property) == self.spec_atom("_NET_DESKTOP_NAMES"@),
            r@[1].value matches PropertyValue::Utf8 { type_atom, data } && Some(type_atom)
                == self.spec_atom("UTF8_STRING"@) && data@ == spec_null_joined(names.deep_view()),
    {
        let mut count: Vec<u32> = Vec::new();
        count.push(names.len() as u32);
        let count_property = self.get_atom("_NET_NUMBER_OF_DESKTOPS").unwrap();
        let names_property = self.get_atom("_NET_DESKTOP_NAMES").unwrap();
        let mut r: Vec<PropertyRequest> = Vec::new();
        r.push(self.set_property_cardinal(self.root, count_property, count));
        r.push(self.set_property_string(self.root, names_property, names));
        r
    }

    /// Publish which window is active; `None` publishes the protocol's null
    /// window.
    pub fn update_active_window(&self, active: Option<u32>) -> (r: PropertyRequest)
        requires
            self.has_hint_atoms(),
        ensures
            r.window == self.spec_root(),
            Some(r.property) == self.spec_atom("_NET_ACTIVE_WINDOW"@),
            r.value matches PropertyValue::Windows(v) && v@ =~= seq![
                match active {
                    Some(w) => w,
                    None => 0u32,
                },
            ],
    {
        let win = match active {
            Some(w) => w,
            None => 0,
        };
        let mut values: Vec<u32> = Vec::new();
        values.push(win);
        let property = self.get_atom("_NET_ACTIVE_WINDOW").unwrap();
        self.set_property_window(self.root, property, values)
    }

    /// Publish the ordered list of managed clients.
    pub fn update_client_list(&self, clients: &Vec<u32>) -> (r: PropertyRequest)
        requires
            self.has_hint_atoms(),
        ensures
            r.window == self.spec_root(),
            Some(r.property) == self.spec_atom("_NET_CLIENT_LIST"@),
            r.value matches PropertyValue::Windows(v) && v@ == clients@,
    {
        let property = self.get_atom("_NET_CLIENT_LIST").unwrap();
        self.set_property_window(self.root, property, clients.clone())
    }
}

} // verus!
