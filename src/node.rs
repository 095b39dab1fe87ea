use vstd::prelude::*;
use crate::access::AccessLevel;
use crate::value::{Value, ValueModel};

verus! {

/// The nodes that the device mounts.
#[derive(Clone, Copy, Debug, PartialEq, Eq, Structural)]
pub enum Node {
    Number,
    Text,
}

impl Node {
    /// The mount path of the node.
    pub open spec fn spec_path(self) -> Seq<char> {
        match self {
            Node::Number => "state/number"@,
            Node::Text => "state/text"@,
        }
    }

    pub fn path(&self) -> (r: &'static str)
        ensures
            r@ == self.spec_path(),
    {
        match self {
            Node::Number => "state/number",
            Node::Text => "state/text",
        }
    }
}

/// The node mounted at `path`, if any.
pub open spec fn spec_node_at(path: Seq<char>) -> Option<Node> {
    if path == Node::Number.spec_path() {
        Some(Node::Number)
    } else if path == Node::Text.spec_path() {
        Some(Node::Text)
    } else {
        None
    }
}

pub fn node_at(path: &str) -> (r: Option<Node>)
    ensures
        r == spec_node_at(path@),
{
    let p = path.to_owned();
    if p == Node::Number.path().to_owned() {
        Some(Node::Number)
    } else if p == Node::Text.path().to_owned() {
        Some(Node::Text)
    } else {
        None
    }
}

/// What a method does once it has been resolved.
#[derive(Clone, Copy, Debug, PartialEq, Eq, Structural)]
pub enum MethodKind {
    Getter,
    Setter,
}

/// One entry of a node's method table.
#[derive(Clone, Copy, Debug)]
pub struct MethodDescriptor {
    pub name: &'static str,
    pub kind: MethodKind,
    pub access: AccessLevel,
}

/// The mathematical model of a [`MethodDescriptor`].
pub struct MethodSpec {
    pub name: Seq<char>,
    pub kind: MethodKind,
    pub access: AccessLevel,
}

impl MethodDescriptor {
    pub open spec fn spec_model(self) -> MethodSpec {
        MethodSpec { name: self.name@, kind: self.kind, access: self.access }
    }
}

/// The method table of every node: `get` needs `Read`, `set` needs `Write`.
pub open spec fn spec_table() -> Seq<MethodSpec> {
    seq![
        MethodSpec { name: "get"@, kind: MethodKind::Getter, access: AccessLevel::Read },
        MethodSpec { name: "set"@, kind: MethodKind::Setter, access: AccessLevel::Write },
    ]
}

pub open spec fn table_model(t: Seq<MethodDescriptor>) -> Seq<MethodSpec> {
    t.map_values(|d: MethodDescriptor| d.spec_model())
}

pub fn method_table() -> (t: Vec<MethodDescriptor>)
    ensures
        table_model(t@) == spec_table(),
        forall|i: int, j: int| 0 <= i < j < t@.len() ==> t@[i].name@ != t@[j].name@,
{
    let t = vec![
        MethodDescriptor { name: "get", kind: MethodKind::Getter, access: AccessLevel::Read },
        MethodDescriptor { name: "set", kind: MethodKind::Setter, access: AccessLevel::Write },
    ];
    assert(table_model(t@) =~= spec_table());
    proof {
        reveal_strlit("get");
        reveal_strlit("set");
        assert("get"@[0] != "set"@[0]);
    }
    t
}

/// The first entry of `t`, from index `i` on, named `name`.
pub open spec fn lookup_from(t: Seq<MethodSpec>, name: Seq<char>, i: int) -> Option<MethodSpec>
    decreases t.len() - i,
{
    if i < 0 || i >= t.len() {
        None
    } else if t[i].name == name {
        Some(t[i])
    } else {
        lookup_from(t, name, i + 1)
    }
}

/// The first entry of `t` named `name`.
pub open spec fn spec_lookup(t: Seq<MethodSpec>, name: Seq<char>) -> Option<MethodSpec> {
    lookup_from(t, name, 0)
}

/// Finds the first entry of `table` named `name`.
pub fn find_method(table: &Vec<MethodDescriptor>, name: &str) -> (r: Option<MethodDescriptor>)
    ensures
        r.is_some() == spec_lookup(table_model(table@), name@).is_some(),
        r.is_some() ==> spec_lookup(table_model(table@), name@) == Some(r.unwrap().spec_model()),
{
    let ghost m = table_model(table@);
    let wanted = name.to_owned();
    let mut i: usize = 0;
    while i < table.len()
        invariant
            0 <= i <= table.len(),
            m == table_model(table@),
            wanted@ == name@,
            lookup_from(m, name@, i as int) == lookup_from(m, name@, 0),
        decreases table.len() - i,
    {
        let d = table[i];
        if d.name.to_owned() == wanted {
            return Some(d);
        }
        i = i + 1;
    }
    None
}

} // verus!

verus! {

/// `get` and `set` name the two entries of the method table, in that order.
pub proof fn lemma_table_lookup()
    ensures
        spec_lookup(spec_table(), "get"@) == Some(spec_table()[0]),
        spec_lookup(spec_table(), "set"@) == Some(spec_table()[1]),
{
    reveal_strlit("get");
    reveal_strlit("set");
    assert("get"@[0] != "set"@[0]);
    reveal_with_fuel(lookup_from, 3);
}

/// The two mount paths are told apart.
pub proof fn lemma_mount_paths()
    ensures
        spec_node_at("state/number"@) == Some(Node::Number),
        spec_node_at("state/text"@) == Some(Node::Text),
{
    reveal_strlit("state/number");
    reveal_strlit("state/text");
    assert("state/number"@.len() != "state/text"@.len());
}

} // verus!
