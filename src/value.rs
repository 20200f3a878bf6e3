use vstd::prelude::*;

verus! {

broadcast use vstd::std_specs::vec::group_vec_axioms;

/// A decoded document, in the shape every supported format decodes into.
#[derive(Debug)]
pub enum Val {
    Null,
    Boolean(bool),
    Integer(i64),
    /// A 64-bit float, held as its IEEE-754 bit pattern.
    Float(u64),
    String(String),
    Array(Vec<Val>),
    /// String-keyed entries; a well-formed object has each key once.
    Object(Vec<(String, Val)>),
}

/// A node of the canonical configuration tree, tagged with the document it
/// came from.
#[derive(Debug)]
pub struct Node {
    pub origin: Option<String>,
    pub kind: NodeKind,
}

/// The shapes a canonical node can take.
#[derive(Debug)]
pub enum NodeKind {
    Nil,
    Boolean(bool),
    I64(i64),
    I128(i128),
    U64(u64),
    U128(u128),
    /// A 64-bit float, held as its IEEE-754 bit pattern.
    Float(u64),
    String(String),
    Array(Vec<Node>),
    Table(Vec<(String, Node)>),
}

/// No key occurs twice among the entries.
pub open spec fn keys_unique<T>(entries: Seq<(String, T)>) -> bool {
    forall|i: int, j: int|
        0 <= i < j < entries.len() ==> #[trigger] entries[i].0@ != #[trigger] entries[j].0@
}

/// The text of an optional identifier.
pub open spec fn text_of(o: Option<String>) -> Option<Seq<char>> {
    match o {
        Some(s) => Some(s@),
        None => None,
    }
}

/// The text of an optional borrowed identifier.
pub open spec fn text_of_ref(o: Option<&String>) -> Option<Seq<char>> {
    match o {
        Some(s) => Some(s@),
        None => None,
    }
}

impl Val {
    /// Every object in the tree has unique keys.
    pub open spec fn wf(self) -> bool
        decreases self,
    {
        match self {
            Val::Array(items) => forall|i: int| 0 <= i < items.len() ==> (#[trigger] items[i]).wf(),
            Val::Object(entries) => {
                &&& keys_unique(entries@)
                &&& forall|i: int| 0 <= i < entries.len() ==> (#[trigger] entries[i]).1.wf()
            },
            _ => true,
        }
    }
}

/// `n` is the canonical form of `v`, with every node tagged `origin`: same
/// shape, same leaves, same order of items and entries.
pub open spec fn normalizes(origin: Option<Seq<char>>, v: Val, n: Node) -> bool
    decreases v,
{
    &&& text_of(n.origin) == origin
    &&& match v {
        Val::Null => n.kind is Nil,
        Val::Boolean(b) => n.kind == NodeKind::Boolean(b),
        Val::Integer(i) => n.kind == NodeKind::I64(i),
        Val::Float(f) => n.kind == NodeKind::Float(f),
        Val::String(s) => n.kind is String && n.kind->String_0@ == s@,
        Val::Array(items) => n.kind is Array && {
            let nodes = n.kind->Array_0;
            &&& nodes.len() == items.len()
            &&& forall|i: int|
                0 <= i < items.len() ==> normalizes(origin, #[trigger] items[i], nodes[i])
        },
        Val::Object(entries) => n.kind is Table && {
            let table = n.kind->Table_0;
            &&& table.len() == entries.len()
            &&& forall|i: int|
                0 <= i < entries.len() ==> {
                    &&& (#[trigger] table[i]).0@ == entries[i].0@
                    &&& normalizes(origin, entries[i].1, table[i].1)
                }
        },
    }
}

fn copy_origin(uri: Option<&String>) -> (r: Option<String>)
    ensures
        text_of(r) == text_of_ref(uri),
{
    match uri {
        Some(s) => Some(s.clone()),
        None => None,
    }
}

/// Turns a decoded value into the canonical tree, tagging every node with
/// `uri`.
pub fn from_value(uri: Option<&String>, value: Val) -> (r: Node)
    requires
        value.wf(),
    ensures
        normalizes(text_of_ref(uri), value, r),
    decreases value,
{
    let ghost origin = text_of_ref(uri);
    let ghost v0 = value;
    proof {
        reveal_with_fuel(Val::wf, 2);
    }
    let kind = match value {
        Val::Null => NodeKind::Nil,
        Val::Boolean(b) => NodeKind::Boolean(b),
        Val::Integer(i) => NodeKind::I64(i),
        Val::Float(f) => NodeKind::Float(f),
        Val::String(s) => NodeKind::String(s),
        Val::Array(items) => {
            let ghost whole = items;
            let mut rest = items;
            let mut nodes: Vec<Node> = Vec::new();
            while rest.len() > 0
                invariant
                    v0 == Val::Array(whole),
                    v0.wf(),
                    v0 == value,
                    origin == text_of_ref(uri),
                    nodes.len() + rest.len() == whole.len(),
                    rest@ == whole@.subrange(nodes.len() as int, whole.len() as int),
                    forall|i: int|
                        0 <= i < nodes.len() ==> normalizes(origin, whole@[i], #[trigger] nodes@[i]),
                decreases rest.len(),
            {
                let ghost k = nodes.len() as int;
                let item = rest.remove(0);
                proof {
                    assert(item == v0->Array_0[k]);
                    assert(v0->Array_0[k].wf());
                    assert(decreases_to!(v0 => v0->Array_0));
                    assert(decreases_to!(v0->Array_0 => v0->Array_0[k]));
                    assert(decreases_to!(v0 => item));
                }
                let node = from_value(uri, item);
                nodes.push(node);
            }
            NodeKind::Array(nodes)
        },
        Val::Object(entries) => {
            let ghost whole = entries;
            let mut rest = entries;
            let mut table: Vec<(String, Node)> = Vec::new();
            while rest.len() > 0
                invariant
                    v0 == Val::Object(whole),
                    v0.wf(),
                    v0 == value,
                    origin == text_of_ref(uri),
                    table.len() + rest.len() == whole.len(),
                    rest@ == whole@.subrange(table.len() as int, whole.len() as int),
                    forall|i: int|
                        0 <= i < table.len() ==> {
                            &&& (#[trigger] table@[i]).0@ == whole@[i].0@
                            &&& normalizes(origin, whole@[i].1, table@[i].1)
                        },
                decreases rest.len(),
            {
                let ghost k = table.len() as int;
                let (key, item) = rest.remove(0);
                proof {
                    assert(key == v0->Object_0[k].0 && item == v0->Object_0[k].1);
                    assert(v0->Object_0[k].1.wf());
                    assert(decreases_to!(v0 => v0->Object_0));
                    assert(decreases_to!(v0->Object_0 => v0->Object_0[k]));
                    assert(decreases_to!(v0->Object_0[k] => v0->Object_0[k].1));
                    assert(decreases_to!(v0 => item));
                }
                let node = from_value(uri, item);
                table.push((key, node));
            }
            NodeKind::Table(table)
        },
    };
    Node { origin: copy_origin(uri), kind }
}

/// The keys of a list of entries.
pub open spec fn key_set<T>(entries: Seq<(String, T)>) -> Set<Seq<char>> {
    entries.map_values(|e: (String, T)| e.0@).to_set()
}

/// Every node of `n`, the root and all below it, carries `origin`.
pub open spec fn tagged_throughout(n: Node, origin: Option<Seq<char>>) -> bool
    decreases n,
{
    &&& text_of(n.origin) == origin
    &&& match n.kind {
        NodeKind::Array(nodes) => forall|i: int|
            0 <= i < nodes.len() ==> tagged_throughout(#[trigger] nodes[i], origin),
        NodeKind::Table(table) => forall|i: int|
            0 <= i < table.len() ==> tagged_throughout((#[trigger] table[i]).1, origin),
        _ => true,
    }
}

/// Normalizing keeps the shape: an array becomes an array of the same
/// length, an object a mapping with the same keys, and a leaf a leaf.
pub proof fn lemma_normalize_keeps_shape(origin: Option<Seq<char>>, v: Val, n: Node)
    requires
        normalizes(origin, v, n),
    ensures
        v is Array <==> n.kind is Array,
        v is Array ==> n.kind->Array_0.len() == v->Array_0.len(),
        v is Object <==> n.kind is Table,
        v is Object ==> n.kind->Table_0.len() == v->Object_0.len() && key_set(n.kind->Table_0@)
            == key_set(v->Object_0@),
{
    if v is Object {
        let entries = v->Object_0@;
        let table = n.kind->Table_0@;
        assert(table.map_values(|e: (String, Node)| e.0@) =~= entries.map_values(
            |e: (String, Val)| e.0@,
        ));
    }
}

/// Every node that normalizing produces carries the origin it was given.
pub proof fn lemma_normalize_tags_every_node(origin: Option<Seq<char>>, v: Val, n: Node)
    requires
        normalizes(origin, v, n),
    ensures
        tagged_throughout(n, origin),
    decreases v,
{
    match v {
        Val::Array(items) => {
            let nodes = n.kind->Array_0;
            assert forall|i: int| 0 <= i < nodes.len() implies tagged_throughout(
                #[trigger] nodes[i],
                origin,
            ) by {
                assert(decreases_to!(v => v->Array_0));
                assert(decreases_to!(v->Array_0 => v->Array_0[i]));
                lemma_normalize_tags_every_node(origin, items[i], nodes[i]);
            }
        },
        Val::Object(entries) => {
            let table = n.kind->Table_0;
            assert forall|i: int| 0 <= i < table.len() implies tagged_throughout(
                (#[trigger] table[i]).1,
                origin,
            ) by {
                assert(decreases_to!(v => v->Object_0));
                assert(decreases_to!(v->Object_0 => v->Object_0[i]));
                assert(decreases_to!(v->Object_0[i] => v->Object_0[i].1));
                lemma_normalize_tags_every_node(origin, entries[i].1, table[i].1);
            }
        },
        _ => {},
    }
}

} // verus!
