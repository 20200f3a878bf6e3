use vstd::prelude::*;

use crate::root::{extract_root_table, root_outcome, Unexpected};
use crate::value::{from_value, normalizes, text_of_ref, Node, Val};

verus! {

/// Why a document could not be read as configuration.
#[derive(Debug)]
pub enum ParseError {
    /// The format's decoder refused the text; its message, unchanged.
    Decode(String),
    /// The text decoded, but its root is not a mapping.
    Unexpected(Unexpected),
}

/// `u` names the shape of the non-mapping root `v`.
pub open spec fn names_shape(u: Unexpected, v: Val) -> bool {
    match v {
        Val::Null => u is Unit,
        Val::Boolean(b) => u == Unexpected::Bool(b),
        Val::Integer(i) => u == Unexpected::I64(i),
        Val::Float(f) => u == Unexpected::Float(f),
        Val::String(s) => u is Str && u->Str_0@ == s@,
        Val::Array(_) => u is Sequence,
        Val::Object(_) => false,
    }
}

/// `table` holds the canonical form of each entry of `entries`, in order,
/// every node tagged `origin`.
pub open spec fn table_of(
    origin: Option<Seq<char>>,
    entries: Seq<(String, Val)>,
    table: Seq<(String, Node)>,
) -> bool {
    &&& table.len() == entries.len()
    &&& forall|i: int|
        0 <= i < entries.len() ==> {
            &&& (#[trigger] table[i]).0@ == entries[i].0@
            &&& normalizes(origin, entries[i].1, table[i].1)
        }
}

/// What reading a decoded document gives: the decoder's failure unchanged,
/// the root mapping's entries in canonical form, or the shape found at the
/// root in its place.
pub open spec fn parse_outcome(
    origin: Option<Seq<char>>,
    decoded: Result<Val, String>,
    r: Result<Vec<(String, Node)>, ParseError>,
) -> bool {
    match decoded {
        Err(e) => r == Err::<Vec<(String, Node)>, ParseError>(ParseError::Decode(e)),
        Ok(v) => match v {
            Val::Object(entries) => r is Ok && table_of(origin, entries@, r->Ok_0@),
            _ => r is Err && r->Err_0 is Unexpected && names_shape(r->Err_0->Unexpected_0, v),
        },
    }
}

/// The root of a document is a mapping exactly when the decoded value is an
/// object; otherwise the failure names the shape that stood there.
pub proof fn lemma_root_must_be_mapping(origin: Option<Seq<char>>, v: Val, n: Node)
    requires
        normalizes(origin, v, n),
    ensures
        root_outcome(n) is Ok <==> v is Object,
        v is Object ==> table_of(origin, v->Object_0@, root_outcome(n)->Ok_0@),
        !(v is Object) ==> names_shape(root_outcome(n)->Err_0, v),
{
}

/// Reads a decoded document as configuration: the decoder's failure is
/// passed on unchanged, and a decoded value is normalized with every node
/// tagged `uri` and must have a mapping at its root.
pub fn parse_decoded(uri: Option<&String>, decoded: Result<Val, String>) -> (r: Result<
    Vec<(String, Node)>,
    ParseError,
>)
    requires
        decoded is Ok ==> decoded->Ok_0.wf(),
    ensures
        parse_outcome(text_of_ref(uri), decoded, r),
{
    match decoded {
        Err(e) => Err(ParseError::Decode(e)),
        Ok(v) => {
            let ghost v0 = v;
            let node = from_value(uri, v);
            proof {
                lemma_root_must_be_mapping(text_of_ref(uri), v0, node);
            }
            match extract_root_table(node) {
                Ok(table) => Ok(table),
                Err(u) => Err(ParseError::Unexpected(u)),
            }
        },
    }
}

/// The texts of a list of extensions.
pub open spec fn texts(v: Seq<&str>) -> Seq<Seq<char>> {
    v.map_values(|s: &str| s@)
}

/// No upper-case ASCII letter occurs in `t`.
pub open spec fn is_lower(t: Seq<char>) -> bool {
    forall|k: int| 0 <= k < t.len() ==> !('A' <= #[trigger] t[k] <= 'Z')
}

/// A list of extensions that a format claims: not empty, lower case, and
/// without repeats.
pub open spec fn extensions_well_formed(exts: Seq<Seq<char>>) -> bool {
    &&& exts.len() > 0
    &&& forall|i: int| 0 <= i < exts.len() ==> is_lower(#[trigger] exts[i])
    &&& forall|i: int, j: int| 0 <= i < j < exts.len() ==> #[trigger] exts[i] != #[trigger] exts[j]
}

/// The Ason format.
#[derive(Debug, Clone, Copy)]
pub struct Ason;

/// The HashiCorp configuration language.
#[derive(Debug, Clone, Copy)]
pub struct Hcl;

/// Human JSON.
#[derive(Debug, Clone, Copy)]
pub struct Hjson;

/// Java properties files.
#[derive(Debug, Clone, Copy)]
pub struct Properties;

/// YAML, read by the maintained `serde_yaml` fork.
#[derive(Debug, Clone, Copy)]
pub struct YamlNg;

impl Ason {
    /// Reads a document that the Ason decoder turned into `decoded`.
    pub fn parse(&self, uri: Option<&String>, decoded: Result<Val, String>) -> (r: Result<
        Vec<(String, Node)>,
        ParseError,
    >)
        requires
            decoded is Ok ==> decoded->Ok_0.wf(),
        ensures
            parse_outcome(text_of_ref(uri), decoded, r),
    {
        parse_decoded(uri, decoded)
    }

    /// The file extensions of the format.
    pub fn file_extensions(&self) -> (r: Vec<&'static str>)
        ensures
            texts(r@) == seq!["ason"@],
            extensions_well_formed(texts(r@)),
    {
        let r = vec!["ason"];
        proof {
            reveal_strlit("ason");
            assert(texts(r@) =~= seq!["ason"@]);
        }
        r
    }
}

impl Hcl {
    /// Reads a document that the HCL decoder turned into `decoded`.
    pub fn parse(&self, uri: Option<&String>, decoded: Result<Val, String>) -> (r: Result<
        Vec<(String, Node)>,
        ParseError,
    >)
        requires
            decoded is Ok ==> decoded->Ok_0.wf(),
        ensures
            parse_outcome(text_of_ref(uri), decoded, r),
    {
        parse_decoded(uri, decoded)
    }

    /// The file extensions of the format.
    pub fn file_extensions(&self) -> (r: Vec<&'static str>)
        ensures
            texts(r@) == seq!["hcl"@],
            extensions_well_formed(texts(r@)),
    {
        let r = vec!["hcl"];
        proof {
            reveal_strlit("hcl");
            assert(texts(r@) =~= seq!["hcl"@]);
        }
        r
    }
}

impl Hjson {
    /// Reads a document that the Hjson decoder turned into `decoded`.
    pub fn parse(&self, uri: Option<&String>, decoded: Result<Val, String>) -> (r: Result<
        Vec<(String, Node)>,
        ParseError,
    >)
        requires
            decoded is Ok ==> decoded->Ok_0.wf(),
        ensures
            parse_outcome(text_of_ref(uri), decoded, r),
    {
        parse_decoded(uri, decoded)
    }

    /// The file extensions of the format.
    pub fn file_extensions(&self) -> (r: Vec<&'static str>)
        ensures
            texts(r@) == seq!["hjson"@],
            extensions_well_formed(texts(r@)),
    {
        let r = vec!["hjson"];
        proof {
            reveal_strlit("hjson");
            assert(texts(r@) =~= seq!["hjson"@]);
        }
        r
    }
}

impl Properties {
    /// Reads a document that the properties decoder turned into `decoded`.
    pub fn parse(&self, uri: Option<&String>, decoded: Result<Val, String>) -> (r: Result<
        Vec<(String, Node)>,
        ParseError,
    >)
        requires
            decoded is Ok ==> decoded->Ok_0.wf(),
        ensures
            parse_outcome(text_of_ref(uri), decoded, r),
    {
        parse_decoded(uri, decoded)
    }

    /// The file extensions of the format.
    pub fn file_extensions(&self) -> (r: Vec<&'static str>)
        ensures
            texts(r@) == seq!["properties"@],
            extensions_well_formed(texts(r@)),
    {
        let r = vec!["properties"];
        proof {
            reveal_strlit("properties");
            assert(texts(r@) =~= seq!["properties"@]);
        }
        r
    }
}

impl YamlNg {
    /// Reads a document that the YAML decoder turned into `decoded`.
    pub fn parse(&self, uri: Option<&String>, decoded: Result<Val, String>) -> (r: Result<
        Vec<(String, Node)>,
        ParseError,
    >)
        requires
            decoded is Ok ==> decoded->Ok_0.wf(),
        ensures
            parse_outcome(text_of_ref(uri), decoded, r),
    {
        parse_decoded(uri, decoded)
    }

    /// The file extensions of the format.
    pub fn file_extensions(&self) -> (r: Vec<&'static str>)
        ensures
            texts(r@) == seq!["yaml"@, "yml"@, "yaml_ng"@],
            extensions_well_formed(texts(r@)),
    {
        let r = vec!["yaml", "yml", "yaml_ng"];
        proof {
            reveal_strlit("yaml");
            reveal_strlit("yml");
            reveal_strlit("yaml_ng");
            assert(texts(r@) =~= seq!["yaml"@, "yml"@, "yaml_ng"@]);
            assert("yaml"@.len() != "yml"@.len());
            assert("yaml"@.len() != "yaml_ng"@.len());
            assert("yml"@.len() != "yaml_ng"@.len());
        }
        r
    }
}

} // verus!
