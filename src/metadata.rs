//! Per-function metadata of a guest module: the exported name and the node
//! that the function's annotation sends it to. Annotations are custom
//! sections named `.kafu_dest.<ident>.<dest>`, where `<ident>` is the name of
//! an export.
use vstd::prelude::*;

use crate::stack::str_equal;
use std::collections::HashMap;
use wasmparser::{BinaryReaderError, Parser, Payload};

verus! {

broadcast use vstd::std_specs::hash::group_hash_axioms;

#[verifier::external_type_specification]
#[verifier::external_body]
pub struct ExBinaryReaderError(BinaryReaderError);

/// Name and annotated destination of one function.
#[derive(Debug, Clone)]
pub struct KafuFunctionMetadata {
    pub name: Option<String>,
    /// Node named by the annotation; the actual destination may differ.
    pub dest: Option<String>,
}

/// Metadata of the annotated functions, by function index.
#[derive(Debug)]
pub struct KafuModuleMetadata {
    pub functions: HashMap<u32, KafuFunctionMetadata>,
}

/// Names and indices of a module's exports in order, if the module parses.
pub uninterp spec fn wasm_export_table(data: Seq<u8>) -> Option<Seq<(Seq<char>, u32)>>;

/// Names of a module's custom sections in order, if the module parses.
pub uninterp spec fn wasm_custom_section_names(data: Seq<u8>) -> Option<Seq<Seq<char>>>;

/// Exports as plain values.
pub open spec fn export_views(v: Seq<(String, u32)>) -> Seq<(Seq<char>, u32)> {
    Seq::new(v.len(), |k: int| (v[k].0@, v[k].1))
}

/// Strings as plain values.
pub open spec fn name_views(v: Seq<String>) -> Seq<Seq<char>> {
    Seq::new(v.len(), |k: int| v[k]@)
}

/// Relies on wasmparser's `Parser::parse_all` and export section reader:
/// the name and index of every export, in order; an error when the module
/// does not parse.
#[verifier::external_body]
fn read_exports(data: &[u8]) -> (r: Result<Vec<(String, u32)>, BinaryReaderError>)
    ensures
        r is Ok <==> wasm_export_table(data@) is Some,
        r is Ok ==> export_views(r->Ok_0@) == wasm_export_table(data@)->0,
{
    let mut out = Vec::new();
    for payload in Parser::new(0).parse_all(data) {
        if let Payload::ExportSection(section) = payload? {
            for export in section {
                let export = export?;
                out.push((export.name.to_string(), export.index));
            }
        }
    }
    Ok(out)
}

/// Relies on wasmparser's `Parser::parse_all` and custom section reader: the
/// name of every custom section, in order; an error when the module does not
/// parse.
#[verifier::external_body]
fn read_custom_section_names(data: &[u8]) -> (r: Result<Vec<String>, BinaryReaderError>)
    ensures
        r is Ok <==> wasm_custom_section_names(data@) is Some,
        r is Ok ==> name_views(r->Ok_0@) == wasm_custom_section_names(data@)->0,
{
    let mut out = Vec::new();
    for payload in Parser::new(0).parse_all(data) {
        if let Payload::CustomSection(section) = payload? {
            out.push(section.name().to_string());
        }
    }
    Ok(out)
}

pub open spec fn dest_prefix() -> Seq<char> {
    seq!['.', 'k', 'a', 'f', 'u', '_', 'd', 'e', 's', 't', '.']
}

/// Index of the first `.` in `s` at or after `i`, or `s.len()`.
pub open spec fn dot_from(s: Seq<char>, i: int) -> int
    decreases s.len() - i,
{
    if i < 0 || i >= s.len() {
        s.len() as int
    } else if s[i] == '.' {
        i
    } else {
        dot_from(s, i + 1)
    }
}

/// How a custom section name reads as an annotation.
#[derive(Debug, Clone)]
pub enum DestSectionName {
    /// Not an annotation.
    Other,
    /// Starts like an annotation but lacks the destination.
    Malformed,
    /// `.kafu_dest.<ident>.<dest>`; anything after a further `.` is ignored.
    Annotation { ident: String, dest: String },
}

/// The reading of a section name: `None` for no annotation, `Some(None)`
/// for a malformed one, `Some(Some((ident, dest)))` for an annotation.
pub open spec fn dest_reading(s: Seq<char>) -> Option<Option<(Seq<char>, Seq<char>)>> {
    if s.len() < 11 || s.subrange(0, 11) != dest_prefix() {
        None
    } else {
        let i1 = dot_from(s, 11);
        if i1 >= s.len() {
            Some(None)
        } else {
            let i2 = dot_from(s, i1 + 1);
            Some(Some((s.subrange(11, i1), s.subrange(i1 + 1, i2))))
        }
    }
}

fn find_dot(s: &str, len: usize, from: usize) -> (r: usize)
    requires
        len == s@.len(),
        from <= len,
    ensures
        r as int == dot_from(s@, from as int),
        from <= r <= len,
    decreases len - from,
{
    if from >= len {
        from
    } else if s.get_char(from) == '.' {
        from
    } else {
        find_dot(s, len, from + 1)
    }
}

/// Reads a custom section name as an annotation.
pub fn parse_dest_section_name(name: &str) -> (r: DestSectionName)
    ensures
        match dest_reading(name@) {
            None => r is Other,
            Some(None) => r is Malformed,
            Some(Some((i, d))) => r is Annotation && r->Annotation_ident@ == i && r->Annotation_dest@ == d,
        },
{
    let len = name.unicode_len();
    let prefix = ".kafu_dest.";
    proof {
        reveal_strlit(".kafu_dest.");
    }
    assert(prefix@ =~= dest_prefix());
    if len < 11 {
        return DestSectionName::Other;
    }
    let mut k: usize = 0;
    while k < 11
        invariant
            k <= 11,
            len == name@.len(),
            len >= 11,
            prefix@ == dest_prefix(),
            forall|j: int| 0 <= j < k ==> name@[j] == dest_prefix()[j],
        decreases 11 - k,
    {
        if name.get_char(k) != prefix.get_char(k) {
            assert(name@.subrange(0, 11)[k as int] != dest_prefix()[k as int]);
            return DestSectionName::Other;
        }
        k = k + 1;
    }
    assert(name@.subrange(0, 11) =~= dest_prefix());
    let i1 = find_dot(name, len, 11);
    if i1 >= len {
        return DestSectionName::Malformed;
    }
    let i2 = find_dot(name, len, i1 + 1);
    DestSectionName::Annotation {
        ident: name.substring_char(11, i1).to_owned(),
        dest: name.substring_char(i1 + 1, i2).to_owned(),
    }
}

/// Index of the last export named `name`, as a map of names would hold it.
pub open spec fn export_index(exports: Seq<(Seq<char>, u32)>, name: Seq<char>) -> Option<u32>
    decreases exports.len(),
{
    if exports.len() == 0 {
        None
    } else if exports.last().0 == name {
        Some(exports.last().1)
    } else {
        export_index(exports.drop_last(), name)
    }
}

/// Why the metadata of a module cannot be read.
#[derive(Debug, Clone, Copy, PartialEq, Eq, Structural)]
pub enum MetadataError {
    /// The module does not parse.
    Parse,
    /// An annotation lacks its destination.
    MalformedAnnotation,
    /// An annotation names no export.
    UnresolvedFunction,
}

/// The annotations among the first `n` section names, by function index,
/// as `(ident, dest)`; a later annotation of the same function wins.
pub open spec fn dest_map(exports: Seq<(Seq<char>, u32)>, names: Seq<Seq<char>>, n: int) -> Result<
    Map<u32, (Seq<char>, Seq<char>)>,
    MetadataError,
>
    decreases n,
{
    if n <= 0 {
        Ok(Map::empty())
    } else {
        match dest_map(exports, names, n - 1) {
            Err(e) => Err(e),
            Ok(m) => match dest_reading(names[n - 1]) {
                None => Ok(m),
                Some(None) => Err(MetadataError::MalformedAnnotation),
                Some(Some((ident, dest))) => match export_index(exports, ident) {
                    None => Err(MetadataError::UnresolvedFunction),
                    Some(idx) => Ok(m.insert(idx, (ident, dest))),
                },
            },
        }
    }
}

/// The metadata holds exactly the map `m`.
pub open spec fn metadata_matches(md: KafuModuleMetadata, m: Map<u32, (Seq<char>, Seq<char>)>) -> bool {
    &&& md.functions@.dom() == m.dom()
    &&& forall|k: u32|
        #[trigger] m.contains_key(k) ==> {
            &&& md.functions@[k].name is Some
            &&& md.functions@[k].name->0@ == m[k].0
            &&& md.functions@[k].dest is Some
            &&& md.functions@[k].dest->0@ == m[k].1
        }
}

fn find_export(exports: &Vec<(String, u32)>, name: &str) -> (r: Option<u32>)
    ensures
        r == export_index(export_views(exports@), name@),
{
    let mut k: usize = exports.len();
    assert(export_views(exports@).take(k as int) =~= export_views(exports@));
    while k > 0
        invariant
            k <= exports@.len(),
            export_index(export_views(exports@), name@) == export_index(
                export_views(exports@).take(k as int),
                name@,
            ),
        decreases k,
    {
        let ghost v = export_views(exports@).take(k as int);
        assert(v.drop_last() =~= export_views(exports@).take(k - 1));
        if str_equal(exports[k - 1].0.as_str(), name) {
            return Some(exports[k - 1].1);
        }
        k = k - 1;
    }
    None
}

/// Builds the metadata from a module's exports and custom section names.
pub fn build_metadata(exports: &Vec<(String, u32)>, names: &Vec<String>) -> (r: Result<KafuModuleMetadata, MetadataError>)
    ensures
        match dest_map(export_views(exports@), name_views(names@), names@.len() as int) {
            Ok(m) => r is Ok && metadata_matches(r->Ok_0, m),
            Err(e) => r == Err::<KafuModuleMetadata, MetadataError>(e),
        },
{
    let ghost ev = export_views(exports@);
    let ghost nv = name_views(names@);
    let mut functions: HashMap<u32, KafuFunctionMetadata> = HashMap::new();
    let mut k: usize = 0;
    assert(metadata_matches(KafuModuleMetadata { functions }, Map::empty())) by {
        assert(functions@.dom() =~= Map::<u32, (Seq<char>, Seq<char>)>::empty().dom());
    }
    while k < names.len()
        invariant
            ev == export_views(exports@),
            nv == name_views(names@),
            k <= names@.len(),
            dest_map(ev, nv, k as int) is Ok,
            metadata_matches(KafuModuleMetadata { functions }, dest_map(ev, nv, k as int)->Ok_0),
        decreases names@.len() - k,
    {
        let ghost m = dest_map(ev, nv, k as int)->Ok_0;
        match parse_dest_section_name(names[k].as_str()) {
            DestSectionName::Other => {},
            DestSectionName::Malformed => {
                proof {
                    lemma_dest_map_err_stays(ev, nv, k as int + 1, names@.len() as int);
                }
                return Err(MetadataError::MalformedAnnotation);
            },
            DestSectionName::Annotation { ident, dest } => {
                match find_export(exports, ident.as_str()) {
                    None => {
                        proof {
                            lemma_dest_map_err_stays(ev, nv, k as int + 1, names@.len() as int);
                        }
                        return Err(MetadataError::UnresolvedFunction);
                    },
                    Some(idx) => {
                        let ghost m2 = m.insert(idx, (ident@, dest@));
                        functions.insert(
                            idx,
                            KafuFunctionMetadata { name: Some(ident), dest: Some(dest) },
                        );
                        assert(functions@.dom() =~= m2.dom());
                    },
                }
            },
        }
        k = k + 1;
    }
    Ok(KafuModuleMetadata { functions })
}

proof fn lemma_dest_map_err_stays(
    exports: Seq<(Seq<char>, u32)>,
    names: Seq<Seq<char>>,
    k: int,
    n: int,
)
    requires
        1 <= k <= n,
        dest_map(exports, names, k) is Err,
    ensures
        dest_map(exports, names, n) == dest_map(exports, names, k),
    decreases n - k,
{
    if n > k {
        lemma_dest_map_err_stays(exports, names, k, n - 1);
    }
}

/// The metadata that a module binary yields.
pub open spec fn module_metadata(data: Seq<u8>) -> Result<Map<u32, (Seq<char>, Seq<char>)>, MetadataError> {
    match (wasm_export_table(data), wasm_custom_section_names(data)) {
        (Some(exports), Some(names)) => dest_map(exports, names, names.len() as int),
        _ => Err(MetadataError::Parse),
    }
}

/// Reads the metadata of a module binary: its exports, then its annotation sections.
pub fn go(data: &[u8]) -> (r: Result<KafuModuleMetadata, MetadataError>)
    ensures
        match module_metadata(data@) {
            Ok(m) => r is Ok && metadata_matches(r->Ok_0, m),
            Err(e) => r == Err::<KafuModuleMetadata, MetadataError>(e),
        },
{
    let exports = match read_exports(data) {
        Ok(e) => e,
        Err(_) => {
            return Err(MetadataError::Parse);
        },
    };
    let names = match read_custom_section_names(data) {
        Ok(n) => n,
        Err(_) => {
            return Err(MetadataError::Parse);
        },
    };
    build_metadata(&exports, &names)
}

/// A guest module: its binary and the metadata read from it once.
pub struct WasmModule {
    pub wasm: Vec<u8>,
    pub metadata: KafuModuleMetadata,
}

impl WasmModule {
    /// Reads the module's metadata; fails as `go` does.
    pub fn new(wasm: Vec<u8>) -> (r: Result<Self, MetadataError>)
        ensures
            match module_metadata(wasm@) {
                Ok(m) => r is Ok && r->Ok_0.wasm == wasm && metadata_matches(r->Ok_0.metadata, m),
                Err(e) => r is Err && r->Err_0 == e,
            },
    {
        match go(wasm.as_slice()) {
            Ok(metadata) => Ok(WasmModule { wasm, metadata }),
            Err(e) => Err(e),
        }
    }
}

} // verus!
