//! The parsing-side logic the analyses rely on: reading the storage-location
//! annotation out of a doc comment, and detecting the namespaced-storage
//! pattern from an annotated struct, its slot constant and its private
//! accessor.

use vstd::prelude::*;
use vstd::string::StrSliceExecFns;
use crate::ast::VarDeclNode;
use crate::models::FunctionDef;
use crate::names::is_substr;

verus! {

broadcast use crate::names::group_names_axioms;

/// The annotation token that marks a namespaced storage struct.
pub open spec fn annotation_token() -> Seq<char> {
    "@custom:storage-location"@
}

/// Whether a character counts as blank when trimming an annotation.
pub open spec fn is_blank(c: char) -> bool {
    c == ' ' || c == '\t' || c == '\r' || c == '\n'
}

/// The position of the first occurrence of `needle` in `hay` at or after `i`.
pub open spec fn find_first_spec(hay: Seq<char>, needle: Seq<char>, i: int) -> Option<int>
    decreases hay.len() + 1 - i,
{
    if i < 0 || i + needle.len() > hay.len() {
        None
    } else if hay.subrange(i, i + needle.len()) == needle {
        Some(i)
    } else {
        find_first_spec(hay, needle, i + 1)
    }
}

/// The index of the first non-blank character at or after `i`.
pub open spec fn skip_blanks(s: Seq<char>, i: int) -> int
    decreases s.len() - i,
{
    if i < 0 || i >= s.len() {
        i
    } else if is_blank(s[i]) {
        skip_blanks(s, i + 1)
    } else {
        i
    }
}

/// The index after the last non-blank character before `j`.
pub open spec fn trim_end_blanks(s: Seq<char>, j: int) -> int
    decreases j,
{
    if j <= 0 {
        0
    } else if 0 <= j - 1 < s.len() && is_blank(s[j - 1]) {
        trim_end_blanks(s, j - 1)
    } else {
        j
    }
}

/// A successful search points at an in-range occurrence of the needle.
pub proof fn lemma_find_first_at(hay: Seq<char>, needle: Seq<char>, i: int, j: int)
    requires
        find_first_spec(hay, needle, i) == Some(j),
    ensures
        i <= j,
        0 <= j,
        j + needle.len() <= hay.len(),
        hay.subrange(j, j + needle.len()) == needle,
    decreases hay.len() + 1 - i,
{
    if !(i < 0 || i + needle.len() > hay.len()) {
        if hay.subrange(i, i + needle.len()) != needle {
            lemma_find_first_at(hay, needle, i + 1, j);
        }
    }
}

/// Trimming from the end never moves past the start.
proof fn lemma_trim_end_le(s: Seq<char>, j: int)
    requires
        0 <= j,
    ensures
        0 <= trim_end_blanks(s, j) <= j,
    decreases j,
{
    if j > 0 && 0 <= j - 1 < s.len() && is_blank(s[j - 1]) {
        lemma_trim_end_le(s, j - 1);
    }
}

/// Whether the character at `i` is blank.
fn blank_at(s: &str, i: usize) -> (b: bool)
    requires
        i < s@.len(),
    ensures
        b == is_blank(s@[i as int]),
{
    let c = s.get_char(i);
    c == ' ' || c == '\t' || c == '\r' || c == '\n'
}

/// Find the first occurrence of `needle` inside `hay`.
pub fn find_substr(hay: &str, needle: &str) -> (r: Option<usize>)
    ensures
        match r {
            Some(i) => find_first_spec(hay@, needle@, 0) == Some(i as int),
            None => find_first_spec(hay@, needle@, 0) is None,
        },
        (r is Some) == is_substr(hay@, needle@),
{
    let hl = hay.unicode_len();
    let nl = needle.unicode_len();
    if nl > hl {
        assert(!is_substr(hay@, needle@));
        return None;
    }
    let mut i: usize = 0;
    while i <= hl - nl
        invariant
            nl <= hl,
            hl == hay@.len(),
            nl == needle@.len(),
            i <= hl - nl + 1,
            find_first_spec(hay@, needle@, 0) == find_first_spec(hay@, needle@, i as int),
            forall|ii: int|
                0 <= ii < i ==> #[trigger] hay@.subrange(ii, ii + needle@.len() as int)
                    != needle@,
        decreases hl + 1 - nl - i,
    {
        let mut j: usize = 0;
        let mut hit = true;
        while hit && j < nl
            invariant
                nl <= hl,
                hl == hay@.len(),
                nl == needle@.len(),
                i + nl <= hl,
                j <= nl,
                hit ==> forall|k: int| 0 <= k < j ==> hay@[i + k] == needle@[k],
                !hit ==> exists|k: int| 0 <= k < needle@.len() && hay@[i + k] != needle@[k],
            decreases (if hit { 1int } else { 0int }), nl - j,
        {
            if hay.get_char(i + j) != needle.get_char(j) {
                assert(hay@[i + j as int] != needle@[j as int]);
                hit = false;
            } else {
                j += 1;
            }
        }
        if hit {
            assert(hay@.subrange(i as int, i + needle@.len() as int) =~= needle@);
            return Some(i);
        } else {
            assert(hay@.subrange(i as int, i + needle@.len() as int) != needle@) by {
                let k = choose|k: int| 0 <= k < needle@.len() && hay@[i + k] != needle@[k];
                assert(hay@.subrange(i as int, i + needle@.len() as int)[k] == hay@[i + k]);
            }
        }
        i += 1;
    }
    assert(find_first_spec(hay@, needle@, 0) is None);
    assert(!is_substr(hay@, needle@)) by {
        assert(forall|ii: int|
            0 <= ii && ii + needle@.len() <= hay@.len() ==> #[trigger] hay@.subrange(
                ii,
                ii + needle@.len() as int,
            ) != needle@);
    }
    None
}

/// The annotation's payload: the text after the first occurrence of the
/// token, trimmed of surrounding blanks, when the token occurs and the
/// trimmed text is non-empty.
pub open spec fn trimmed_annotation_spec(comment: Seq<char>) -> Option<Seq<char>> {
    match find_first_spec(comment, annotation_token(), 0) {
        Some(i) => {
            let rest = comment.skip(i + annotation_token().len());
            let lo = skip_blanks(rest, 0);
            let hi = trim_end_blanks(rest, rest.len() as int);
            if lo < hi {
                Some(rest.subrange(lo, hi))
            } else {
                None
            }
        },
        None => None,
    }
}

/// The parsing-side helpers of the analysis pipeline.
#[derive(Debug)]
pub struct SolidityParser;

impl SolidityParser {
    /// Parse the storage-location annotation out of one doc-comment line: the
    /// text after the token's first occurrence, trimmed of surrounding
    /// blanks, exactly when the token occurs and that text is non-empty.
    pub fn parse_storage_location_comment(comment: &str) -> (r: Option<String>)
        ensures
            match r {
                Some(loc) => trimmed_annotation_spec(comment@) == Some(loc@),
                None => trimmed_annotation_spec(comment@) is None,
            },
    {
        let token = "@custom:storage-location";
        proof {
            reveal_strlit("@custom:storage-location");
        }
        let cl = comment.unicode_len();
        let pos = match find_substr(comment, token) {
            Some(i) => i,
            None => {
                return None;
            },
        };
        let tl = token.unicode_len();
        proof {
            lemma_find_first_at(comment@, annotation_token(), 0, pos as int);
        }
        let start = pos + tl;
        let ghost rest = comment@.skip(start as int);
        let mut lo: usize = start;
        while lo < cl && blank_at(comment, lo)
            invariant
                cl == comment@.len(),
                start <= lo <= cl,
                rest == comment@.skip(start as int),
                skip_blanks(rest, lo - start) == skip_blanks(rest, 0),
            decreases cl - lo,
        {
            assert(rest[lo - start] == comment@[lo as int]);
            lo += 1;
        }
        assert(skip_blanks(rest, 0) == lo - start) by {
            if lo < cl {
                assert(rest[lo - start] == comment@[lo as int]);
            }
        }
        let mut hi: usize = cl;
        while hi > lo && blank_at(comment, hi - 1)
            invariant
                cl == comment@.len(),
                start <= lo <= hi <= cl,
                rest == comment@.skip(start as int),
                trim_end_blanks(rest, hi - start) == trim_end_blanks(rest, rest.len() as int),
            decreases hi,
        {
            assert(rest[hi - 1 - start] == comment@[hi - 1]);
            hi -= 1;
        }
        if lo < hi {
            assert(trim_end_blanks(rest, rest.len() as int) == hi - start) by {
                assert(rest[hi - 1 - start] == comment@[hi - 1]);
            }
            let out = String::from_str(comment.substring_char(lo, hi));
            assert(out@ =~= rest.subrange(lo - start, hi - start));
            Some(out)
        } else {
            proof {
                lemma_trim_end_le(rest, lo - start);
            }
            None
        }
    }
}

/// The first struct of the contract carrying a storage-location annotation.
pub open spec fn annotated_struct_spec(
    structs: Seq<crate::models::StructDef>,
    i: int,
) -> Option<int>
    decreases structs.len() - i,
{
    if i < 0 || i >= structs.len() {
        None
    } else if structs[i].storage_location is Some {
        Some(i)
    } else {
        annotated_struct_spec(structs, i + 1)
    }
}

/// The first contract-level `bytes32` constant whose name holds a
/// `Storage`-like token: the slot constant of the namespaced-storage pattern.
pub open spec fn slot_constant_spec(vars: Seq<VarDeclNode>, i: int) -> Option<int>
    decreases vars.len() - i,
{
    if i < 0 || i >= vars.len() {
        None
    } else if vars[i].is_constant && vars[i].declared_type@ == "bytes32"@ && is_substr(
        vars[i].name@,
        "Storage"@,
    ) {
        Some(i)
    } else {
        slot_constant_spec(vars, i + 1)
    }
}

/// The first private function whose name holds both a `get`-like and a
/// `Storage`-like token: the accessor of the namespaced-storage pattern.
pub open spec fn accessor_spec(fns: Seq<FunctionDef>, i: int) -> Option<int>
    decreases fns.len() - i,
{
    if i < 0 || i >= fns.len() {
        None
    } else if is_substr(fns[i].name@, "get"@) && is_substr(fns[i].name@, "Storage"@)
        && fns[i].visibility@ == "private"@ {
        Some(i)
    } else {
        accessor_spec(fns, i + 1)
    }
}

/// The namespace of an annotation: the text after its first `:`, or the whole
/// annotation when it has none.
pub open spec fn namespace_of(loc: Seq<char>) -> Seq<char> {
    match find_first_spec(loc, ":"@, 0) {
        Some(p) => loc.skip(p + ":"@.len()),
        None => loc,
    }
}

/// An annotated-struct search that returns an index points at a struct with
/// an annotation.
proof fn lemma_annotated_at(structs: Seq<crate::models::StructDef>, i: int, j: int)
    requires
        annotated_struct_spec(structs, i) == Some(j),
    ensures
        0 <= j < structs.len(),
        structs[j].storage_location is Some,
    decreases structs.len() - i,
{
    if !(i < 0 || i >= structs.len()) {
        if structs[i].storage_location is None {
            lemma_annotated_at(structs, i + 1, j);
        }
    }
}

/// A slot-constant search that returns an index points at a matching
/// constant.
proof fn lemma_slot_at(vars: Seq<VarDeclNode>, i: int, j: int)
    requires
        slot_constant_spec(vars, i) == Some(j),
    ensures
        0 <= j < vars.len(),
    decreases vars.len() - i,
{
    if !(i < 0 || i >= vars.len()) {
        if !(vars[i].is_constant && vars[i].declared_type@ == "bytes32"@ && is_substr(
            vars[i].name@,
            "Storage"@,
        )) {
            lemma_slot_at(vars, i + 1, j);
        }
    }
}

/// An accessor search that returns an index points at a matching function.
proof fn lemma_accessor_at(fns: Seq<FunctionDef>, i: int, j: int)
    requires
        accessor_spec(fns, i) == Some(j),
    ensures
        0 <= j < fns.len(),
    decreases fns.len() - i,
{
    if !(i < 0 || i >= fns.len()) {
        if !(is_substr(fns[i].name@, "get"@) && is_substr(fns[i].name@, "Storage"@)
            && fns[i].visibility@ == "private"@) {
            lemma_accessor_at(fns, i + 1, j);
        }
    }
}

impl SolidityParser {
    /// Detect the namespaced-storage pattern. The result is `Some` exactly
    /// when the contract holds an annotated struct, a contract-level
    /// `bytes32` constant named like a storage location, and a private
    /// accessor function; the record then carries the first such struct,
    /// constant and accessor, with the namespace taken from the annotation
    /// after its first `:`.
    pub fn detect_upgradeable_storage(
        info: &crate::models::ContractInfo,
        ast: &crate::ast::ContractAst,
    ) -> (r: Option<crate::models::UpgradeableStorage>)
        ensures
            (r is Some) == (annotated_struct_spec(info.structs@, 0) is Some && slot_constant_spec(
                ast.variables@,
                0,
            ) is Some && accessor_spec(info.functions@, 0) is Some),
            r matches Some(us) ==> {
                let i = annotated_struct_spec(info.structs@, 0)->Some_0;
                let j = slot_constant_spec(ast.variables@, 0)->Some_0;
                let k = accessor_spec(info.functions@, 0)->Some_0;
                &&& us.storage_struct == info.structs@[i].name
                &&& us.struct_fields@ == info.structs@[i].members@
                &&& us.line_number == info.structs@[i].line_number
                &&& us.storage_location_constant == ast.variables@[j].name
                &&& us.storage_slot == ast.variables@[j].initializer_value
                &&& us.accessor_function == info.functions@[k].name
                &&& us.namespace@ == namespace_of(info.structs@[i].storage_location->Some_0@)
            },
    {
        let nstructs = info.structs.len();
        let mut sfound: Option<usize> = None;
        let mut si: usize = 0;
        while si < nstructs
            invariant
                si <= nstructs,
                nstructs == info.structs@.len(),
                match sfound {
                    Some(i) => annotated_struct_spec(info.structs@, 0) == Some(i as int) && i
                        < nstructs,
                    None => annotated_struct_spec(info.structs@, 0) == annotated_struct_spec(
                        info.structs@,
                        si as int,
                    ),
                },
            decreases nstructs - si,
        {
            if sfound.is_none() && info.structs[si].storage_location.is_some() {
                sfound = Some(si);
            }
            si += 1;
        }

        let nvars = ast.variables.len();
        let mut cfound: Option<usize> = None;
        let mut v: usize = 0;
        while v < nvars
            invariant
                v <= nvars,
                nvars == ast.variables@.len(),
                match cfound {
                    Some(j) => slot_constant_spec(ast.variables@, 0) == Some(j as int) && j
                        < nvars,
                    None => slot_constant_spec(ast.variables@, 0) == slot_constant_spec(
                        ast.variables@,
                        v as int,
                    ),
                },
            decreases nvars - v,
        {
            if cfound.is_none() {
                let var = &ast.variables[v];
                if var.is_constant && crate::names::text_is(&var.declared_type, "bytes32")
                    && crate::names::contains_substr(var.name.as_str(), "Storage") {
                    cfound = Some(v);
                }
            }
            v += 1;
        }

        let nfns = info.functions.len();
        let mut afound: Option<usize> = None;
        let mut f: usize = 0;
        while f < nfns
            invariant
                f <= nfns,
                nfns == info.functions@.len(),
                match afound {
                    Some(k) => accessor_spec(info.functions@, 0) == Some(k as int) && k < nfns,
                    None => accessor_spec(info.functions@, 0) == accessor_spec(
                        info.functions@,
                        f as int,
                    ),
                },
            decreases nfns - f,
        {
            if afound.is_none() {
                let func = &info.functions[f];
                if crate::names::contains_substr(func.name.as_str(), "get")
                    && crate::names::contains_substr(func.name.as_str(), "Storage")
                    && crate::names::text_is(&func.visibility, "private") {
                    afound = Some(f);
                }
            }
            f += 1;
        }

        let si = match sfound {
            Some(i) => i,
            None => {
                return None;
            },
        };
        let ci = match cfound {
            Some(j) => j,
            None => {
                return None;
            },
        };
        let ai = match afound {
            Some(k) => k,
            None => {
                return None;
            },
        };
        proof {
            lemma_annotated_at(info.structs@, 0, si as int);
            lemma_slot_at(ast.variables@, 0, ci as int);
            lemma_accessor_at(info.functions@, 0, ai as int);
        }
        let storage_location = match &info.structs[si].storage_location {
            Some(loc) => loc.clone(),
            None => {
                proof {
                    assert(false);
                }
                String::new()
            },
        };
        proof {
            reveal_strlit(":");
        }
        let loc_len = storage_location.as_str().unicode_len();
        let namespace = match find_substr(storage_location.as_str(), ":") {
            Some(p) => {
                proof {
                    lemma_find_first_at(storage_location@, ":"@, 0, p as int);
                }
                assert(p + 1 <= storage_location@.len());
                String::from_str(storage_location.as_str().substring_char(p + 1, loc_len))
            },
            None => storage_location.clone(),
        };
        assert(namespace@ =~= namespace_of(info.structs@[si as int].storage_location->Some_0@));

        let mut struct_fields: Vec<crate::models::StructMember> = Vec::new();
        let mut mi: usize = 0;
        while mi < info.structs[si].members.len()
            invariant
                si < info.structs@.len(),
                mi <= info.structs@[si as int].members@.len(),
                struct_fields@.len() == mi,
                forall|j: int|
                    0 <= j < mi ==> #[trigger] struct_fields@[j] == info.structs@[si as int]
                        .members@[j],
            decreases info.structs@[si as int].members@.len() - mi,
        {
            struct_fields.push(
                crate::models::StructMember {
                    name: info.structs[si].members[mi].name.clone(),
                    member_type: info.structs[si].members[mi].member_type.clone(),
                },
            );
            assert(struct_fields@[mi as int] == info.structs@[si as int].members@[mi as int]);
            mi += 1;
        }
        assert(struct_fields@ =~= info.structs@[si as int].members@);
        Some(
            crate::models::UpgradeableStorage {
                namespace,
                storage_struct: info.structs[si].name.clone(),
                storage_location_constant: ast.variables[ci].name.clone(),
                storage_slot: ast.variables[ci].initializer_value.clone(),
                accessor_function: info.functions[ai].name.clone(),
                struct_fields,
                line_number: info.structs[si].line_number,
            },
        )
    }
}

} // verus!
