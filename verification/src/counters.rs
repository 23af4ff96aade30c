//! Counter-table decoding: validating raw entries, classifying their
//! semantics, and building fully-qualified sample names.

use vstd::prelude::*;

use crate::IntegrityError;

verus! {

/// How a counter's 64-bit value is meant to be read.
#[derive(Clone, Copy, Debug, PartialEq, Eq, Structural)]
pub enum Semantics {
    /// Bitmap value.
    Bitmap,
    /// Counter, never decreases.
    Counter,
    /// Gauge, goes up and down.
    Gauge,
    /// The semantics code was not one of the documented ones.
    Unknown,
}

/// The semantics a provider-side code byte denotes: `'b'`, `'c'` and `'g'`
/// are documented; every other code maps to `Unknown`.
pub open spec fn semantics_of(c: char) -> Semantics {
    if c == 'b' {
        Semantics::Bitmap
    } else if c == 'c' {
        Semantics::Counter
    } else if c == 'g' {
        Semantics::Gauge
    } else {
        Semantics::Unknown
    }
}

/// Classify a provider semantics code.
pub fn semantics_from_code(c: char) -> (s: Semantics)
    ensures
        s == semantics_of(c),
{
    if c == 'b' {
        Semantics::Bitmap
    } else if c == 'c' {
        Semantics::Counter
    } else if c == 'g' {
        Semantics::Gauge
    } else {
        Semantics::Unknown
    }
}

/// A counter's section, as exposed by the provider.
#[derive(Debug)]
pub struct VscSection {
    /// Instance identifier; empty for singleton sections.
    pub ident: String,
    /// Short description.
    pub sdesc: String,
    /// Long description.
    pub ldesc: String,
}

/// A counter's descriptor, as exposed by the provider.
#[derive(Debug)]
pub struct VscDesc {
    /// The counter's own name within its section.
    pub name: String,
    /// Semantics code byte; see [`semantics_of`].
    pub semantics: char,
    /// Format code byte, passed through uninterpreted.
    pub format: char,
    /// Short description.
    pub sdesc: String,
    /// Long description.
    pub ldesc: String,
}

/// One validated entry of the segment's counter table.
#[derive(Debug)]
pub struct VsmEntry {
    /// Section type, such as `"MAIN"` or `"VBE"`.
    pub t: String,
    /// Section instance identifier; may be empty.
    pub ident: String,
    /// The counter's current 64-bit value.
    pub value: u64,
    /// The counter's descriptor.
    pub desc: VscDesc,
    /// The counter's section.
    pub section: VscSection,
}

/// One item sampled from the counter table.
#[derive(Debug)]
pub struct Stats {
    /// Name constructed from the section type, the instance identifier when
    /// there is one, and the descriptor name.
    pub name: String,
    /// Value of that item.
    pub value: u64,
    /// Type of that item.
    pub semantics: Semantics,
}

/// A raw counter-table entry exactly as the provider hands it over, before
/// any validation.  The `fantom_*` fields come from the region the entry was
/// found in, the `section_*` fields from the entry's own section record; a
/// well-formed entry agrees on both.
pub struct RawPoint {
    /// Section class of the surrounding region; must be `"Stat"`.
    pub class: String,
    /// Section type as recorded in the region.
    pub fantom_typ: String,
    /// Instance identifier as recorded in the region.
    pub fantom_ident: String,
    /// Section type as recorded in the entry's section.
    pub section_typ: String,
    /// Instance identifier as recorded in the entry's section.
    pub section_ident: String,
    /// Short description of the section.
    pub section_sdesc: String,
    /// Long description of the section.
    pub section_ldesc: String,
    /// The counter's own name.
    pub name: String,
    /// C type label of the value; must be `"uint64_t"`.
    pub ctype: String,
    /// Semantics code byte.
    pub semantics: char,
    /// Format code byte.
    pub format: char,
    /// Short description of the counter.
    pub sdesc: String,
    /// Long description of the counter.
    pub ldesc: String,
    /// The value read from the table.
    pub value: u64,
}

/// The raw entry belongs to the "Stat" section class.
pub open spec fn has_stat_class(p: RawPoint) -> bool {
    p.class@ == "Stat"@
}

/// The raw entry's value is a 64-bit unsigned integer.
pub open spec fn has_u64_type(p: RawPoint) -> bool {
    p.ctype@ == "uint64_t"@
}

/// The raw entry's section record agrees with the region it was found in.
pub open spec fn section_consistent(p: RawPoint) -> bool {
    p.section_typ@ == p.fantom_typ@ && p.section_ident@ == p.fantom_ident@
}

/// A raw entry that passes every validity check.
pub open spec fn point_wf(p: RawPoint) -> bool {
    has_stat_class(p) && has_u64_type(p) && section_consistent(p)
}

/// The error a non-well-formed raw entry is rejected with: the first check
/// that fails, in validation order.
pub open spec fn point_err(p: RawPoint) -> IntegrityError {
    if !has_stat_class(p) {
        IntegrityError::WrongSectionClass
    } else if !has_u64_type(p) {
        IntegrityError::WrongValueType
    } else {
        IntegrityError::SectionMismatch
    }
}

/// The validated entry a well-formed raw entry decodes to, stated field by
/// field over views.
pub open spec fn entry_matches_point(e: VsmEntry, p: RawPoint) -> bool {
    &&& e.t@ == p.fantom_typ@
    &&& e.ident@ == p.fantom_ident@
    &&& e.value == p.value
    &&& e.desc.name@ == p.name@
    &&& e.desc.semantics == p.semantics
    &&& e.desc.format == p.format
    &&& e.desc.sdesc@ == p.sdesc@
    &&& e.desc.ldesc@ == p.ldesc@
    &&& e.section.ident@ == p.section_ident@
    &&& e.section.sdesc@ == p.section_sdesc@
    &&& e.section.ldesc@ == p.section_ldesc@
}

/// The fully-qualified sample name: the section type, then the instance
/// identifier when it is non-empty, then the descriptor name, joined with
/// dots.  The identifier segment is omitted entirely when it is empty.
pub open spec fn spec_qualified_name(t: Seq<char>, ident: Seq<char>, name: Seq<char>) -> Seq<
    char,
> {
    if ident.len() == 0 {
        t + seq!['.'] + name
    } else {
        t + seq!['.'] + ident + seq!['.'] + name
    }
}

/// Build a sample's fully-qualified name from its section type, instance
/// identifier and descriptor name.
pub fn qualified_name(t: &str, ident: &str, name: &str) -> (r: String)
    ensures
        r@ == spec_qualified_name(t@, ident@, name@),
{
    proof {
        reveal_strlit(".");
        assert("."@ =~= seq!['.']);
    }
    let mut r = String::from_str(t);
    if !ident.is_empty() {
        r.append(".");
        r.append(ident);
    }
    r.append(".");
    r.append(name);
    proof {
        assert(r@ =~= spec_qualified_name(t@, ident@, name@));
    }
    r
}

/// What one sample states of the validated entry it was drawn from.
pub open spec fn sample_matches_entry(s: Stats, e: VsmEntry) -> bool {
    &&& s.name@ == spec_qualified_name(e.t@, e.ident@, e.desc.name@)
    &&& s.value == e.value
    &&& s.semantics == semantics_of(e.desc.semantics)
}

/// Draw one sample from a validated entry: qualified name, value, and
/// classified semantics.
pub fn sample(e: &VsmEntry) -> (s: Stats)
    ensures
        sample_matches_entry(s, *e),
{
    Stats {
        name: qualified_name(e.t.as_str(), e.ident.as_str(), e.desc.name.as_str()),
        value: e.value,
        semantics: semantics_from_code(e.desc.semantics),
    }
}

/// What one sample states of the raw entry it was drawn from.
pub open spec fn sample_matches_point(s: Stats, p: RawPoint) -> bool {
    &&& s.name@ == spec_qualified_name(p.fantom_typ@, p.fantom_ident@, p.name@)
    &&& s.value == p.value
    &&& s.semantics == semantics_of(p.semantics)
}

/// One full enumeration pass succeeded: one sample per raw entry, in table
/// order.
pub open spec fn samples_of(out: Seq<Stats>, points: Seq<RawPoint>) -> bool {
    &&& out.len() == points.len()
    &&& forall|i: int| 0 <= i < points.len() ==> sample_matches_point(#[trigger] out[i], points[i])
}

/// One enumeration pass over the counter table: validate every raw entry and
/// sample it.  The pass re-walks the whole table — there is no diff mode —
/// and fails fast on the first entry that violates an invariant.
pub fn stats(points: &Vec<RawPoint>) -> (r: Result<Vec<Stats>, IntegrityError>)
    ensures
        r is Ok <==> (forall|i: int| 0 <= i < points@.len() ==> point_wf(#[trigger] points@[i])),
        r is Ok ==> samples_of(r->Ok_0@, points@),
        r is Err ==> exists|i: int|
            {
                &&& 0 <= i < points@.len()
                &&& !point_wf(#[trigger] points@[i])
                &&& r->Err_0 == point_err(points@[i])
                &&& forall|j: int| 0 <= j < i ==> point_wf(#[trigger] points@[j])
            },
{
    let mut out: Vec<Stats> = Vec::new();
    let mut k: usize = 0;
    while k < points.len()
        invariant
            k <= points@.len(),
            out@.len() == k,
            forall|j: int| 0 <= j < k ==> point_wf(#[trigger] points@[j]),
            forall|j: int| 0 <= j < k ==> sample_matches_point(#[trigger] out@[j], points@[j]),
        decreases points@.len() - k,
    {
        match decode_point(&points[k]) {
            Ok(e) => {
                out.push(sample(&e));
            },
            Err(err) => {
                return Err(err);
            },
        }
        k = k + 1;
    }
    Ok(out)
}

/// No character of the sequence is the dot that joins name segments.
pub open spec fn dot_free(s: Seq<char>) -> bool {
    forall|k: int| 0 <= k < s.len() ==> s[k] != '.'
}

/// Joining two segments with a dot is injective as long as the left segment
/// is dot-free: the dot written between them is the first dot either side
/// could place at that position.
proof fn lemma_dot_join_injective(a1: Seq<char>, b1: Seq<char>, a2: Seq<char>, b2: Seq<char>)
    requires
        dot_free(a1),
        dot_free(a2),
        a1 + seq!['.'] + b1 == a2 + seq!['.'] + b2,
    ensures
        a1 == a2,
        b1 == b2,
{
    let s1 = a1 + seq!['.'] + b1;
    let s2 = a2 + seq!['.'] + b2;
    if a1.len() < a2.len() {
        assert(s1[a1.len() as int] == '.');
        assert(s2[a1.len() as int] == a2[a1.len() as int]);
        assert(false);
    }
    if a2.len() < a1.len() {
        assert(s2[a2.len() as int] == '.');
        assert(s1[a2.len() as int] == a1[a2.len() as int]);
        assert(false);
    }
    assert forall|k: int| 0 <= k < a1.len() implies a1[k] == a2[k] by {
        assert(a1[k] == s1[k]);
        assert(a2[k] == s2[k]);
    }
    assert(a1 =~= a2);
    assert(s1.len() == s2.len());
    assert(b1.len() == b2.len());
    assert forall|k: int| 0 <= k < b1.len() implies b1[k] == b2[k] by {
        assert(b1[k] == s1[a1.len() + 1 + k]);
        assert(b2[k] == s2[a2.len() + 1 + k]);
    }
    assert(b1 =~= b2);
}

/// Within one section — same type, same identifier — distinct descriptor
/// names always give distinct qualified names, whatever characters any
/// segment holds.
pub proof fn lemma_same_section_names_unique(
    t: Seq<char>,
    ident: Seq<char>,
    n1: Seq<char>,
    n2: Seq<char>,
)
    requires
        n1 != n2,
    ensures
        spec_qualified_name(t, ident, n1) != spec_qualified_name(t, ident, n2),
{
    let q1 = spec_qualified_name(t, ident, n1);
    let q2 = spec_qualified_name(t, ident, n2);
    if q1 == q2 {
        let off = if ident.len() == 0 {
            t.len() + 1
        } else {
            t.len() + 1 + ident.len() + 1
        };
        assert(q1.len() == off + n1.len());
        assert(q2.len() == off + n2.len());
        assert(n1.len() == n2.len());
        assert forall|k: int| 0 <= k < n1.len() implies n1[k] == n2[k] by {
            assert(n1[k] == q1[off + k]);
            assert(n2[k] == q2[off + k]);
        }
        assert(n1 =~= n2);
        assert(false);
    }
}

/// Qualified-name construction is injective on whole (type, identifier,
/// descriptor-name) triples when no segment contains a dot: two distinct
/// triples never collide.  Dots inside segments genuinely break this — the
/// identifier-free triple (`"A"`, ``""``, `"B.c"`) and (`"A"`, `"B"`, `"c"`)
/// would both read `"A.B.c"` — so the hypothesis is as weak as the law can
/// bear.
pub proof fn lemma_qualified_name_injective(
    t1: Seq<char>,
    i1: Seq<char>,
    n1: Seq<char>,
    t2: Seq<char>,
    i2: Seq<char>,
    n2: Seq<char>,
)
    requires
        dot_free(t1),
        dot_free(i1),
        dot_free(n1),
        dot_free(t2),
        dot_free(i2),
        dot_free(n2),
        !(t1 == t2 && i1 == i2 && n1 == n2),
    ensures
        spec_qualified_name(t1, i1, n1) != spec_qualified_name(t2, i2, n2),
{
    let sep = seq!['.'];
    if spec_qualified_name(t1, i1, n1) == spec_qualified_name(t2, i2, n2) {
        let tail1 = if i1.len() == 0 {
            n1
        } else {
            i1 + sep + n1
        };
        let tail2 = if i2.len() == 0 {
            n2
        } else {
            i2 + sep + n2
        };
        assert(spec_qualified_name(t1, i1, n1) =~= t1 + sep + tail1);
        assert(spec_qualified_name(t2, i2, n2) =~= t2 + sep + tail2);
        lemma_dot_join_injective(t1, tail1, t2, tail2);
        if i1.len() == 0 && i2.len() == 0 {
            assert(i1 =~= i2);
        } else if i1.len() == 0 {
            assert(n1[i2.len() as int] == (i2 + sep + n2)[i2.len() as int]);
            assert(false);
        } else if i2.len() == 0 {
            assert(n2[i1.len() as int] == (i1 + sep + n1)[i1.len() as int]);
            assert(false);
        } else {
            lemma_dot_join_injective(i1, n1, i2, n2);
        }
        assert(false);
    }
}

/// The (type, identifier, descriptor-name) triples of two raw entries
/// differ in at least one component.
pub open spec fn point_keys_differ(p: RawPoint, q: RawPoint) -> bool {
    !(p.fantom_typ@ == q.fantom_typ@ && p.fantom_ident@ == q.fantom_ident@ && p.name@ == q.name@)
}

/// Every segment of the raw entry's name triple is dot-free.
pub open spec fn point_dot_free(p: RawPoint) -> bool {
    dot_free(p.fantom_typ@) && dot_free(p.fantom_ident@) && dot_free(p.name@)
}

/// One enumeration pass never yields two samples with the same qualified
/// name: any two entries of the walked table that differ in their name
/// triple — as entries of one table do — produce samples whose names
/// differ, provided no triple segment contains a dot.
pub proof fn lemma_enumerate_names_unique(
    out: Seq<Stats>,
    points: Seq<RawPoint>,
    i: int,
    j: int,
)
    requires
        samples_of(out, points),
        0 <= i < points.len(),
        0 <= j < points.len(),
        point_dot_free(points[i]),
        point_dot_free(points[j]),
        point_keys_differ(points[i], points[j]),
    ensures
        out[i].name@ != out[j].name@,
{
    lemma_qualified_name_injective(
        points[i].fantom_typ@,
        points[i].fantom_ident@,
        points[i].name@,
        points[j].fantom_typ@,
        points[j].fantom_ident@,
        points[j].name@,
    );
}

/// Compare two strings by their character sequences.
fn str_eq(a: &str, b: &str) -> (r: bool)
    ensures
        r == (a@ == b@),
{
    let sa = String::from_str(a);
    let sb = String::from_str(b);
    sa == sb
}

/// Validate one raw counter-table entry: it must belong to the "Stat"
/// section class, carry a 64-bit unsigned value, and agree with its region
/// on section type and identifier.  A mismatch fails fast — no layout is
/// guessed.
pub fn decode_point(p: &RawPoint) -> (r: Result<VsmEntry, IntegrityError>)
    ensures
        r is Ok <==> point_wf(*p),
        r is Ok ==> entry_matches_point(r->Ok_0, *p),
        r is Err ==> r->Err_0 == point_err(*p),
{
    if !str_eq(p.class.as_str(), "Stat") {
        return Err(IntegrityError::WrongSectionClass);
    }
    if !str_eq(p.ctype.as_str(), "uint64_t") {
        return Err(IntegrityError::WrongValueType);
    }
    if !str_eq(p.section_typ.as_str(), p.fantom_typ.as_str()) || !str_eq(
        p.section_ident.as_str(),
        p.fantom_ident.as_str(),
    ) {
        return Err(IntegrityError::SectionMismatch);
    }
    Ok(
        VsmEntry {
            t: p.fantom_typ.clone(),
            ident: p.fantom_ident.clone(),
            value: p.value,
            desc: VscDesc {
                name: p.name.clone(),
                semantics: p.semantics,
                format: p.format,
                sdesc: p.sdesc.clone(),
                ldesc: p.ldesc.clone(),
            },
            section: VscSection {
                ident: p.section_ident.clone(),
                sdesc: p.section_sdesc.clone(),
                ldesc: p.section_ldesc.clone(),
            },
        },
    )
}

} // verus!
