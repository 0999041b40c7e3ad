//! Annotation marker values, as written in `Annotated[T, marker]`.
//!
//! Each marker has a textual representation, as Python's `repr` shows it, and
//! stands for one [`Marker`] of the domain model.

use crate::domain::Marker;
use vstd::prelude::*;
use vstd::string::*;

verus! {

broadcast use vstd::string::group_string_axioms;

// ---------------------------------------------------------------------------
// Debug rendering of strings and string lists
// ---------------------------------------------------------------------------

/// Lower-case hexadecimal digit.
pub open spec fn hex_char(d: nat) -> char {
    if d < 10 {
        crate::text::digit_char(d)
    } else if d == 10 { 'a' }
    else if d == 11 { 'b' }
    else if d == 12 { 'c' }
    else if d == 13 { 'd' }
    else if d == 14 { 'e' }
    else { 'f' }
}

/// Whether a character is an ASCII control character.
pub open spec fn is_ascii_control(c: char) -> bool {
    (c as u32) < 0x20 || (c as u32) == 0x7f
}

/// How a character appears inside a double-quoted debug rendering: quotes,
/// backslashes and the common control characters get a backslash escape,
/// the other ASCII control characters a `\u{..}` escape, and everything else
/// stands for itself.
pub open spec fn debug_char(c: char) -> Seq<char> {
    if c == '"' {
        seq!['\\', '"']
    } else if c == '\\' {
        seq!['\\', '\\']
    } else if c == '\n' {
        seq!['\\', 'n']
    } else if c == '\r' {
        seq!['\\', 'r']
    } else if c == '\t' {
        seq!['\\', 't']
    } else if c == '\0' {
        seq!['\\', '0']
    } else if is_ascii_control(c) {
        let n = c as u32 as nat;
        let digits = if n < 16 { seq![hex_char(n)] } else { seq![hex_char(n / 16), hex_char(n % 16)] };
        seq!['\\', 'u', '{'] + digits + seq!['}']
    } else {
        seq![c]
    }
}

/// The escaped characters of `s`.
pub open spec fn debug_body(s: Seq<char>) -> Seq<char>
    decreases s.len(),
{
    if s.len() == 0 {
        Seq::empty()
    } else {
        debug_body(s.drop_last()) + debug_char(s.last())
    }
}

/// A string as `{:?}` writes it: between double quotes, escaped.
pub open spec fn debug_str(s: Seq<char>) -> Seq<char> {
    seq!['"'] + debug_body(s) + seq!['"']
}

/// The items of a string list, debug-rendered and joined by `", "`.
pub open spec fn debug_items(v: Seq<Seq<char>>) -> Seq<char>
    decreases v.len(),
{
    if v.len() == 0 {
        Seq::empty()
    } else if v.len() == 1 {
        debug_str(v[0])
    } else {
        debug_items(v.drop_last()) + seq![',', ' '] + debug_str(v.last())
    }
}

/// A string list as `{:?}` writes it: `["a", "b"]`.
pub open spec fn debug_list(v: Seq<Seq<char>>) -> Seq<char> {
    seq!['['] + debug_items(v) + seq![']']
}

/// The views of a list of strings.
pub open spec fn strings_view(v: Seq<String>) -> Seq<Seq<char>> {
    v.map_values(|s: String| s@)
}

/// `true` or `false`, as Rust writes a `bool`.
pub open spec fn bool_text(b: bool) -> Seq<char> {
    if b { "true"@ } else { "false"@ }
}

fn push_hex_digit(out: &mut String, d: u32)
    requires
        d < 16,
    ensures
        final(out)@ == old(out)@.push(hex_char(d as nat)),
{
    let s: &str = if d == 0 { "0" } else if d == 1 { "1" } else if d == 2 { "2" } else if d == 3 { "3" }
        else if d == 4 { "4" } else if d == 5 { "5" } else if d == 6 { "6" } else if d == 7 { "7" }
        else if d == 8 { "8" } else if d == 9 { "9" } else if d == 10 { "a" } else if d == 11 { "b" }
        else if d == 12 { "c" } else if d == 13 { "d" } else if d == 14 { "e" } else { "f" };
    proof {
        reveal_strlit("0"); reveal_strlit("1"); reveal_strlit("2"); reveal_strlit("3");
        reveal_strlit("4"); reveal_strlit("5"); reveal_strlit("6"); reveal_strlit("7");
        reveal_strlit("8"); reveal_strlit("9"); reveal_strlit("a"); reveal_strlit("b");
        reveal_strlit("c"); reveal_strlit("d"); reveal_strlit("e"); reveal_strlit("f");
    }
    out.append(s);
    assert(out@ =~= old(out)@.push(hex_char(d as nat)));
}

/// Append the debug escape of the character of `s` at `i`.
fn push_debug_char(out: &mut String, s: &str, i: usize)
    requires
        i < s@.len() <= usize::MAX,
    ensures
        final(out)@ == old(out)@ + debug_char(s@[i as int]),
{
    let c = s.get_char(i);
    proof {
        reveal_strlit("\\\"");
        reveal_strlit("\\\\");
        reveal_strlit("\\n");
        reveal_strlit("\\r");
        reveal_strlit("\\t");
        reveal_strlit("\\0");
        reveal_strlit("\\u{");
        reveal_strlit("}");
    }
    if c == '"' {
        out.append("\\\"");
    } else if c == '\\' {
        out.append("\\\\");
    } else if c == '\n' {
        out.append("\\n");
    } else if c == '\r' {
        out.append("\\r");
    } else if c == '\t' {
        out.append("\\t");
    } else if c == '\0' {
        out.append("\\0");
    } else if (c as u32) < 0x20 || (c as u32) == 0x7f {
        let n: u32 = c as u32;
        out.append("\\u{");
        if n < 16 {
            push_hex_digit(out, n);
        } else {
            push_hex_digit(out, n / 16);
            push_hex_digit(out, n % 16);
        }
        out.append("}");
    } else {
        out.append(s.substring_char(i, i + 1));
    }
    assert(out@ =~= old(out)@ + debug_char(c));
}

/// Append `s` as `{:?}` writes it.
pub fn push_debug_str(out: &mut String, s: &str)
    ensures
        final(out)@ == old(out)@ + debug_str(s@),
{
    proof { reveal_strlit("\""); }
    out.append("\"");
    let ghost start = out@;
    let n = s.unicode_len();
    let mut i: usize = 0;
    while i < n
        invariant
            n == s@.len(),
            i <= n,
            out@ == start + debug_body(s@.subrange(0, i as int)),
        decreases n - i,
    {
        push_debug_char(out, s, i);
        proof {
            let t = s@.subrange(0, i as int + 1);
            assert(t.drop_last() =~= s@.subrange(0, i as int));
        }
        i = i + 1;
    }
    assert(s@.subrange(0, n as int) =~= s@);
    out.append("\"");
    assert(out@ =~= old(out)@ + debug_str(s@));
}

/// Append a string list as `{:?}` writes it.
pub fn push_debug_list(out: &mut String, v: &Vec<String>)
    ensures
        final(out)@ == old(out)@ + debug_list(strings_view(v@)),
{
    proof {
        reveal_strlit("[");
        reveal_strlit("]");
        reveal_strlit(", ");
    }
    out.append("[");
    let ghost start = out@;
    let mut i: usize = 0;
    while i < v.len()
        invariant
            i <= v.len(),
            out@ == start + debug_items(strings_view(v@.subrange(0, i as int))),
        decreases v.len() - i,
    {
        let ghost before = out@;
        if i > 0 {
            out.append(", ");
        }
        push_debug_str(out, v[i].as_str());
        proof {
            let t = strings_view(v@.subrange(0, i as int + 1));
            assert(t.len() == i + 1);
            assert(t.drop_last() =~= strings_view(v@.subrange(0, i as int)));
            assert(t.last() == v@[i as int]@);
            if i == 0 {
                assert(t[0] == v@[0]@);
                assert(debug_items(t) == debug_str(t[0]));
                assert(strings_view(v@.subrange(0, 0)) =~= Seq::<Seq<char>>::empty());
                assert(out@ =~= start + debug_items(t));
            } else {
                reveal_strlit(", ");
                assert(", "@ =~= seq![',', ' ']);
                assert(debug_items(t) == debug_items(t.drop_last()) + seq![',', ' '] + debug_str(t.last()));
                assert(out@ =~= before + seq![',', ' '] + debug_str(v@[i as int]@));
                assert(out@ =~= start + debug_items(t));
            }
        }
        i = i + 1;
    }
    assert(v@.subrange(0, v.len() as int) =~= v@);
    out.append("]");
    assert(out@ =~= old(out)@ + debug_list(strings_view(v@)));
}

// ---------------------------------------------------------------------------
// The markers
// ---------------------------------------------------------------------------

/// Marks the field that identifies a planning entity.
#[derive(Debug, Clone, Copy)]
pub struct PyPlanningId;

impl PyPlanningId {
    pub fn new() -> (res: Self) {
        PyPlanningId
    }

    /// `PlanningId()`.
    pub fn repr(&self) -> (res: String)
        ensures
            res@ == "PlanningId()"@,
    {
        String::from_str("PlanningId()")
    }

    /// The marker this value stands for.
    pub fn to_marker(self) -> (res: Marker)
        ensures
            res == Marker::PlanningId,
    {
        Marker::PlanningId
    }
}

/// Marks a field the solver assigns from the named value ranges.
#[derive(Debug, Clone)]
pub struct PyPlanningVariable {
    pub value_range_provider_refs: Vec<String>,
    pub allows_unassigned: bool,
}

impl PyPlanningVariable {
    pub fn new(value_range_provider_refs: Vec<String>, allows_unassigned: bool) -> (res: Self)
        ensures
            res.value_range_provider_refs == value_range_provider_refs,
            res.allows_unassigned == allows_unassigned,
    {
        PyPlanningVariable { value_range_provider_refs, allows_unassigned }
    }

    /// `PlanningVariable(value_range_provider_refs=[..], allows_unassigned=..)`.
    pub fn repr(&self) -> (res: String)
        ensures
            res@ == "PlanningVariable(value_range_provider_refs="@ + debug_list(
                strings_view(self.value_range_provider_refs@),
            ) + ", allows_unassigned="@ + bool_text(self.allows_unassigned) + ")"@,
    {
        proof {
            reveal_strlit("PlanningVariable(value_range_provider_refs=");
            reveal_strlit(", allows_unassigned=");
            reveal_strlit("true");
            reveal_strlit("false");
            reveal_strlit(")");
        }
        let mut s = String::from_str("PlanningVariable(value_range_provider_refs=");
        push_debug_list(&mut s, &self.value_range_provider_refs);
        s.append(", allows_unassigned=");
        if self.allows_unassigned {
            s.append("true");
        } else {
            s.append("false");
        }
        s.append(")");
        s
    }

    /// The marker this value stands for.
    pub fn to_marker(self) -> (res: Marker)
        ensures
            res == (Marker::PlanningVariable {
                instance: Some((self.value_range_provider_refs, self.allows_unassigned)),
            }),
    {
        Marker::PlanningVariable { instance: Some((self.value_range_provider_refs, self.allows_unassigned)) }
    }
}

/// Marks a list field whose elements the solver assigns and orders.
#[derive(Debug, Clone)]
pub struct PyPlanningListVariable {
    pub value_range_provider_refs: Vec<String>,
}

impl PyPlanningListVariable {
    pub fn new(value_range_provider_refs: Vec<String>) -> (res: Self)
        ensures
            res.value_range_provider_refs == value_range_provider_refs,
    {
        PyPlanningListVariable { value_range_provider_refs }
    }

    /// `PlanningListVariable(value_range_provider_refs=[..])`.
    pub fn repr(&self) -> (res: String)
        ensures
            res@ == "PlanningListVariable(value_range_provider_refs="@ + debug_list(
                strings_view(self.value_range_provider_refs@),
            ) + ")"@,
    {
        proof {
            reveal_strlit("PlanningListVariable(value_range_provider_refs=");
            reveal_strlit(")");
        }
        let mut s = String::from_str("PlanningListVariable(value_range_provider_refs=");
        push_debug_list(&mut s, &self.value_range_provider_refs);
        s.append(")");
        s
    }

    /// The marker this value stands for; a list variable does not allow
    /// unassigned values.
    pub fn to_marker(self) -> (res: Marker)
        ensures
            res == (Marker::PlanningListVariable { instance: Some((self.value_range_provider_refs, false)) }),
    {
        Marker::PlanningListVariable { instance: Some((self.value_range_provider_refs, false)) }
    }
}

/// Marks the field that holds a solution's score.
#[derive(Debug, Clone, Copy)]
pub struct PyPlanningScore;

impl PyPlanningScore {
    pub fn new() -> (res: Self) {
        PyPlanningScore
    }

    /// `PlanningScore()`.
    pub fn repr(&self) -> (res: String)
        ensures
            res@ == "PlanningScore()"@,
    {
        String::from_str("PlanningScore()")
    }

    /// The marker this value stands for.
    pub fn to_marker(self) -> (res: Marker)
        ensures
            res == Marker::PlanningScore,
    {
        Marker::PlanningScore
    }
}

/// Marks a collection as a range of values for planning variables.
#[derive(Debug, Clone)]
pub struct PyValueRangeProvider {
    pub id: Option<String>,
}

impl PyValueRangeProvider {
    pub fn new(id: Option<String>) -> (res: Self)
        ensures
            res.id == id,
    {
        PyValueRangeProvider { id }
    }

    /// `ValueRangeProvider(id='..')`, or `ValueRangeProvider()` without an id.
    pub fn repr(&self) -> (res: String)
        ensures
            res@ == match self.id {
                Some(id) => "ValueRangeProvider(id='"@ + id@ + "')"@,
                None => "ValueRangeProvider()"@,
            },
    {
        proof {
            reveal_strlit("ValueRangeProvider(id='");
            reveal_strlit("')");
        }
        match &self.id {
            Some(id) => {
                let mut s = String::from_str("ValueRangeProvider(id='");
                s.append(id.as_str());
                s.append("')");
                s
            },
            None => String::from_str("ValueRangeProvider()"),
        }
    }

    /// The marker this value stands for.
    pub fn to_marker(self) -> (res: Marker)
        ensures
            res == (Marker::ValueRangeProvider { instance: Some(self.id) }),
    {
        Marker::ValueRangeProvider { instance: Some(self.id) }
    }
}

/// Marks a field as a single problem fact.
#[derive(Debug, Clone, Copy)]
pub struct PyProblemFactProperty;

impl PyProblemFactProperty {
    pub fn new() -> (res: Self) {
        PyProblemFactProperty
    }

    /// `ProblemFactProperty()`.
    pub fn repr(&self) -> (res: String)
        ensures
            res@ == "ProblemFactProperty()"@,
    {
        String::from_str("ProblemFactProperty()")
    }

    /// The marker this value stands for.
    pub fn to_marker(self) -> (res: Marker)
        ensures
            res == Marker::ProblemFactProperty,
    {
        Marker::ProblemFactProperty
    }
}

/// Marks a field as a collection of problem facts.
#[derive(Debug, Clone, Copy)]
pub struct PyProblemFactCollectionProperty;

impl PyProblemFactCollectionProperty {
    pub fn new() -> (res: Self) {
        PyProblemFactCollectionProperty
    }

    /// `ProblemFactCollectionProperty()`.
    pub fn repr(&self) -> (res: String)
        ensures
            res@ == "ProblemFactCollectionProperty()"@,
    {
        String::from_str("ProblemFactCollectionProperty()")
    }

    /// The marker this value stands for.
    pub fn to_marker(self) -> (res: Marker)
        ensures
            res == Marker::ProblemFactCollectionProperty,
    {
        Marker::ProblemFactCollectionProperty
    }
}

/// Marks a field as a single planning entity.
#[derive(Debug, Clone, Copy)]
pub struct PyPlanningEntityProperty;

impl PyPlanningEntityProperty {
    pub fn new() -> (res: Self) {
        PyPlanningEntityProperty
    }

    /// `PlanningEntityProperty()`.
    pub fn repr(&self) -> (res: String)
        ensures
            res@ == "PlanningEntityProperty()"@,
    {
        String::from_str("PlanningEntityProperty()")
    }

    /// The marker this value stands for.
    pub fn to_marker(self) -> (res: Marker)
        ensures
            res == Marker::PlanningEntityProperty,
    {
        Marker::PlanningEntityProperty
    }
}

/// Marks a field as a collection of planning entities.
#[derive(Debug, Clone, Copy)]
pub struct PyPlanningEntityCollectionProperty;

impl PyPlanningEntityCollectionProperty {
    pub fn new() -> (res: Self) {
        PyPlanningEntityCollectionProperty
    }

    /// `PlanningEntityCollectionProperty()`.
    pub fn repr(&self) -> (res: String)
        ensures
            res@ == "PlanningEntityCollectionProperty()"@,
    {
        String::from_str("PlanningEntityCollectionProperty()")
    }

    /// The marker this value stands for.
    pub fn to_marker(self) -> (res: Marker)
        ensures
            res == Marker::PlanningEntityCollectionProperty,
    {
        Marker::PlanningEntityCollectionProperty
    }
}

/// Marks the field that pins an entity in place.
#[derive(Debug, Clone, Copy)]
pub struct PyPlanningPin;

impl PyPlanningPin {
    pub fn new() -> (res: Self) {
        PyPlanningPin
    }

    /// `PlanningPin()`.
    pub fn repr(&self) -> (res: String)
        ensures
            res@ == "PlanningPin()"@,
    {
        String::from_str("PlanningPin()")
    }

    /// The marker this value stands for.
    pub fn to_marker(self) -> (res: Marker)
        ensures
            res == Marker::PlanningPin,
    {
        Marker::PlanningPin
    }
}

/// Marks a field as the inverse of a list variable.
#[derive(Debug, Clone)]
pub struct PyInverseRelationShadowVariable {
    pub source_variable_name: String,
}

impl PyInverseRelationShadowVariable {
    pub fn new(source_variable_name: String) -> (res: Self)
        ensures
            res.source_variable_name == source_variable_name,
    {
        PyInverseRelationShadowVariable { source_variable_name }
    }

    /// `InverseRelationShadowVariable(source_variable_name='..')`.
    pub fn repr(&self) -> (res: String)
        ensures
            res@ == "InverseRelationShadowVariable(source_variable_name='"@ + self.source_variable_name@
                + "')"@,
    {
        proof {
            reveal_strlit("InverseRelationShadowVariable(source_variable_name='");
            reveal_strlit("')");
        }
        let mut s = String::from_str("InverseRelationShadowVariable(source_variable_name='");
        s.append(self.source_variable_name.as_str());
        s.append("')");
        s
    }

    /// The marker this value stands for.
    pub fn to_marker(self) -> (res: Marker)
        ensures
            res == (Marker::InverseRelationShadowVariable { instance: Some(self.source_variable_name) }),
    {
        Marker::InverseRelationShadowVariable { instance: Some(self.source_variable_name) }
    }
}

} // verus!
