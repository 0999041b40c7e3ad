//! Domain metadata read from the type annotations of planning classes: the
//! type of each field and the planning annotations attached to it.

use vstd::prelude::*;
use crate::text::string_eq_str;

verus! {

// ---------------------------------------------------------------------------
// Type hints
// ---------------------------------------------------------------------------

/// A Python type hint, as far as the field type depends on it.
#[derive(Debug)]
pub enum PyTypeExpr {
    /// The value `None`.
    NoneValue,
    /// The class `NoneType` (as it appears in `Optional[...]`).
    NoneType,
    /// A string forward reference such as `'Timeslot'`.
    Str { value: String },
    /// A `ForwardRef` wrapping the name of a class.
    ForwardRef { arg: String },
    /// `Union[...]`, `Optional[...]` or `A | B`.
    Union { args: Vec<PyTypeExpr> },
    /// Another generic alias: the text of its origin, its arguments, and its
    /// `__name__` when it has one.
    Generic { origin_repr: String, args: Vec<PyTypeExpr>, name: Option<String> },
    /// The built-in `str`.
    BuiltinStr,
    /// The built-in `int`.
    BuiltinInt,
    /// The built-in `float`.
    BuiltinFloat,
    /// The built-in `bool`.
    BuiltinBool,
    /// Any other class, by its `__name__`.
    Named { name: String },
    /// Anything else.
    Other,
}

/// Primitive field types.
#[derive(Debug, Clone, Copy, PartialEq, Eq, Structural)]
pub enum PrimitiveType {
    String,
    Long,
    Double,
    Bool,
}

/// The type of a field of a planning class.
#[derive(Debug)]
pub enum FieldType {
    Primitive { primitive: PrimitiveType },
    Object { class_name: String },
    List { element_type: Box<FieldType> },
}

/// A field type with names by their text.
pub ghost enum FieldTypeView {
    Primitive(PrimitiveType),
    Object(Seq<char>),
    List(Box<FieldTypeView>),
}

impl FieldType {
    pub open spec fn view_of(self) -> FieldTypeView
        decreases self,
    {
        match self {
            FieldType::Primitive { primitive } => FieldTypeView::Primitive(primitive),
            FieldType::Object { class_name } => FieldTypeView::Object(class_name@),
            FieldType::List { element_type } => FieldTypeView::List(Box::new(element_type.view_of())),
        }
    }
}

/// The type given to fields whose type is unknown.
pub open spec fn object_view() -> FieldTypeView {
    FieldTypeView::Object("object"@)
}

fn object_type() -> (res: FieldType)
    ensures
        res.view_of() == object_view(),
{
    FieldType::Object { class_name: String::from_str("object") }
}

/// Whether `s` contains `t` as a contiguous part.
pub open spec fn seq_contains(s: Seq<char>, t: Seq<char>) -> bool {
    exists|k: int| 0 <= k && k + t.len() <= s.len() && #[trigger] s.subrange(k, k + t.len()) == t
}

/// The word that marks a list origin.
pub open spec fn list_word() -> Seq<char> {
    seq!['l', 'i', 's', 't']
}

/// The args of a union hint.
pub open spec fn union_args(t: PyTypeExpr) -> Seq<PyTypeExpr> {
    match t {
        PyTypeExpr::Union { args } => args@,
        _ => Seq::empty(),
    }
}

/// The field type a type hint gives: forward references and other classes
/// are objects of that class; the first member of a union that is not
/// `None`; lists of their first argument; the four built-in types are
/// primitives; anything else is `object`.
pub open spec fn spec_field_type(t: PyTypeExpr) -> FieldTypeView
    decreases t, 1int, 0int,
{
    match t {
        PyTypeExpr::NoneValue => object_view(),
        PyTypeExpr::NoneType => FieldTypeView::Object("NoneType"@),
        PyTypeExpr::Str { value } => FieldTypeView::Object(value@),
        PyTypeExpr::ForwardRef { arg } => FieldTypeView::Object(arg@),
        PyTypeExpr::Union { .. } => spec_union_field_type(t, 0),
        PyTypeExpr::Generic { origin_repr, args, name } => if seq_contains(origin_repr@, list_word()) {
            if args@.len() > 0 {
                FieldTypeView::List(Box::new(spec_field_type(args@[0])))
            } else {
                FieldTypeView::List(Box::new(object_view()))
            }
        } else {
            match name {
                Some(n) => FieldTypeView::Object(n@),
                None => object_view(),
            }
        },
        PyTypeExpr::BuiltinStr => FieldTypeView::Primitive(PrimitiveType::String),
        PyTypeExpr::BuiltinInt => FieldTypeView::Primitive(PrimitiveType::Long),
        PyTypeExpr::BuiltinFloat => FieldTypeView::Primitive(PrimitiveType::Double),
        PyTypeExpr::BuiltinBool => FieldTypeView::Primitive(PrimitiveType::Bool),
        PyTypeExpr::Named { name } => FieldTypeView::Object(name@),
        PyTypeExpr::Other => object_view(),
    }
}

/// The field type of the first member of a union from `i` on that is not
/// `None`.
pub open spec fn spec_union_field_type(t: PyTypeExpr, i: int) -> FieldTypeView
    decreases t, 0int, union_args(t).len() - i,
{
    if i < 0 || i >= union_args(t).len() {
        object_view()
    } else {
        match t {
            PyTypeExpr::Union { args } => match args@[i] {
                PyTypeExpr::NoneValue | PyTypeExpr::NoneType => spec_union_field_type(t, i + 1),
                _ => spec_field_type(args@[i]),
            },
            _ => object_view(),
        }
    }
}

fn str_contains_list(s: &String) -> (res: bool)
    ensures
        res == seq_contains(s@, list_word()),
{
    let st = s.as_str();
    let n = st.unicode_len();
    if n < 4 {
        return false;
    }
    let mut k: usize = 0;
    while k < n - 3
        invariant
            n == s@.len(),
            st@ == s@,
            n >= 4,
            k <= n - 3,
            forall|j: int| 0 <= j < k ==> #[trigger] s@.subrange(j, j + 4) != list_word(),
        decreases n - k,
    {
        if st.get_char(k) == 'l' && st.get_char(k + 1) == 'i' && st.get_char(k + 2) == 's' && st.get_char(k + 3) == 't' {
            assert(s@.subrange(k as int, k + 4) =~= list_word());
            return true;
        }
        assert(s@.subrange(k as int, k + 4) != list_word()) by {
            if s@.subrange(k as int, k + 4) == list_word() {
                assert(s@.subrange(k as int, k + 4)[0] == s@[k as int]);
                assert(s@.subrange(k as int, k + 4)[1] == s@[k + 1]);
                assert(s@.subrange(k as int, k + 4)[2] == s@[k + 2]);
                assert(s@.subrange(k as int, k + 4)[3] == s@[k + 3]);
            }
        }
        k = k + 1;
    }
    false
}

/// Convert a type hint to a field type.
pub fn python_type_to_field_type(t: &PyTypeExpr) -> (res: FieldType)
    ensures
        res.view_of() == spec_field_type(*t),
    decreases t, 1int, 0int,
{
    match t {
        PyTypeExpr::NoneValue => object_type(),
        PyTypeExpr::NoneType => FieldType::Object { class_name: String::from_str("NoneType") },
        PyTypeExpr::Str { value } => FieldType::Object { class_name: value.clone() },
        PyTypeExpr::ForwardRef { arg } => FieldType::Object { class_name: arg.clone() },
        PyTypeExpr::Union { .. } => union_field_type(t),
        PyTypeExpr::Generic { origin_repr, args, name } => if str_contains_list(origin_repr) {
            if args.len() > 0 {
                FieldType::List { element_type: Box::new(python_type_to_field_type(&args[0])) }
            } else {
                FieldType::List { element_type: Box::new(object_type()) }
            }
        } else {
            match name {
                Some(n) => FieldType::Object { class_name: n.clone() },
                None => object_type(),
            }
        },
        PyTypeExpr::BuiltinStr => FieldType::Primitive { primitive: PrimitiveType::String },
        PyTypeExpr::BuiltinInt => FieldType::Primitive { primitive: PrimitiveType::Long },
        PyTypeExpr::BuiltinFloat => FieldType::Primitive { primitive: PrimitiveType::Double },
        PyTypeExpr::BuiltinBool => FieldType::Primitive { primitive: PrimitiveType::Bool },
        PyTypeExpr::Named { name } => FieldType::Object { class_name: name.clone() },
        PyTypeExpr::Other => object_type(),
    }
}

fn union_field_type(t: &PyTypeExpr) -> (res: FieldType)
    ensures
        res.view_of() == spec_union_field_type(*t, 0),
    decreases t, 0int, union_args(*t).len(),
{
    match t {
        PyTypeExpr::Union { args } => {
            let n = args.len();
            let mut i: usize = 0;
            while i < n
                invariant
                    n == args@.len(),
                    i <= n,
                    union_args(*t) == args@,
                    *t == (PyTypeExpr::Union { args: *args }),
                    spec_union_field_type(*t, 0) == spec_union_field_type(*t, i as int),
                decreases n - i,
            {
                assert(decreases_to!(*t => args));
                assert(decreases_to!(args => args@[i as int]));
                match &args[i] {
                    PyTypeExpr::NoneValue | PyTypeExpr::NoneType => {},
                    other => {
                        return python_type_to_field_type(other);
                    },
                }
                i = i + 1;
            }
            object_type()
        },
        _ => object_type(),
    }
}

} // verus!

verus! {

// ---------------------------------------------------------------------------
// Planning annotations
// ---------------------------------------------------------------------------

/// A marker written in `Annotated[T, marker, ...]`: a planning annotation,
/// as its class (`None`) or as an instance with its arguments.
#[derive(Debug)]
pub enum Marker {
    PlanningId,
    PlanningVariable { instance: Option<(Vec<String>, bool)> },
    PlanningListVariable { instance: Option<(Vec<String>, bool)> },
    PlanningScore,
    ValueRangeProvider { instance: Option<Option<String>> },
    ProblemFactProperty,
    ProblemFactCollectionProperty,
    PlanningEntityProperty,
    PlanningEntityCollectionProperty,
    PlanningPin,
    InverseRelationShadowVariable { instance: Option<String> },
    PreviousElementShadowVariable { instance: Option<String> },
    NextElementShadowVariable { instance: Option<String> },
    CascadingUpdateShadowVariable { instance: Option<String> },
    Other,
}

/// A planning annotation of a class or a field.
#[derive(Debug)]
pub enum PlanningAnnotation {
    PlanningId,
    PlanningVariable { value_range_provider_refs: Vec<String>, allows_unassigned: bool },
    PlanningListVariable { value_range_provider_refs: Vec<String>, allows_unassigned_values: bool },
    PlanningScore { bendable_hard_levels: Option<i32>, bendable_soft_levels: Option<i32> },
    ValueRangeProvider { id: Option<String> },
    ProblemFactProperty,
    ProblemFactCollectionProperty,
    PlanningEntityProperty,
    PlanningEntityCollectionProperty,
    PlanningPin,
    InverseRelationShadowVariable { source_variable_name: String },
    PreviousElementShadowVariable { source_variable_name: String },
    NextElementShadowVariable { source_variable_name: String },
    /// A cascading update whose expression is filled in later from the
    /// analyzed target method.
    CascadingUpdateShadowVariable { target_method_name: String },
    PlanningEntity,
    PlanningSolution,
}

/// The text of a list of names.
pub open spec fn names_view(v: Seq<String>) -> Seq<Seq<char>> {
    v.map_values(|s: String| s@)
}

/// A planning annotation with its names by their text.
pub ghost enum AnnotationView {
    PlanningId,
    PlanningVariable(Seq<Seq<char>>, bool),
    PlanningListVariable(Seq<Seq<char>>, bool),
    PlanningScore(Option<i32>, Option<i32>),
    ValueRangeProvider(Option<Seq<char>>),
    ProblemFactProperty,
    ProblemFactCollectionProperty,
    PlanningEntityProperty,
    PlanningEntityCollectionProperty,
    PlanningPin,
    InverseRelationShadowVariable(Seq<char>),
    PreviousElementShadowVariable(Seq<char>),
    NextElementShadowVariable(Seq<char>),
    CascadingUpdateShadowVariable(Seq<char>),
    PlanningEntity,
    PlanningSolution,
}

impl PlanningAnnotation {
    pub open spec fn view_of(self) -> AnnotationView {
        match self {
            PlanningAnnotation::PlanningId => AnnotationView::PlanningId,
            PlanningAnnotation::PlanningVariable { value_range_provider_refs, allows_unassigned } => AnnotationView::PlanningVariable(
                names_view(value_range_provider_refs@),
                allows_unassigned,
            ),
            PlanningAnnotation::PlanningListVariable { value_range_provider_refs, allows_unassigned_values } => AnnotationView::PlanningListVariable(
                names_view(value_range_provider_refs@),
                allows_unassigned_values,
            ),
            PlanningAnnotation::PlanningScore { bendable_hard_levels, bendable_soft_levels } => AnnotationView::PlanningScore(
                bendable_hard_levels,
                bendable_soft_levels,
            ),
            PlanningAnnotation::ValueRangeProvider { id } => AnnotationView::ValueRangeProvider(
                match id {
                    Some(i) => Some(i@),
                    None => None,
                },
            ),
            PlanningAnnotation::ProblemFactProperty => AnnotationView::ProblemFactProperty,
            PlanningAnnotation::ProblemFactCollectionProperty => AnnotationView::ProblemFactCollectionProperty,
            PlanningAnnotation::PlanningEntityProperty => AnnotationView::PlanningEntityProperty,
            PlanningAnnotation::PlanningEntityCollectionProperty => AnnotationView::PlanningEntityCollectionProperty,
            PlanningAnnotation::PlanningPin => AnnotationView::PlanningPin,
            PlanningAnnotation::InverseRelationShadowVariable { source_variable_name } => AnnotationView::InverseRelationShadowVariable(
                source_variable_name@,
            ),
            PlanningAnnotation::PreviousElementShadowVariable { source_variable_name } => AnnotationView::PreviousElementShadowVariable(
                source_variable_name@,
            ),
            PlanningAnnotation::NextElementShadowVariable { source_variable_name } => AnnotationView::NextElementShadowVariable(
                source_variable_name@,
            ),
            PlanningAnnotation::CascadingUpdateShadowVariable { target_method_name } => AnnotationView::CascadingUpdateShadowVariable(
                target_method_name@,
            ),
            PlanningAnnotation::PlanningEntity => AnnotationView::PlanningEntity,
            PlanningAnnotation::PlanningSolution => AnnotationView::PlanningSolution,
        }
    }
}

/// The annotations of a list, by their text.
pub open spec fn annotations_view(v: Seq<PlanningAnnotation>) -> Seq<AnnotationView> {
    v.map_values(|a: PlanningAnnotation| a.view_of())
}

/// The annotation a marker stands for: a class marker takes the defaults
/// (no value range providers, assignment required, no id); a
/// shadow-variable marker needs its instance; other markers stand for
/// nothing.
pub open spec fn annotation_of_marker(m: Marker) -> Option<AnnotationView> {
    match m {
        Marker::PlanningId => Some(AnnotationView::PlanningId),
        Marker::PlanningVariable { instance } => match instance {
            Some((refs, unassigned)) => Some(AnnotationView::PlanningVariable(names_view(refs@), unassigned)),
            None => Some(AnnotationView::PlanningVariable(Seq::empty(), false)),
        },
        Marker::PlanningListVariable { instance } => match instance {
            Some((refs, unassigned)) => Some(AnnotationView::PlanningListVariable(names_view(refs@), unassigned)),
            None => Some(AnnotationView::PlanningListVariable(Seq::empty(), false)),
        },
        Marker::PlanningScore => Some(AnnotationView::PlanningScore(None, None)),
        Marker::ValueRangeProvider { instance } => match instance {
            Some(Some(id)) => Some(AnnotationView::ValueRangeProvider(Some(id@))),
            _ => Some(AnnotationView::ValueRangeProvider(None)),
        },
        Marker::ProblemFactProperty => Some(AnnotationView::ProblemFactProperty),
        Marker::ProblemFactCollectionProperty => Some(AnnotationView::ProblemFactCollectionProperty),
        Marker::PlanningEntityProperty => Some(AnnotationView::PlanningEntityProperty),
        Marker::PlanningEntityCollectionProperty => Some(AnnotationView::PlanningEntityCollectionProperty),
        Marker::PlanningPin => Some(AnnotationView::PlanningPin),
        Marker::InverseRelationShadowVariable { instance } => match instance {
            Some(n) => Some(AnnotationView::InverseRelationShadowVariable(n@)),
            None => None,
        },
        Marker::PreviousElementShadowVariable { instance } => match instance {
            Some(n) => Some(AnnotationView::PreviousElementShadowVariable(n@)),
            None => None,
        },
        Marker::NextElementShadowVariable { instance } => match instance {
            Some(n) => Some(AnnotationView::NextElementShadowVariable(n@)),
            None => None,
        },
        Marker::CascadingUpdateShadowVariable { instance } => match instance {
            Some(n) => Some(AnnotationView::CascadingUpdateShadowVariable(n@)),
            None => None,
        },
        Marker::Other => None,
    }
}

/// The annotation a marker stands for.
pub fn marker_to_annotation(m: Marker) -> (res: Option<PlanningAnnotation>)
    ensures
        match res {
            Some(a) => annotation_of_marker(m) == Some(a.view_of()),
            None => annotation_of_marker(m) is None,
        },
        m matches Marker::PlanningVariable { instance: Some(inst) } ==> (res matches Some(
            PlanningAnnotation::PlanningVariable { value_range_provider_refs, allows_unassigned },
        ) && allows_unassigned == inst.1 && value_range_provider_refs@ == inst.0@),
        m matches Marker::PlanningListVariable { instance: Some(inst) } ==> (res matches Some(
            PlanningAnnotation::PlanningListVariable { value_range_provider_refs, allows_unassigned_values },
        ) && allows_unassigned_values == inst.1 && value_range_provider_refs@ == inst.0@),
{
    match m {
        Marker::PlanningId => Some(PlanningAnnotation::PlanningId),
        Marker::PlanningVariable { instance } => match instance {
            Some((refs, unassigned)) => Some(
                PlanningAnnotation::PlanningVariable { value_range_provider_refs: refs, allows_unassigned: unassigned },
            ),
            None => {
                let v: Vec<String> = Vec::new();
                assert(names_view(v@) =~= Seq::empty());
                Some(PlanningAnnotation::PlanningVariable { value_range_provider_refs: v, allows_unassigned: false })
            },
        },
        Marker::PlanningListVariable { instance } => match instance {
            Some((refs, unassigned)) => Some(
                PlanningAnnotation::PlanningListVariable { value_range_provider_refs: refs, allows_unassigned_values: unassigned },
            ),
            None => {
                let v: Vec<String> = Vec::new();
                assert(names_view(v@) =~= Seq::empty());
                Some(PlanningAnnotation::PlanningListVariable { value_range_provider_refs: v, allows_unassigned_values: false })
            },
        },
        Marker::PlanningScore => Some(PlanningAnnotation::PlanningScore { bendable_hard_levels: None, bendable_soft_levels: None }),
        Marker::ValueRangeProvider { instance } => match instance {
            Some(Some(id)) => Some(PlanningAnnotation::ValueRangeProvider { id: Some(id) }),
            _ => Some(PlanningAnnotation::ValueRangeProvider { id: None }),
        },
        Marker::ProblemFactProperty => Some(PlanningAnnotation::ProblemFactProperty),
        Marker::ProblemFactCollectionProperty => Some(PlanningAnnotation::ProblemFactCollectionProperty),
        Marker::PlanningEntityProperty => Some(PlanningAnnotation::PlanningEntityProperty),
        Marker::PlanningEntityCollectionProperty => Some(PlanningAnnotation::PlanningEntityCollectionProperty),
        Marker::PlanningPin => Some(PlanningAnnotation::PlanningPin),
        Marker::InverseRelationShadowVariable { instance } => match instance {
            Some(n) => Some(PlanningAnnotation::InverseRelationShadowVariable { source_variable_name: n }),
            None => None,
        },
        Marker::PreviousElementShadowVariable { instance } => match instance {
            Some(n) => Some(PlanningAnnotation::PreviousElementShadowVariable { source_variable_name: n }),
            None => None,
        },
        Marker::NextElementShadowVariable { instance } => match instance {
            Some(n) => Some(PlanningAnnotation::NextElementShadowVariable { source_variable_name: n }),
            None => None,
        },
        Marker::CascadingUpdateShadowVariable { instance } => match instance {
            Some(n) => Some(PlanningAnnotation::CascadingUpdateShadowVariable { target_method_name: n }),
            None => None,
        },
        Marker::Other => None,
    }
}

/// The annotations of the markers `ms[i..]`, in order.
pub open spec fn annotations_of_markers(ms: Seq<Marker>) -> Seq<AnnotationView>
    decreases ms.len(),
{
    if ms.len() == 0 {
        Seq::empty()
    } else {
        match annotation_of_marker(ms[0]) {
            Some(a) => seq![a] + annotations_of_markers(ms.subrange(1, ms.len() as int)),
            None => annotations_of_markers(ms.subrange(1, ms.len() as int)),
        }
    }
}

/// A field's raw annotation: `Annotated[base, markers...]` or a plain type.
#[derive(Debug)]
pub enum RawAnnotation {
    Annotated { base: PyTypeExpr, markers: Vec<Marker> },
    Plain { hint: PyTypeExpr },
}

/// The field type and the planning annotations of a raw annotation; an
/// `Annotated` without markers is an `object` without annotations.
pub open spec fn spec_extract_annotations(a: RawAnnotation) -> (FieldTypeView, Seq<AnnotationView>) {
    match a {
        RawAnnotation::Annotated { base, markers } => if markers@.len() == 0 {
            (object_view(), Seq::empty())
        } else {
            (spec_field_type(base), annotations_of_markers(markers@))
        },
        RawAnnotation::Plain { hint } => (spec_field_type(hint), Seq::empty()),
    }
}

/// Read the field type and the planning annotations of a field.
pub fn extract_annotations(a: RawAnnotation) -> (res: (FieldType, Vec<PlanningAnnotation>))
    ensures
        (res.0.view_of(), annotations_view(res.1@)) == spec_extract_annotations(a),
{
    match a {
        RawAnnotation::Annotated { base, markers } => {
            if markers.len() == 0 {
                let v: Vec<PlanningAnnotation> = Vec::new();
                assert(annotations_view(v@) =~= Seq::empty());
                return (object_type(), v);
            }
            let ft = python_type_to_field_type(&base);
            let ghost all = markers@;
            let mut rest = markers;
            let mut out: Vec<PlanningAnnotation> = Vec::new();
            assert(annotations_view(out@) =~= Seq::empty());
            while rest.len() > 0
                invariant
                    annotations_of_markers(all) == annotations_view(out@) + annotations_of_markers(rest@),
                decreases rest@.len(),
            {
                let ghost before = rest@;
                let m = rest.remove(0);
                assert(rest@ =~= before.subrange(1, before.len() as int));
                match marker_to_annotation(m) {
                    Some(x) => {
                        let ghost o = out@;
                        out.push(x);
                        assert(annotations_view(out@) =~= annotations_view(o) + seq![x.view_of()]);
                    },
                    None => {},
                }
            }
            assert(annotations_of_markers(rest@) =~= Seq::empty());
            assert(annotations_view(out@) + Seq::<AnnotationView>::empty() =~= annotations_view(out@));
            (ft, out)
        },
        RawAnnotation::Plain { hint } => {
            let v: Vec<PlanningAnnotation> = Vec::new();
            assert(annotations_view(v@) =~= Seq::empty());
            (python_type_to_field_type(&hint), v)
        },
    }
}

} // verus!

verus! {

// ---------------------------------------------------------------------------
// Domain classes
// ---------------------------------------------------------------------------

/// A field of a planning class.
#[derive(Debug)]
pub struct FieldDescriptor {
    pub name: String,
    pub field_type: FieldType,
    pub annotations: Vec<PlanningAnnotation>,
}

/// A planning class: its name, its own annotations and its fields in the
/// order they are declared.
#[derive(Debug)]
pub struct DomainClass {
    pub name: String,
    pub annotations: Vec<PlanningAnnotation>,
    pub fields: Vec<FieldDescriptor>,
}

/// Whether field `f` was read from the declaration `(name, raw)`.
pub open spec fn field_read_from(f: FieldDescriptor, decl: (String, RawAnnotation)) -> bool {
    &&& f.name == decl.0
    &&& (f.field_type.view_of(), annotations_view(f.annotations@)) == spec_extract_annotations(decl.1)
}

/// Whether a list of annotations holds one of the given kind.
pub open spec fn has_annotation(anns: Seq<PlanningAnnotation>, kind: AnnotationView) -> bool {
    exists|i: int| 0 <= i < anns.len() && #[trigger] anns[i].view_of() == kind
}

/// Build the domain class of a class from the annotations of its fields,
/// in the order they are declared.
pub fn build_domain_class(class_name: String, fields: Vec<(String, RawAnnotation)>) -> (res: DomainClass)
    ensures
        res.name == class_name,
        res.annotations@.len() == 0,
        res.fields@.len() == fields@.len(),
        forall|i: int| 0 <= i < fields@.len() ==> field_read_from(#[trigger] res.fields@[i], fields@[i]),
{
    let ghost all = fields@;
    let mut rest = fields;
    let mut out: Vec<FieldDescriptor> = Vec::new();
    while rest.len() > 0
        invariant
            out@.len() + rest@.len() == all.len(),
            rest@ == all.subrange(out@.len() as int, all.len() as int),
            forall|i: int| 0 <= i < out@.len() ==> field_read_from(#[trigger] out@[i], all[i]),
        decreases rest@.len(),
    {
        let ghost before = rest@;
        let ghost k = out@.len();
        let (name, raw) = rest.remove(0);
        assert(before[0] == all[k as int]);
        let (field_type, annotations) = extract_annotations(raw);
        out.push(FieldDescriptor { name, field_type, annotations });
        assert(rest@ =~= all.subrange(out@.len() as int, all.len() as int));
    }
    DomainClass { name: class_name, annotations: Vec::new(), fields: out }
}

impl DomainClass {
    /// The class with one more class annotation.
    pub fn with_annotation(self, a: PlanningAnnotation) -> (res: DomainClass)
        ensures
            res.name == self.name,
            res.fields@ == self.fields@,
            res.annotations@ == self.annotations@.push(a),
    {
        let mut annotations = self.annotations;
        annotations.push(a);
        DomainClass { name: self.name, annotations, fields: self.fields }
    }

    /// Whether the class is annotated as a planning entity.
    pub fn is_planning_entity(&self) -> (res: bool)
        ensures
            res == has_annotation(self.annotations@, AnnotationView::PlanningEntity),
    {
        let n = self.annotations.len();
        let mut i: usize = 0;
        while i < n
            invariant
                n == self.annotations@.len(),
                i <= n,
                forall|j: int| 0 <= j < i ==> self.annotations@[j].view_of() != AnnotationView::PlanningEntity,
            decreases n - i,
        {
            if matches!(self.annotations[i], PlanningAnnotation::PlanningEntity) {
                return true;
            }
            i = i + 1;
        }
        false
    }

    /// Whether the class is annotated as a planning solution.
    pub fn is_planning_solution(&self) -> (res: bool)
        ensures
            res == has_annotation(self.annotations@, AnnotationView::PlanningSolution),
    {
        let n = self.annotations.len();
        let mut i: usize = 0;
        while i < n
            invariant
                n == self.annotations@.len(),
                i <= n,
                forall|j: int| 0 <= j < i ==> self.annotations@[j].view_of() != AnnotationView::PlanningSolution,
            decreases n - i,
        {
            if matches!(self.annotations[i], PlanningAnnotation::PlanningSolution) {
                return true;
            }
            i = i + 1;
        }
        false
    }
}

/// The domain class of a class decorated as a planning entity.
pub fn planning_entity(class_name: String, fields: Vec<(String, RawAnnotation)>) -> (res: DomainClass)
    ensures
        res.name == class_name,
        annotations_view(res.annotations@) == seq![AnnotationView::PlanningEntity],
        res.fields@.len() == fields@.len(),
        forall|i: int| 0 <= i < fields@.len() ==> field_read_from(#[trigger] res.fields@[i], fields@[i]),
{
    let c = build_domain_class(class_name, fields).with_annotation(PlanningAnnotation::PlanningEntity);
    assert(annotations_view(c.annotations@) =~= seq![AnnotationView::PlanningEntity]);
    c
}

/// The domain class of a class decorated as a planning solution.
pub fn planning_solution(class_name: String, fields: Vec<(String, RawAnnotation)>) -> (res: DomainClass)
    ensures
        res.name == class_name,
        annotations_view(res.annotations@) == seq![AnnotationView::PlanningSolution],
        res.fields@.len() == fields@.len(),
        forall|i: int| 0 <= i < fields@.len() ==> field_read_from(#[trigger] res.fields@[i], fields@[i]),
{
    let c = build_domain_class(class_name, fields).with_annotation(PlanningAnnotation::PlanningSolution);
    assert(annotations_view(c.annotations@) =~= seq![AnnotationView::PlanningSolution]);
    c
}

/// The class a field refers to: an object field's class, or the class of
/// the elements of a list field.
pub open spec fn referenced_class(f: FieldDescriptor) -> Option<String> {
    match f.field_type {
        FieldType::Object { class_name } => Some(class_name),
        FieldType::List { element_type } => match *element_type {
            FieldType::Object { class_name } => Some(class_name),
            _ => None,
        },
        _ => None,
    }
}

/// Whether a class of the given name is among `classes`.
pub open spec fn has_class_named(classes: Seq<DomainClass>, name: Seq<char>) -> bool {
    exists|i: int| 0 <= i < classes.len() && #[trigger] classes[i].name@ == name
}

/// The classes referred to by the fields of `classes[i..]`, from field `j`
/// of class `i` on, that are not among `classes`, in order (with repeats).
pub open spec fn pending_from(classes: Seq<DomainClass>, i: int, j: int) -> Seq<Seq<char>>
    decreases classes.len() - i, (if 0 <= i < classes.len() { classes[i].fields@.len() - j } else { 0 }),
{
    if i < 0 || i >= classes.len() {
        Seq::empty()
    } else if j < 0 || j >= classes[i].fields@.len() {
        pending_from(classes, i + 1, 0)
    } else {
        match referenced_class(classes[i].fields@[j]) {
            Some(c) => if has_class_named(classes, c@) {
                pending_from(classes, i, j + 1)
            } else {
                seq![c@] + pending_from(classes, i, j + 1)
            },
            None => pending_from(classes, i, j + 1),
        }
    }
}

fn has_class_named_exec(classes: &Vec<DomainClass>, name: &String) -> (res: bool)
    ensures
        res == has_class_named(classes@, name@),
{
    let n = classes.len();
    let mut i: usize = 0;
    while i < n
        invariant
            n == classes@.len(),
            i <= n,
            forall|k: int| 0 <= k < i ==> classes@[k].name@ != name@,
        decreases n - i,
    {
        if classes[i].name == *name {
            return true;
        }
        i = i + 1;
    }
    false
}

fn referenced_class_exec(f: &FieldDescriptor) -> (res: Option<&String>)
    ensures
        match res {
            Some(c) => referenced_class(*f) == Some(*c),
            None => referenced_class(*f) is None,
        },
{
    match &f.field_type {
        FieldType::Object { class_name } => Some(class_name),
        FieldType::List { element_type } => match &**element_type {
            FieldType::Object { class_name } => Some(class_name),
            _ => None,
        },
        _ => None,
    }
}

/// The classes the fields of a model's classes refer to that the model
/// does not hold yet, in the order of classes and fields.
pub fn pending_referenced_classes(classes: &Vec<DomainClass>) -> (res: Vec<String>)
    ensures
        names_view(res@) == pending_from(classes@, 0, 0),
{
    let mut out: Vec<String> = Vec::new();
    let n = classes.len();
    let mut i: usize = 0;
    assert(names_view(out@) =~= Seq::empty());
    while i < n
        invariant
            n == classes@.len(),
            i <= n,
            pending_from(classes@, 0, 0) == names_view(out@) + pending_from(classes@, i as int, 0),
        decreases n - i,
    {
        let m = classes[i].fields.len();
        let mut j: usize = 0;
        while j < m
            invariant
                n == classes@.len(),
                i < n,
                m == classes@[i as int].fields@.len(),
                j <= m,
                pending_from(classes@, 0, 0) == names_view(out@) + pending_from(classes@, i as int, j as int),
            decreases m - j,
        {
            match referenced_class_exec(&classes[i].fields[j]) {
                Some(c) => if !has_class_named_exec(classes, c) {
                    let ghost o = out@;
                    out.push(c.clone());
                    assert(names_view(out@) =~= names_view(o) + seq![c@]);
                    assert(names_view(out@) + pending_from(classes@, i as int, j + 1) =~= names_view(o) + (seq![c@] + pending_from(classes@, i as int, j + 1)));
                },
                None => {},
            }
            j = j + 1;
        }
        i = i + 1;
    }
    assert(names_view(out@) + Seq::<Seq<char>>::empty() =~= names_view(out@));
    out
}

} // verus!

verus! {

// ---------------------------------------------------------------------------
// The domain model
// ---------------------------------------------------------------------------

/// A domain class as handed to the scripting side.
#[derive(Debug)]
pub struct PyDomainClass {
    pub inner: DomainClass,
}

impl PyDomainClass {
    pub fn from_rust(inner: DomainClass) -> (res: Self)
        ensures
            res.inner == inner,
    {
        PyDomainClass { inner }
    }

    pub fn to_rust(&self) -> (res: DomainClass)
        ensures
            same_class(res, self.inner),
    {
        clone_domain_class(&self.inner)
    }

    /// The class name.
    pub fn name(&self) -> (res: &str)
        ensures
            res@ == self.inner.name@,
    {
        self.inner.name.as_str()
    }

    /// The number of fields.
    pub fn field_count(&self) -> (res: usize)
        ensures
            res == self.inner.fields@.len(),
    {
        self.inner.fields.len()
    }

    /// The field names, in order.
    pub fn field_names(&self) -> (res: Vec<String>)
        ensures
            res@.len() == self.inner.fields@.len(),
            forall|i: int| 0 <= i < res@.len() ==> res@[i] == #[trigger] self.inner.fields@[i].name,
    {
        let mut out: Vec<String> = Vec::new();
        let n = self.inner.fields.len();
        let mut i: usize = 0;
        while i < n
            invariant
                n == self.inner.fields@.len(),
                i <= n,
                out@.len() == i,
                forall|k: int| 0 <= k < i ==> out@[k] == #[trigger] self.inner.fields@[k].name,
            decreases n - i,
        {
            out.push(self.inner.fields[i].name.clone());
            i = i + 1;
        }
        out
    }

    /// Whether this is a planning entity.
    pub fn is_planning_entity(&self) -> (res: bool)
        ensures
            res == has_annotation(self.inner.annotations@, AnnotationView::PlanningEntity),
    {
        self.inner.is_planning_entity()
    }

    /// Whether this is a planning solution.
    pub fn is_planning_solution(&self) -> (res: bool)
        ensures
            res == has_annotation(self.inner.annotations@, AnnotationView::PlanningSolution),
    {
        self.inner.is_planning_solution()
    }

    /// The text of the class, e.g. `DomainClass(name='Lesson', fields=3)`.
    pub fn repr(&self) -> (res: String)
        ensures
            res@ == "DomainClass(name='"@ + self.inner.name@ + "', fields="@ + crate::text::nat_digits(
                self.inner.fields@.len(),
            ) + ")"@,
    {
        let mut s = String::from_str("DomainClass(name='");
        s.append(self.inner.name.as_str());
        s.append("', fields=");
        crate::text::push_u64_digits(&mut s, self.inner.fields.len() as u64);
        s.append(")");
        assert(s@ =~= "DomainClass(name='"@ + self.inner.name@ + "', fields="@ + crate::text::nat_digits(
            self.inner.fields@.len(),
        ) + ")"@);
        s
    }
}

/// The classes of a problem: the solution class, the entity classes, and
/// the classes they refer to.
#[derive(Debug)]
pub struct DomainModel {
    pub classes: Vec<DomainClass>,
    /// The name of the class annotated as the planning solution.
    pub solution_class: Option<String>,
    /// The names of the classes annotated as planning entities, in order.
    pub entity_classes: Vec<String>,
}

/// The solution class of a list of classes: the last one annotated as the
/// planning solution.
pub open spec fn solution_of(cs: Seq<DomainClass>) -> Option<String>
    decreases cs.len(),
{
    if cs.len() == 0 {
        None
    } else if has_annotation(cs.last().annotations@, AnnotationView::PlanningSolution) {
        Some(cs.last().name)
    } else {
        solution_of(cs.drop_last())
    }
}

/// The names of the classes annotated as planning entities, in order.
pub open spec fn entities_of(cs: Seq<DomainClass>) -> Seq<String>
    decreases cs.len(),
{
    if cs.len() == 0 {
        Seq::empty()
    } else if has_annotation(cs.last().annotations@, AnnotationView::PlanningEntity) {
        entities_of(cs.drop_last()).push(cs.last().name)
    } else {
        entities_of(cs.drop_last())
    }
}

impl DomainModel {
    /// The solution and entity names are those of the model's classes.
    pub open spec fn consistent(&self) -> bool {
        &&& self.solution_class == solution_of(self.classes@)
        &&& self.entity_classes@ == entities_of(self.classes@)
    }

    /// The empty model.
    pub fn new() -> (res: Self)
        ensures
            res.classes@.len() == 0,
            res.solution_class is None,
            res.entity_classes@.len() == 0,
            res.consistent(),
    {
        let res = DomainModel { classes: Vec::new(), solution_class: None, entity_classes: Vec::new() };
        assert(res.entity_classes@ =~= entities_of(res.classes@));
        res
    }

    /// Whether the model has no class of the given name yet.
    pub fn needs_class(&self, name: &String) -> (res: bool)
        ensures
            res == !has_class_named(self.classes@, name@),
    {
        !has_class_named_exec(&self.classes, name)
    }

    /// The model with one more class; a solution class becomes the model's
    /// solution, an entity class is listed among its entities.
    pub fn add_class(self, c: DomainClass) -> (res: Self)
        ensures
            res.classes@ == self.classes@.push(c),
            has_annotation(c.annotations@, AnnotationView::PlanningSolution) ==> res.solution_class == Some(c.name),
            !has_annotation(c.annotations@, AnnotationView::PlanningSolution) ==> res.solution_class == self.solution_class,
            has_annotation(c.annotations@, AnnotationView::PlanningEntity) ==> res.entity_classes@ == self.entity_classes@.push(c.name),
            !has_annotation(c.annotations@, AnnotationView::PlanningEntity) ==> res.entity_classes@ == self.entity_classes@,
            self.consistent() ==> res.consistent(),
    {
        let ghost old_classes = self.classes@;
        let mut classes = self.classes;
        let mut entity_classes = self.entity_classes;
        let mut solution_class = self.solution_class;
        if c.is_planning_solution() {
            solution_class = Some(c.name.clone());
        }
        if c.is_planning_entity() {
            entity_classes.push(c.name.clone());
        }
        classes.push(c);
        assert(classes@.drop_last() =~= old_classes);
        DomainModel { classes, solution_class, entity_classes }
    }

    /// The number of classes.
    pub fn class_count(&self) -> (res: usize)
        ensures
            res == self.classes@.len(),
    {
        self.classes.len()
    }

    /// The first class with the given name.
    pub fn get_class(&self, name: &str) -> (res: Option<&DomainClass>)
        ensures
            match res {
                Some(c) => exists|i: int| 0 <= i < self.classes@.len() && self.classes@[i] == *c && c.name@ == name@ && (
                forall|k: int| 0 <= k < i ==> #[trigger] self.classes@[k].name@ != name@),
                None => !has_class_named(self.classes@, name@),
            },
    {
        let n = self.classes.len();
        let mut i: usize = 0;
        while i < n
            invariant
                n == self.classes@.len(),
                i <= n,
                forall|k: int| 0 <= k < i ==> #[trigger] self.classes@[k].name@ != name@,
            decreases n - i,
        {
            if string_eq_str(&self.classes[i].name, name) {
                return Some(&self.classes[i]);
            }
            i = i + 1;
        }
        None
    }
}

} // verus!

verus! {

impl FieldDescriptor {
    /// A field without annotations.
    pub fn new(name: &str, field_type: FieldType) -> (res: Self)
        ensures
            res.name@ == name@,
            res.field_type == field_type,
            res.annotations@.len() == 0,
    {
        FieldDescriptor { name: String::from_str(name), field_type, annotations: Vec::new() }
    }

    /// The field with one more annotation.
    pub fn with_annotation(self, a: PlanningAnnotation) -> (res: Self)
        ensures
            res.name == self.name,
            res.field_type == self.field_type,
            res.annotations@ == self.annotations@.push(a),
    {
        let mut annotations = self.annotations;
        annotations.push(a);
        FieldDescriptor { name: self.name, field_type: self.field_type, annotations }
    }
}

impl DomainClass {
    /// A class without fields or annotations.
    pub fn new(name: &str) -> (res: Self)
        ensures
            res.name@ == name@,
            res.annotations@.len() == 0,
            res.fields@.len() == 0,
    {
        DomainClass { name: String::from_str(name), annotations: Vec::new(), fields: Vec::new() }
    }

    /// The class with one more field.
    pub fn with_field(self, f: FieldDescriptor) -> (res: Self)
        ensures
            res.name == self.name,
            res.annotations@ == self.annotations@,
            res.fields@ == self.fields@.push(f),
    {
        let mut fields = self.fields;
        fields.push(f);
        DomainClass { name: self.name, annotations: self.annotations, fields }
    }
}

/// A copy of a list of strings.
pub fn clone_strings(v: &Vec<String>) -> (res: Vec<String>)
    ensures
        res@ == v@,
{
    let mut out: Vec<String> = Vec::new();
    let n = v.len();
    let mut i: usize = 0;
    while i < n
        invariant
            n == v@.len(),
            i <= n,
            out@ == v@.subrange(0, i as int),
        decreases n - i,
    {
        out.push(v[i].clone());
        assert(out@ =~= v@.subrange(0, i as int + 1));
        i = i + 1;
    }
    assert(out@ =~= v@);
    out
}

fn clone_opt_str(o: &Option<String>) -> (res: Option<String>)
    ensures
        res == *o,
{
    match o {
        Some(s) => Some(s.clone()),
        None => None,
    }
}

/// A copy of a field type.
pub fn clone_field_type(t: &FieldType) -> (res: FieldType)
    ensures
        res == *t,
    decreases t,
{
    match t {
        FieldType::Primitive { primitive } => FieldType::Primitive { primitive: *primitive },
        FieldType::Object { class_name } => FieldType::Object { class_name: class_name.clone() },
        FieldType::List { element_type } => FieldType::List {
            element_type: Box::new(clone_field_type(&**element_type)),
        },
    }
}

/// A copy of an annotation.
pub fn clone_annotation(a: &PlanningAnnotation) -> (res: PlanningAnnotation)
    ensures
        res.view_of() == a.view_of(),
{
    match a {
        PlanningAnnotation::PlanningId => PlanningAnnotation::PlanningId,
        PlanningAnnotation::PlanningVariable { value_range_provider_refs, allows_unassigned } =>
            PlanningAnnotation::PlanningVariable {
                value_range_provider_refs: clone_strings(value_range_provider_refs),
                allows_unassigned: *allows_unassigned,
            },
        PlanningAnnotation::PlanningListVariable { value_range_provider_refs, allows_unassigned_values } =>
            PlanningAnnotation::PlanningListVariable {
                value_range_provider_refs: clone_strings(value_range_provider_refs),
                allows_unassigned_values: *allows_unassigned_values,
            },
        PlanningAnnotation::PlanningScore { bendable_hard_levels, bendable_soft_levels } =>
            PlanningAnnotation::PlanningScore {
                bendable_hard_levels: *bendable_hard_levels,
                bendable_soft_levels: *bendable_soft_levels,
            },
        PlanningAnnotation::ValueRangeProvider { id } => PlanningAnnotation::ValueRangeProvider { id: clone_opt_str(id) },
        PlanningAnnotation::ProblemFactProperty => PlanningAnnotation::ProblemFactProperty,
        PlanningAnnotation::ProblemFactCollectionProperty => PlanningAnnotation::ProblemFactCollectionProperty,
        PlanningAnnotation::PlanningEntityProperty => PlanningAnnotation::PlanningEntityProperty,
        PlanningAnnotation::PlanningEntityCollectionProperty => PlanningAnnotation::PlanningEntityCollectionProperty,
        PlanningAnnotation::PlanningPin => PlanningAnnotation::PlanningPin,
        PlanningAnnotation::InverseRelationShadowVariable { source_variable_name } =>
            PlanningAnnotation::InverseRelationShadowVariable { source_variable_name: source_variable_name.clone() },
        PlanningAnnotation::PreviousElementShadowVariable { source_variable_name } =>
            PlanningAnnotation::PreviousElementShadowVariable { source_variable_name: source_variable_name.clone() },
        PlanningAnnotation::NextElementShadowVariable { source_variable_name } =>
            PlanningAnnotation::NextElementShadowVariable { source_variable_name: source_variable_name.clone() },
        PlanningAnnotation::CascadingUpdateShadowVariable { target_method_name } =>
            PlanningAnnotation::CascadingUpdateShadowVariable { target_method_name: target_method_name.clone() },
        PlanningAnnotation::PlanningEntity => PlanningAnnotation::PlanningEntity,
        PlanningAnnotation::PlanningSolution => PlanningAnnotation::PlanningSolution,
    }
}

/// A copy of a list of annotations.
pub fn clone_annotations(v: &Vec<PlanningAnnotation>) -> (res: Vec<PlanningAnnotation>)
    ensures
        annotations_view(res@) == annotations_view(v@),
{
    let mut out: Vec<PlanningAnnotation> = Vec::new();
    let n = v.len();
    let mut i: usize = 0;
    while i < n
        invariant
            n == v@.len(),
            i <= n,
            annotations_view(out@) == annotations_view(v@.subrange(0, i as int)),
        decreases n - i,
    {
        let ghost before = out@;
        let a = clone_annotation(&v[i]);
        out.push(a);
        assert(v@.subrange(0, i as int + 1) =~= v@.subrange(0, i as int).push(v@[i as int]));
        assert(out@ =~= before.push(a));
        assert(annotations_view(out@) =~= annotations_view(before).push(a.view_of()));
        assert(annotations_view(v@.subrange(0, i as int + 1)) =~= annotations_view(v@.subrange(0, i as int)).push(
            v@[i as int].view_of(),
        ));
        i = i + 1;
    }
    assert(v@.subrange(0, n as int) =~= v@);
    out
}

/// Two fields with the same name, type and annotations.
pub open spec fn same_field(a: FieldDescriptor, b: FieldDescriptor) -> bool {
    &&& a.name == b.name
    &&& a.field_type == b.field_type
    &&& annotations_view(a.annotations@) == annotations_view(b.annotations@)
}

/// Two classes with the same name, annotations and fields.
pub open spec fn same_class(a: DomainClass, b: DomainClass) -> bool {
    &&& a.name == b.name
    &&& annotations_view(a.annotations@) == annotations_view(b.annotations@)
    &&& a.fields@.len() == b.fields@.len()
    &&& forall|i: int| 0 <= i < a.fields@.len() ==> same_field(#[trigger] a.fields@[i], b.fields@[i])
}

/// A copy of a domain class.
pub fn clone_domain_class(c: &DomainClass) -> (res: DomainClass)
    ensures
        same_class(res, *c),
{
    let mut fields: Vec<FieldDescriptor> = Vec::new();
    let n = c.fields.len();
    let mut i: usize = 0;
    while i < n
        invariant
            n == c.fields@.len(),
            i <= n,
            fields@.len() == i,
            forall|k: int| 0 <= k < i ==> same_field(#[trigger] fields@[k], c.fields@[k]),
        decreases n - i,
    {
        let f = &c.fields[i];
        fields.push(FieldDescriptor {
            name: f.name.clone(),
            field_type: clone_field_type(&f.field_type),
            annotations: clone_annotations(&f.annotations),
        });
        i = i + 1;
    }
    DomainClass { name: c.name.clone(), annotations: clone_annotations(&c.annotations), fields }
}

/// The model of a solution class and its entity classes, in that order,
/// before the classes their fields refer to are added.
pub fn initial_domain_model(solution: DomainClass, entities: Vec<DomainClass>) -> (res: DomainModel)
    ensures
        res.classes@ == seq![solution] + entities@,
        res.consistent(),
{
    let ghost all = seq![solution] + entities@;
    let mut model = DomainModel::new().add_class(solution);
    let mut rest = entities;
    assert(model.classes@ =~= all.subrange(0, 1));
    while rest.len() > 0
        invariant
            model.consistent(),
            model.classes@.len() + rest@.len() == all.len(),
            model.classes@ == all.subrange(0, model.classes@.len() as int),
            rest@ == all.subrange(model.classes@.len() as int, all.len() as int),
        decreases rest@.len(),
    {
        let ghost before = rest@;
        let ghost n = model.classes@.len();
        let c = rest.remove(0);
        assert(before[0] == all[n as int]);
        model = model.add_class(c);
        assert(model.classes@ =~= all.subrange(0, model.classes@.len() as int));
        assert(rest@ =~= all.subrange(model.classes@.len() as int, all.len() as int));
    }
    assert(model.classes@ =~= all);
    model
}

/// Two models with the same classes, solution and entities.
pub open spec fn same_model(a: DomainModel, b: DomainModel) -> bool {
    &&& a.classes@.len() == b.classes@.len()
    &&& forall|i: int| 0 <= i < a.classes@.len() ==> same_class(#[trigger] a.classes@[i], b.classes@[i])
    &&& a.solution_class == b.solution_class
    &&& a.entity_classes@ == b.entity_classes@
}

/// A copy of a domain model.
pub fn clone_domain_model(m: &DomainModel) -> (res: DomainModel)
    ensures
        same_model(res, *m),
{
    let mut classes: Vec<DomainClass> = Vec::new();
    let n = m.classes.len();
    let mut i: usize = 0;
    while i < n
        invariant
            n == m.classes@.len(),
            i <= n,
            classes@.len() == i,
            forall|k: int| 0 <= k < i ==> same_class(#[trigger] classes@[k], m.classes@[k]),
        decreases n - i,
    {
        classes.push(clone_domain_class(&m.classes[i]));
        i = i + 1;
    }
    DomainModel {
        classes,
        solution_class: clone_opt_str(&m.solution_class),
        entity_classes: clone_strings(&m.entity_classes),
    }
}

/// A domain model as handed to the scripting side.
#[derive(Debug)]
pub struct PyDomainModel {
    pub inner: DomainModel,
}

impl PyDomainModel {
    /// An empty model.
    pub fn new() -> (res: Self)
        ensures
            res.inner.classes@.len() == 0,
            res.inner.solution_class is None,
            res.inner.entity_classes@.len() == 0,
            res.inner.consistent(),
    {
        PyDomainModel { inner: DomainModel::new() }
    }

    pub fn from_rust(inner: DomainModel) -> (res: Self)
        ensures
            res.inner == inner,
    {
        PyDomainModel { inner }
    }

    pub fn to_rust(&self) -> (res: DomainModel)
        ensures
            same_model(res, self.inner),
    {
        clone_domain_model(&self.inner)
    }

    /// The name of the solution class.
    pub fn solution_class(&self) -> (res: Option<String>)
        ensures
            res == self.inner.solution_class,
    {
        clone_opt_str(&self.inner.solution_class)
    }

    /// The names of the entity classes.
    pub fn entity_classes(&self) -> (res: Vec<String>)
        ensures
            res@ == self.inner.entity_classes@,
    {
        clone_strings(&self.inner.entity_classes)
    }

    /// The number of classes.
    pub fn class_count(&self) -> (res: usize)
        ensures
            res == self.inner.classes@.len(),
    {
        self.inner.classes.len()
    }

    /// The class names, in the order the classes were added.
    pub fn class_names(&self) -> (res: Vec<String>)
        ensures
            res@.len() == self.inner.classes@.len(),
            forall|i: int| 0 <= i < res@.len() ==> res@[i] == #[trigger] self.inner.classes@[i].name,
    {
        let mut out: Vec<String> = Vec::new();
        let n = self.inner.classes.len();
        let mut i: usize = 0;
        while i < n
            invariant
                n == self.inner.classes@.len(),
                i <= n,
                out@.len() == i,
                forall|k: int| 0 <= k < i ==> out@[k] == #[trigger] self.inner.classes@[k].name,
            decreases n - i,
        {
            out.push(self.inner.classes[i].name.clone());
            i = i + 1;
        }
        out
    }

    /// A copy of the first class with the given name.
    pub fn get_class(&self, name: &str) -> (res: Option<PyDomainClass>)
        ensures
            match res {
                Some(c) => exists|i: int|
                    0 <= i < self.inner.classes@.len() && same_class(c.inner, #[trigger] self.inner.classes@[i])
                        && self.inner.classes@[i].name@ == name@ && (forall|k: int|
                        0 <= k < i ==> #[trigger] self.inner.classes@[k].name@ != name@),
                None => !has_class_named(self.inner.classes@, name@),
            },
    {
        match self.inner.get_class(name) {
            Some(c) => Some(PyDomainClass::from_rust(clone_domain_class(c))),
            None => None,
        }
    }

    /// The text of the model, e.g.
    /// `DomainModel(solution='Timetable', entities=["Lesson"], classes=3)`.
    pub fn repr(&self) -> (res: String)
        ensures
            res@ == "DomainModel(solution='"@ + match self.inner.solution_class {
                Some(s) => s@,
                None => "None"@,
            } + "', entities="@ + crate::annotations::debug_list(
                crate::annotations::strings_view(self.inner.entity_classes@),
            ) + ", classes="@ + crate::text::nat_digits(self.inner.classes@.len()) + ")"@,
    {
        proof {
            reveal_strlit("DomainModel(solution='");
            reveal_strlit("None");
            reveal_strlit("', entities=");
            reveal_strlit(", classes=");
            reveal_strlit(")");
        }
        let mut s = String::from_str("DomainModel(solution='");
        match &self.inner.solution_class {
            Some(name) => s.append(name.as_str()),
            None => s.append("None"),
        }
        s.append("', entities=");
        crate::annotations::push_debug_list(&mut s, &self.inner.entity_classes);
        s.append(", classes=");
        crate::text::push_u64_digits(&mut s, self.inner.classes.len() as u64);
        s.append(")");
        s
    }
}

/// A planning-variable marker given as an instance carries its value range
/// provider names and its `allows_unassigned` flag over unchanged, for a
/// list variable as for a basic one; given as a bare class it takes no
/// providers and requires assignment.
pub proof fn law_variable_marker_keeps_instance(refs: Vec<String>, allows_unassigned: bool)
    ensures
        annotation_of_marker(Marker::PlanningVariable { instance: Some((refs, allows_unassigned)) }) == Some(
            AnnotationView::PlanningVariable(refs@.map_values(|s: String| s@), allows_unassigned),
        ),
        annotation_of_marker(Marker::PlanningListVariable { instance: Some((refs, allows_unassigned)) }) == Some(
            AnnotationView::PlanningListVariable(refs@.map_values(|s: String| s@), allows_unassigned),
        ),
        annotation_of_marker(Marker::PlanningVariable { instance: None }) == Some(
            AnnotationView::PlanningVariable(Seq::empty(), false),
        ),
        annotation_of_marker(Marker::PlanningListVariable { instance: None }) == Some(
            AnnotationView::PlanningListVariable(Seq::empty(), false),
        ),
{
}

} // verus!
