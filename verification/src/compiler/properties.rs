//! The model of a property: its export hint, its setter and getter, its default.

use crate::compiler::attributes::field_annotation;
use crate::compiler::attributes::Annotation;
use crate::compiler::attributes::AnnotationView;
use crate::compiler::attributes::Attribute;
use crate::compiler::attributes::AttributeView;
use crate::compiler::attributes::Field;
use crate::compiler::attributes::FieldView;
use crate::compiler::attributes::StructItem;
use crate::error::Error;
use crate::error::ErrorView;
use crate::error::PropertyError;
use crate::error::PropertyErrorView;
use crate::parser::gdscript_var::GdScriptVar;
use crate::parser::gdscript_var::GdScriptVarView;
use crate::text::clone_lits;
use crate::text::clone_opt_lit;
use crate::text::clone_texts;
use crate::error::Found;
use crate::error::FoundView;
use crate::error::ParseError;
use crate::error::ParseErrorKind;
use crate::error::ParseErrorView;
use crate::tokens::Lit;
use crate::tokens::LitKind;
use crate::tokens::LitView;
use vstd::prelude::*;

verus! {

/// The literal is a number: an integer or a floating-point number.
pub open spec fn numeric(item: LitView) -> bool {
    item.kind == LitKind::Int || item.kind == LitKind::Float
}

/// What is wrong with the bounds of a range, if anything is: the first bound is no
/// number, or the second is not of the kind of the first. A bound that is not there is
/// not judged.
pub open spec fn bounds_fault(range: Seq<LitView>) -> Option<ParseErrorView> {
    if range.len() >= 1 && !numeric(range[0]) {
        Some(
            ParseErrorView {
                kind: ParseErrorKind::ExpectedNumber,
                found: FoundView::Literal(range[0].token),
            },
        )
    } else if range.len() >= 2 && range[1].kind != range[0].kind {
        Some(
            ParseErrorView {
                kind: ParseErrorKind::ExpectedSameKind,
                found: FoundView::Literal(range[1].token),
            },
        )
    } else {
        None
    }
}

/// The bounds of a range, as far as they are there, are numbers of one kind: both
/// integers or both floating-point numbers.
pub open spec fn well_bounded(range: Seq<LitView>) -> bool {
    bounds_fault(range) is None
}

/// Holds the bounds of a range to the rule: the first is a number, and the second is of
/// the kind of the first. The error names the bound that breaks it.
pub fn check_bounds(range: &Vec<Lit>) -> (r: Option<ParseError>)
    ensures
        match r {
            Some(e) => bounds_fault(range.deep_view()) == Some(e@),
            None => bounds_fault(range.deep_view()) is None,
        },
{
    if range.len() >= 1 {
        assert(range.deep_view()[0] == range@[0]@);
        let first = &range[0];
        let first_is_number = match first.kind {
            LitKind::Int | LitKind::Float => true,
            _ => false,
        };
        if !first_is_number {
            return Some(
                ParseError {
                    kind: ParseErrorKind::ExpectedNumber,
                    found: Found::Literal(first.token.clone()),
                },
            );
        }
        if range.len() >= 2 {
            assert(range.deep_view()[1] == range@[1]@);
            let second = &range[1];
            if second.kind != first.kind {
                return Some(
                    ParseError {
                        kind: ParseErrorKind::ExpectedSameKind,
                        found: Found::Literal(second.token.clone()),
                    },
                );
            }
        }
    }
    None
}

/// The arguments of a range hint: the two bounds, numbers of one kind, then step and
/// clamp markers.
#[derive(Debug)]
pub struct ExportRange {
    pub range: Vec<Lit>,
}

/// The arguments of an exponential range hint, laid out as those of [`ExportRange`].
#[derive(Debug)]
pub struct ExportExpRange {
    pub range: Vec<Lit>,
}

/// The names of an enumeration hint; the position of a name is its ordinal.
#[derive(Debug)]
pub struct ExportEnum {
    pub values: Vec<Lit>,
}

/// A file hint with its optional glob filter.
#[derive(Debug)]
pub struct ExportFile {
    pub filter: Option<Lit>,
}

/// A global-file hint with its optional glob filter.
#[derive(Debug)]
pub struct ExportGlobalFile {
    pub filter: Option<Lit>,
}

/// The node types that a node-path hint allows.
///
/// The types are read and kept, and that is all: the engine has no hint for node paths,
/// so none is written and a path to a node of any type is accepted.
#[derive(Debug)]
pub struct ExportNodePath {
    pub types: Vec<String>,
}

/// The names of a bit-flag hint; the position of a name is its bit.
#[derive(Debug)]
pub struct ExportFlags {
    pub values: Vec<Lit>,
}

/// How a property is presented to the editor. Exactly one per property.
#[derive(Debug)]
pub enum ExportType {
    NoHint,
    NoExport,
    Export,
    ExportRange(ExportRange),
    ExportExpRange(ExportExpRange),
    ExportEnum(ExportEnum),
    ExportFile(ExportFile),
    ExportDir,
    ExportGlobalFile(ExportGlobalFile),
    ExportGlobalDir,
    ExportMultiline,
    ExportColorNoAlpha,
    ExportNodePath(ExportNodePath),
    ExportFlags(ExportFlags),
    ExportFlags2dPhysics,
    ExportFlags2dRender,
    ExportFlags3dPhysics,
    ExportFlags3dRender,
}

/// The mathematical model of [`ExportType`].
pub enum ExportTypeView {
    NoHint,
    NoExport,
    Export,
    ExportRange(Seq<LitView>),
    ExportExpRange(Seq<LitView>),
    ExportEnum(Seq<LitView>),
    ExportFile(Option<LitView>),
    ExportDir,
    ExportGlobalFile(Option<LitView>),
    ExportGlobalDir,
    ExportMultiline,
    ExportColorNoAlpha,
    ExportNodePath(Seq<Seq<char>>),
    ExportFlags(Seq<LitView>),
    ExportFlags2dPhysics,
    ExportFlags2dRender,
    ExportFlags3dPhysics,
    ExportFlags3dRender,
}

impl View for ExportType {
    type V = ExportTypeView;

    open spec fn view(&self) -> ExportTypeView {
        match *self {
            ExportType::NoHint => ExportTypeView::NoHint,
            ExportType::NoExport => ExportTypeView::NoExport,
            ExportType::Export => ExportTypeView::Export,
            ExportType::ExportRange(r) => ExportTypeView::ExportRange(r.range.deep_view()),
            ExportType::ExportExpRange(r) => ExportTypeView::ExportExpRange(r.range.deep_view()),
            ExportType::ExportEnum(e) => ExportTypeView::ExportEnum(e.values.deep_view()),
            ExportType::ExportFile(f) => ExportTypeView::ExportFile(f.filter.deep_view()),
            ExportType::ExportDir => ExportTypeView::ExportDir,
            ExportType::ExportGlobalFile(f) => ExportTypeView::ExportGlobalFile(
                f.filter.deep_view(),
            ),
            ExportType::ExportGlobalDir => ExportTypeView::ExportGlobalDir,
            ExportType::ExportMultiline => ExportTypeView::ExportMultiline,
            ExportType::ExportColorNoAlpha => ExportTypeView::ExportColorNoAlpha,
            ExportType::ExportNodePath(p) => ExportTypeView::ExportNodePath(p.types.deep_view()),
            ExportType::ExportFlags(f) => ExportTypeView::ExportFlags(f.values.deep_view()),
            ExportType::ExportFlags2dPhysics => ExportTypeView::ExportFlags2dPhysics,
            ExportType::ExportFlags2dRender => ExportTypeView::ExportFlags2dRender,
            ExportType::ExportFlags3dPhysics => ExportTypeView::ExportFlags3dPhysics,
            ExportType::ExportFlags3dRender => ExportTypeView::ExportFlags3dRender,
        }
    }
}

impl DeepView for ExportType {
    type V = ExportTypeView;

    open spec fn deep_view(&self) -> ExportTypeView {
        self@
    }
}

impl Clone for ExportType {
    fn clone(&self) -> (r: Self)
        ensures
            r@ == self@,
    {
        match self {
            ExportType::NoHint => ExportType::NoHint,
            ExportType::NoExport => ExportType::NoExport,
            ExportType::Export => ExportType::Export,
            ExportType::ExportRange(r) => ExportType::ExportRange(
                ExportRange { range: clone_lits(&r.range) },
            ),
            ExportType::ExportExpRange(r) => ExportType::ExportExpRange(
                ExportExpRange { range: clone_lits(&r.range) },
            ),
            ExportType::ExportEnum(e) => ExportType::ExportEnum(
                ExportEnum { values: clone_lits(&e.values) },
            ),
            ExportType::ExportFile(f) => ExportType::ExportFile(
                ExportFile { filter: clone_opt_lit(&f.filter) },
            ),
            ExportType::ExportDir => ExportType::ExportDir,
            ExportType::ExportGlobalFile(f) => ExportType::ExportGlobalFile(
                ExportGlobalFile { filter: clone_opt_lit(&f.filter) },
            ),
            ExportType::ExportGlobalDir => ExportType::ExportGlobalDir,
            ExportType::ExportMultiline => ExportType::ExportMultiline,
            ExportType::ExportColorNoAlpha => ExportType::ExportColorNoAlpha,
            ExportType::ExportNodePath(p) => ExportType::ExportNodePath(
                ExportNodePath { types: clone_texts(&p.types) },
            ),
            ExportType::ExportFlags(f) => ExportType::ExportFlags(
                ExportFlags { values: clone_lits(&f.values) },
            ),
            ExportType::ExportFlags2dPhysics => ExportType::ExportFlags2dPhysics,
            ExportType::ExportFlags2dRender => ExportType::ExportFlags2dRender,
            ExportType::ExportFlags3dPhysics => ExportType::ExportFlags3dPhysics,
            ExportType::ExportFlags3dRender => ExportType::ExportFlags3dRender,
        }
    }
}

} // verus!

verus! {

/// The method that a `set` or `get` annotation names.
#[derive(Debug)]
pub struct SetGetMethod {
    pub method: String,
}

/// The two methods that a `setget` annotation names.
#[derive(Debug)]
pub struct SetGetMethods {
    pub setter: String,
    pub getter: String,
}

/// The methods that stand in for plain access to the field of a property.
#[derive(Debug)]
pub enum SetGet {
    NoSetGet,
    SetterOnly(SetGetMethod),
    GetterOnly(SetGetMethod),
    Both(SetGetMethods),
}

/// The mathematical model of [`SetGet`].
pub enum SetGetView {
    NoSetGet,
    SetterOnly(Seq<char>),
    GetterOnly(Seq<char>),
    Both { setter: Seq<char>, getter: Seq<char> },
}

impl View for SetGet {
    type V = SetGetView;

    open spec fn view(&self) -> SetGetView {
        match *self {
            SetGet::NoSetGet => SetGetView::NoSetGet,
            SetGet::SetterOnly(m) => SetGetView::SetterOnly(m.method@),
            SetGet::GetterOnly(m) => SetGetView::GetterOnly(m.method@),
            SetGet::Both(m) => SetGetView::Both { setter: m.setter@, getter: m.getter@ },
        }
    }
}

/// What a `set` annotation makes of the methods so far: the setter is the new one, and a
/// getter that is there stays.
pub open spec fn with_setter(s: SetGetView, setter: Seq<char>) -> SetGetView {
    match s {
        SetGetView::GetterOnly(getter) => SetGetView::Both { setter, getter },
        SetGetView::Both { getter, .. } => SetGetView::Both { setter, getter },
        _ => SetGetView::SetterOnly(setter),
    }
}

/// What a `get` annotation makes of the methods so far: the getter is the new one, and a
/// setter that is there stays.
pub open spec fn with_getter(s: SetGetView, getter: Seq<char>) -> SetGetView {
    match s {
        SetGetView::SetterOnly(setter) => SetGetView::Both { setter, getter },
        SetGetView::Both { setter, .. } => SetGetView::Both { setter, getter },
        _ => SetGetView::GetterOnly(getter),
    }
}

impl SetGet {
    /// Registers a setter, in place of one that is there and beside a getter that is.
    pub fn set(self, setter: String) -> (r: SetGet)
        ensures
            r@ == with_setter(self@, setter@),
    {
        match self {
            SetGet::GetterOnly(m) => SetGet::Both(SetGetMethods { setter, getter: m.method }),
            SetGet::Both(m) => SetGet::Both(SetGetMethods { setter, getter: m.getter }),
            _ => SetGet::SetterOnly(SetGetMethod { method: setter }),
        }
    }

    /// Registers a getter, in place of one that is there and beside a setter that is.
    pub fn get(self, getter: String) -> (r: SetGet)
        ensures
            r@ == with_getter(self@, getter@),
    {
        match self {
            SetGet::SetterOnly(m) => SetGet::Both(SetGetMethods { setter: m.method, getter }),
            SetGet::Both(m) => SetGet::Both(SetGetMethods { setter: m.setter, getter }),
            _ => SetGet::GetterOnly(SetGetMethod { method: getter }),
        }
    }
}

/// A setter and a getter may be registered in either order: both orders end with both
/// methods, whatever was registered before.
pub proof fn lemma_setter_getter_commute(s: SetGetView, setter: Seq<char>, getter: Seq<char>)
    ensures
        with_getter(with_setter(s, setter), getter) == with_setter(with_getter(s, getter), setter),
        with_getter(with_setter(s, setter), getter) == (SetGetView::Both { setter, getter }),
{
}

/// A second annotation of the same kind overwrites the first.
pub proof fn lemma_setter_overwrites(s: SetGetView, first: Seq<char>, second: Seq<char>)
    ensures
        with_setter(with_setter(s, first), second) == with_setter(s, second),
        with_getter(with_getter(s, first), second) == with_getter(s, second),
{
}

/// A property of a class.
#[derive(Debug)]
pub struct Property {
    pub name: String,
    pub ty: String,
    pub export_type: ExportType,
    pub setget: SetGet,
    pub default: Option<String>,
}

/// The mathematical model of [`Property`].
pub struct PropertyView {
    pub name: Seq<char>,
    pub ty: Seq<char>,
    pub export_type: ExportTypeView,
    pub setget: SetGetView,
    pub default: Option<Seq<char>>,
}

impl View for Property {
    type V = PropertyView;

    open spec fn view(&self) -> PropertyView {
        PropertyView {
            name: self.name@,
            ty: self.ty@,
            export_type: self.export_type@,
            setget: self.setget@,
            default: self.default.deep_view(),
        }
    }
}

impl DeepView for Property {
    type V = PropertyView;

    open spec fn deep_view(&self) -> PropertyView {
        self@
    }
}

/// The property of a name and a type before any annotation is read: not exported, plain
/// access, no default.
pub open spec fn new_property(name: Seq<char>, ty: Seq<char>) -> PropertyView {
    PropertyView {
        name,
        ty,
        export_type: ExportTypeView::NoHint,
        setget: SetGetView::NoSetGet,
        default: None,
    }
}

/// The property that a declaration stands for.
pub open spec fn property_of_var(var: GdScriptVarView) -> PropertyView {
    PropertyView {
        name: var.var_name,
        ty: var.ty,
        export_type: var.export,
        setget: SetGetView::NoSetGet,
        default: Some(var.value),
    }
}

impl Property {
    /// A property with a name and a type and nothing else.
    pub fn new(name: String, ty: String) -> (r: Property)
        ensures
            r@ == new_property(name@, ty@),
    {
        Property {
            name,
            ty,
            export_type: ExportType::NoHint,
            setget: SetGet::NoSetGet,
            default: None,
        }
    }

    /// The property that a declaration stands for: its hint, its name, its type, and its
    /// value as the default.
    pub fn from_var(var: &GdScriptVar) -> (r: Property)
        ensures
            r@ == property_of_var(var@),
    {
        Property {
            name: var.var_name.clone(),
            ty: var.ty.clone(),
            export_type: var.export.clone(),
            setget: SetGet::NoSetGet,
            default: Some(var.value.clone()),
        }
    }
}

} // verus!

verus! {

/// The property after one more annotation: a hint or a default takes the place of the one
/// before, a setter and a getter are merged with the methods before, and both together
/// take the place of the methods before.
pub open spec fn annotated(p: PropertyView, a: AnnotationView) -> PropertyView {
    match a {
        AnnotationView::Default(value) => PropertyView { default: Some(value), ..p },
        AnnotationView::Export(export) => PropertyView { export_type: export, ..p },
        AnnotationView::Setter(method) => PropertyView {
            setget: with_setter(p.setget, method),
            ..p
        },
        AnnotationView::Getter(method) => PropertyView {
            setget: with_getter(p.setget, method),
            ..p
        },
        AnnotationView::SetterGetter { setter, getter } => PropertyView {
            setget: SetGetView::Both { setter, getter },
            ..p
        },
        AnnotationView::Other => p,
    }
}

/// What the first `n` attributes of a field make of a property: the property after the
/// annotations among them, and the attributes among them that are no annotations, in
/// their order. The first annotation that breaks the grammar decides the error.
pub open spec fn annotated_upto(
    start: PropertyView,
    attrs: Seq<AttributeView>,
    n: int,
) -> Result<(PropertyView, Seq<AttributeView>), PropertyErrorView>
    decreases n,
{
    if n <= 0 {
        Ok((start, Seq::empty()))
    } else {
        match annotated_upto(start, attrs, n - 1) {
            Err(e) => Err(e),
            Ok((p, kept)) => match field_annotation(attrs[n - 1]) {
                Err(e) => Err(
                    PropertyErrorView::Annotation { attribute: (n - 1) as usize, error: e },
                ),
                Ok(a) => if a is Other {
                    Ok((p, kept.push(attrs[n - 1])))
                } else {
                    Ok((annotated(p, a), kept))
                },
            },
        }
    }
}

/// The property of a field and the attributes that stay on the field.
pub open spec fn property_of_field(field: FieldView) -> Result<
    (PropertyView, Seq<AttributeView>),
    PropertyErrorView,
> {
    match field.name {
        None => Err(PropertyErrorView::Unnamed),
        Some(name) => annotated_upto(
            new_property(name, field.ty),
            field.attrs,
            field.attrs.len() as int,
        ),
    }
}

/// An annotation that breaks the grammar decides the result, whatever stands behind it.
pub proof fn lemma_annotation_error_stays(
    start: PropertyView,
    attrs: Seq<AttributeView>,
    k: int,
    n: int,
)
    requires
        k <= n,
        annotated_upto(start, attrs, k) is Err,
    ensures
        annotated_upto(start, attrs, n) == annotated_upto(start, attrs, k),
    decreases n - k,
{
    if k < n {
        lemma_annotation_error_stays(start, attrs, k, n - 1);
    }
}

impl Property {
    /// The property after one more annotation.
    pub fn annotate(self, a: Annotation) -> (r: Property)
        ensures
            r@ == annotated(self@, a@),
    {
        match a {
            Annotation::Default(value) => Property { default: Some(value), ..self },
            Annotation::Export(export) => Property { export_type: export, ..self },
            Annotation::Setter(m) => Property {
                name: self.name,
                ty: self.ty,
                export_type: self.export_type,
                setget: self.setget.set(m.method),
                default: self.default,
            },
            Annotation::Getter(m) => Property {
                name: self.name,
                ty: self.ty,
                export_type: self.export_type,
                setget: self.setget.get(m.method),
                default: self.default,
            },
            Annotation::SetterGetter(m) => Property { setget: SetGet::Both(m), ..self },
            Annotation::Other => self,
        }
    }
}

/// Reads the property of a field from its annotations and takes the annotations off the
/// field: the attributes that are no annotations stay, in their order.
///
/// The annotations are read in their order. A later hint or default takes the place of an
/// earlier one; a setter and a getter may come in either order. A field without a name
/// and an annotation that breaks the grammar are refused, and the field is then left as
/// it was.
pub fn get_property(item: &mut Field) -> (r: Result<Property, PropertyError>)
    ensures
        match r {
            Ok(p) => property_of_field(old(item)@) == Ok::<
                (PropertyView, Seq<AttributeView>),
                PropertyErrorView,
            >((p@, final(item)@.attrs)) && final(item)@.name == old(item)@.name && final(item)@.ty
                == old(item)@.ty,
            Err(e) => property_of_field(old(item)@) == Err::<
                (PropertyView, Seq<AttributeView>),
                PropertyErrorView,
            >(e@) && *final(item) == *old(item),
        },
{
    let name = match &item.name {
        Some(name) => name.clone(),
        None => {
            return Err(PropertyError::Unnamed);
        },
    };
    let mut property = Property::new(name, item.ty.clone());
    let ghost start = property@;
    let mut kept: Vec<Attribute> = Vec::new();
    let mut i: usize = 0;
    assert(kept.deep_view() =~= Seq::<AttributeView>::empty());
    while i < item.attrs.len()
        invariant
            i <= item.attrs.len(),
            *item == *old(item),
            start == new_property(item@.name->0, item@.ty),
            item@.name is Some,
            annotated_upto(start, item@.attrs, i as int) == Ok::<
                (PropertyView, Seq<AttributeView>),
                PropertyErrorView,
            >((property@, kept.deep_view())),
        decreases item.attrs.len() - i,
    {
        let attr = &item.attrs[i];
        assert(item@.attrs[i as int] == attr@);
        match Annotation::of_attribute(attr) {
            Err(error) => {
                proof {
                    lemma_annotation_error_stays(
                        start,
                        item@.attrs,
                        i + 1,
                        item@.attrs.len() as int,
                    );
                }
                return Err(PropertyError::Annotation { attribute: i, error });
            },
            Ok(Annotation::Other) => {
                let ghost before = kept.deep_view();
                kept.push(attr.clone());
                assert(kept.deep_view() =~= before.push(attr@));
            },
            Ok(a) => {
                property = property.annotate(a);
            },
        }
        i += 1;
    }
    item.attrs = kept;
    Ok(property)
}

} // verus!

verus! {

/// A field without its annotations.
pub open spec fn stripped(field: FieldView, kept: Seq<AttributeView>) -> FieldView {
    FieldView { attrs: kept, ..field }
}

/// The properties of the first `n` fields, in the order of the fields, and those fields
/// without their annotations. The first field that gives no property decides the error.
pub open spec fn properties_upto(fields: Seq<FieldView>, n: int) -> Result<
    (Seq<PropertyView>, Seq<FieldView>),
    ErrorView,
>
    decreases n,
{
    if n <= 0 {
        Ok((Seq::empty(), Seq::empty()))
    } else {
        match properties_upto(fields, n - 1) {
            Err(e) => Err(e),
            Ok((props, done)) => match property_of_field(fields[n - 1]) {
                Err(e) => Err(ErrorView::Property { field: (n - 1) as usize, reason: e }),
                Ok((p, kept)) => Ok((props.push(p), done.push(stripped(fields[n - 1], kept)))),
            },
        }
    }
}

/// A field that gives no property decides the result, whatever stands behind it.
pub proof fn lemma_property_error_stays(fields: Seq<FieldView>, k: int, n: int)
    requires
        k <= n,
        properties_upto(fields, k) is Err,
    ensures
        properties_upto(fields, n) == properties_upto(fields, k),
    decreases n - k,
{
    if k < n {
        lemma_property_error_stays(fields, k, n - 1);
    }
}

/// Reads the property of every field of a struct, in the order of the fields, and takes
/// the annotations off the fields. Where a field gives no property, the struct is left as
/// it was.
pub fn extract_properties(item: &mut StructItem) -> (r: Result<Vec<Property>, Error>)
    ensures
        match r {
            Ok(props) => properties_upto(old(item)@.fields, old(item)@.fields.len() as int)
                == Ok::<(Seq<PropertyView>, Seq<FieldView>), ErrorView>(
                (props.deep_view(), final(item)@.fields),
            ) && final(item)@.name == old(item)@.name && final(item)@.attrs == old(item)@.attrs,
            Err(e) => properties_upto(old(item)@.fields, old(item)@.fields.len() as int) == Err::<
                (Seq<PropertyView>, Seq<FieldView>),
                ErrorView,
            >(e@) && *final(item) == *old(item),
        },
{
    let mut props: Vec<Property> = Vec::new();
    let mut done: Vec<Field> = Vec::new();
    let mut i: usize = 0;
    assert(props.deep_view() =~= Seq::<PropertyView>::empty());
    assert(done.deep_view() =~= Seq::<FieldView>::empty());
    while i < item.fields.len()
        invariant
            i <= item.fields.len(),
            *item == *old(item),
            properties_upto(item@.fields, i as int) == Ok::<
                (Seq<PropertyView>, Seq<FieldView>),
                ErrorView,
            >((props.deep_view(), done.deep_view())),
        decreases item.fields.len() - i,
    {
        assert(item@.fields[i as int] == item.fields@[i as int]@);
        let mut field = item.fields[i].clone();
        let ghost before = field@;
        match get_property(&mut field) {
            Err(error) => {
                proof {
                    lemma_property_error_stays(item@.fields, i + 1, item@.fields.len() as int);
                }
                return Err(Error::Property { field: i, reason: error });
            },
            Ok(p) => {
                let ghost props_before = props.deep_view();
                let ghost done_before = done.deep_view();
                assert(field@ == stripped(before, field@.attrs));
                props.push(p);
                done.push(field);
                assert(props.deep_view() =~= props_before.push(p@));
                assert(done.deep_view() =~= done_before.push(field@));
            },
        }
        i += 1;
    }
    item.fields = done;
    Ok(props)
}

} // verus!
