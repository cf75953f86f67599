//! Synthesis of the builder's declarations from the record's fields.
use vstd::prelude::*;
use crate::classify::{describes, describes_all, transform_fields, FieldDescriptor};
use crate::shape::{
    extract, extract_spec, inner_type_of, wrapper_ident, Declaration, RawField,
    ShapeError, TypeExpr,
};

verus! {

/// One storage slot of the builder: `name: stored_type`.
pub struct SlotDecl {
    pub name: String,
    pub stored_type: String,
}

/// One setter of the builder: `fn name(&mut self, name: param_type) -> &mut Self`.
pub struct SetterDecl {
    pub name: String,
    pub param_type: String,
}

/// The builder's `build` method: it checks the mandatory slots in order, then
/// moves the mandatory values and the optional slots into a new record.
pub struct BuildMethodDecl {
    pub record_name: String,
    pub mandatory: Vec<String>,
    pub optional: Vec<String>,
}

/// The record's `builder()` factory, which sets each listed slot empty.
pub struct FactoryDecl {
    pub record_name: String,
    pub builder_name: String,
    pub empty_slots: Vec<String>,
}

/// The builder type with its methods.
pub struct BuilderDecl {
    pub name: String,
    pub slots: Vec<SlotDecl>,
    pub setters: Vec<SetterDecl>,
    pub build: BuildMethodDecl,
}

/// Everything synthesized for one record.
pub struct Artifact {
    pub factory: FactoryDecl,
    pub builder: BuilderDecl,
}

pub open spec fn builder_suffix() -> Seq<char> {
    seq!['B', 'u', 'i', 'l', 'd', 'e', 'r']
}

/// The builder's name for a record named `record`.
pub open spec fn builder_name_of(record: Seq<char>) -> Seq<char> {
    record + builder_suffix()
}

/// The optional wrapper applied to the type written `t`.
pub open spec fn wrapped(t: Seq<char>) -> Seq<char> {
    wrapper_ident() + seq!['<'] + t + seq!['>']
}

/// The type a field's setter takes: the inner type of `Option<T>`, else the
/// declared type.
pub open spec fn visible_of(ty: TypeExpr) -> Seq<char> {
    match inner_type_of(ty) {
        Some(t) => t.text@,
        None => ty.text@,
    }
}

pub open spec fn is_optional_field(f: RawField) -> bool {
    inner_type_of(f.ty) is Some
}

/// The names of the fields whose optionality is `optional`, in declaration order.
pub open spec fn names_where(fs: Seq<RawField>, optional: bool) -> Seq<Seq<char>>
    decreases fs.len(),
{
    if fs.len() == 0 {
        seq![]
    } else {
        let rest = names_where(fs.drop_last(), optional);
        if is_optional_field(fs.last()) == optional {
            rest.push(fs.last().name@)
        } else {
            rest
        }
    }
}

pub open spec fn names_view(v: Seq<String>) -> Seq<Seq<char>> {
    v.map_values(|s: String| s@)
}

/// `make_builder_name(r)` is `r` followed by `Builder`.
pub fn make_builder_name(record_name: &String) -> (r: String)
    ensures
        r@ == builder_name_of(record_name@),
{
    proof {
        reveal_strlit("Builder");
    }
    record_name.clone().concat("Builder")
}

/// The factory: one empty slot per field, in declaration order.
pub fn make_builder_factory(
    builder_name: &String,
    struct_fields: &Vec<RawField>,
    struct_name: &String,
) -> (r: FactoryDecl)
    ensures
        r.record_name@ == struct_name@,
        r.builder_name@ == builder_name@,
        r.empty_slots@.len() == struct_fields@.len(),
        forall|i: int|
            0 <= i < struct_fields@.len() ==> (#[trigger] r.empty_slots@[i])@ == struct_fields@[i].name@,
{
    let fields = transform_fields(struct_fields);
    let mut empty_slots: Vec<String> = Vec::new();
    let mut i: usize = 0;
    while i < fields.len()
        invariant
            i <= fields@.len(),
            describes_all(fields@, struct_fields@),
            empty_slots@.len() == i,
            forall|j: int|
                0 <= j < i ==> (#[trigger] empty_slots@[j])@ == struct_fields@[j].name@,
        decreases fields@.len() - i,
    {
        assert(describes(fields@[i as int], struct_fields@[i as int]));
        empty_slots.push(fields[i].name.clone());
        i = i + 1;
    }
    FactoryDecl { record_name: struct_name.clone(), builder_name: builder_name.clone(), empty_slots }
}

/// The text of the optional wrapper applied to `t`.
pub fn wrap_type(t: &String) -> (r: String)
    ensures
        r@ == wrapped(t@),
{
    proof {
        reveal_strlit("Option<");
        reveal_strlit(">");
        assert(("Option<"@) =~= wrapper_ident() + seq!['<']);
    }
    String::from_str("Option<").concat(t.as_str()).concat(">")
}

/// One setter per field, taking the field's visible type.
pub fn make_builder_setters(struct_fields: &Vec<RawField>) -> (r: Vec<SetterDecl>)
    ensures
        r@.len() == struct_fields@.len(),
        forall|i: int|
            0 <= i < struct_fields@.len() ==> {
                &&& (#[trigger] r@[i]).name@ == struct_fields@[i].name@
                &&& r@[i].param_type@ == visible_of(struct_fields@[i].ty)
            },
{
    let fields = transform_fields(struct_fields);
    let mut r: Vec<SetterDecl> = Vec::new();
    let mut i: usize = 0;
    while i < fields.len()
        invariant
            i <= fields@.len(),
            describes_all(fields@, struct_fields@),
            r@.len() == i,
            forall|j: int|
                0 <= j < i ==> {
                    &&& (#[trigger] r@[j]).name@ == struct_fields@[j].name@
                    &&& r@[j].param_type@ == visible_of(struct_fields@[j].ty)
                },
        decreases fields@.len() - i,
    {
        assert(describes(fields@[i as int], struct_fields@[i as int]));
        let f = &fields[i];
        r.push(SetterDecl { name: f.name.clone(), param_type: f.get_core_type().clone() });
        i = i + 1;
    }
    r
}

/// The names of the descriptors whose optionality is `optional`, in order.
fn names_with(
    fields: &Vec<FieldDescriptor>,
    Ghost(raw): Ghost<Seq<RawField>>,
    optional: bool,
) -> (r: Vec<String>)
    requires
        describes_all(fields@, raw),
    ensures
        names_view(r@) == names_where(raw, optional),
{
    let mut r: Vec<String> = Vec::new();
    let mut i: usize = 0;
    while i < fields.len()
        invariant
            i <= fields@.len(),
            describes_all(fields@, raw),
            names_view(r@) == names_where(raw.subrange(0, i as int), optional),
        decreases fields@.len() - i,
    {
        assert(describes(fields@[i as int], raw[i as int]));
        assert(raw.subrange(0, i + 1).drop_last() =~= raw.subrange(0, i as int));
        if fields[i].is_optional() == optional {
            r.push(fields[i].name.clone());
        }
        assert(names_view(r@) =~= names_where(raw.subrange(0, i + 1), optional));
        i = i + 1;
    }
    assert(raw.subrange(0, raw.len() as int) =~= raw);
    r
}

/// The `build` method: mandatory names and optional names, each in declaration order.
pub fn make_build_method(struct_name: &String, struct_fields: &Vec<RawField>) -> (r: BuildMethodDecl)
    ensures
        r.record_name@ == struct_name@,
        names_view(r.mandatory@) == names_where(struct_fields@, false),
        names_view(r.optional@) == names_where(struct_fields@, true),
{
    let mandatory = names_with(&transform_fields(struct_fields), Ghost(struct_fields@), false);
    let optional = names_with(&transform_fields(struct_fields), Ghost(struct_fields@), true);
    BuildMethodDecl { record_name: struct_name.clone(), mandatory, optional }
}

/// `slots` holds one slot per field, named as the field and in its order, each
/// storing the optional wrapper of the field's visible type.
pub open spec fn slots_for(slots: Seq<SlotDecl>, fs: Seq<RawField>) -> bool {
    &&& slots.len() == fs.len()
    &&& forall|i: int|
        0 <= i < fs.len() ==> {
            &&& (#[trigger] slots[i]).name@ == fs[i].name@
            &&& slots[i].stored_type@ == wrapped(visible_of(fs[i].ty))
        }
}

/// `setters` holds one setter per field, in order, taking the field's visible type.
pub open spec fn setters_for(setters: Seq<SetterDecl>, fs: Seq<RawField>) -> bool {
    &&& setters.len() == fs.len()
    &&& forall|i: int|
        0 <= i < fs.len() ==> {
            &&& (#[trigger] setters[i]).name@ == fs[i].name@
            &&& setters[i].param_type@ == visible_of(fs[i].ty)
        }
}

/// `b` is the build method of the record named `record` with fields `fs`.
pub open spec fn build_method_for(b: BuildMethodDecl, record: Seq<char>, fs: Seq<RawField>) -> bool {
    &&& b.record_name@ == record
    &&& names_view(b.mandatory@) == names_where(fs, false)
    &&& names_view(b.optional@) == names_where(fs, true)
}

/// `f` is the factory of the record named `record` with fields `fs`.
pub open spec fn factory_for(f: FactoryDecl, record: Seq<char>, fs: Seq<RawField>) -> bool {
    &&& f.record_name@ == record
    &&& f.builder_name@ == builder_name_of(record)
    &&& names_view(f.empty_slots@) == fs.map_values(|x: RawField| x.name@)
}

/// `b` is the builder type, named `name`, of the record named `record` with fields `fs`.
pub open spec fn builder_for(b: BuilderDecl, name: Seq<char>, record: Seq<char>, fs: Seq<RawField>) -> bool {
    &&& b.name@ == name
    &&& slots_for(b.slots@, fs)
    &&& setters_for(b.setters@, fs)
    &&& build_method_for(b.build, record, fs)
}

/// `a` is what is synthesized for the record named `record` with fields `fs`.
pub open spec fn artifact_for(a: Artifact, record: Seq<char>, fs: Seq<RawField>) -> bool {
    &&& factory_for(a.factory, record, fs)
    &&& builder_for(a.builder, builder_name_of(record), record, fs)
}

/// The builder type: its slots, its setters and its build method.
pub fn make_builder(struct_name: &String, builder_name: &String, fields: &Vec<RawField>) -> (r: BuilderDecl)
    ensures
        builder_for(r, builder_name@, struct_name@, fields@),
{
    let descriptors = transform_fields(fields);
    let mut slots: Vec<SlotDecl> = Vec::new();
    let mut i: usize = 0;
    while i < descriptors.len()
        invariant
            i <= descriptors@.len(),
            describes_all(descriptors@, fields@),
            slots@.len() == i,
            forall|j: int|
                0 <= j < i ==> {
                    &&& (#[trigger] slots@[j]).name@ == fields@[j].name@
                    &&& slots@[j].stored_type@ == wrapped(visible_of(fields@[j].ty))
                },
        decreases descriptors@.len() - i,
    {
        assert(describes(descriptors@[i as int], fields@[i as int]));
        let f = &descriptors[i];
        slots.push(SlotDecl { name: f.name.clone(), stored_type: wrap_type(f.get_core_type()) });
        i = i + 1;
    }
    let setters = make_builder_setters(fields);
    let build = make_build_method(struct_name, fields);
    BuilderDecl { name: builder_name.clone(), slots, setters, build }
}

/// Synthesizes the factory and the builder for a record.
pub fn generate(struct_name: &String, fields: &Vec<RawField>) -> (r: Artifact)
    ensures
        artifact_for(r, struct_name@, fields@),
{
    let builder_name = make_builder_name(struct_name);
    let factory = make_builder_factory(&builder_name, fields, struct_name);
    let builder = make_builder(struct_name, &builder_name, fields);
    let r = Artifact { factory, builder };
    assert(names_view(r.factory.empty_slots@) =~= fields@.map_values(|x: RawField| x.name@));
    r
}

/// Synthesizes the builder of a declared type, which must be a struct with
/// named fields.
pub fn derive(input: Declaration) -> (r: Result<Artifact, ShapeError>)
    ensures
        match extract_spec(input) {
            Ok(rec) => r matches Ok(a) && artifact_for(a, rec.name@, rec.fields@),
            Err(e) => r == Err::<Artifact, ShapeError>(e),
        },
{
    match extract(input) {
        Ok(record) => Ok(generate(&record.name, &record.fields)),
        Err(e) => Err(e),
    }
}

/// A field is optional exactly when its declared type is `Option<T>`; its
/// setter then takes `T` itself and its slot stores `Option<T>`, never a doubly
/// wrapped type. A mandatory field's setter takes the declared type.
pub proof fn lemma_setter_takes_inner_type(a: Artifact, record: Seq<char>, fs: Seq<RawField>, i: int)
    requires
        artifact_for(a, record, fs),
        0 <= i < fs.len(),
    ensures
        match inner_type_of(fs[i].ty) {
            Some(t) => {
                &&& a.builder.setters@[i].param_type@ == t.text@
                &&& a.builder.slots@[i].stored_type@ == wrapped(t.text@)
            },
            None => {
                &&& a.builder.setters@[i].param_type@ == fs[i].ty.text@
                &&& a.builder.slots@[i].stored_type@ == wrapped(fs[i].ty.text@)
            },
        },
{
    assert(setters_for(a.builder.setters@, fs));
    assert(slots_for(a.builder.slots@, fs));
}

/// The builder has one slot per field of the record, with the same names in the
/// same order, each storing an optional-wrapped type.
pub proof fn lemma_one_slot_per_field(a: Artifact, record: Seq<char>, fs: Seq<RawField>)
    requires
        artifact_for(a, record, fs),
    ensures
        a.builder.slots@.len() == fs.len(),
        forall|i: int|
            0 <= i < fs.len() ==> {
                &&& (#[trigger] a.builder.slots@[i]).name@ == fs[i].name@
                &&& a.builder.slots@[i].stored_type@.take(7) == wrapper_ident() + seq!['<']
            },
{
    assert forall|i: int| 0 <= i < fs.len() implies {
        &&& (#[trigger] a.builder.slots@[i]).name@ == fs[i].name@
        &&& a.builder.slots@[i].stored_type@.take(7) == wrapper_ident() + seq!['<']
    } by {
        assert(slots_for(a.builder.slots@, fs));
        assert(a.builder.slots@[i].stored_type@.take(7) =~= wrapper_ident() + seq!['<']);
    }
}

} // verus!
