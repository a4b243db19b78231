//! Structs, plain enums and tagged unions, with the registry that owns them.

use crate::ir::name::Name;
use crate::ir::types::TypeTarget;
use std::collections::HashSet;
use vstd::prelude::*;
use vstd::std_specs::hash::*;
use vstd::string::StringExecFns;

verus! {

broadcast use group_hash_axioms;

/// A type expression of the target language, as a field declares it.
#[derive(Debug)]
pub struct Type(String);

/// The identifier under which a generated class is defined.
#[derive(Debug)]
pub struct CustomType(String);

/// A field of a [`Struct`].
#[derive(Debug)]
pub struct Field {
    name: Name,
    json_name: String,
    field_type: Type,
}

/// What a [`Field`] or a [`DataEnumObjectField`] holds.
pub ghost struct FieldView {
    pub name: Seq<char>,
    pub json_name: Seq<char>,
    pub field_type: Seq<char>,
}

/// A variant of a plain [`Enum`].
#[derive(Debug)]
pub struct EnumVariant {
    name: Name,
    json_name: String,
}

/// What an [`EnumVariant`] holds.
pub ghost struct EnumVariantView {
    pub name: Seq<char>,
    pub json_name: Seq<char>,
}

/// A record type; it becomes one class.
#[derive(Debug)]
pub struct Struct {
    name: Name,
    self_type: CustomType,
    fields: Vec<Field>,
}

/// What a [`Struct`] holds.
pub ghost struct StructView {
    pub name: Seq<char>,
    pub self_type: Seq<char>,
    pub fields: Seq<FieldView>,
}

/// An enumeration whose variants carry no data.
#[derive(Debug)]
pub struct Enum {
    name: Name,
    self_type: CustomType,
    variants: Vec<EnumVariant>,
}

/// What an [`Enum`] holds.
pub ghost struct EnumView {
    pub name: Seq<char>,
    pub self_type: Seq<char>,
    pub variants: Seq<EnumVariantView>,
}

/// A named payload field of an object variant.
#[derive(Debug)]
pub struct DataEnumObjectField {
    name: Name,
    json_name: String,
    field_type: Type,
}

/// One variant of a [`DataEnum`], by the shape of its payload.
#[allow(inconsistent_fields)]
#[derive(Debug)]
pub enum DataEnumVariant {
    /// No payload.
    Unit { name: Name, json_name: String },
    /// Named payload fields.
    Object { name: Name, json_name: String, fields: Vec<DataEnumObjectField> },
    /// Positional payload slots.
    Tuple { name: Name, json_name: String, fields: Vec<Type> },
}

/// What a [`DataEnumVariant`] holds.
#[allow(inconsistent_fields)]
pub ghost enum DataEnumVariantView {
    Unit { name: Seq<char>, json_name: Seq<char> },
    Object { name: Seq<char>, json_name: Seq<char>, fields: Seq<FieldView> },
    Tuple { name: Seq<char>, json_name: Seq<char>, fields: Seq<Seq<char>> },
}

/// How a [`DataEnum`] is laid out in JSON.
#[derive(Debug, Clone, Copy, PartialEq, Eq, Structural)]
pub enum DataEnumStyle {
    /// The variant's tag is the single key of a wrapping object, or the whole
    /// value where the variant has no payload.
    External,
}

/// A tagged union; it becomes one class with its own serializer.
#[derive(Debug)]
pub struct DataEnum {
    name: Name,
    self_type: CustomType,
    style: DataEnumStyle,
    variants: Vec<DataEnumVariant>,
}

/// What a [`DataEnum`] holds.
pub ghost struct DataEnumView {
    pub name: Seq<char>,
    pub self_type: Seq<char>,
    pub style: DataEnumStyle,
    pub variants: Seq<DataEnumVariantView>,
}

/// Everything collected for one generation request.
pub struct IntermediateRepresentation {
    structs: Vec<Struct>,
    enums: Vec<Enum>,
    data_enums: Vec<DataEnum>,
    target: TypeTarget,
    type_ids: HashSet<u64>,
}

/// What an [`IntermediateRepresentation`] holds.
pub ghost struct IrView {
    pub structs: Seq<StructView>,
    pub enums: Seq<EnumView>,
    pub data_enums: Seq<DataEnumView>,
    pub target: TypeTarget,
    pub type_ids: Set<u64>,
}

/// The views of a run of fields.
pub open spec fn field_views(fields: Seq<Field>) -> Seq<FieldView> {
    fields.map_values(|f: Field| f@)
}

/// The views of a run of payload fields.
pub open spec fn object_field_views(fields: Seq<DataEnumObjectField>) -> Seq<FieldView> {
    fields.map_values(|f: DataEnumObjectField| f@)
}

/// The views of a run of type expressions.
pub open spec fn type_views(types: Seq<Type>) -> Seq<Seq<char>> {
    types.map_values(|t: Type| t@)
}

/// The views of a run of plain variants.
pub open spec fn enum_variant_views(variants: Seq<EnumVariant>) -> Seq<EnumVariantView> {
    variants.map_values(|v: EnumVariant| v@)
}

/// The views of a run of tagged-union variants.
pub open spec fn data_variant_views(variants: Seq<DataEnumVariant>) -> Seq<DataEnumVariantView> {
    variants.map_values(|v: DataEnumVariant| v@)
}

/// The views of a run of structs.
pub open spec fn struct_views(structs: Seq<Struct>) -> Seq<StructView> {
    structs.map_values(|s: Struct| s@)
}

/// The views of a run of enums.
pub open spec fn enum_views(enums: Seq<Enum>) -> Seq<EnumView> {
    enums.map_values(|e: Enum| e@)
}

/// The views of a run of tagged unions.
pub open spec fn data_enum_views(data_enums: Seq<DataEnum>) -> Seq<DataEnumView> {
    data_enums.map_values(|d: DataEnum| d@)
}

impl View for Type {
    type V = Seq<char>;

    closed spec fn view(&self) -> Seq<char> {
        self.0@
    }
}

impl View for CustomType {
    type V = Seq<char>;

    closed spec fn view(&self) -> Seq<char> {
        self.0@
    }
}

impl View for Field {
    type V = FieldView;

    closed spec fn view(&self) -> FieldView {
        FieldView {
            name: self.name@,
            json_name: self.json_name@,
            field_type: self.field_type@,
        }
    }
}

impl View for EnumVariant {
    type V = EnumVariantView;

    closed spec fn view(&self) -> EnumVariantView {
        EnumVariantView { name: self.name@, json_name: self.json_name@ }
    }
}

impl View for Struct {
    type V = StructView;

    closed spec fn view(&self) -> StructView {
        StructView {
            name: self.name@,
            self_type: self.self_type@,
            fields: field_views(self.fields@),
        }
    }
}

impl View for Enum {
    type V = EnumView;

    closed spec fn view(&self) -> EnumView {
        EnumView {
            name: self.name@,
            self_type: self.self_type@,
            variants: enum_variant_views(self.variants@),
        }
    }
}

impl View for DataEnumObjectField {
    type V = FieldView;

    closed spec fn view(&self) -> FieldView {
        FieldView {
            name: self.name@,
            json_name: self.json_name@,
            field_type: self.field_type@,
        }
    }
}

impl View for DataEnumVariant {
    type V = DataEnumVariantView;

    open spec fn view(&self) -> DataEnumVariantView {
        match self {
            DataEnumVariant::Unit { name, json_name } => DataEnumVariantView::Unit {
                name: name@,
                json_name: json_name@,
            },
            DataEnumVariant::Object { name, json_name, fields } => DataEnumVariantView::Object {
                name: name@,
                json_name: json_name@,
                fields: object_field_views(fields@),
            },
            DataEnumVariant::Tuple { name, json_name, fields } => DataEnumVariantView::Tuple {
                name: name@,
                json_name: json_name@,
                fields: type_views(fields@),
            },
        }
    }
}

impl DataEnumVariantView {
    /// The variant's name, in snake case.
    pub open spec fn name(self) -> Seq<char> {
        match self {
            DataEnumVariantView::Unit { name, .. } => name,
            DataEnumVariantView::Object { name, .. } => name,
            DataEnumVariantView::Tuple { name, .. } => name,
        }
    }

    /// The variant's tag on the wire.
    pub open spec fn json_name(self) -> Seq<char> {
        match self {
            DataEnumVariantView::Unit { json_name, .. } => json_name,
            DataEnumVariantView::Object { json_name, .. } => json_name,
            DataEnumVariantView::Tuple { json_name, .. } => json_name,
        }
    }
}

impl View for DataEnum {
    type V = DataEnumView;

    closed spec fn view(&self) -> DataEnumView {
        DataEnumView {
            name: self.name@,
            self_type: self.self_type@,
            style: self.style,
            variants: data_variant_views(self.variants@),
        }
    }
}

impl View for IntermediateRepresentation {
    type V = IrView;

    closed spec fn view(&self) -> IrView {
        IrView {
            structs: struct_views(self.structs@),
            enums: enum_views(self.enums@),
            data_enums: data_enum_views(self.data_enums@),
            target: self.target,
            type_ids: self.type_ids@,
        }
    }
}

impl IntermediateRepresentation {
    /// An empty model for `target`: no entity, no identity seen.
    pub fn new(target: TypeTarget) -> (ir: Self)
        ensures
            ir@ == (IrView {
                structs: Seq::empty(),
                enums: Seq::empty(),
                data_enums: Seq::empty(),
                target,
                type_ids: Set::empty(),
            }),
    {
        let ir = Self {
            structs: Vec::new(),
            enums: Vec::new(),
            data_enums: Vec::new(),
            target,
            type_ids: HashSet::new(),
        };
        assert(ir@.structs =~= Seq::empty());
        assert(ir@.enums =~= Seq::empty());
        assert(ir@.data_enums =~= Seq::empty());
        ir
    }

    /// Appends `s` to the structs.
    pub fn add_struct(&mut self, s: Struct)
        ensures
            final(self)@ == (IrView { structs: old(self)@.structs.push(s@), ..old(self)@ }),
    {
        self.structs.push(s);
        assert(final(self)@.structs =~= old(self)@.structs.push(s@));
    }

    /// Appends `e` to the enums.
    pub fn add_enum(&mut self, e: Enum)
        ensures
            final(self)@ == (IrView { enums: old(self)@.enums.push(e@), ..old(self)@ }),
    {
        self.enums.push(e);
        assert(final(self)@.enums =~= old(self)@.enums.push(e@));
    }

    /// Appends `de` to the tagged unions.
    pub fn add_data_enum(&mut self, de: DataEnum)
        ensures
            final(self)@ == (IrView { data_enums: old(self)@.data_enums.push(de@), ..old(self)@ }),
    {
        self.data_enums.push(de);
        assert(final(self)@.data_enums =~= old(self)@.data_enums.push(de@));
    }

    /// The structs, in the order they were added.
    pub fn structs(&self) -> (r: &[Struct])
        ensures
            struct_views(r@) == self@.structs,
    {
        self.structs.as_slice()
    }

    /// The enums, in the order they were added.
    pub fn enums(&self) -> (r: &[Enum])
        ensures
            enum_views(r@) == self@.enums,
    {
        self.enums.as_slice()
    }

    /// The tagged unions, in the order they were added.
    pub fn data_enums(&self) -> (r: &[DataEnum])
        ensures
            data_enum_views(r@) == self@.data_enums,
    {
        self.data_enums.as_slice()
    }

    /// The target the model was created for.
    pub fn target(&self) -> (t: &TypeTarget)
        ensures
            *t == self@.target,
    {
        &self.target
    }

    /// Marks the identity `type_id` as seen.
    pub fn add_type_id(&mut self, type_id: u64)
        ensures
            final(self)@ == (IrView {
                type_ids: old(self)@.type_ids.insert(type_id),
                ..old(self)@
            }),
    {
        self.type_ids.insert(type_id);
    }

    /// Whether the identity `type_id` has been seen.
    pub fn has_type_id(&self, type_id: u64) -> (seen: bool)
        ensures
            seen == self@.type_ids.contains(type_id),
    {
        self.type_ids.contains(&type_id)
    }
}

impl Struct {
    /// A struct without fields.
    pub fn new(name: Name, self_type: CustomType) -> (s: Self)
        ensures
            s@ == (StructView { name: name@, self_type: self_type@, fields: Seq::empty() }),
    {
        let s = Self { name, self_type, fields: Vec::new() };
        assert(s@.fields =~= Seq::empty());
        s
    }

    /// Appends `field`.
    pub fn add_field(&mut self, field: Field)
        ensures
            final(self)@ == (StructView { fields: old(self)@.fields.push(field@), ..old(self)@ }),
    {
        self.fields.push(field);
        assert(final(self)@.fields =~= old(self)@.fields.push(field@));
    }

    /// The struct's name.
    pub fn name(&self) -> (n: &Name)
        ensures
            n@ == self@.name,
    {
        &self.name
    }

    /// The identifier under which the class is defined.
    pub fn self_type(&self) -> (t: &CustomType)
        ensures
            t@ == self@.self_type,
    {
        &self.self_type
    }

    /// The fields, in declaration order.
    pub fn fields(&self) -> (r: &Vec<Field>)
        ensures
            field_views(r@) == self@.fields,
    {
        &self.fields
    }
}

impl Enum {
    /// An enum without variants.
    pub fn new(name: Name, self_type: CustomType) -> (e: Self)
        ensures
            e@ == (EnumView { name: name@, self_type: self_type@, variants: Seq::empty() }),
    {
        let e = Self { name, self_type, variants: Vec::new() };
        assert(e@.variants =~= Seq::empty());
        e
    }

    /// Appends `variant`.
    pub fn add_variant(&mut self, variant: EnumVariant)
        ensures
            final(self)@ == (EnumView {
                variants: old(self)@.variants.push(variant@),
                ..old(self)@
            }),
    {
        self.variants.push(variant);
        assert(final(self)@.variants =~= old(self)@.variants.push(variant@));
    }

    /// The enum's name.
    pub fn name(&self) -> (n: &Name)
        ensures
            n@ == self@.name,
    {
        &self.name
    }

    /// The identifier under which the enumeration is defined.
    pub fn self_type(&self) -> (t: &CustomType)
        ensures
            t@ == self@.self_type,
    {
        &self.self_type
    }

    /// The variants, in declaration order.
    pub fn variants(&self) -> (r: &Vec<EnumVariant>)
        ensures
            enum_variant_views(r@) == self@.variants,
    {
        &self.variants
    }
}

impl DataEnum {
    /// A tagged union without variants.
    pub fn new(name: Name, self_type: CustomType, style: DataEnumStyle) -> (de: Self)
        ensures
            de@ == (DataEnumView {
                name: name@,
                self_type: self_type@,
                style,
                variants: Seq::empty(),
            }),
    {
        let de = Self { name, self_type, variants: Vec::new(), style };
        assert(de@.variants =~= Seq::empty());
        de
    }

    /// The union's name.
    pub fn name(&self) -> (n: &Name)
        ensures
            n@ == self@.name,
    {
        &self.name
    }

    /// The identifier under which the class is defined.
    pub fn self_type(&self) -> (t: &CustomType)
        ensures
            t@ == self@.self_type,
    {
        &self.self_type
    }

    /// Appends `variant`.
    pub fn add_variant(&mut self, variant: DataEnumVariant)
        ensures
            final(self)@ == (DataEnumView {
                variants: old(self)@.variants.push(variant@),
                ..old(self)@
            }),
    {
        self.variants.push(variant);
        assert(final(self)@.variants =~= old(self)@.variants.push(variant@));
    }

    /// The variants, in declaration order.
    pub fn variants(&self) -> (r: &Vec<DataEnumVariant>)
        ensures
            data_variant_views(r@) == self@.variants,
    {
        &self.variants
    }

    /// How the union is laid out in JSON.
    pub fn style(&self) -> (s: &DataEnumStyle)
        ensures
            *s == self@.style,
    {
        &self.style
    }
}

impl Field {
    /// A field named `name`, with the key `json_name` on the wire.
    pub fn new(name: Name, json_name: &str, field_type: Type) -> (f: Self)
        ensures
            f@ == (FieldView { name: name@, json_name: json_name@, field_type: field_type@ }),
    {
        Self { name, json_name: String::from_str(json_name), field_type }
    }

    /// The field's name.
    pub fn name(&self) -> (n: &Name)
        ensures
            n@ == self@.name,
    {
        &self.name
    }

    /// The field's key on the wire.
    pub fn json_name(&self) -> (s: &String)
        ensures
            s@ == self@.json_name,
    {
        &self.json_name
    }

    /// The field's declared type.
    pub fn field_type(&self) -> (t: &Type)
        ensures
            t@ == self@.field_type,
    {
        &self.field_type
    }
}

impl EnumVariant {
    /// A variant named `name`, with the tag `json_name` on the wire.
    pub fn new(name: Name, json_name: &str) -> (v: Self)
        ensures
            v@ == (EnumVariantView { name: name@, json_name: json_name@ }),
    {
        Self { name, json_name: String::from_str(json_name) }
    }

    /// The variant's name.
    pub fn name(&self) -> (n: &Name)
        ensures
            n@ == self@.name,
    {
        &self.name
    }

    /// The variant's tag on the wire.
    pub fn json_name(&self) -> (s: &String)
        ensures
            s@ == self@.json_name,
    {
        &self.json_name
    }
}

impl DataEnumVariant {
    /// A variant with named payload fields.
    pub fn object(name: Name, json_name: String, fields: Vec<DataEnumObjectField>) -> (v: Self)
        ensures
            v == (DataEnumVariant::Object { name, json_name, fields }),
    {
        Self::Object { name, json_name, fields }
    }

    /// A variant with positional payload slots.
    pub fn tuple(name: Name, json_name: String, fields: Vec<Type>) -> (v: Self)
        ensures
            v == (DataEnumVariant::Tuple { name, json_name, fields }),
    {
        Self::Tuple { name, json_name, fields }
    }

    /// A variant without payload.
    pub fn unit(name: Name, json_name: String) -> (v: Self)
        ensures
            v == (DataEnumVariant::Unit { name, json_name }),
    {
        Self::Unit { name, json_name }
    }

    /// The variant's name.
    pub fn name(&self) -> (n: &Name)
        ensures
            n@ == self@.name(),
    {
        match self {
            Self::Object { name, .. } => name,
            Self::Tuple { name, .. } => name,
            Self::Unit { name, .. } => name,
        }
    }

    /// The variant's tag on the wire.
    pub fn json_name(&self) -> (s: &String)
        ensures
            s@ == self@.json_name(),
    {
        match self {
            Self::Object { json_name, .. } => json_name,
            Self::Tuple { json_name, .. } => json_name,
            Self::Unit { json_name, .. } => json_name,
        }
    }
}

impl DataEnumObjectField {
    /// A payload field named `name`, with the key `json_name` on the wire.
    pub fn new(name: Name, json_name: String, field_type: Type) -> (f: Self)
        ensures
            f@ == (FieldView { name: name@, json_name: json_name@, field_type: field_type@ }),
    {
        Self { name, json_name, field_type }
    }

    /// The field's name.
    pub fn name(&self) -> (n: &Name)
        ensures
            n@ == self@.name,
    {
        &self.name
    }

    /// The field's key on the wire.
    pub fn json_name(&self) -> (s: &str)
        ensures
            s@ == self@.json_name,
    {
        self.json_name.as_str()
    }

    /// The field's declared type.
    pub fn field_type(&self) -> (t: &Type)
        ensures
            t@ == self@.field_type,
    {
        &self.field_type
    }
}

impl Type {
    /// The type expression `name`.
    pub fn new(name: &str) -> (t: Self)
        ensures
            t@ == name@,
    {
        Self(String::from_str(name))
    }

    /// The expression as text.
    pub fn name(&self) -> (s: &String)
        ensures
            s@ == self@,
    {
        &self.0
    }
}

impl CustomType {
    /// The identifier `name`.
    pub fn new(name: &str) -> (t: Self)
        ensures
            t@ == name@,
    {
        Self(String::from_str(name))
    }

    /// The identifier as text.
    pub fn name(&self) -> (s: &String)
        ensures
            s@ == self@,
    {
        &self.0
    }
}

} // verus!
