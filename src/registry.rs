//! The per-type registry: a field catalog goes in, and out comes a type
//! descriptor whose attribute registry maps each field name to its accessor.

use crate::accessor::{Accessor, AttrError, Instance};
use crate::perfect_hash::{
    distinct, key_views, layout_valid, lemma_lookup_exact, phf_layout, PerfectHashTable,
};
use crate::value::{TypeTag, Value};
use vstd::prelude::*;

verus! {

/// One field of a record type: its name and its declared type.
#[derive(Clone, Debug, PartialEq, Eq)]
pub struct FieldDef {
    pub name: String,
    pub declared_type: TypeTag,
}

/// The fields of the record type named `record`, in declaration order.
#[derive(Clone, Debug, PartialEq, Eq)]
pub struct FieldCatalog {
    pub record: String,
    pub fields: Vec<FieldDef>,
}

/// The names of the fields, in order.
pub open spec fn field_names(fields: Seq<FieldDef>) -> Seq<Seq<char>> {
    fields.map_values(|f: FieldDef| f.name@)
}

impl FieldCatalog {
    pub open spec fn names(&self) -> Seq<Seq<char>> {
        field_names(self.fields@)
    }
}

/// A type definition handed to the generator.
#[derive(Clone, Debug, PartialEq, Eq)]
pub enum ItemDef {
    /// A record type with named fields.
    Record(FieldCatalog),
    /// Any other kind of item, by name.
    Other(String),
}

/// Why no descriptor was built.
#[derive(Clone, Debug, PartialEq, Eq)]
pub enum BuildError {
    /// Two fields of the catalog have this name.
    DuplicateField(String),
    /// No collision-free layout was found for the field names.
    LayoutExhausted,
    /// The item is not a record type.
    NotARecord,
}

/// `n` occurs at two positions of `names`.
pub open spec fn duplicated(names: Seq<Seq<char>>, n: Seq<char>) -> bool {
    exists|i: int, j: int| 0 <= i < j < names.len() && names[i] == n && names[j] == n
}

/// Field names mapped to accessors through a perfect hash table.
pub struct AttributeRegistry {
    table: PerfectHashTable<Accessor>,
}

impl AttributeRegistry {
    /// The field names, in declaration order.
    pub closed spec fn names(&self) -> Seq<Seq<char>> {
        self.table.key_seq()
    }

    /// The accessor of each field, in declaration order.
    pub closed spec fn accessors(&self) -> Seq<Accessor> {
        self.table.value_seq()
    }

    /// The layout of the table.
    pub closed spec fn layout(&self) -> (u64, Seq<(u32, u32)>, Seq<usize>) {
        self.table.layout()
    }

    /// What `lookup` returns for `name`.
    pub closed spec fn spec_lookup(&self, name: Seq<char>) -> Option<Accessor> {
        self.table.spec_get(name)
    }

    /// Binds the i-th of distinct `names` to the i-th of `accessors`.
    pub fn build(names: Vec<String>, accessors: Vec<Accessor>) -> (r: Option<AttributeRegistry>)
        requires
            names@.len() == accessors@.len(),
            distinct(key_views(names@)),
        ensures
            r.is_some() == layout_valid(
                key_views(names@),
                phf_layout(key_views(names@)).0,
                phf_layout(key_views(names@)).1,
                phf_layout(key_views(names@)).2,
            ),
            r matches Some(reg) ==> reg.names() == key_views(names@) && reg.accessors() == accessors@
                && reg.layout() == phf_layout(key_views(names@)),
    {
        match PerfectHashTable::build(names, accessors) {
            Ok(table) => Some(AttributeRegistry { table }),
            Err(_) => None,
        }
    }

    /// The number of fields.
    pub fn len(&self) -> (r: usize)
        ensures
            r == self.names().len(),
            r == self.accessors().len(),
    {
        self.table.len()
    }

    /// The accessor of the field named `name`, if the type has one.
    pub fn lookup(&self, name: &str) -> (r: Option<&Accessor>)
        ensures
            match r {
                Some(a) => self.spec_lookup(name@) == Some(*a),
                None => self.spec_lookup(name@).is_none(),
            },
    {
        self.table.get(name)
    }

    /// The accessor of field number `i`.
    pub fn accessor_at(&self, i: usize) -> (r: &Accessor)
        requires
            i < self.accessors().len(),
        ensures
            *r == self.accessors()[i as int],
    {
        self.table.value_at(i)
    }
}

/// The name of a reflected record type and the registry of its fields.
pub struct TypeDescriptor {
    name: String,
    attributes: AttributeRegistry,
}

impl TypeDescriptor {
    pub closed spec fn spec_name(&self) -> Seq<char> {
        self.name@
    }

    pub closed spec fn spec_attributes(&self) -> AttributeRegistry {
        self.attributes
    }

    /// The descriptor was generated from `catalog`: its name is the record's,
    /// its registry holds the field names in order, each bound to the
    /// accessor of that field, laid out as `phf_generator` lays out the names.
    pub open spec fn describes(&self, catalog: FieldCatalog) -> bool {
        let reg = self.spec_attributes();
        &&& self.spec_name() == catalog.record@
        &&& distinct(catalog.names())
        &&& reg.names() == catalog.names()
        &&& reg.accessors().len() == catalog.fields@.len()
        &&& forall|i: int|
            0 <= i < catalog.fields@.len() ==> {
                let a = #[trigger] reg.accessors()[i];
                &&& a.owner_name() == catalog.record@
                &&& a.field_index() == i
                &&& a.spec_declared_type() == catalog.fields@[i].declared_type
            }
        &&& reg.layout() == phf_layout(catalog.names())
    }

    /// `inst` is a value of this type: it names the type, and has one value
    /// per field, of the field's declared type.
    pub open spec fn is_instance(&self, inst: Instance) -> bool {
        let acc = self.spec_attributes().accessors();
        &&& inst.record@ == self.spec_name()
        &&& inst.values@.len() == acc.len()
        &&& forall|i: int|
            0 <= i < acc.len() ==> (#[trigger] inst.values@[i]).spec_tag()
                == acc[i].spec_declared_type()
    }

    pub fn name(&self) -> (r: &str)
        ensures
            r@ == self.spec_name(),
    {
        self.name.as_str()
    }

    pub fn attributes(&self) -> (r: &AttributeRegistry)
        ensures
            *r == self.spec_attributes(),
    {
        &self.attributes
    }

    /// A freshly constructed instance: every field holds the initial value of
    /// its declared type.
    pub fn new_instance(&self) -> (r: Instance)
        ensures
            self.is_instance(r),
            forall|i: int| 0 <= i < r.values@.len() ==> (#[trigger] r.values@[i]).is_initial(),
    {
        let n = self.attributes.len();
        let mut values: Vec<Value> = Vec::new();
        let mut i: usize = 0;
        while i < n
            invariant
                n == self.spec_attributes().accessors().len(),
                i <= n,
                values@.len() == i,
                forall|k: int|
                    0 <= k < i ==> (#[trigger] values@[k]).spec_tag()
                        == self.spec_attributes().accessors()[k].spec_declared_type()
                        && values@[k].is_initial(),
            decreases n - i,
        {
            let a = self.attributes.accessor_at(i);
            values.push(Value::initial(a.declared_type()));
            i = i + 1;
        }
        Instance { record: self.name.clone(), values }
    }
}

/// What generating a descriptor from `catalog` gives: an error naming a
/// repeated field, else an error when no layout was found, else a descriptor
/// of the catalog.
pub open spec fn build_outcome(catalog: FieldCatalog, r: Result<TypeDescriptor, BuildError>) -> bool {
    let names = catalog.names();
    let layout = phf_layout(names);
    if !distinct(names) {
        match r {
            Err(BuildError::DuplicateField(n)) => duplicated(names, n@),
            _ => false,
        }
    } else if !layout_valid(names, layout.0, layout.1, layout.2) {
        r == Err::<TypeDescriptor, BuildError>(BuildError::LayoutExhausted)
    } else {
        match r {
            Ok(d) => d.describes(catalog),
            _ => false,
        }
    }
}

/// The position of a field whose name an earlier field already has, if any.
fn find_duplicate(fields: &Vec<FieldDef>) -> (r: Option<usize>)
    ensures
        r.is_none() == distinct(field_names(fields@)),
        r matches Some(i) ==> i < fields@.len() && duplicated(
            field_names(fields@),
            fields@[i as int].name@,
        ),
{
    let ghost names = field_names(fields@);
    let n = fields.len();
    let mut i: usize = 0;
    while i < n
        invariant
            names == field_names(fields@),
            n == fields@.len(),
            i <= n,
            forall|a: int, b: int| 0 <= a < i && 0 <= b < i && a != b ==> names[a] != names[b],
        decreases n - i,
    {
        let mut j: usize = 0;
        while j < i
            invariant
                names == field_names(fields@),
                n == fields@.len(),
                j <= i < n,
                forall|b: int| 0 <= b < j ==> names[b] != names[i as int],
            decreases i - j,
        {
            if fields[j].name == fields[i].name {
                assert(names[j as int] == names[i as int]);
                return Some(i);
            }
            j = j + 1;
        }
        i = i + 1;
    }
    None
}

/// The names of the fields, as owned strings.
fn field_name_list(fields: &Vec<FieldDef>) -> (r: Vec<String>)
    ensures
        r@.len() == fields@.len(),
        key_views(r@) == field_names(fields@),
{
    let n = fields.len();
    let mut r: Vec<String> = Vec::new();
    let mut i: usize = 0;
    while i < n
        invariant
            n == fields@.len(),
            i <= n,
            r@.len() == i,
            forall|k: int| 0 <= k < i ==> (#[trigger] r@[k])@ == fields@[k].name@,
        decreases n - i,
    {
        r.push(fields[i].name.clone());
        i = i + 1;
    }
    assert(key_views(r@) =~= field_names(fields@));
    r
}

/// One accessor per field of the catalog, bound to the record type, the
/// field's position and its declared type.
pub fn make_accessors(catalog: &FieldCatalog) -> (r: Vec<Accessor>)
    ensures
        r@.len() == catalog.fields@.len(),
        forall|i: int|
            0 <= i < r@.len() ==> {
                let a = #[trigger] r@[i];
                &&& a.owner_name() == catalog.record@
                &&& a.field_index() == i
                &&& a.spec_declared_type() == catalog.fields@[i].declared_type
            },
{
    let n = catalog.fields.len();
    let mut r: Vec<Accessor> = Vec::new();
    let mut i: usize = 0;
    while i < n
        invariant
            n == catalog.fields@.len(),
            i <= n,
            r@.len() == i,
            forall|k: int|
                0 <= k < i ==> {
                    let a = #[trigger] r@[k];
                    &&& a.owner_name() == catalog.record@
                    &&& a.field_index() == k
                    &&& a.spec_declared_type() == catalog.fields@[k].declared_type
                },
        decreases n - i,
    {
        r.push(Accessor::new(catalog.record.clone(), i, catalog.fields[i].declared_type));
        i = i + 1;
    }
    r
}

impl TypeDescriptor {
    /// Generates the descriptor of the record type that `catalog` lists.
    pub fn from_catalog(catalog: &FieldCatalog) -> (r: Result<TypeDescriptor, BuildError>)
        ensures
            build_outcome(*catalog, r),
    {
        match find_duplicate(&catalog.fields) {
            Some(i) => {
                return Err(BuildError::DuplicateField(catalog.fields[i].name.clone()));
            },
            None => {},
        }
        let names = field_name_list(&catalog.fields);
        let accessors = make_accessors(catalog);
        match AttributeRegistry::build(names, accessors) {
            Some(attributes) => {
                let d = TypeDescriptor { name: catalog.record.clone(), attributes };
                assert(d.describes(*catalog));
                Ok(d)
            },
            None => Err(BuildError::LayoutExhausted),
        }
    }
}

/// Generates the descriptor of `item`, which must be a record type.
pub fn reflect_item(item: &ItemDef) -> (r: Result<TypeDescriptor, BuildError>)
    ensures
        match item {
            ItemDef::Record(c) => build_outcome(*c, r),
            ItemDef::Other(_) => r == Err::<TypeDescriptor, BuildError>(BuildError::NotARecord),
        },
{
    match item {
        ItemDef::Record(c) => TypeDescriptor::from_catalog(c),
        ItemDef::Other(_) => Err(BuildError::NotARecord),
    }
}

/// Every field name of the catalog finds the accessor of that field, and the
/// accessor reads the field's current value from any instance of the type.
pub proof fn lemma_lookup_complete(d: TypeDescriptor, catalog: FieldCatalog, i: int, inst: Instance)
    requires
        d.describes(catalog),
        0 <= i < catalog.fields@.len(),
        d.is_instance(inst),
    ensures
        d.spec_attributes().spec_lookup(catalog.names()[i]) == Some(
            d.spec_attributes().accessors()[i],
        ),
        d.spec_attributes().accessors()[i].field_index() == i,
        d.spec_attributes().accessors()[i].spec_get(inst) == Ok::<Value, AttrError>(
            inst.values@[i],
        ),
{
    let reg = d.spec_attributes();
    lemma_lookup_exact(reg.table, catalog.names(), reg.accessors());
    let a = reg.accessors()[i];
    assert(a.owner_name() == catalog.record@);
}

/// A string that is not a field name of the catalog finds nothing.
pub proof fn lemma_lookup_sound(d: TypeDescriptor, catalog: FieldCatalog, s: Seq<char>)
    requires
        d.describes(catalog),
        !catalog.names().contains(s),
    ensures
        d.spec_attributes().spec_lookup(s).is_none(),
{
    let reg = d.spec_attributes();
    lemma_lookup_exact(reg.table, catalog.names(), reg.accessors());
}

} // verus!
