use reflect_registry::accessor::AttrError;
use reflect_registry::registry::{reflect_item, BuildError, FieldCatalog, FieldDef, ItemDef, TypeDescriptor};
use reflect_registry::value::{TypeTag, Value};

fn field(name: &str, declared_type: TypeTag) -> FieldDef {
    FieldDef { name: name.to_string(), declared_type }
}

fn point_catalog() -> FieldCatalog {
    FieldCatalog {
        record: "Point".to_string(),
        fields: vec![field("x", TypeTag::Int), field("y", TypeTag::Str)],
    }
}

fn mixed_catalog() -> FieldCatalog {
    FieldCatalog {
        record: "Mixed".to_string(),
        fields: vec![
            field("count", TypeTag::UInt),
            field("delta", TypeTag::Int),
            field("enabled", TypeTag::Bool),
            field("grade", TypeTag::Char),
            field("label", TypeTag::Str),
        ],
    }
}

#[test]
fn point_catalog_scenario() {
    let d = TypeDescriptor::from_catalog(&point_catalog()).unwrap();
    assert_eq!(d.name(), "Point");
    assert_eq!(d.attributes().len(), 2);
    assert!(d.attributes().lookup("x").is_some());
    assert!(d.attributes().lookup("y").is_some());
    assert!(d.attributes().lookup("z").is_none());
    let mut p = d.new_instance();
    let x = d.attributes().lookup("x").unwrap();
    assert_eq!(x.set(&mut p, Value::Int(5)), Ok(()));
    assert_eq!(x.get(&p), Ok(Value::Int(5)));
    assert_eq!(x.set(&mut p, Value::Str("oops".to_string())), Err(AttrError::TypeMismatch));
    assert_eq!(x.get(&p), Ok(Value::Int(5)));
}

#[test]
fn every_field_is_found_and_reads_its_value() {
    let c = mixed_catalog();
    let d = TypeDescriptor::from_catalog(&c).unwrap();
    let inst = d.new_instance();
    assert_eq!(inst.record, "Mixed");
    assert_eq!(
        inst.values,
        vec![Value::UInt(0), Value::Int(0), Value::Bool(false), Value::Char('\0'), Value::Str(String::new())]
    );
    for (i, f) in c.fields.iter().enumerate() {
        let a = d.attributes().lookup(&f.name).unwrap();
        assert_eq!(a.field(), i);
        assert_eq!(a.owner(), "Mixed");
        assert_eq!(a.declared_type(), f.declared_type);
        assert_eq!(a.get(&inst), Ok(inst.values[i].clone()));
        assert_eq!(d.attributes().accessor_at(i), a);
    }
}

#[test]
fn unknown_names_are_not_found() {
    let d = TypeDescriptor::from_catalog(&mixed_catalog()).unwrap();
    for name in ["", "x", "Count", "count ", "labels", "lab", "Mixed", "grad", "enabledd"] {
        assert!(d.attributes().lookup(name).is_none(), "{name}");
    }
    let p = TypeDescriptor::from_catalog(&point_catalog()).unwrap();
    assert!(p.attributes().lookup("label").is_none());
}

#[test]
fn set_then_get_round_trips_every_type() {
    let d = TypeDescriptor::from_catalog(&mixed_catalog()).unwrap();
    let mut inst = d.new_instance();
    let cases = [
        ("count", Value::UInt(u64::MAX)),
        ("delta", Value::Int(-17)),
        ("enabled", Value::Bool(true)),
        ("grade", Value::Char('λ')),
        ("label", Value::Str("hello".to_string())),
    ];
    for (name, v) in cases.iter() {
        let a = d.attributes().lookup(name).unwrap();
        assert_eq!(a.set(&mut inst, v.clone()), Ok(()));
        assert_eq!(a.get(&inst), Ok(v.clone()));
    }
    assert_eq!(
        inst.values,
        vec![
            Value::UInt(u64::MAX),
            Value::Int(-17),
            Value::Bool(true),
            Value::Char('λ'),
            Value::Str("hello".to_string())
        ]
    );
}

#[test]
fn mismatched_set_leaves_field_unchanged() {
    let d = TypeDescriptor::from_catalog(&mixed_catalog()).unwrap();
    let mut inst = d.new_instance();
    let label = d.attributes().lookup("label").unwrap();
    assert_eq!(label.set(&mut inst, Value::Str("kept".to_string())), Ok(()));
    let before = inst.clone();
    for v in [Value::Int(1), Value::UInt(2), Value::Bool(true), Value::Char('c')] {
        assert_eq!(label.set(&mut inst, v), Err(AttrError::TypeMismatch));
        assert_eq!(inst, before);
    }
    assert_eq!(label.get(&inst), Ok(Value::Str("kept".to_string())));
}

#[test]
fn accessor_refuses_instances_of_other_types() {
    let p = TypeDescriptor::from_catalog(&point_catalog()).unwrap();
    let m = TypeDescriptor::from_catalog(&mixed_catalog()).unwrap();
    let mut other = m.new_instance();
    let x = p.attributes().lookup("x").unwrap();
    assert_eq!(x.get(&other), Err(AttrError::WrongInstance));
    let before = other.clone();
    assert_eq!(x.set(&mut other, Value::Int(1)), Err(AttrError::WrongInstance));
    assert_eq!(other, before);
    let mut short = reflect_registry::accessor::Instance { record: "Point".to_string(), values: vec![] };
    assert_eq!(x.get(&short), Err(AttrError::WrongInstance));
    assert_eq!(x.set(&mut short, Value::Int(1)), Err(AttrError::WrongInstance));
}

#[test]
fn duplicate_field_is_a_build_error() {
    let c = FieldCatalog {
        record: "Twice".to_string(),
        fields: vec![field("a", TypeTag::Int), field("b", TypeTag::Bool), field("a", TypeTag::Str)],
    };
    assert_eq!(TypeDescriptor::from_catalog(&c).err(), Some(BuildError::DuplicateField("a".to_string())));
}

#[test]
fn empty_catalog_gives_empty_registry() {
    let c = FieldCatalog { record: "Unit".to_string(), fields: vec![] };
    let d = TypeDescriptor::from_catalog(&c).unwrap();
    assert_eq!(d.name(), "Unit");
    assert_eq!(d.attributes().len(), 0);
    assert!(d.attributes().lookup("").is_none());
    assert!(d.attributes().lookup("anything").is_none());
    assert!(d.new_instance().values.is_empty());
}

#[test]
fn only_records_are_reflected() {
    let r = reflect_item(&ItemDef::Other("Color".to_string()));
    assert_eq!(r.err(), Some(BuildError::NotARecord));
    let d = reflect_item(&ItemDef::Record(point_catalog())).unwrap();
    assert_eq!(d.name(), "Point");
    assert_eq!(d.attributes().len(), 2);
}

#[test]
fn descriptors_from_equal_catalogs_agree() {
    let a = TypeDescriptor::from_catalog(&mixed_catalog()).unwrap();
    let b = TypeDescriptor::from_catalog(&mixed_catalog()).unwrap();
    for f in mixed_catalog().fields.iter() {
        assert_eq!(a.attributes().lookup(&f.name), b.attributes().lookup(&f.name));
    }
}
