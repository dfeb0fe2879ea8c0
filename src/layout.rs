use interoptopus::lang::c::{CType, CompositeType, Field, PrimitiveType};
use vstd::prelude::*;

verus! {

#[verifier::external_type_specification]
#[verifier::external_body]
pub struct ExCType(CType);

#[verifier::external_type_specification]
#[verifier::external_body]
pub struct ExField(Field);

/// The field that `Field::new` builds for a name and the 32-bit float type.
pub uninterp spec fn f32_field(name: Seq<char>) -> Field;

/// The type that `CompositeType::new` builds for a name and a field list,
/// wrapped as a `CType`.
pub uninterp spec fn composite_ctype(name: Seq<char>, fields: Seq<Field>) -> CType;

/// Relies on interoptopus's `Field::new`: a public field of the given name whose
/// type is the primitive `f32`; the field depends on the name alone.
#[verifier::external_body]
fn new_f32_field(name: String) -> (r: Field)
    ensures
        r == f32_field(name@),
{
    Field::new(name, CType::Primitive(PrimitiveType::F32))
}

/// Relies on interoptopus's `CompositeType::new`: a composite of the given name
/// holding the given fields in the given order; it depends on them alone.
#[verifier::external_body]
fn new_composite_ctype(name: String, fields: Vec<Field>) -> (r: CType)
    ensures
        r == composite_ctype(name@, fields@),
{
    CType::Composite(CompositeType::new(name, fields))
}

/// The name under which the vector's layout is described to generators.
pub open spec fn vec2_type_name() -> Seq<char> {
    seq!['V', 'e', 'c', '2', 'T', 'y', 'p', 'e']
}

/// The vector's fields as laid out in memory: `x` then `y`, both `f32`.
pub open spec fn vec2_fields() -> Seq<Field> {
    seq![f32_field(seq!['x']), f32_field(seq!['y'])]
}

/// The surrogate description of the two-float vector: a composite named
/// `Vec2Type` whose fields are `x` and `y`, in that order, both `f32`.
pub fn vec2_type() -> (r: CType)
    ensures
        r == composite_ctype(vec2_type_name(), vec2_fields()),
{
    let x = new_f32_field("x".to_string());
    let y = new_f32_field("y".to_string());
    let fields = vec![x, y];
    let name = "Vec2Type".to_string();
    proof {
        reveal_strlit("x");
        reveal_strlit("y");
        reveal_strlit("Vec2Type");
        assert(seq!['x'] =~= "x"@);
        assert(seq!['y'] =~= "y"@);
        assert(fields@ =~= vec2_fields());
        assert(name@ =~= vec2_type_name());
    }
    new_composite_ctype(name, fields)
}

} // verus!
