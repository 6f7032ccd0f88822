//! JSON schemas, as far as the tools' own are rewritten before they are published.

use vstd::prelude::*;
use crate::text::same;

verus! {

/// A JSON value. A number is held as it prints.
#[derive(Debug)]
pub enum JsonValue {
    Null,
    Bool(bool),
    Number(String),
    Text(String),
    List(Vec<JsonValue>),
    Object(Vec<(String, JsonValue)>),
}

/// What a JSON value is.
pub enum Shape {
    Null,
    Bool(bool),
    Number(Seq<char>),
    Text(Seq<char>),
    List(Seq<Shape>),
    Object(Seq<(Seq<char>, Shape)>),
}

impl JsonValue {
    /// What the value is.
    pub open spec fn shape(self) -> Shape
        decreases self,
    {
        match self {
            JsonValue::Null => Shape::Null,
            JsonValue::Bool(b) => Shape::Bool(b),
            JsonValue::Number(n) => Shape::Number(n@),
            JsonValue::Text(text) => Shape::Text(text@),
            JsonValue::List(items) => Shape::List(item_shapes(items@)),
            JsonValue::Object(fields) => Shape::Object(field_shapes(fields@)),
        }
    }
}

/// What the items of a list are.
pub open spec fn item_shapes(items: Seq<JsonValue>) -> Seq<Shape>
    decreases items,
{
    if items.len() == 0 {
        seq![]
    } else {
        item_shapes(items.drop_last()).push(items.last().shape())
    }
}

/// What the fields of an object are.
pub open spec fn field_shapes(fields: Seq<(String, JsonValue)>) -> Seq<(Seq<char>, Shape)>
    decreases fields,
{
    if fields.len() == 0 {
        seq![]
    } else {
        field_shapes(fields.drop_last()).push((fields.last().0@, fields.last().1.shape()))
    }
}

/// Whether a format is one of unsigned integers.
pub open spec fn is_unsigned_format(format: Seq<char>) -> bool {
    format == "uint"@ || format == "uint8"@ || format == "uint16"@ || format == "uint32"@ || format
        == "uint64"@ || format == "usize"@
}

/// Whether a field says that its object is an unsigned integer.
pub open spec fn is_unsigned_field(name: Seq<char>, value: Shape) -> bool {
    name == "format"@ && value is Text && is_unsigned_format(value->Text_0)
}

/// A schema without the formats of unsigned integers, which strict clients reject.
pub open spec fn sanitized(value: Shape) -> Shape
    decreases value,
{
    match value {
        Shape::Object(fields) => Shape::Object(sanitized_fields(fields)),
        _ => value,
    }
}

/// The fields of an object without such a format, what is nested in them rewritten too.
pub open spec fn sanitized_fields(fields: Seq<(Seq<char>, Shape)>) -> Seq<(Seq<char>, Shape)>
    decreases fields,
{
    if fields.len() == 0 {
        seq![]
    } else {
        let (name, value) = fields.last();
        let before = sanitized_fields(fields.drop_last());
        if is_unsigned_field(name, value) {
            before
        } else {
            match value {
                Shape::Object(_) => before.push((name, sanitized(value))),
                Shape::List(items) => before.push((name, Shape::List(sanitized_items(items)))),
                _ => before.push((name, value)),
            }
        }
    }
}

/// The items of a list, those that are objects rewritten.
pub open spec fn sanitized_items(items: Seq<Shape>) -> Seq<Shape>
    decreases items,
{
    if items.len() == 0 {
        seq![]
    } else {
        sanitized_items(items.drop_last()).push(sanitized(items.last()))
    }
}

fn unsigned_format(format: &str) -> (r: bool)
    ensures
        r == is_unsigned_format(format@),
{
    same(format, "uint") || same(format, "uint8") || same(format, "uint16") || same(
        format,
        "uint32",
    ) || same(format, "uint64") || same(format, "usize")
}

/// A schema without the formats of unsigned integers.
pub fn sanitize_unsigned_integer_formats(value: JsonValue) -> (r: JsonValue)
    ensures
        r.shape() == sanitized(value.shape()),
    decreases value,
{
    match value {
        JsonValue::Object(fields) => JsonValue::Object(sanitize_fields(fields)),
        other => other,
    }
}

fn sanitize_fields(fields: Vec<(String, JsonValue)>) -> (r: Vec<(String, JsonValue)>)
    ensures
        field_shapes(r@) == sanitized_fields(field_shapes(fields@)),
    decreases fields,
{
    let ghost all = fields@;
    let mut rest = fields;
    let mut done: Vec<(String, JsonValue)> = Vec::new();
    let ghost mut taken: int = 0;
    assert(all.take(0) =~= seq![]);
    assert(all.skip(0) =~= all);
    while rest.len() > 0
        invariant
            0 <= taken <= all.len(),
            all == fields@,
            rest@ == all.skip(taken),
            field_shapes(done@) == sanitized_fields(field_shapes(all.take(taken))),
        decreases rest@.len(),
    {
        let (name, value) = rest.remove(0);
        proof {
            assert(all.skip(taken)[0] == all[taken]);
            assert(all.take(taken + 1).drop_last() =~= all.take(taken));
            assert(all.take(taken + 1).last() == all[taken]);
            assert(rest@ =~= all.skip(taken + 1));
            assert(field_shapes(all.take(taken + 1)) =~= field_shapes(all.take(taken)).push(
                (name@, value.shape()),
            ));
            assert(field_shapes(all.take(taken + 1)).drop_last() =~= field_shapes(
                all.take(taken),
            ));
            assert(decreases_to!(fields => all));
            assert(decreases_to!(all => all[taken]));
            assert(decreases_to!(all[taken] => all[taken].1));
        }
        let unsigned = match &value {
            JsonValue::Text(text) => same(&name, "format") && unsigned_format(text),
            _ => false,
        };
        let ghost before = done@;
        let ghost label = name@;
        let ghost given = value.shape();
        let ghost so_far = field_shapes(all.take(taken + 1));
        assert(so_far.last() == (label, given));
        assert(unsigned == is_unsigned_field(label, given));
        if !unsigned {
            let nested = match value {
                JsonValue::Object(inner) => {
                    assert(sanitized(given) == Shape::Object(
                        sanitized_fields(field_shapes(inner@)),
                    ));
                    JsonValue::Object(sanitize_fields(inner))
                },
                JsonValue::List(items) => JsonValue::List(sanitize_items(items)),
                other => other,
            };
            let ghost shape = nested.shape();
            done.push((name, nested));
            assert(done@.drop_last() =~= before);
            assert(field_shapes(done@) =~= field_shapes(before).push((label, shape)));
            assert(sanitized_fields(so_far) == sanitized_fields(so_far.drop_last()).push(
                (label, shape),
            ));
        }
        proof {
            taken = taken + 1;
        }
    }
    assert(all.take(taken) =~= all);
    done
}

fn sanitize_items(items: Vec<JsonValue>) -> (r: Vec<JsonValue>)
    ensures
        item_shapes(r@) == sanitized_items(item_shapes(items@)),
    decreases items,
{
    let ghost all = items@;
    let mut rest = items;
    let mut done: Vec<JsonValue> = Vec::new();
    let ghost mut taken: int = 0;
    assert(all.take(0) =~= seq![]);
    assert(all.skip(0) =~= all);
    while rest.len() > 0
        invariant
            0 <= taken <= all.len(),
            all == items@,
            rest@ == all.skip(taken),
            item_shapes(done@) == sanitized_items(item_shapes(all.take(taken))),
        decreases rest@.len(),
    {
        let item = rest.remove(0);
        proof {
            assert(all.skip(taken)[0] == all[taken]);
            assert(all.take(taken + 1).drop_last() =~= all.take(taken));
            assert(all.take(taken + 1).last() == all[taken]);
            assert(rest@ =~= all.skip(taken + 1));
            assert(item_shapes(all.take(taken + 1)) =~= item_shapes(all.take(taken)).push(
                item.shape(),
            ));
            assert(item_shapes(all.take(taken + 1)).drop_last() =~= item_shapes(all.take(taken)));
            assert(decreases_to!(items => all));
            assert(decreases_to!(all => all[taken]));
        }
        let ghost before = done@;
        let nested = sanitize_unsigned_integer_formats(item);
        let ghost shape = nested.shape();
        done.push(nested);
        proof {
            assert(done@.drop_last() =~= before);
            assert(item_shapes(done@) =~= item_shapes(before).push(shape));
            taken = taken + 1;
        }
    }
    assert(all.take(taken) =~= all);
    done
}

/// Whether a schema has no format of unsigned integers: not in an object, and not in the
/// objects that are its fields or items of these.
pub open spec fn is_clean(value: Shape) -> bool
    decreases value,
{
    match value {
        Shape::Object(fields) => are_clean_fields(fields),
        _ => true,
    }
}

/// Whether the fields of an object have no such format.
pub open spec fn are_clean_fields(fields: Seq<(Seq<char>, Shape)>) -> bool
    decreases fields,
{
    if fields.len() == 0 {
        true
    } else {
        let (name, value) = fields.last();
        &&& are_clean_fields(fields.drop_last())
        &&& !is_unsigned_field(name, value)
        &&& match value {
            Shape::Object(_) => is_clean(value),
            Shape::List(items) => are_clean_items(items),
            _ => true,
        }
    }
}

/// Whether the items of a list have no such format.
pub open spec fn are_clean_items(items: Seq<Shape>) -> bool
    decreases items,
{
    if items.len() == 0 {
        true
    } else {
        are_clean_items(items.drop_last()) && is_clean(items.last())
    }
}

/// A schema that was rewritten has no format of unsigned integers left, and one that has
/// none is left as it is.
pub proof fn sanitizing_cleans(value: Shape)
    ensures
        is_clean(sanitized(value)),
        is_clean(value) ==> sanitized(value) == value,
    decreases value,
{
    match value {
        Shape::Object(fields) => sanitizing_cleans_fields(fields),
        _ => {},
    }
}

proof fn sanitizing_cleans_fields(fields: Seq<(Seq<char>, Shape)>)
    ensures
        are_clean_fields(sanitized_fields(fields)),
        are_clean_fields(fields) ==> sanitized_fields(fields) == fields,
    decreases fields,
{
    if fields.len() > 0 {
        let (name, value) = fields.last();
        let before = sanitized_fields(fields.drop_last());
        let after = sanitized_fields(fields);
        sanitizing_cleans_fields(fields.drop_last());
        match value {
            Shape::Object(_) => sanitizing_cleans(value),
            Shape::List(items) => sanitizing_cleans_items(items),
            _ => {},
        }
        if !is_unsigned_field(name, value) {
            assert(after.drop_last() =~= before);
            if are_clean_fields(fields) {
                assert(after =~= fields);
            }
        }
    }
}

proof fn sanitizing_cleans_items(items: Seq<Shape>)
    ensures
        are_clean_items(sanitized_items(items)),
        are_clean_items(items) ==> sanitized_items(items) == items,
    decreases items,
{
    if items.len() > 0 {
        let before = sanitized_items(items.drop_last());
        let after = sanitized_items(items);
        sanitizing_cleans_items(items.drop_last());
        sanitizing_cleans(items.last());
        assert(after.drop_last() =~= before);
        if are_clean_items(items) {
            assert(after =~= items);
        }
    }
}

/// Rewriting goes field by field: the fields of two objects put together come to those of the
/// one and then of the other.
pub proof fn fields_are_rewritten_one_by_one(
    a: Seq<(Seq<char>, Shape)>,
    b: Seq<(Seq<char>, Shape)>,
)
    ensures
        sanitized_fields(a + b) == sanitized_fields(a) + sanitized_fields(b),
    decreases b.len(),
{
    if b.len() == 0 {
        assert(a + b =~= a);
        assert(sanitized_fields(b) =~= Seq::empty());
        assert(sanitized_fields(a) + sanitized_fields(b) =~= sanitized_fields(a));
    } else {
        fields_are_rewritten_one_by_one(a, b.drop_last());
        assert((a + b).drop_last() =~= a + b.drop_last());
        assert((a + b).last() == b.last());
        assert(sanitized_fields(a + b) =~= sanitized_fields(a) + sanitized_fields(b));
    }
}

/// A field that holds a text is left out exactly where it is the format of an unsigned
/// integer, and else stays as it is; a field that holds an object stays with the object
/// rewritten, and one that holds neither an object nor a list stays as it is.
pub proof fn only_unsigned_formats_are_left_out(
    name: Seq<char>,
    text: Seq<char>,
    fields: Seq<(Seq<char>, Shape)>,
)
    ensures
        name == "format"@ && (text == "uint"@ || text == "uint8"@ || text == "uint16"@ || text
            == "uint32"@ || text == "uint64"@ || text == "usize"@) ==> sanitized_fields(
            seq![(name, Shape::Text(text))],
        ).len() == 0,
        !(name == "format"@ && (text == "uint"@ || text == "uint8"@ || text == "uint16"@ || text
            == "uint32"@ || text == "uint64"@ || text == "usize"@)) ==> sanitized_fields(
            seq![(name, Shape::Text(text))],
        ) == seq![(name, Shape::Text(text))],
        sanitized_fields(seq![(name, Shape::Object(fields))]) == seq![
            (name, Shape::Object(sanitized_fields(fields))),
        ],
        sanitized_fields(seq![(name, Shape::Number(text))]) == seq![(name, Shape::Number(text))],
        sanitized(Shape::Object(fields)) == Shape::Object(sanitized_fields(fields)),
{
    one_field_is_rewritten_alone(name, Shape::Text(text));
    one_field_is_rewritten_alone(name, Shape::Object(fields));
    one_field_is_rewritten_alone(name, Shape::Number(text));
}

proof fn one_field_is_rewritten_alone(name: Seq<char>, value: Shape)
    ensures
        sanitized_fields(seq![(name, value)]) == if is_unsigned_field(name, value) {
            seq![]
        } else {
            match value {
                Shape::Object(_) => seq![(name, sanitized(value))],
                Shape::List(items) => seq![(name, Shape::List(sanitized_items(items)))],
                _ => seq![(name, value)],
            }
        },
{
    let fields = seq![(name, value)];
    let rest = fields.drop_last();
    assert(rest =~= Seq::empty());
    assert(sanitized_fields(rest) =~= Seq::empty());
    assert(fields.last() == (name, value));
    assert(sanitized_fields(fields) =~= if is_unsigned_field(name, value) {
        seq![]
    } else {
        match value {
            Shape::Object(_) => seq![(name, sanitized(value))],
            Shape::List(items) => seq![(name, Shape::List(sanitized_items(items)))],
            _ => seq![(name, value)],
        }
    });
}

} // verus!
