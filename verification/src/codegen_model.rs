//! The parts of the `codegen` crate that the generator uses, with what they
//! do to the code they build.
//!
//! A scope is a list of items, each of which the scope renders as a piece of
//! text; a struct has a name, an optional visibility and a list of named
//! fields, each a name, a type and an optional visibility.
use codegen::{Field, Scope, Struct};
use vstd::prelude::*;

verus! {

#[verifier::external_type_specification]
#[verifier::external_body]
pub struct ExScope(codegen::Scope);

#[verifier::external_type_specification]
#[verifier::external_body]
pub struct ExStruct(codegen::Struct);

#[verifier::external_type_specification]
#[verifier::external_body]
pub struct ExField(codegen::Field);

/// A named field: its name, its type, and its visibility if it has one.
pub type FieldSpec = (Seq<char>, Seq<char>, Option<Seq<char>>);

/// The rendered items of a scope, in order.
pub uninterp spec fn scope_items(scope: Scope) -> Seq<Seq<char>>;

/// The named fields of a struct, in order.
pub uninterp spec fn struct_fields(item: Struct) -> Seq<FieldSpec>;

/// The name of a struct.
pub uninterp spec fn struct_name(item: Struct) -> Seq<char>;

/// The visibility of a struct, if it has one.
pub uninterp spec fn struct_visibility(item: Struct) -> Option<Seq<char>>;

/// The name, type and visibility of a field.
pub uninterp spec fn field_parts(field: Field) -> FieldSpec;

/// Whether `text` holds no line break (neither `\n` nor `\r`).
pub open spec fn single_line(text: Seq<char>) -> bool {
    forall|i: int| 0 <= i < text.len() ==> #[trigger] text[i] != '\n' && text[i] != '\r'
}

/// Whether `text` holds no carriage return.
pub open spec fn no_carriage_return(text: Seq<char>) -> bool {
    forall|i: int| 0 <= i < text.len() ==> #[trigger] text[i] != '\r'
}

/// Whether every part of every field is a single line.
pub open spec fn fields_single_line(fields: Seq<FieldSpec>) -> bool {
    forall|i: int|
        0 <= i < fields.len() ==> {
            &&& single_line(#[trigger] fields[i].0)
            &&& single_line(fields[i].1)
            &&& (fields[i].2 matches Some(v) ==> single_line(v))
        }
}

/// `text` followed by a space, or nothing.
pub open spec fn visibility_prefix(visibility: Option<Seq<char>>) -> Seq<char> {
    match visibility {
        Some(v) => v + seq![' '],
        None => Seq::empty(),
    }
}

/// How a field is rendered inside a struct: indented by four spaces, one line.
pub open spec fn field_line(field: FieldSpec) -> Seq<char> {
    seq![' ', ' ', ' ', ' '] + visibility_prefix(field.2) + field.0 + seq![':', ' '] + field.1 + seq![',', '\n']
}

/// The lines of all fields, in order.
pub open spec fn field_lines(fields: Seq<FieldSpec>) -> Seq<char>
    decreases fields.len(),
{
    if fields.len() == 0 {
        Seq::empty()
    } else {
        field_lines(fields.drop_last()) + field_line(fields.last())
    }
}

/// How a struct is rendered: its head, then its fields in braces, or a
/// semicolon when it has none.
pub open spec fn struct_text(name: Seq<char>, visibility: Option<Seq<char>>, fields: Seq<FieldSpec>) -> Seq<char> {
    let head = visibility_prefix(visibility) + seq!['s', 't', 'r', 'u', 'c', 't', ' '] + name;
    if fields.len() == 0 {
        head + seq![';', '\n']
    } else {
        head + seq![' ', '{', '\n'] + field_lines(fields) + seq!['}', '\n']
    }
}

/// How an `impl` block without items is rendered.
pub open spec fn empty_impl_text(target: Seq<char>) -> Seq<char> {
    seq!['i', 'm', 'p', 'l', ' '] + target + seq![' ', '{', '\n', '}', '\n']
}

/// The items joined by line breaks.
pub open spec fn join_lines(items: Seq<Seq<char>>) -> Seq<char>
    decreases items.len(),
{
    if items.len() == 0 {
        Seq::empty()
    } else if items.len() == 1 {
        items[0]
    } else {
        join_lines(items.drop_last()) + seq!['\n'] + items.last()
    }
}

/// How a scope is rendered: its items joined by line breaks, without the
/// last line break.
pub open spec fn scope_text(items: Seq<Seq<char>>) -> Seq<char> {
    let joined = join_lines(items);
    if joined.len() > 0 && joined.last() == '\n' {
        joined.drop_last()
    } else {
        joined
    }
}

/// Joining texts without carriage returns gives a text without one.
pub proof fn lemma_concat_no_carriage_return(a: Seq<char>, b: Seq<char>)
    requires
        no_carriage_return(a),
        no_carriage_return(b),
    ensures
        no_carriage_return(a + b),
{
    assert forall|i: int| 0 <= i < (a + b).len() implies #[trigger] (a + b)[i] != '\r' by {
        if i < a.len() {
            assert((a + b)[i] == a[i]);
        } else {
            assert((a + b)[i] == b[i - a.len()]);
        }
    }
}

/// A single-line text holds no carriage return.
pub proof fn lemma_single_line_no_carriage_return(text: Seq<char>)
    requires
        single_line(text),
    ensures
        no_carriage_return(text),
{
    assert forall|i: int| 0 <= i < text.len() implies #[trigger] text[i] != '\r' by {
        assert(single_line(text));
    }
}

/// Fields whose parts are single lines render without carriage returns.
pub proof fn lemma_field_lines_no_carriage_return(fields: Seq<FieldSpec>)
    requires
        fields_single_line(fields),
    ensures
        no_carriage_return(field_lines(fields)),
    decreases fields.len(),
{
    if fields.len() > 0 {
        let rest = fields.drop_last();
        assert(fields_single_line(rest)) by {
            assert forall|i: int| 0 <= i < rest.len() implies {
                &&& single_line(#[trigger] rest[i].0)
                &&& single_line(rest[i].1)
                &&& (rest[i].2 matches Some(v) ==> single_line(v))
            } by {
                assert(rest[i] == fields[i]);
            }
        }
        lemma_field_lines_no_carriage_return(rest);
        let f = fields.last();
        assert(single_line(fields[fields.len() - 1].0));
        lemma_single_line_no_carriage_return(f.0);
        lemma_single_line_no_carriage_return(f.1);
        let prefix = visibility_prefix(f.2);
        match f.2 {
            Some(v) => {
                lemma_single_line_no_carriage_return(v);
                lemma_concat_no_carriage_return(v, seq![' ']);
            },
            None => {},
        }
        lemma_concat_no_carriage_return(seq![' ', ' ', ' ', ' '], prefix);
        lemma_concat_no_carriage_return(seq![' ', ' ', ' ', ' '] + prefix, f.0);
        lemma_concat_no_carriage_return(seq![' ', ' ', ' ', ' '] + prefix + f.0, seq![':', ' ']);
        lemma_concat_no_carriage_return(seq![' ', ' ', ' ', ' '] + prefix + f.0 + seq![':', ' '], f.1);
        lemma_concat_no_carriage_return(
            seq![' ', ' ', ' ', ' '] + prefix + f.0 + seq![':', ' '] + f.1,
            seq![',', '\n'],
        );
        lemma_concat_no_carriage_return(field_lines(rest), field_line(f));
    }
}

/// A struct whose parts are single lines renders without carriage returns.
pub proof fn lemma_struct_text_no_carriage_return(
    name: Seq<char>,
    visibility: Option<Seq<char>>,
    fields: Seq<FieldSpec>,
)
    requires
        single_line(name),
        visibility matches Some(v) ==> single_line(v),
        fields_single_line(fields),
    ensures
        no_carriage_return(struct_text(name, visibility, fields)),
{
    let prefix = visibility_prefix(visibility);
    match visibility {
        Some(v) => {
            lemma_single_line_no_carriage_return(v);
            lemma_concat_no_carriage_return(v, seq![' ']);
        },
        None => {},
    }
    lemma_single_line_no_carriage_return(name);
    let word = seq!['s', 't', 'r', 'u', 'c', 't', ' '];
    lemma_concat_no_carriage_return(prefix, word);
    lemma_concat_no_carriage_return(prefix + word, name);
    let head = prefix + word + name;
    if fields.len() == 0 {
        lemma_concat_no_carriage_return(head, seq![';', '\n']);
    } else {
        lemma_field_lines_no_carriage_return(fields);
        lemma_concat_no_carriage_return(head, seq![' ', '{', '\n']);
        lemma_concat_no_carriage_return(head + seq![' ', '{', '\n'], field_lines(fields));
        lemma_concat_no_carriage_return(head + seq![' ', '{', '\n'] + field_lines(fields), seq!['}', '\n']);
    }
}

/// Items without carriage returns render to a scope without them.
pub proof fn lemma_scope_text_no_carriage_return(items: Seq<Seq<char>>)
    requires
        forall|i: int| 0 <= i < items.len() ==> no_carriage_return(#[trigger] items[i]),
    ensures
        no_carriage_return(scope_text(items)),
{
    lemma_join_lines_no_carriage_return(items);
    let joined = join_lines(items);
    if joined.len() > 0 && joined.last() == '\n' {
        assert forall|i: int| 0 <= i < joined.drop_last().len() implies #[trigger] joined.drop_last()[i] != '\r' by {
            assert(joined.drop_last()[i] == joined[i]);
        }
    }
}

/// Items without carriage returns join into a text without them.
pub proof fn lemma_join_lines_no_carriage_return(items: Seq<Seq<char>>)
    requires
        forall|i: int| 0 <= i < items.len() ==> no_carriage_return(#[trigger] items[i]),
    ensures
        no_carriage_return(join_lines(items)),
    decreases items.len(),
{
    if items.len() == 1 {
        assert(no_carriage_return(items[0]));
    } else if items.len() > 1 {
        let rest = items.drop_last();
        assert forall|i: int| 0 <= i < rest.len() implies no_carriage_return(#[trigger] rest[i]) by {
            assert(rest[i] == items[i]);
        }
        lemma_join_lines_no_carriage_return(rest);
        assert(no_carriage_return(items[items.len() - 1]));
        lemma_concat_no_carriage_return(join_lines(rest), seq!['\n']);
        lemma_concat_no_carriage_return(join_lines(rest) + seq!['\n'], items.last());
    }
}

/// Wraps `Scope::new`: a scope without items.
#[verifier::external_body]
pub(crate) fn scope_new() -> (scope: Scope)
    ensures
        scope_items(scope) == Seq::<Seq<char>>::empty(),
{
    Scope::new()
}

/// Wraps `Scope::push_struct`: the struct becomes the last item, rendered
/// with its head and fields (when none of its parts breaks a line).
#[verifier::external_body]
pub(crate) fn scope_push_struct(scope: &mut Scope, item: Struct)
    ensures
        scope_items(*final(scope)).len() == scope_items(*old(scope)).len() + 1,
        scope_items(*final(scope)).subrange(0, scope_items(*old(scope)).len() as int) == scope_items(*old(scope)),
        single_line(struct_name(item)) && (struct_visibility(item) matches Some(v) ==> single_line(v))
            && fields_single_line(struct_fields(item)) ==> scope_items(*final(scope)) == scope_items(
            *old(scope),
        ).push(struct_text(struct_name(item), struct_visibility(item), struct_fields(item))),
{
    scope.push_struct(item);
}

/// Wraps `Scope::raw`: the text becomes the last item, followed by a line
/// break (when it holds no carriage return).
#[verifier::external_body]
pub(crate) fn scope_raw(scope: &mut Scope, text: String)
    ensures
        scope_items(*final(scope)).len() == scope_items(*old(scope)).len() + 1,
        scope_items(*final(scope)).subrange(0, scope_items(*old(scope)).len() as int) == scope_items(*old(scope)),
        no_carriage_return(text@) ==> scope_items(*final(scope)) == scope_items(*old(scope)).push(
            text@ + seq!['\n'],
        ),
{
    scope.raw(text);
}

/// Wraps `Scope::new_impl`: an empty `impl` block for `target` becomes the
/// last item (when `target` is a single line).
#[verifier::external_body]
pub(crate) fn scope_new_impl(scope: &mut Scope, target: &str)
    ensures
        scope_items(*final(scope)).len() == scope_items(*old(scope)).len() + 1,
        scope_items(*final(scope)).subrange(0, scope_items(*old(scope)).len() as int) == scope_items(*old(scope)),
        single_line(target@) ==> scope_items(*final(scope)) == scope_items(*old(scope)).push(
            empty_impl_text(target@),
        ),
{
    scope.new_impl(target);
}

/// Wraps `Scope::to_string`: the rendered items joined by line breaks, without
/// the last line break.
#[verifier::external_body]
pub(crate) fn scope_to_string(scope: &Scope) -> (text: String)
    ensures
        text@ == scope_text(scope_items(*scope)),
{
    scope.to_string()
}

/// Wraps `Struct::new`: a struct with the given name, no visibility and no fields.
#[verifier::external_body]
pub(crate) fn struct_new(name: &str) -> (item: Struct)
    ensures
        struct_name(item) == name@,
        struct_visibility(item) is None,
        struct_fields(item) == Seq::<FieldSpec>::empty(),
{
    Struct::new(name)
}

/// Wraps `Struct::vis`: sets the visibility.
#[verifier::external_body]
pub(crate) fn struct_vis(item: &mut Struct, visibility: &str)
    ensures
        struct_name(*final(item)) == struct_name(*old(item)),
        struct_visibility(*final(item)) == Some(visibility@),
        struct_fields(*final(item)) == struct_fields(*old(item)),
{
    item.vis(visibility);
}

/// Wraps `Struct::field`: adds a field without visibility.
#[verifier::external_body]
pub(crate) fn struct_field(item: &mut Struct, name: &str, ty: &str)
    ensures
        struct_name(*final(item)) == struct_name(*old(item)),
        struct_visibility(*final(item)) == struct_visibility(*old(item)),
        struct_fields(*final(item)) == struct_fields(*old(item)).push((name@, ty@, None::<Seq<char>>)),
{
    item.field(name, ty);
}

/// Wraps `Struct::push_field`: adds the given field.
#[verifier::external_body]
pub(crate) fn struct_push_field(item: &mut Struct, field: Field)
    ensures
        struct_name(*final(item)) == struct_name(*old(item)),
        struct_visibility(*final(item)) == struct_visibility(*old(item)),
        struct_fields(*final(item)) == struct_fields(*old(item)).push(field_parts(field)),
{
    item.push_field(field);
}

/// Wraps `Field::new`: a field with the given name and type, without visibility.
#[verifier::external_body]
pub(crate) fn field_new(name: &str, ty: &str) -> (field: Field)
    ensures
        field_parts(field) == (name@, ty@, None::<Seq<char>>),
{
    Field::new(name, ty)
}

/// Wraps `Field::vis`: sets the visibility.
#[verifier::external_body]
pub(crate) fn field_vis(field: &mut Field, visibility: &str)
    ensures
        field_parts(*final(field)) == (field_parts(*old(field)).0, field_parts(*old(field)).1, Some(visibility@)),
{
    field.vis(visibility);
}

} // verus!
