//! The fields of the derived record.
//!
//! A field keeps its name and visibility. Its type is wrapped in the
//! container of the configuration, unless it is in that container already
//! and the configuration does not ask to wrap again. Whether a type is in a
//! container is judged by name alone: by the first segment of its path.

pub mod args;
pub mod attrs;
pub mod laws;

use vstd::prelude::*;
use vstd::string::StringExecFns;
use crate::args::{Args, ArgsView};
use crate::attrs::generator::generated;
use crate::error::{unexpected, unexpected_text, FieldError, FieldFault, GenError, GenFault};
use crate::fields::attrs::{field_strategy, overrides_of};
use crate::schema::{field_views, Field, FieldView, Fields, Ident, RecordSchema};
use crate::syntax::{parse_type, type_parse};
use crate::tokens::{str_eq, Token, Tokens};

verus! {

/// Whether a type with these tokens is in the container `wrapper`: whether
/// it is a path whose first segment is that name.
pub open spec fn wrapped_in(ty: Seq<Token>, wrapper: Seq<char>) -> bool {
    type_parse(ty) == Ok::<Option<Seq<char>>, Seq<char>>(Some(wrapper))
}

/// Whether what was read of a type says that it is in the container
/// `wrapper`: `head` is the first segment of the type's path if the type is
/// a path, nothing if it is another type, and a complaint if it is no type.
pub fn head_matches(head: &Result<Option<String>, String>, wrapper: &str) -> (r: bool)
    ensures
        r == match head {
            Ok(Some(first)) => first@ == wrapper@,
            _ => false,
        },
{
    match head {
        Ok(Some(first)) => str_eq(first.as_str(), wrapper),
        _ => false,
    }
}

/// Whether the type of the field is in the container `wrapper`.
pub fn is_wrapped_in(field: &Field, wrapper: &Ident) -> (r: bool)
    ensures
        r == wrapped_in(field@.ty, wrapper@),
{
    let head = parse_type(&field.ty.0);
    head_matches(&head, wrapper.name.as_str())
}

/// The tokens of a type in the container `wrapper`: the name of the
/// container and the type in angle brackets.
pub open spec fn wrap(wrapper: Seq<char>, ty: Seq<Token>) -> Seq<Token> {
    seq![Token::Ident(wrapper), Token::Punct('<', false)] + ty + seq![Token::Punct('>', false)]
}

/// The type `ty` in the container `wrapper`.
pub fn wrap_type(wrapper: &Ident, ty: &Tokens) -> (r: Tokens)
    requires
        wrapper.wf(),
    ensures
        r@ == wrap(wrapper@, ty@),
{
    let mut wrapped = wrapper.tokens.duplicate();
    wrapped.push_punct('<');
    wrapped.push_all(ty);
    wrapped.push_punct('>');
    assert(wrapped@ =~= wrap(wrapper@, ty@));
    wrapped
}

/// Whether a field with this type is taken over as it is: it is in the
/// container already, and the configuration does not ask to wrap again.
pub open spec fn passes_through(ty: Seq<Token>, args: ArgsView) -> bool {
    wrapped_in(ty, Args::wrapper_name(args)) && !args.rewrap
}

/// How a field comes into the derived record.
#[derive(Clone, Copy, Debug, PartialEq, Eq, Structural)]
pub enum Mode {
    /// Its type is put in the container.
    Wrapped,
    /// It is taken over as it is.
    Through,
}

/// How a field with this type comes into the derived record.
pub open spec fn mode_of(ty: Seq<Token>, args: ArgsView) -> Mode {
    if passes_through(ty, args) {
        Mode::Through
    } else {
        Mode::Wrapped
    }
}

/// The type of the derived field.
pub open spec fn derived_type(ty: Seq<Token>, args: ArgsView) -> Seq<Token> {
    if passes_through(ty, args) {
        ty
    } else {
        wrap(Args::wrapper_name(args), ty)
    }
}

/// The parser's complaint about the type of the derived field, if it has one.
pub open spec fn type_fault(ty: Seq<Token>, args: ArgsView) -> Option<Seq<char>> {
    if passes_through(ty, args) {
        None
    } else {
        match type_parse(wrap(Args::wrapper_name(args), ty)) {
            Err(fault) => Some(fault),
            Ok(_) => None,
        }
    }
}

/// What is being made when the fields of the record `name` are.
pub open spec fn fields_action(name: Seq<char>) -> Seq<char> {
    "generating "@ + name + " fields"@
}

/// Why the field cannot be derived, if it cannot: its overrides are
/// faulty, or its type, once wrapped, is no type.
pub open spec fn field_fault(record: Seq<char>, field: FieldView, args: ArgsView) -> Option<
    FieldFault,
> {
    match overrides_of(field.attrs) {
        Err(fault) => Some(fault),
        Ok(_) => match type_fault(field.ty, args) {
            Some(fault) => Some(FieldFault::Unexpected(unexpected_text(fields_action(record), fault))),
            None => None,
        },
    }
}

/// Whether `made` is the field derived from `field`: name and visibility
/// are kept, the attributes are those that the strategy of the field asks
/// for, and the type is wrapped as the configuration says.
pub open spec fn field_made(field: FieldView, args: ArgsView, made: FieldView) -> bool {
    &&& overrides_of(field.attrs) is Ok
    &&& generated(field_strategy(field, args, overrides_of(field.attrs)->Ok_0), made.attrs)
    &&& made.vis == field.vis
    &&& made.name == field.name
    &&& made.ty == derived_type(field.ty, args)
}

/// Derives one field of the record `item_name`.
pub fn generate_field(item_name: &Ident, field: &Field, args: &Args, wrapper: &Ident) -> (r: Result<
    Field,
    FieldError,
>)
    requires
        wrapper.wf(),
        wrapper@ == Args::wrapper_name(args@),
        field.wf(),
    ensures
        match r {
            Ok(made) => field_fault(item_name@, field@, args@) is None && field_made(
                field@,
                args@,
                made@,
            ) && made.wf(),
            Err(fault) => field_fault(item_name@, field@, args@) == Some(fault@),
        },
{
    let attrs = match attrs::generate(field, args) {
        Ok(attrs) => attrs,
        Err(fault) => {
            return Err(fault);
        },
    };
    let ty = if is_wrapped_in(field, wrapper) && !args.rewrap {
        field.ty.duplicate()
    } else {
        let wrapped = wrap_type(wrapper, &field.ty);
        match parse_type(&wrapped.0) {
            Err(fault) => {
                let action = String::from_str("generating ").concat(item_name.name.as_str()).concat(
                    " fields",
                );
                return Err(FieldError::Unexpected(unexpected(action, fault)));
            },
            Ok(_) => wrapped,
        }
    };
    let name = match &field.name {
        Some(name) => Some(name.duplicate()),
        None => None,
    };
    Ok(Field { attrs, vis: field.vis.duplicate(), name, ty })
}

/// The first field that cannot be derived, and why it cannot.
pub open spec fn first_fault(record: Seq<char>, fields: Seq<FieldView>, args: ArgsView) -> Option<
    GenFault,
>
    decreases fields.len(),
{
    if fields.len() == 0 {
        None
    } else {
        match first_fault(record, fields.drop_last(), args) {
            Some(fault) => Some(fault),
            None => match field_fault(record, fields.last(), args) {
                Some(fault) => Some(GenFault { field: fields.len() - 1, fault }),
                None => None,
            },
        }
    }
}

/// Whether `made` are the fields derived from `fields`, one for one.
pub open spec fn fields_made(fields: Seq<FieldView>, args: ArgsView, made: Seq<FieldView>) -> bool {
    &&& made.len() == fields.len()
    &&& forall|i: int| 0 <= i < fields.len() ==> field_made(fields[i], args, #[trigger] made[i])
}

/// Wraps item fields in the container of the configuration, `Option` if it
/// names none. Fails at the first field that cannot be derived.
pub fn generate(item: &RecordSchema, args: &Args) -> (r: Result<Fields, GenError>)
    requires
        item.wf(),
        args.wf(),
    ensures
        match r {
            Ok(made) => first_fault(item@.name, item@.fields, args@) is None && fields_made(
                item@.fields,
                args@,
                field_views(made.list@),
            ) && made.style == item@.style && forall|i: int|
                0 <= i < made.list@.len() ==> (#[trigger] made.list@[i]).wf(),
            Err(fault) => first_fault(item@.name, item@.fields, args@) == Some(fault@),
        },
{
    let wrapper = args.final_wrapper();
    let mut made: Vec<Field> = Vec::new();
    let mut i: usize = 0;
    assert(item@.fields.take(0) =~= Seq::empty());
    while i < item.fields.list.len()
        invariant
            i <= item.fields.list@.len(),
            item.wf(),
            wrapper.wf(),
            wrapper@ == Args::wrapper_name(args@),
            first_fault(item@.name, item@.fields.take(i as int), args@) is None,
            fields_made(item@.fields.take(i as int), args@, field_views(made@)),
            forall|k: int| 0 <= k < made@.len() ==> (#[trigger] made@[k]).wf(),
        decreases item.fields.list@.len() - i,
    {
        let ghost before = item@.fields.take(i as int);
        let ghost now = item@.fields.take(i + 1);
        proof {
            assert(now.drop_last() =~= before);
            assert(now.last() == item.fields.list@[i as int]@);
        }
        match generate_field(&item.name, &item.fields.list[i], args, &wrapper) {
            Ok(field) => {
                proof {
                    assert(field_views(made@.push(field)) =~= field_views(made@).push(field@));
                }
                made.push(field);
            },
            Err(fault) => {
                proof {
                    lemma_first_fault_prefix(item@.name, item@.fields, args@, i + 1);
                }
                return Err(GenError { field: i, fault });
            },
        }
        i += 1;
    }
    assert(item@.fields.take(i as int) =~= item@.fields);
    Ok(Fields { style: item.fields.style, list: made })
}

/// A fault among the first `n` fields is the first fault among all of them.
pub proof fn lemma_first_fault_prefix(record: Seq<char>, fields: Seq<FieldView>, args: ArgsView, n: int)
    requires
        0 <= n <= fields.len(),
        first_fault(record, fields.take(n), args) is Some,
    ensures
        first_fault(record, fields, args) == first_fault(record, fields.take(n), args),
    decreases fields.len() - n,
{
    if n < fields.len() {
        assert(fields.take(n + 1).drop_last() =~= fields.take(n));
        lemma_first_fault_prefix(record, fields, args, n + 1);
    } else {
        assert(fields.take(n) =~= fields);
    }
}

} // verus!
