//! The structural form of a record declaration, as delivered by the host.
use vstd::prelude::*;

verus! {

/// A declared type. `text` is its source rendering; `form` is its structure.
pub struct TypeExpr {
    pub text: String,
    pub form: TypeForm,
}

/// The structure of a declared type, as far as classification reads it.
pub enum TypeForm {
    /// A path such as `a::b::C<T, U>`.
    Path { segments: Vec<PathSegment> },
    /// Any other type: references, tuples, arrays, qualified paths, ...
    Other,
}

/// One segment of a path type.
pub struct PathSegment {
    pub ident: String,
    pub arguments: PathArguments,
}

/// What follows a path segment's identifier.
pub enum PathArguments {
    Bare,
    /// `<A, B, ...>`
    AngleBracketed { args: Vec<GenericArgument> },
    /// `(A, B) -> C`
    Parenthesized,
}

/// One argument between angle brackets.
pub enum GenericArgument {
    Type(TypeExpr),
    /// A lifetime, a constant, an associated type binding or constraint.
    Other,
}

/// The identifier of the designated one-argument optional wrapper type.
pub open spec fn wrapper_ident() -> Seq<char> {
    seq!['O', 'p', 't', 'i', 'o', 'n']
}

/// The type wrapped by `ty`, when `ty` is the optional wrapper applied to
/// exactly one type argument: a path whose leading segment is named like the
/// wrapper and carries exactly one angle-bracketed argument, which is a type.
pub open spec fn inner_type_of(ty: TypeExpr) -> Option<TypeExpr> {
    match ty.form {
        TypeForm::Path { segments } => {
            if segments@.len() > 0 && segments@[0].ident@ == wrapper_ident() {
                match segments@[0].arguments {
                    PathArguments::AngleBracketed { args } => {
                        if args@.len() == 1 {
                            match args@[0] {
                                GenericArgument::Type(t) => Some(t),
                                GenericArgument::Other => None,
                            }
                        } else {
                            None
                        }
                    },
                    _ => None,
                }
            } else {
                None
            }
        },
        TypeForm::Other => None,
    }
}

/// Whether `s` names the optional wrapper type.
pub fn is_wrapper_ident(s: &String) -> (r: bool)
    ensures
        r == (s@ == wrapper_ident()),
{
    let w: &str = "Option";
    proof {
        reveal_strlit("Option");
    }
    let n = s.as_str().unicode_len();
    if n != 6 {
        return false;
    }
    let mut i: usize = 0;
    while i < 6
        invariant
            0 <= i <= 6,
            s@.len() == 6,
            w@ == wrapper_ident(),
            forall|j: int| 0 <= j < i ==> s@[j] == wrapper_ident()[j],
        decreases 6 - i,
    {
        if s.as_str().get_char(i) != w.get_char(i) {
            return false;
        }
        i = i + 1;
    }
    assert(s@ =~= wrapper_ident());
    true
}

/// If `ty` is `Option<T>`, return `T`; otherwise nothing.
pub fn find_inner_type(ty: &TypeExpr) -> (r: Option<&TypeExpr>)
    ensures
        match r {
            Some(t) => inner_type_of(*ty) == Some(*t),
            None => inner_type_of(*ty).is_none(),
        },
{
    let segments = match &ty.form {
        TypeForm::Path { segments } => segments,
        TypeForm::Other => return None,
    };
    if segments.len() == 0 {
        return None;
    }
    let first = &segments[0];
    if !is_wrapper_ident(&first.ident) {
        return None;
    }
    let args = match &first.arguments {
        PathArguments::AngleBracketed { args } => args,
        _ => return None,
    };
    if args.len() != 1 {
        return None;
    }
    match &args[0] {
        GenericArgument::Type(t) => Some(t),
        GenericArgument::Other => None,
    }
}

impl TypeExpr {
    /// A path type of one segment without arguments, such as `String`.
    pub fn named(name: &str) -> (r: TypeExpr)
        ensures
            r.text@ == name@,
            r.form matches TypeForm::Path { segments }
                && segments@.len() == 1
                && segments@[0].ident@ == name@
                && segments@[0].arguments is Bare,
    {
        let seg = PathSegment { ident: String::from_str(name), arguments: PathArguments::Bare };
        TypeExpr { text: String::from_str(name), form: TypeForm::Path { segments: vec![seg] } }
    }

    /// A path type of one segment applied to one type argument, such as `Vec<u8>`.
    pub fn generic(name: &str, arg: TypeExpr) -> (r: TypeExpr)
        ensures
            r.text@ == name@ + seq!['<'] + arg.text@ + seq!['>'],
            inner_type_of(r) == (if name@ == wrapper_ident() {
                Some(arg)
            } else {
                None::<TypeExpr>
            }),
    {
        proof {
            reveal_strlit("<");
            reveal_strlit(">");
        }
        let text = String::from_str(name).concat("<").concat(arg.text.as_str()).concat(">");
        let seg = PathSegment {
            ident: String::from_str(name),
            arguments: PathArguments::AngleBracketed { args: vec![GenericArgument::Type(arg)] },
        };
        let r = TypeExpr { text, form: TypeForm::Path { segments: vec![seg] } };
        assert(r.form->segments@[0].arguments->args@[0] == GenericArgument::Type(arg));
        r
    }

    /// A type whose structure classification does not read, given by its text.
    pub fn other(text: &str) -> (r: TypeExpr)
        ensures
            r.text@ == text@,
            r.form is Other,
    {
        TypeExpr { text: String::from_str(text), form: TypeForm::Other }
    }
}

/// A field as declared: its name and its declared type.
pub struct RawField {
    pub name: String,
    pub ty: TypeExpr,
}

/// The fields of a struct declaration.
pub enum FieldsShape {
    Named(Vec<RawField>),
    Unnamed,
    Unit,
}

/// The body of a type declaration.
pub enum DeclBody {
    Struct(FieldsShape),
    Enum,
    Union,
}

/// A type declaration as the host hands it over.
pub struct Declaration {
    pub name: String,
    pub body: DeclBody,
}

/// A record type: a name and an ordered sequence of named fields.
pub struct RecordTypeDescriptor {
    pub name: String,
    pub fields: Vec<RawField>,
}

/// Why a declaration has no builder.
#[derive(PartialEq, Eq, Structural, Clone, Copy, Debug)]
pub enum ShapeError {
    /// The declaration is an enum or a union.
    NotARecord,
    /// The declaration is a struct whose fields have no names (tuple or unit).
    UnnamedFields,
}

/// The outcome of extracting the record from a declaration.
pub open spec fn extract_spec(d: Declaration) -> Result<RecordTypeDescriptor, ShapeError> {
    match d.body {
        DeclBody::Struct(FieldsShape::Named(fields)) => Ok(RecordTypeDescriptor { name: d.name, fields }),
        DeclBody::Struct(_) => Err(ShapeError::UnnamedFields),
        _ => Err(ShapeError::NotARecord),
    }
}

/// Takes the record out of a declaration, refusing any shape but a struct with
/// named fields.
pub fn extract(d: Declaration) -> (r: Result<RecordTypeDescriptor, ShapeError>)
    ensures
        r == extract_spec(d),
{
    match d.body {
        DeclBody::Struct(FieldsShape::Named(fields)) => Ok(RecordTypeDescriptor { name: d.name, fields }),
        DeclBody::Struct(_) => Err(ShapeError::UnnamedFields),
        _ => Err(ShapeError::NotARecord),
    }
}

} // verus!
