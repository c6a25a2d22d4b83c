//! The resolved IDL model that the code generators read.
//!
//! Names are held as the IDL resolver produced them: each identifier already
//! comes in the spellings the generators print (snake case, upper camel case).
use vstd::prelude::*;

verus! {

/// The kind of an IDL type.
pub enum TyKind {
    String,
    Void,
    U8,
    Bool,
    Bytes,
    I8,
    I16,
    I32,
    I64,
    F64,
    Vec(Box<Ty>),
    SetOf(Box<Ty>),
    MapOf(Box<Ty>, Box<Ty>),
    Path(PathTy),
    UInt32,
    UInt64,
    F32,
    Arc(Box<Ty>),
}

/// How an IDL number type holds its values.
pub enum NumClass {
    Signed,
    Unsigned,
    Float,
}

/// What an IDL number type is: its class and its width in bits (`int8` to
/// `int64` signed, `uint8`, `uint32` and `uint64` unsigned, `float` and
/// `double` floating point of 32 and 64 bits); none for another type.
pub open spec fn number_type(k: TyKind) -> Option<(NumClass, nat)> {
    match k {
        TyKind::U8 => Some((NumClass::Unsigned, 8)),
        TyKind::I8 => Some((NumClass::Signed, 8)),
        TyKind::I16 => Some((NumClass::Signed, 16)),
        TyKind::I32 => Some((NumClass::Signed, 32)),
        TyKind::I64 => Some((NumClass::Signed, 64)),
        TyKind::UInt32 => Some((NumClass::Unsigned, 32)),
        TyKind::UInt64 => Some((NumClass::Unsigned, 64)),
        TyKind::F32 => Some((NumClass::Float, 32)),
        TyKind::F64 => Some((NumClass::Float, 64)),
        _ => None,
    }
}

/// A reference to a named IDL item (a message or an enum).
pub struct PathTy {
    /// The Rust name of the item.
    pub rust_name: String,
    /// The struct identifier of the item, as printed in Go code.
    pub struct_ident: String,
    /// Whether the item is a message that has no field.
    pub empty_message: bool,
}

/// An IDL type.
pub struct Ty {
    pub kind: TyKind,
}

/// An argument of a service method.
pub struct Arg {
    /// The argument's name as written in the IDL.
    pub name: String,
    /// The argument's name in snake case.
    pub snake_ident: String,
    pub ty: Ty,
}

/// A method of a service.
pub struct Method {
    /// The method's name as written in the IDL.
    pub name: String,
    /// The method's function identifier (snake case).
    pub fn_ident: String,
    /// The method's name in upper camel case.
    pub upper_camel_ident: String,
    pub args: Vec<Arg>,
    pub ret: Ty,
}

/// A service: `RustFFI` (Go calls Rust) or `GoFFI` (Rust calls Go).
pub struct Service {
    /// The Rust name of the service.
    pub rust_name: String,
    pub methods: Vec<Method>,
}

/// A field of a message.
pub struct Field {
    /// The field's name in upper camel case.
    pub upper_camel_ident: String,
    /// The field's name in snake case.
    pub snake_ident: String,
    pub ty: Ty,
}

/// A message.
pub struct Message {
    /// The struct identifier of the message.
    pub struct_ident: String,
    pub fields: Vec<Field>,
}

/// Whether a value of this kind is passed by value across the FFI boundary.
pub open spec fn spec_is_scalar(kind: TyKind) -> bool {
    match kind {
        TyKind::U8 | TyKind::Bool | TyKind::I8 | TyKind::I16 | TyKind::I32 | TyKind::I64
        | TyKind::F64 | TyKind::UInt32 | TyKind::UInt64 | TyKind::F32 => true,
        _ => false,
    }
}

impl Ty {
    /// Whether a value of this type is passed by value across the FFI boundary.
    pub fn is_scalar(&self) -> (r: bool)
        ensures
            r == spec_is_scalar(self.kind),
    {
        match &self.kind {
            TyKind::U8 | TyKind::Bool | TyKind::I8 | TyKind::I16 | TyKind::I32 | TyKind::I64
            | TyKind::F64 | TyKind::UInt32 | TyKind::UInt64 | TyKind::F32 => true,
            _ => false,
        }
    }
}

/// A copy of a path reference.
pub fn copy_path(p: &PathTy) -> (r: PathTy)
    ensures
        r == *p,
{
    PathTy {
        rust_name: p.rust_name.clone(),
        struct_ident: p.struct_ident.clone(),
        empty_message: p.empty_message,
    }
}

/// A copy of a type.
pub fn copy_ty(t: &Ty) -> (r: Ty)
    ensures
        r == *t,
    decreases t,
{
    let kind = match &t.kind {
        TyKind::String => TyKind::String,
        TyKind::Void => TyKind::Void,
        TyKind::U8 => TyKind::U8,
        TyKind::Bool => TyKind::Bool,
        TyKind::Bytes => TyKind::Bytes,
        TyKind::I8 => TyKind::I8,
        TyKind::I16 => TyKind::I16,
        TyKind::I32 => TyKind::I32,
        TyKind::I64 => TyKind::I64,
        TyKind::F64 => TyKind::F64,
        TyKind::Vec(e) => TyKind::Vec(Box::new(copy_ty(e))),
        TyKind::SetOf(e) => TyKind::SetOf(Box::new(copy_ty(e))),
        TyKind::MapOf(k, v) => TyKind::MapOf(Box::new(copy_ty(k)), Box::new(copy_ty(v))),
        TyKind::Path(p) => TyKind::Path(copy_path(p)),
        TyKind::UInt32 => TyKind::UInt32,
        TyKind::UInt64 => TyKind::UInt64,
        TyKind::F32 => TyKind::F32,
        TyKind::Arc(e) => TyKind::Arc(Box::new(copy_ty(e))),
    };
    Ty { kind }
}

/// A copy of an argument.
pub fn copy_arg(a: &Arg) -> (r: Arg)
    ensures
        r == *a,
{
    Arg { name: a.name.clone(), snake_ident: a.snake_ident.clone(), ty: copy_ty(&a.ty) }
}

/// The value of a method that the generators read.
pub struct MethodView {
    pub name: Seq<char>,
    pub fn_ident: Seq<char>,
    pub upper_camel_ident: Seq<char>,
    pub args: Seq<Arg>,
    pub ret: TyKind,
}

impl View for Method {
    type V = MethodView;

    open spec fn view(&self) -> MethodView {
        MethodView {
            name: self.name@,
            fn_ident: self.fn_ident@,
            upper_camel_ident: self.upper_camel_ident@,
            args: self.args@,
            ret: self.ret.kind,
        }
    }
}

/// The value of a service that the generators read.
pub struct ServiceView {
    pub rust_name: Seq<char>,
    pub methods: Seq<MethodView>,
}

impl View for Service {
    type V = ServiceView;

    open spec fn view(&self) -> ServiceView {
        ServiceView {
            rust_name: self.rust_name@,
            methods: self.methods@.map_values(|m: Method| m@),
        }
    }
}

} // verus!
