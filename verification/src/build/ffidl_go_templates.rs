//! The Go text templates of the IDL-driven generator.
use vstd::prelude::*;

verus! {

/// The Go runtime support of a `RustFfi` service.
pub open spec fn spec_ffidl_go_runtime() -> Seq<char> {
    "\ntype ResultCode = int8\n\nconst (\n\tRcNoError ResultCode = 0\n\tRcDecode  ResultCode = -1\n\tRcEncode  ResultCode = -2\n\tRcUnknown ResultCode = -128\n)\n\n// TBytes bytes with type marker\ntype TBytes[T any] struct {\n\tbytes []byte\n\t_nil  *T\n}\n\n// TBytesFromBytes new TBytes from bytes\n//go:inline\nfunc TBytesFromBytes[T any](bytes []byte) TBytes[T] {\n\treturn TBytes[T]{bytes: bytes}\n}\n\n// TBytesFromString new TBytes from string\n//go:inline\nfunc TBytesFromString[T any](s string) TBytes[T] {\n\treturn TBytes[T]{bytes: valconv.StringToReadonlyBytes[string](s)}\n}\n\n//go:inline\nfunc TBytesFromPbUnchecked[T proto.Message](obj T) TBytes[T] {\n\ttb, _ := TBytesFromPb[T](obj)\n\treturn tb\n}\n\n//go:inline\nfunc TBytesFromPb[T proto.Message](obj T) (TBytes[T], error) {\n\tvar tb TBytes[T]\n\tvar err error\n\ttb.bytes, err = proto.Marshal(obj)\n\tif err != nil {\n\t\treturn TBytes[T]{}, err\n\t}\n\treturn tb, nil\n}\n\n//go:inline\nfunc TBytesFromJsonUnchecked[T proto.Message](obj T) TBytes[T] {\n\ttb, _ := TBytesFromJson[T](obj)\n\treturn tb\n}\n\n//go:inline\nfunc TBytesFromJson[T any](obj T) (TBytes[T], error) {\n\tvar tb TBytes[T]\n\tvar err error\n\ttb.bytes, err = sonic.Marshal(obj)\n\tif err != nil {\n\t\treturn TBytes[T]{}, err\n\t}\n\treturn tb, nil\n}\n\n//go:inline\nfunc (b TBytes[T]) Len() int {\n\treturn len(b.bytes)\n}\n\n// PbUnmarshal as protobuf to unmarshal\n// NOTE: maybe reference Rust memory buffer\n//\n//go:inline\nfunc (b TBytes[T]) PbUnmarshal() (*T, error) {\n\tvar t T\n\tif b.Len() > 0 {\n\t\terr := proto.Unmarshal(b.bytes, any(&t).(proto.Message))\n\t\tif err != nil {\n\t\t\treturn nil, err\n\t\t}\n\t}\n\treturn &t, nil\n}\n\n// JsonUnmarshal as json to unmarshal\n// NOTE: maybe reference Rust memory buffer\n//\n//go:inline\nfunc (b TBytes[T]) JsonUnmarshal() (*T, error) {\n\tvar t T\n\tif b.Len() > 0 {\n\t\terr := sonic.Unmarshal(b.bytes, &t)\n\t\tif err != nil {\n\t\t\treturn nil, err\n\t\t}\n\t}\n\treturn &t, nil\n}\n\n// Unmarshal unmarshal to object\n// NOTE: maybe reference Rust memory buffer\n//\n//go:inline\nfunc (b TBytes[T]) Unmarshal(unmarshal func([]byte, any) error) (*T, error) {\n\tvar t T\n\tif b.Len() > 0 {\n\t\terr := unmarshal(b.bytes, &t)\n\t\tif err != nil {\n\t\t\treturn nil, err\n\t\t}\n\t}\n\treturn &t, nil\n}\n\n//go:inline\nfunc (b TBytes[T]) ForCBuffer() (unsafe.Pointer, int) {\n\tsize := len(b.bytes)\n\tif size == 0 {\n\t\treturn nil, 0\n\t}\n\tif cap(b.bytes) > size {\n\t\tb.bytes = b.bytes[0:size:size]\n\t}\n\treturn unsafe.Pointer(&b.bytes[0]), size\n}\n\n//go:inline\nfunc (b TBytes[T]) asBuffer() C.struct_Buffer {\n\tp, size := b.ForCBuffer()\n\tif size == 0 {\n\t\treturn C.struct_Buffer{}\n\t}\n\treturn C.struct_Buffer{\n\t\tptr: (*C.uint8_t)(p),\n\t\tlen: C.uintptr_t(size),\n\t\tcap: C.uintptr_t(size),\n\t}\n}\n\n// CBuffer Rust buffer for Go\ntype CBuffer struct {\n\tbuf C.struct_Buffer\n}\n\n// Free free rust memory buffer, must be called!\n//\n//go:inline\nfunc (b CBuffer) Free() {\n\tif b.buf.len > 0 {\n\t\tC.free_buffer(b.buf)\n\t}\n}\n\n//go:inline\nfunc (b CBuffer) Len() int {\n\treturn int(b.buf.len)\n}\n\n//go:inline\nfunc (b CBuffer) AsBytes() []byte {\n\tif b.buf.len == 0 {\n\t\treturn nil\n\t}\n\treturn *(*[]byte)(unsafe.Pointer(&reflect.SliceHeader{\n\t\tData: uintptr(unsafe.Pointer(b.buf.ptr)),\n\t\tLen:  int(b.buf.len),\n\t\tCap:  int(b.buf.cap),\n\t}))\n}\n\n//go:inline\nfunc (b CBuffer) AsString() string {\n    if b.buf.len == 0 {\n\t\treturn \"\"\n\t}\n\treturn valconv.BytesToString[string](b.AsBytes())\n}\n\n// RustFfiResult Rust FFI Result for Go\n// NOTE: must call Free method to free rust memory buffer!\ntype RustFfiResult[T any] struct {\n\tCBuffer\n\tCode ResultCode\n\t_nil *T\n}\n\n//go:inline\nfunc newRustFfiResult[T any](ret C.struct_RustFfiResult) RustFfiResult[T] {\n\treturn RustFfiResult[T]{\n\t\tCBuffer: CBuffer{buf: ret.data},\n\t\tCode:    ResultCode(ret.code),\n\t\t_nil:    nil,\n\t}\n}\n\n//go:inline\nfunc (r RustFfiResult[T]) String() string {\n\treturn fmt.Sprintf(\"Code: %d, CBuffer: %s\", r.Code, r.CBuffer.AsString())\n}\n\n//go:inline\nfunc (r RustFfiResult[T]) IsOk() bool {\n\treturn r.Code == RcNoError\n}\n\n// AsError as an error\n// NOTE: reference Rust memory buffer\n//\n//go:inline\nfunc (r RustFfiResult[T]) AsError() error {\n\tif r.Code != RcNoError {\n\t\treturn errors.New(r.AsString())\n\t}\n\treturn nil\n}\n\n// PbUnmarshal as protobuf to unmarshal\n// NOTE: maybe reference Rust memory buffer\n//\n//go:inline\nfunc (r RustFfiResult[T]) PbUnmarshal() (*T, error) {\n\tif err := r.AsError(); err != nil {\n\t\treturn nil, err\n\t}\n\tvar t T\n\tif r.Len() > 0 {\n\t\terr := proto.Unmarshal(r.AsBytes(), any(&t).(proto.Message))\n\t\tif err != nil {\n\t\t\treturn nil, err\n\t\t}\n\t}\n\treturn &t, nil\n}\n\n// JsonUnmarshal as json to unmarshal\n// NOTE: maybe reference Rust memory buffer\n//\n//go:inline\nfunc (r RustFfiResult[T]) JsonUnmarshal() (*T, error) {\n\tif err := r.AsError(); err != nil {\n\t\treturn nil, err\n\t}\n\tvar t T\n\tif r.Len() > 0 {\n\t\terr := sonic.Unmarshal(r.AsBytes(), &t)\n\t\tif err != nil {\n\t\t\treturn nil, err\n\t\t}\n\t}\n\treturn &t, nil\n}\n\n// Unmarshal unmarshal to object\n// NOTE: maybe reference Rust memory buffer\n//\n//go:inline\nfunc (r RustFfiResult[T]) Unmarshal(unmarshal func([]byte, any) error) (*T, error) {\n\tif err := r.AsError(); err != nil {\n\t\treturn nil, err\n\t}\n\tvar t T\n\tif r.Len() > 0 {\n\t\terr := unmarshal(r.AsBytes(), &t)\n\t\tif err != nil {\n\t\t\treturn nil, err\n\t\t}\n\t}\n\treturn &t, nil\n}\n\n"@
}

/// The Go runtime support of a `RustFfi` service.
pub fn ffidl_go_runtime() -> (r: String)
    ensures
        r@ == spec_ffidl_go_runtime(),
{
    let r = String::from_str("\ntype ResultCode = int8\n\nconst (\n\tRcNoError ResultCode = 0\n\tRcDecode  ResultCode = -1\n\tRcEncode  ResultCode = -2\n\tRcUnknown ResultCode = -128\n)\n\n// TBytes bytes with type marker\ntype TBytes[T any] struct {\n\tbytes []byte\n\t_nil  *T\n}\n\n// TBytesFromBytes new TBytes from bytes\n//go:inline\nfunc TBytesFromBytes[T any](bytes []byte) TBytes[T] {\n\treturn TBytes[T]{bytes: bytes}\n}\n\n// TBytesFromString new TBytes from string\n//go:inline\nfunc TBytesFromString[T any](s string) TBytes[T] {\n\treturn TBytes[T]{bytes: valconv.StringToReadonlyBytes[string](s)}\n}\n\n//go:inline\nfunc TBytesFromPbUnchecked[T proto.Message](obj T) TBytes[T] {\n\ttb, _ := TBytesFromPb[T](obj)\n\treturn tb\n}\n\n//go:inline\nfunc TBytesFromPb[T proto.Message](obj T) (TBytes[T], error) {\n\tvar tb TBytes[T]\n\tvar err error\n\ttb.bytes, err = proto.Marshal(obj)\n\tif err != nil {\n\t\treturn TBytes[T]{}, err\n\t}\n\treturn tb, nil\n}\n\n//go:inline\nfunc TBytesFromJsonUnchecked[T proto.Message](obj T) TBytes[T] {\n\ttb, _ := TBytesFromJson[T](obj)\n\treturn tb\n}\n\n//go:inline\nfunc TBytesFromJson[T any](obj T) (TBytes[T], error) {\n\tvar tb TBytes[T]\n\tvar err error\n\ttb.bytes, err = sonic.Marshal(obj)\n\tif err != nil {\n\t\treturn TBytes[T]{}, err\n\t}\n\treturn tb, nil\n}\n\n//go:inline\nfunc (b TBytes[T]) Len() int {\n\treturn len(b.bytes)\n}\n\n// PbUnmarshal as protobuf to unmarshal\n// NOTE: maybe reference Rust memory buffer\n//\n//go:inline\nfunc (b TBytes[T]) PbUnmarshal() (*T, error) {\n\tvar t T\n\tif b.Len() > 0 {\n\t\terr := proto.Unmarshal(b.bytes, any(&t).(proto.Message))\n\t\tif err != nil {\n\t\t\treturn nil, err\n\t\t}\n\t}\n\treturn &t, nil\n}\n\n// JsonUnmarshal as json to unmarshal\n// NOTE: maybe reference Rust memory buffer\n//\n//go:inline\nfunc (b TBytes[T]) JsonUnmarshal() (*T, error) {\n\tvar t T\n\tif b.Len() > 0 {\n\t\terr := sonic.Unmarshal(b.bytes, &t)\n\t\tif err != nil {\n\t\t\treturn nil, err\n\t\t}\n\t}\n\treturn &t, nil\n}\n\n// Unmarshal unmarshal to object\n// NOTE: maybe reference Rust memory buffer\n//\n//go:inline\nfunc (b TBytes[T]) Unmarshal(unmarshal func([]byte, any) error) (*T, error) {\n\tvar t T\n\tif b.Len() > 0 {\n\t\terr := unmarshal(b.bytes, &t)\n\t\tif err != nil {\n\t\t\treturn nil, err\n\t\t}\n\t}\n\treturn &t, nil\n}\n\n//go:inline\nfunc (b TBytes[T]) ForCBuffer() (unsafe.Pointer, int) {\n\tsize := len(b.bytes)\n\tif size == 0 {\n\t\treturn nil, 0\n\t}\n\tif cap(b.bytes) > size {\n\t\tb.bytes = b.bytes[0:size:size]\n\t}\n\treturn unsafe.Pointer(&b.bytes[0]), size\n}\n\n//go:inline\nfunc (b TBytes[T]) asBuffer() C.struct_Buffer {\n\tp, size := b.ForCBuffer()\n\tif size == 0 {\n\t\treturn C.struct_Buffer{}\n\t}\n\treturn C.struct_Buffer{\n\t\tptr: (*C.uint8_t)(p),\n\t\tlen: C.uintptr_t(size),\n\t\tcap: C.uintptr_t(size),\n\t}\n}\n\n// CBuffer Rust buffer for Go\ntype CBuffer struct {\n\tbuf C.struct_Buffer\n}\n\n// Free free rust memory buffer, must be called!\n//\n//go:inline\nfunc (b CBuffer) Free() {\n\tif b.buf.len > 0 {\n\t\tC.free_buffer(b.buf)\n\t}\n}\n\n//go:inline\nfunc (b CBuffer) Len() int {\n\treturn int(b.buf.len)\n}\n\n//go:inline\nfunc (b CBuffer) AsBytes() []byte {\n\tif b.buf.len == 0 {\n\t\treturn nil\n\t}\n\treturn *(*[]byte)(unsafe.Pointer(&reflect.SliceHeader{\n\t\tData: uintptr(unsafe.Pointer(b.buf.ptr)),\n\t\tLen:  int(b.buf.len),\n\t\tCap:  int(b.buf.cap),\n\t}))\n}\n\n//go:inline\nfunc (b CBuffer) AsString() string {\n    if b.buf.len == 0 {\n\t\treturn \"\"\n\t}\n\treturn valconv.BytesToString[string](b.AsBytes())\n}\n\n// RustFfiResult Rust FFI Result for Go\n// NOTE: must call Free method to free rust memory buffer!\ntype RustFfiResult[T any] struct {\n\tCBuffer\n\tCode ResultCode\n\t_nil *T\n}\n\n//go:inline\nfunc newRustFfiResult[T any](ret C.struct_RustFfiResult) RustFfiResult[T] {\n\treturn RustFfiResult[T]{\n\t\tCBuffer: CBuffer{buf: ret.data},\n\t\tCode:    ResultCode(ret.code),\n\t\t_nil:    nil,\n\t}\n}\n\n//go:inline\nfunc (r RustFfiResult[T]) String() string {\n\treturn fmt.Sprintf(\"Code: %d, CBuffer: %s\", r.Code, r.CBuffer.AsString())\n}\n\n//go:inline\nfunc (r RustFfiResult[T]) IsOk() bool {\n\treturn r.Code == RcNoError\n}\n\n// AsError as an error\n// NOTE: reference Rust memory buffer\n//\n//go:inline\nfunc (r RustFfiResult[T]) AsError() error {\n\tif r.Code != RcNoError {\n\t\treturn errors.New(r.AsString())\n\t}\n\treturn nil\n}\n\n// PbUnmarshal as protobuf to unmarshal\n// NOTE: maybe reference Rust memory buffer\n//\n//go:inline\nfunc (r RustFfiResult[T]) PbUnmarshal() (*T, error) {\n\tif err := r.AsError(); err != nil {\n\t\treturn nil, err\n\t}\n\tvar t T\n\tif r.Len() > 0 {\n\t\terr := proto.Unmarshal(r.AsBytes(), any(&t).(proto.Message))\n\t\tif err != nil {\n\t\t\treturn nil, err\n\t\t}\n\t}\n\treturn &t, nil\n}\n\n// JsonUnmarshal as json to unmarshal\n// NOTE: maybe reference Rust memory buffer\n//\n//go:inline\nfunc (r RustFfiResult[T]) JsonUnmarshal() (*T, error) {\n\tif err := r.AsError(); err != nil {\n\t\treturn nil, err\n\t}\n\tvar t T\n\tif r.Len() > 0 {\n\t\terr := sonic.Unmarshal(r.AsBytes(), &t)\n\t\tif err != nil {\n\t\t\treturn nil, err\n\t\t}\n\t}\n\treturn &t, nil\n}\n\n// Unmarshal unmarshal to object\n// NOTE: maybe reference Rust memory buffer\n//\n//go:inline\nfunc (r RustFfiResult[T]) Unmarshal(unmarshal func([]byte, any) error) (*T, error) {\n\tif err := r.AsError(); err != nil {\n\t\treturn nil, err\n\t}\n\tvar t T\n\tif r.Len() > 0 {\n\t\terr := unmarshal(r.AsBytes(), &t)\n\t\tif err != nil {\n\t\t\treturn nil, err\n\t\t}\n\t}\n\treturn &t, nil\n}\n\n");
    r
}

/// A method of the Go `RustFfiImpl` type.
pub open spec fn spec_ffidl_go_impl_method(iface_method_name: Seq<char>, args_sign: Seq<char>, ret_type: Seq<char>, ffi_func_name: Seq<char>, args_assign: Seq<char>) -> Seq<char> {
    "\n            //go:inline\n            func (RustFfiImpl) "@ + iface_method_name + "("@ + args_sign + ") RustFfiResult["@ + ret_type + "] {\n                return newRustFfiResult["@ + ret_type + "]("@ + ffi_func_name + "("@ + args_assign + "))\n            }\n            "@
}

/// A method of the Go `RustFfiImpl` type.
pub fn ffidl_go_impl_method(iface_method_name: &str, args_sign: &str, ret_type: &str, ffi_func_name: &str, args_assign: &str) -> (r: String)
    ensures
        r@ == spec_ffidl_go_impl_method(iface_method_name@, args_sign@, ret_type@, ffi_func_name@, args_assign@),
{
    let mut r = String::from_str("\n            //go:inline\n            func (RustFfiImpl) ");
    r.append(iface_method_name);
    r.append("(");
    r.append(args_sign);
    r.append(") RustFfiResult[");
    r.append(ret_type);
    r.append("] {\n                return newRustFfiResult[");
    r.append(ret_type);
    r.append("](");
    r.append(ffi_func_name);
    r.append("(");
    r.append(args_assign);
    r.append("))\n            }\n            ");
    r
}

/// The Go code of a `RustFfi` service.
pub open spec fn spec_ffidl_go_rustffi_block(fixed_code: Seq<char>, iface_methods: Seq<char>, impl_methods: Seq<char>) -> Seq<char> {
    "\n        var GlobalRustFfi RustFfi = RustFfiImpl{}\n\n        "@ + fixed_code + "\n\n        type RustFfi interface {\n\t        "@ + iface_methods + "\n        }\n        type RustFfiImpl struct{}\n        "@ + impl_methods + "\n        "@
}

/// The Go code of a `RustFfi` service.
pub fn ffidl_go_rustffi_block(fixed_code: &str, iface_methods: &str, impl_methods: &str) -> (r: String)
    ensures
        r@ == spec_ffidl_go_rustffi_block(fixed_code@, iface_methods@, impl_methods@),
{
    let mut r = String::from_str("\n        var GlobalRustFfi RustFfi = RustFfiImpl{}\n\n        ");
    r.append(fixed_code);
    r.append("\n\n        type RustFfi interface {\n\t        ");
    r.append(iface_methods);
    r.append("\n        }\n        type RustFfiImpl struct{}\n        ");
    r.append(impl_methods);
    r.append("\n        ");
    r
}

/// The Go support code of a `GoFfi` service.
pub open spec fn spec_ffidl_go_goffi_support(mod_name: Seq<char>) -> Seq<char> {
    "\n        type ResultMsg struct {\n\tCode "@ + mod_name + ".ResultCode\n\tMsg  string\n}\n\n//go:inline\nfunc asBuffer[T any](b "@ + mod_name + ".TBytes[T]) C.struct_Buffer {\n\tp, size := b.ForCBuffer()\n\tif size == 0 {\n\t\treturn C.struct_Buffer{}\n\t}\n\treturn C.struct_Buffer{\n\t\tptr: (*C.uint8_t)(p),\n\t\tlen: C.uintptr_t(size),\n\t\tcap: C.uintptr_t(size),\n\t}\n}\n\n//go:inline\nfunc asBytes[T any](buf C.struct_Buffer) "@ + mod_name + ".TBytes[T] {\n\tif buf.len == 0 {\n\t\treturn "@ + mod_name + ".TBytes[T]{}\n\t}\n\treturn "@ + mod_name + ".TBytesFromBytes[T](*(*[]byte)(unsafe.Pointer(&reflect.SliceHeader{\n\t\tData: uintptr(unsafe.Pointer(buf.ptr)),\n\t\tLen:  int(buf.len),\n\t\tCap:  int(buf.cap),\n\t})))\n}\n\n"@
}

/// The Go support code of a `GoFfi` service.
pub fn ffidl_go_goffi_support(mod_name: &str) -> (r: String)
    ensures
        r@ == spec_ffidl_go_goffi_support(mod_name@),
{
    let mut r = String::from_str("\n        type ResultMsg struct {\n\tCode ");
    r.append(mod_name);
    r.append(".ResultCode\n\tMsg  string\n}\n\n//go:inline\nfunc asBuffer[T any](b ");
    r.append(mod_name);
    r.append(".TBytes[T]) C.struct_Buffer {\n\tp, size := b.ForCBuffer()\n\tif size == 0 {\n\t\treturn C.struct_Buffer{}\n\t}\n\treturn C.struct_Buffer{\n\t\tptr: (*C.uint8_t)(p),\n\t\tlen: C.uintptr_t(size),\n\t\tcap: C.uintptr_t(size),\n\t}\n}\n\n//go:inline\nfunc asBytes[T any](buf C.struct_Buffer) ");
    r.append(mod_name);
    r.append(".TBytes[T] {\n\tif buf.len == 0 {\n\t\treturn ");
    r.append(mod_name);
    r.append(".TBytes[T]{}\n\t}\n\treturn ");
    r.append(mod_name);
    r.append(".TBytesFromBytes[T](*(*[]byte)(unsafe.Pointer(&reflect.SliceHeader{\n\t\tData: uintptr(unsafe.Pointer(buf.ptr)),\n\t\tLen:  int(buf.len),\n\t\tCap:  int(buf.cap),\n\t})))\n}\n\n");
    r
}

/// A method of the Go `GoFfi` interface that returns nothing.
pub open spec fn spec_ffidl_go_iface_empty(iface_method_name: Seq<char>, args_sign: Seq<char>) -> Seq<char> {
    "\n                "@ + iface_method_name + "("@ + args_sign + ") ResultMsg\n            "@
}

/// A method of the Go `GoFfi` interface that returns nothing.
pub fn ffidl_go_iface_empty(iface_method_name: &str, args_sign: &str) -> (r: String)
    ensures
        r@ == spec_ffidl_go_iface_empty(iface_method_name@, args_sign@),
{
    let mut r = String::from_str("\n                ");
    r.append(iface_method_name);
    r.append("(");
    r.append(args_sign);
    r.append(") ResultMsg\n            ");
    r
}

/// A method of `_UnimplementedGoFfi` that returns nothing.
pub open spec fn spec_ffidl_go_unimpl_empty(iface_method_name: Seq<char>, args_sign: Seq<char>) -> Seq<char> {
    "\n                func (_UnimplementedGoFfi) "@ + iface_method_name + "("@ + args_sign + ") ResultMsg {\n                    panic(\"unimplemented\")\n                }\n            "@
}

/// A method of `_UnimplementedGoFfi` that returns nothing.
pub fn ffidl_go_unimpl_empty(iface_method_name: &str, args_sign: &str) -> (r: String)
    ensures
        r@ == spec_ffidl_go_unimpl_empty(iface_method_name@, args_sign@),
{
    let mut r = String::from_str("\n                func (_UnimplementedGoFfi) ");
    r.append(iface_method_name);
    r.append("(");
    r.append(args_sign);
    r.append(") ResultMsg {\n                    panic(\"unimplemented\")\n                }\n            ");
    r
}

/// A method of the Go `GoFfi` interface that returns a message.
pub open spec fn spec_ffidl_go_iface(iface_method_name: Seq<char>, args_sign: Seq<char>, mod_name: Seq<char>, ret_type: Seq<char>) -> Seq<char> {
    "\n                "@ + iface_method_name + "("@ + args_sign + ") gust.EnumResult["@ + mod_name + ".TBytes[*"@ + ret_type + "], ResultMsg]\n            "@
}

/// A method of the Go `GoFfi` interface that returns a message.
pub fn ffidl_go_iface(iface_method_name: &str, args_sign: &str, mod_name: &str, ret_type: &str) -> (r: String)
    ensures
        r@ == spec_ffidl_go_iface(iface_method_name@, args_sign@, mod_name@, ret_type@),
{
    let mut r = String::from_str("\n                ");
    r.append(iface_method_name);
    r.append("(");
    r.append(args_sign);
    r.append(") gust.EnumResult[");
    r.append(mod_name);
    r.append(".TBytes[*");
    r.append(ret_type);
    r.append("], ResultMsg]\n            ");
    r
}

/// A method of `_UnimplementedGoFfi` that returns a message.
pub open spec fn spec_ffidl_go_unimpl(iface_method_name: Seq<char>, args_sign: Seq<char>, mod_name: Seq<char>, ret_type: Seq<char>) -> Seq<char> {
    "\n                func (_UnimplementedGoFfi) "@ + iface_method_name + "("@ + args_sign + ") gust.EnumResult["@ + mod_name + ".TBytes[*"@ + ret_type + "], ResultMsg] {\n                    panic(\"unimplemented\")\n                }\n            "@
}

/// A method of `_UnimplementedGoFfi` that returns a message.
pub fn ffidl_go_unimpl(iface_method_name: &str, args_sign: &str, mod_name: &str, ret_type: &str) -> (r: String)
    ensures
        r@ == spec_ffidl_go_unimpl(iface_method_name@, args_sign@, mod_name@, ret_type@),
{
    let mut r = String::from_str("\n                func (_UnimplementedGoFfi) ");
    r.append(iface_method_name);
    r.append("(");
    r.append(args_sign);
    r.append(") gust.EnumResult[");
    r.append(mod_name);
    r.append(".TBytes[*");
    r.append(ret_type);
    r.append("], ResultMsg] {\n                    panic(\"unimplemented\")\n                }\n            ");
    r
}

/// The exported Go function of a `GoFfi` method that returns nothing.
pub open spec fn spec_ffidl_go_export_empty(ffi_func_name: Seq<char>, ffi_args_sign: Seq<char>, iface_method_name: Seq<char>, ffi_args_assign: Seq<char>, mod_name: Seq<char>) -> Seq<char> {
    "\n                //go:inline\n                //export "@ + ffi_func_name + "\n                func "@ + ffi_func_name + "("@ + ffi_args_sign + ") C.struct_GoFfiResult {\n                    if _"@ + iface_method_name + "_Ret_Msg := GlobalGoFfi."@ + iface_method_name + "("@ + ffi_args_assign + "); _"@ + iface_method_name + "_Ret_Msg.Code == "@ + mod_name + ".RcNoError {\n                        return C.struct_GoFfiResult{}\n                    } else {\n                        return C.struct_GoFfiResult{\n                            code:     C.int8_t(_"@ + iface_method_name + "_Ret_Msg.Code),\n                            data_ptr: C.leak_buffer(asBuffer("@ + mod_name + ".TBytesFromString[string](_"@ + iface_method_name + "_Ret_Msg.Msg))),\n                        }\n                    }\n                }\n                "@
}

/// The exported Go function of a `GoFfi` method that returns nothing.
pub fn ffidl_go_export_empty(ffi_func_name: &str, ffi_args_sign: &str, iface_method_name: &str, ffi_args_assign: &str, mod_name: &str) -> (r: String)
    ensures
        r@ == spec_ffidl_go_export_empty(ffi_func_name@, ffi_args_sign@, iface_method_name@, ffi_args_assign@, mod_name@),
{
    let mut r = String::from_str("\n                //go:inline\n                //export ");
    r.append(ffi_func_name);
    r.append("\n                func ");
    r.append(ffi_func_name);
    r.append("(");
    r.append(ffi_args_sign);
    r.append(") C.struct_GoFfiResult {\n                    if _");
    r.append(iface_method_name);
    r.append("_Ret_Msg := GlobalGoFfi.");
    r.append(iface_method_name);
    r.append("(");
    r.append(ffi_args_assign);
    r.append("); _");
    r.append(iface_method_name);
    r.append("_Ret_Msg.Code == ");
    r.append(mod_name);
    r.append(".RcNoError {\n                        return C.struct_GoFfiResult{}\n                    } else {\n                        return C.struct_GoFfiResult{\n                            code:     C.int8_t(_");
    r.append(iface_method_name);
    r.append("_Ret_Msg.Code),\n                            data_ptr: C.leak_buffer(asBuffer(");
    r.append(mod_name);
    r.append(".TBytesFromString[string](_");
    r.append(iface_method_name);
    r.append("_Ret_Msg.Msg))),\n                        }\n                    }\n                }\n                ");
    r
}

/// The exported Go function of a `GoFfi` method that returns a message.
pub open spec fn spec_ffidl_go_export(ffi_func_name: Seq<char>, ffi_args_sign: Seq<char>, iface_method_name: Seq<char>, ffi_args_assign: Seq<char>, mod_name: Seq<char>) -> Seq<char> {
    "\n                //go:inline\n                //export "@ + ffi_func_name + "\n                func "@ + ffi_func_name + "("@ + ffi_args_sign + ") C.struct_GoFfiResult {\n                    if _"@ + iface_method_name + "_Ret := GlobalGoFfi."@ + iface_method_name + "("@ + ffi_args_assign + "); _"@ + iface_method_name + "_Ret.IsOk() {\n                        return C."@ + ffi_func_name + "_set_result(asBuffer(_"@ + iface_method_name + "_Ret.Unwrap()))\n                    } else {\n                        _"@ + iface_method_name + "_Ret_Msg := _"@ + iface_method_name + "_Ret.UnwrapErr()\n                        if _"@ + iface_method_name + "_Ret_Msg.Code == "@ + mod_name + ".RcNoError {\n                            _"@ + iface_method_name + "_Ret_Msg.Code = "@ + mod_name + ".RcUnknown\n                        }\n                        return C.struct_GoFfiResult{\n                            code:     C.int8_t(_"@ + iface_method_name + "_Ret_Msg.Code),\n                            data_ptr: C.leak_buffer(asBuffer("@ + mod_name + ".TBytesFromString[string](_"@ + iface_method_name + "_Ret_Msg.Msg))),\n                        }\n                    }\n                }\n                "@
}

/// The exported Go function of a `GoFfi` method that returns a message.
pub fn ffidl_go_export(ffi_func_name: &str, ffi_args_sign: &str, iface_method_name: &str, ffi_args_assign: &str, mod_name: &str) -> (r: String)
    ensures
        r@ == spec_ffidl_go_export(ffi_func_name@, ffi_args_sign@, iface_method_name@, ffi_args_assign@, mod_name@),
{
    let mut r = String::from_str("\n                //go:inline\n                //export ");
    r.append(ffi_func_name);
    r.append("\n                func ");
    r.append(ffi_func_name);
    r.append("(");
    r.append(ffi_args_sign);
    r.append(") C.struct_GoFfiResult {\n                    if _");
    r.append(iface_method_name);
    r.append("_Ret := GlobalGoFfi.");
    r.append(iface_method_name);
    r.append("(");
    r.append(ffi_args_assign);
    r.append("); _");
    r.append(iface_method_name);
    r.append("_Ret.IsOk() {\n                        return C.");
    r.append(ffi_func_name);
    r.append("_set_result(asBuffer(_");
    r.append(iface_method_name);
    r.append("_Ret.Unwrap()))\n                    } else {\n                        _");
    r.append(iface_method_name);
    r.append("_Ret_Msg := _");
    r.append(iface_method_name);
    r.append("_Ret.UnwrapErr()\n                        if _");
    r.append(iface_method_name);
    r.append("_Ret_Msg.Code == ");
    r.append(mod_name);
    r.append(".RcNoError {\n                            _");
    r.append(iface_method_name);
    r.append("_Ret_Msg.Code = ");
    r.append(mod_name);
    r.append(".RcUnknown\n                        }\n                        return C.struct_GoFfiResult{\n                            code:     C.int8_t(_");
    r.append(iface_method_name);
    r.append("_Ret_Msg.Code),\n                            data_ptr: C.leak_buffer(asBuffer(");
    r.append(mod_name);
    r.append(".TBytesFromString[string](_");
    r.append(iface_method_name);
    r.append("_Ret_Msg.Msg))),\n                        }\n                    }\n                }\n                ");
    r
}

/// The Go code of a `GoFfi` service.
pub open spec fn spec_ffidl_go_goffi_block(code: Seq<char>, iface_methods: Seq<char>, impl_methods: Seq<char>, ffi_functions: Seq<char>) -> Seq<char> {
    "\n\n        var GlobalGoFfi GoFfi = _UnimplementedGoFfi{}\n\n        "@ + code + "\n\n        type GoFfi interface {\n\t        "@ + iface_methods + "\n        }\n        type _UnimplementedGoFfi struct{}\n        "@ + impl_methods + "\n\n        "@ + ffi_functions + "\n        "@
}

/// The Go code of a `GoFfi` service.
pub fn ffidl_go_goffi_block(code: &str, iface_methods: &str, impl_methods: &str, ffi_functions: &str) -> (r: String)
    ensures
        r@ == spec_ffidl_go_goffi_block(code@, iface_methods@, impl_methods@, ffi_functions@),
{
    let mut r = String::from_str("\n\n        var GlobalGoFfi GoFfi = _UnimplementedGoFfi{}\n\n        ");
    r.append(code);
    r.append("\n\n        type GoFfi interface {\n\t        ");
    r.append(iface_methods);
    r.append("\n        }\n        type _UnimplementedGoFfi struct{}\n        ");
    r.append(impl_methods);
    r.append("\n\n        ");
    r.append(ffi_functions);
    r.append("\n        ");
    r
}

} // verus!
