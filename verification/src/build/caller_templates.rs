//! The text templates of the Go caller file.
use vstd::prelude::*;

verus! {

/// The Go caller file, with `${package}`, `${c_header_name_base}` and `${fn_list}` to fill in.
pub open spec fn spec_go_caller_file_tpl() -> Seq<char> {
    "// Code generated by fcplug. DO NOT EDIT.\n\npackage ${package}\n\n/*\n#cgo CFLAGS: -I.\n#cgo LDFLAGS: -L. -l${c_header_name_base}\n\n#include \"${c_header_name_base}.h\"\n*/\nimport \"C\"\nimport (\n\t\"encoding/json\"\n\t\"fmt\"\n\t\"reflect\"\n\t\"unsafe\"\n\n\t\"github.com/andeya/gust\"\n\t\"github.com/andeya/fcplug/go/caller\"\n)\n\nvar _ gust.EnumResult[any,any]\n\nfunc bytesToBuffer(b []byte) C.struct_Buffer {\n\treturn C.struct_Buffer{\n\t\tptr: (*C.uint8_t)(unsafe.Pointer(&b[0])),\n\t\tlen: C.uintptr_t(len(b)),\n\t\tcap: C.uintptr_t(cap(b)),\n\t}\n}\n\nfunc bufferToBytes(buf C.struct_Buffer) []byte {\n\treturn *(*[]byte)(unsafe.Pointer(&reflect.SliceHeader{\n\t\tData: uintptr(unsafe.Pointer(buf.ptr)),\n\t\tLen:  int(buf.len),\n\t\tCap:  int(buf.cap),\n\t}))\n}\n\ntype CBytes struct {\n\tleakBuffer C.struct_LeakBuffer\n}\n\nfunc (c *CBytes) Free() {\n\tif c.leakBuffer.free_ptr > 0 {\n\t\tC.free_buffer(c.leakBuffer.free_type, c.leakBuffer.free_ptr)\n\t}\n}\n\n//go:inline\nfunc (c *CBytes) AsBytes() []byte {\n\treturn bufferToBytes(c.leakBuffer.buffer)\n}\n\nfunc (c *CBytes) AsString() string {\n\treturn *(*string)(unsafe.Pointer(&reflect.StringHeader{\n\t\tData: uintptr(unsafe.Pointer(c.leakBuffer.buffer.ptr)),\n\t\tLen:  int(c.leakBuffer.buffer.len),\n\t}))\n}\n\nfunc (c CBytes) String() string {\n\treturn c.AsString()\n}\n\nfunc (c CBytes) MarshalJSON() ([]byte, error) {\n\treturn json.Marshal(c.AsString())\n}\n\ntype CFlatData[T caller.FlatBuffer] struct {\n\tnewRespData func([]byte, caller.FlatUOffsetT) T\n\tleakBuffer  C.struct_LeakBuffer\n}\n\nfunc (c *CFlatData[T]) Free() {\n\tif c.leakBuffer.free_ptr > 0 {\n\t\tC.free_buffer(c.leakBuffer.free_type, c.leakBuffer.free_ptr)\n\t}\n}\n\nfunc (c *CFlatData[T]) AsData() T {\n\treturn c.newRespData(bufferToBytes(c.leakBuffer.buffer), 0)\n}\n\nfunc (c CFlatData[T]) String() string {\n\treturn fmt.Sprintf(\"%v\", c.AsData())\n}\n\nfunc (c CFlatData[T]) MarshalJSON() ([]byte, error) {\n\treturn json.Marshal(c.AsData())\n}\n\nfunc toResultCode(code C.enum_ResultCode) caller.ResultCode {\n\tswitch code {\n\tcase C.NoError:\n\t\treturn caller.CodeNoError\n\tcase C.Decode:\n\t\treturn caller.CodeDecode\n\tcase C.Encode:\n\t\treturn caller.CodeEncode\n\tdefault:\n\t\treturn caller.CodeUnknown\n\t}\n}\n\n${fn_list}\n"@
}

/// The Go caller file, with `${package}`, `${c_header_name_base}` and `${fn_list}` to fill in.
pub fn go_caller_file_tpl() -> (r: String)
    ensures
        r@ == spec_go_caller_file_tpl(),
{
    let r = String::from_str("// Code generated by fcplug. DO NOT EDIT.\n\npackage ${package}\n\n/*\n#cgo CFLAGS: -I.\n#cgo LDFLAGS: -L. -l${c_header_name_base}\n\n#include \"${c_header_name_base}.h\"\n*/\nimport \"C\"\nimport (\n\t\"encoding/json\"\n\t\"fmt\"\n\t\"reflect\"\n\t\"unsafe\"\n\n\t\"github.com/andeya/gust\"\n\t\"github.com/andeya/fcplug/go/caller\"\n)\n\nvar _ gust.EnumResult[any,any]\n\nfunc bytesToBuffer(b []byte) C.struct_Buffer {\n\treturn C.struct_Buffer{\n\t\tptr: (*C.uint8_t)(unsafe.Pointer(&b[0])),\n\t\tlen: C.uintptr_t(len(b)),\n\t\tcap: C.uintptr_t(cap(b)),\n\t}\n}\n\nfunc bufferToBytes(buf C.struct_Buffer) []byte {\n\treturn *(*[]byte)(unsafe.Pointer(&reflect.SliceHeader{\n\t\tData: uintptr(unsafe.Pointer(buf.ptr)),\n\t\tLen:  int(buf.len),\n\t\tCap:  int(buf.cap),\n\t}))\n}\n\ntype CBytes struct {\n\tleakBuffer C.struct_LeakBuffer\n}\n\nfunc (c *CBytes) Free() {\n\tif c.leakBuffer.free_ptr > 0 {\n\t\tC.free_buffer(c.leakBuffer.free_type, c.leakBuffer.free_ptr)\n\t}\n}\n\n//go:inline\nfunc (c *CBytes) AsBytes() []byte {\n\treturn bufferToBytes(c.leakBuffer.buffer)\n}\n\nfunc (c *CBytes) AsString() string {\n\treturn *(*string)(unsafe.Pointer(&reflect.StringHeader{\n\t\tData: uintptr(unsafe.Pointer(c.leakBuffer.buffer.ptr)),\n\t\tLen:  int(c.leakBuffer.buffer.len),\n\t}))\n}\n\nfunc (c CBytes) String() string {\n\treturn c.AsString()\n}\n\nfunc (c CBytes) MarshalJSON() ([]byte, error) {\n\treturn json.Marshal(c.AsString())\n}\n\ntype CFlatData[T caller.FlatBuffer] struct {\n\tnewRespData func([]byte, caller.FlatUOffsetT) T\n\tleakBuffer  C.struct_LeakBuffer\n}\n\nfunc (c *CFlatData[T]) Free() {\n\tif c.leakBuffer.free_ptr > 0 {\n\t\tC.free_buffer(c.leakBuffer.free_type, c.leakBuffer.free_ptr)\n\t}\n}\n\nfunc (c *CFlatData[T]) AsData() T {\n\treturn c.newRespData(bufferToBytes(c.leakBuffer.buffer), 0)\n}\n\nfunc (c CFlatData[T]) String() string {\n\treturn fmt.Sprintf(\"%v\", c.AsData())\n}\n\nfunc (c CFlatData[T]) MarshalJSON() ([]byte, error) {\n\treturn json.Marshal(c.AsData())\n}\n\nfunc toResultCode(code C.enum_ResultCode) caller.ResultCode {\n\tswitch code {\n\tcase C.NoError:\n\t\treturn caller.CodeNoError\n\tcase C.Decode:\n\t\treturn caller.CodeDecode\n\tcase C.Encode:\n\t\treturn caller.CodeEncode\n\tdefault:\n\t\treturn caller.CodeUnknown\n\t}\n}\n\n${fn_list}\n");
    r
}

/// The Go caller of a raw-bytes function, with `${c_fn_name}` to fill in.
pub open spec fn spec_go_raw_fn_tpl() -> Seq<char> {
    "\n//go:inline\nfunc C_${c_fn_name}(req []byte) gust.EnumResult[CBytes, caller.ResultCode] {\n\tr := C.${c_fn_name}(bytesToBuffer(req))\n\tif code := toResultCode(r.code); code != caller.CodeNoError {\n\t\treturn gust.EnumErr[CBytes, caller.ResultCode](code)\n\t}\n\treturn gust.EnumOk[CBytes, caller.ResultCode](CBytes{r.data})\n}\n"@
}

/// The Go caller of a raw-bytes function, with `${c_fn_name}` to fill in.
pub fn go_raw_fn_tpl() -> (r: String)
    ensures
        r@ == spec_go_raw_fn_tpl(),
{
    let r = String::from_str("\n//go:inline\nfunc C_${c_fn_name}(req []byte) gust.EnumResult[CBytes, caller.ResultCode] {\n\tr := C.${c_fn_name}(bytesToBuffer(req))\n\tif code := toResultCode(r.code); code != caller.CodeNoError {\n\t\treturn gust.EnumErr[CBytes, caller.ResultCode](code)\n\t}\n\treturn gust.EnumOk[CBytes, caller.ResultCode](CBytes{r.data})\n}\n");
    r
}

/// The Go caller of a protobuf function, with `${c_fn_name}` to fill in.
pub open spec fn spec_go_pb_fn_tpl() -> Seq<char> {
    "\n//go:inline\nfunc C_${c_fn_name}_bytes(req []byte) gust.EnumResult[CBytes, caller.ResultCode] {\n\tr := C.${c_fn_name}(bytesToBuffer(req))\n\tif code := toResultCode(r.code); code != caller.CodeNoError {\n\t\treturn gust.EnumErr[CBytes, caller.ResultCode](code)\n\t}\n\treturn gust.EnumOk[CBytes, caller.ResultCode](CBytes{r.data})\n}\n\n//go:inline\nfunc C_${c_fn_name}[T caller.PbMessage](req caller.PbMessage) gust.EnumResult[T, caller.ResultCode] {\n\t_req := caller.PbMarshal(req)\n\tif _req.IsErr() {\n\t\treturn gust.EnumErr[T, caller.ResultCode](_req.UnwrapErr())\n\t}\n\tr := C.${c_fn_name}(bytesToBuffer(_req.Unwrap()))\n\tif code := toResultCode(r.code); code != caller.CodeNoError {\n\t\treturn gust.EnumErr[T, caller.ResultCode](code)\n\t}\n\tdefer C.free_buffer(r.data.free_type, r.data.free_ptr)\n\treturn caller.PbUnmarshal[T](bufferToBytes(r.data.buffer))\n}\n"@
}

/// The Go caller of a protobuf function, with `${c_fn_name}` to fill in.
pub fn go_pb_fn_tpl() -> (r: String)
    ensures
        r@ == spec_go_pb_fn_tpl(),
{
    let r = String::from_str("\n//go:inline\nfunc C_${c_fn_name}_bytes(req []byte) gust.EnumResult[CBytes, caller.ResultCode] {\n\tr := C.${c_fn_name}(bytesToBuffer(req))\n\tif code := toResultCode(r.code); code != caller.CodeNoError {\n\t\treturn gust.EnumErr[CBytes, caller.ResultCode](code)\n\t}\n\treturn gust.EnumOk[CBytes, caller.ResultCode](CBytes{r.data})\n}\n\n//go:inline\nfunc C_${c_fn_name}[T caller.PbMessage](req caller.PbMessage) gust.EnumResult[T, caller.ResultCode] {\n\t_req := caller.PbMarshal(req)\n\tif _req.IsErr() {\n\t\treturn gust.EnumErr[T, caller.ResultCode](_req.UnwrapErr())\n\t}\n\tr := C.${c_fn_name}(bytesToBuffer(_req.Unwrap()))\n\tif code := toResultCode(r.code); code != caller.CodeNoError {\n\t\treturn gust.EnumErr[T, caller.ResultCode](code)\n\t}\n\tdefer C.free_buffer(r.data.free_type, r.data.free_ptr)\n\treturn caller.PbUnmarshal[T](bufferToBytes(r.data.buffer))\n}\n");
    r
}

/// The Go caller of a flatbuffer function, with `${c_fn_name}` to fill in.
pub open spec fn spec_go_fb_fn_tpl() -> Seq<char> {
    "\n//go:inline\nfunc C_${c_fn_name}_bytes(req []byte) gust.EnumResult[CBytes, caller.ResultCode] {\n\tr := C.${c_fn_name}(bytesToBuffer(req))\n\tif code := toResultCode(r.code); code != caller.CodeNoError {\n\t\treturn gust.EnumErr[CBytes, caller.ResultCode](code)\n\t}\n\treturn gust.EnumOk[CBytes, caller.ResultCode](CBytes{r.data})\n}\n\n//go:inline\nfunc C_${c_fn_name}[T caller.FlatBuffer](req *caller.FlatBuilder, newRespData func([]byte, caller.FlatUOffsetT) T) gust.EnumResult[CFlatData[T], caller.ResultCode] {\n\tr := C.${c_fn_name}(bytesToBuffer(req.FinishedBytes()))\n\tif code := toResultCode(r.code); code != caller.CodeNoError {\n\t\treturn gust.EnumErr[CFlatData[T], caller.ResultCode](code)\n\t}\n\treturn gust.EnumOk[CFlatData[T], caller.ResultCode](CFlatData[T]{\n\t\tnewRespData: newRespData,\n\t\tleakBuffer:  r.data,\n\t})\n}\n"@
}

/// The Go caller of a flatbuffer function, with `${c_fn_name}` to fill in.
pub fn go_fb_fn_tpl() -> (r: String)
    ensures
        r@ == spec_go_fb_fn_tpl(),
{
    let r = String::from_str("\n//go:inline\nfunc C_${c_fn_name}_bytes(req []byte) gust.EnumResult[CBytes, caller.ResultCode] {\n\tr := C.${c_fn_name}(bytesToBuffer(req))\n\tif code := toResultCode(r.code); code != caller.CodeNoError {\n\t\treturn gust.EnumErr[CBytes, caller.ResultCode](code)\n\t}\n\treturn gust.EnumOk[CBytes, caller.ResultCode](CBytes{r.data})\n}\n\n//go:inline\nfunc C_${c_fn_name}[T caller.FlatBuffer](req *caller.FlatBuilder, newRespData func([]byte, caller.FlatUOffsetT) T) gust.EnumResult[CFlatData[T], caller.ResultCode] {\n\tr := C.${c_fn_name}(bytesToBuffer(req.FinishedBytes()))\n\tif code := toResultCode(r.code); code != caller.CodeNoError {\n\t\treturn gust.EnumErr[CFlatData[T], caller.ResultCode](code)\n\t}\n\treturn gust.EnumOk[CFlatData[T], caller.ResultCode](CFlatData[T]{\n\t\tnewRespData: newRespData,\n\t\tleakBuffer:  r.data,\n\t})\n}\n");
    r
}

} // verus!
