//! The words the compiler itself knows: every keyword-like name, builtin method
//! and well-known type. Word `k` is the symbol with number `k`.
use vstd::prelude::*;
use crate::names::Symbol;

verus! {

pub const SELF: Symbol = 0;
pub const SELF_TYPE: Symbol = 1;
pub const IT: Symbol = 2;
pub const OTHER: Symbol = 3;
pub const EQ: Symbol = 4;
pub const LT: Symbol = 5;
pub const LE: Symbol = 6;
pub const GT: Symbol = 7;
pub const GE: Symbol = 8;
pub const TO_STR: Symbol = 9;
pub const CLONE: Symbol = 10;
pub const CANCEL: Symbol = 11;
pub const POLL: Symbol = 12;
pub const NEXT: Symbol = 13;
pub const NEXT_ASYNC: Symbol = 14;
pub const BRANCH: Symbol = 15;
pub const FROM_RESIDUAL: Symbol = 16;
pub const HASH: Symbol = 17;
pub const ADD: Symbol = 18;
pub const SUB: Symbol = 19;
pub const MUL: Symbol = 20;
pub const DIV: Symbol = 21;
pub const MOD: Symbol = 22;
pub const BITAND: Symbol = 23;
pub const BITOR: Symbol = 24;
pub const BITXOR: Symbol = 25;
pub const SHL: Symbol = 26;
pub const SHR: Symbol = 27;
pub const I8: Symbol = 28;
pub const I16: Symbol = 29;
pub const I32: Symbol = 30;
pub const I64: Symbol = 31;
pub const U8: Symbol = 32;
pub const U16: Symbol = 33;
pub const U32: Symbol = 34;
pub const U64: Symbol = 35;
pub const ISIZE: Symbol = 36;
pub const USIZE: Symbol = 37;
pub const F32: Symbol = 38;
pub const F64: Symbol = 39;
pub const BOOL: Symbol = 40;
pub const CHAR: Symbol = 41;
pub const STR: Symbol = 42;
pub const NULL: Symbol = 43;
pub const DYNAMIC: Symbol = 44;
pub const T_DERIVE: Symbol = 45;
pub const DERIVE: Symbol = 46;
pub const T_EQ: Symbol = 47;
pub const T_ORD: Symbol = 48;
pub const T_TO_STR: Symbol = 49;
pub const T_CLONE: Symbol = 50;
pub const T_TRANSPARENT: Symbol = 51;
pub const T_PACKED: Symbol = 52;
pub const T_ALIGN: Symbol = 53;
pub const T_UNION: Symbol = 54;
pub const T_LINK: Symbol = 55;
pub const LIB: Symbol = 56;
pub const T_VARIADIC: Symbol = 57;
pub const NEW: Symbol = 58;
pub const CHANNEL: Symbol = 59;
pub const YIELD_NOW: Symbol = 60;
pub const SLEEP: Symbol = 61;
pub const TIMEOUT: Symbol = 62;
pub const T_SHARED: Symbol = 63;
pub const T_FOREIGN: Symbol = 64;
pub const ALLOC: Symbol = 65;
pub const ALLOC_ZEROED: Symbol = 66;
pub const ALLOC_FLEX: Symbol = 67;
pub const FREE: Symbol = 68;
pub const REALLOC: Symbol = 69;
pub const T_C_STRING: Symbol = 70;
pub const T_C_STR: Symbol = 71;
pub const FROM_STR: Symbol = 72;
pub const T_THREAD: Symbol = 73;
pub const SPAWN: Symbol = 74;
pub const T_TASK: Symbol = 75;
pub const JOIN: Symbol = 76;
pub const DETACH: Symbol = 77;
pub const ABORT: Symbol = 78;
pub const SEND: Symbol = 79;
pub const RECV: Symbol = 80;
pub const TRY_RECV: Symbol = 81;
pub const LOCK: Symbol = 82;
pub const TRY_LOCK: Symbol = 83;
pub const SIZE: Symbol = 84;
pub const IS_EMPTY: Symbol = 85;
pub const CLEAR: Symbol = 86;
pub const CONTAINS: Symbol = 87;
pub const GET: Symbol = 88;
pub const REMOVE: Symbol = 89;
pub const SET: Symbol = 90;
pub const KEYS: Symbol = 91;
pub const VALUES: Symbol = 92;
pub const ENTRIES: Symbol = 93;
pub const PUSH: Symbol = 94;
pub const POP: Symbol = 95;
pub const INSERT: Symbol = 96;
pub const TRUNCATE: Symbol = 97;
pub const ITER: Symbol = 98;
pub const INDEX_OF: Symbol = 99;
pub const MAP: Symbol = 100;
pub const FILTER: Symbol = 101;
pub const EACH: Symbol = 102;
pub const FOLD: Symbol = 103;
pub const BYTE_SIZE: Symbol = 104;
pub const STARTS_WITH: Symbol = 105;
pub const ENDS_WITH: Symbol = 106;
pub const SUBSTRING: Symbol = 107;
pub const TO_UPPER: Symbol = 108;
pub const TO_LOWER: Symbol = 109;
pub const TRIM: Symbol = 110;
pub const REPEAT: Symbol = 111;
pub const REPLACE: Symbol = 112;
pub const SPLIT: Symbol = 113;
pub const CHARS: Symbol = 114;
pub const BYTES: Symbol = 115;
pub const MIN: Symbol = 116;
pub const MAX: Symbol = 117;
pub const INFINITY: Symbol = 118;
pub const NEG_INFINITY: Symbol = 119;
pub const C_NAN: Symbol = 120;
pub const IS_NAN: Symbol = 121;
pub const IS_INFINITE: Symbol = 122;
pub const IS_FINITE: Symbol = 123;
pub const PRINT: Symbol = 124;
pub const PRINTLN: Symbol = 125;
pub const PANIC: Symbol = 126;
pub const PANIC_WITH: Symbol = 127;
pub const EXIT: Symbol = 128;
pub const T_LIST: Symbol = 129;
pub const T_MAP: Symbol = 130;
pub const T_ENTRY: Symbol = 131;
pub const T_FUTURE: Symbol = 132;
pub const T_READY: Symbol = 133;
pub const T_ITEM: Symbol = 134;
pub const T_DONE: Symbol = 135;
pub const T_SENDER: Symbol = 136;
pub const T_RECEIVER: Symbol = 137;
pub const T_JOIN_HANDLE: Symbol = 138;
pub const T_JOINED: Symbol = 139;
pub const T_PANICKED: Symbol = 140;
pub const T_LOCK_BUSY: Symbol = 141;
pub const T_FROM_RESIDUAL: Symbol = 142;
pub const T_TRY: Symbol = 143;
pub const T_HASH: Symbol = 144;
pub const T_TIMED_OUT: Symbol = 145;
pub const T_LIST_ITER: Symbol = 146;
pub const T_MAP_KEYS: Symbol = 147;
pub const T_MAP_VALUES: Symbol = 148;
pub const T_MAP_ENTRIES: Symbol = 149;
pub const T_STR_CHARS: Symbol = 150;
pub const T_STR_BYTES: Symbol = 151;
pub const T_CANCELLED: Symbol = 152;
pub const BLOCK_ON: Symbol = 153;
pub const WRAPPING_ADD: Symbol = 154;
pub const WRAPPING_SUB: Symbol = 155;
pub const WRAPPING_MUL: Symbol = 156;
pub const WRAPPING_DIV: Symbol = 157;
pub const WRAPPING_REM: Symbol = 158;
pub const WRAPPING_NEG: Symbol = 159;
pub const WRAPPING_SHL: Symbol = 160;
pub const WRAPPING_SHR: Symbol = 161;
pub const SATURATING_ADD: Symbol = 162;
pub const SATURATING_SUB: Symbol = 163;
pub const SATURATING_MUL: Symbol = 164;
pub const SATURATING_DIV: Symbol = 165;
pub const SATURATING_REM: Symbol = 166;
pub const SATURATING_NEG: Symbol = 167;
pub const SATURATING_SHL: Symbol = 168;
pub const SATURATING_SHR: Symbol = 169;
pub const CHECKED_ADD: Symbol = 170;
pub const CHECKED_SUB: Symbol = 171;
pub const CHECKED_MUL: Symbol = 172;
pub const CHECKED_DIV: Symbol = 173;
pub const CHECKED_REM: Symbol = 174;
pub const CHECKED_NEG: Symbol = 175;
pub const CHECKED_SHL: Symbol = 176;
pub const CHECKED_SHR: Symbol = 177;
pub const OVERFLOWING_ADD: Symbol = 178;
pub const OVERFLOWING_SUB: Symbol = 179;
pub const OVERFLOWING_MUL: Symbol = 180;
pub const OVERFLOWING_DIV: Symbol = 181;
pub const OVERFLOWING_REM: Symbol = 182;
pub const OVERFLOWING_NEG: Symbol = 183;
pub const OVERFLOWING_SHL: Symbol = 184;
pub const OVERFLOWING_SHR: Symbol = 185;
pub const CLOSE_BRACE_TEXT: Symbol = 186;
pub const COMMA_TEXT: Symbol = 187;
pub const OPEN_PAREN_TEXT: Symbol = 188;
pub const CLOSE_PAREN_TEXT: Symbol = 189;
pub const EMPTY_TEXT: Symbol = 190;

/// The number of known words.
pub const WORD_COUNT: u32 = 191;

/// The text of word `i`.
pub open spec fn word(i: u32) -> Seq<char> {
    if i == 0 {
        "self"@
    } else if i == 1 {
        "Self"@
    } else if i == 2 {
        "it"@
    } else if i == 3 {
        "other"@
    } else if i == 4 {
        "eq"@
    } else if i == 5 {
        "lt"@
    } else if i == 6 {
        "le"@
    } else if i == 7 {
        "gt"@
    } else if i == 8 {
        "ge"@
    } else if i == 9 {
        "to_str"@
    } else if i == 10 {
        "clone"@
    } else if i == 11 {
        "cancel"@
    } else if i == 12 {
        "poll"@
    } else if i == 13 {
        "next"@
    } else if i == 14 {
        "next_async"@
    } else if i == 15 {
        "branch"@
    } else if i == 16 {
        "from_residual"@
    } else if i == 17 {
        "hash"@
    } else if i == 18 {
        "add"@
    } else if i == 19 {
        "sub"@
    } else if i == 20 {
        "mul"@
    } else if i == 21 {
        "div"@
    } else if i == 22 {
        "mod"@
    } else if i == 23 {
        "bitand"@
    } else if i == 24 {
        "bitor"@
    } else if i == 25 {
        "bitxor"@
    } else if i == 26 {
        "shl"@
    } else if i == 27 {
        "shr"@
    } else if i == 28 {
        "i8"@
    } else if i == 29 {
        "i16"@
    } else if i == 30 {
        "i32"@
    } else if i == 31 {
        "i64"@
    } else if i == 32 {
        "u8"@
    } else if i == 33 {
        "u16"@
    } else if i == 34 {
        "u32"@
    } else if i == 35 {
        "u64"@
    } else if i == 36 {
        "isize"@
    } else if i == 37 {
        "usize"@
    } else if i == 38 {
        "f32"@
    } else if i == 39 {
        "f64"@
    } else if i == 40 {
        "bool"@
    } else if i == 41 {
        "char"@
    } else if i == 42 {
        "str"@
    } else if i == 43 {
        "null"@
    } else if i == 44 {
        "dynamic"@
    } else if i == 45 {
        "Derive"@
    } else if i == 46 {
        "derive"@
    } else if i == 47 {
        "Eq"@
    } else if i == 48 {
        "Ord"@
    } else if i == 49 {
        "ToStr"@
    } else if i == 50 {
        "Clone"@
    } else if i == 51 {
        "Transparent"@
    } else if i == 52 {
        "Packed"@
    } else if i == 53 {
        "Align"@
    } else if i == 54 {
        "Union"@
    } else if i == 55 {
        "Link"@
    } else if i == 56 {
        "lib"@
    } else if i == 57 {
        "Variadic"@
    } else if i == 58 {
        "new"@
    } else if i == 59 {
        "channel"@
    } else if i == 60 {
        "yield_now"@
    } else if i == 61 {
        "sleep"@
    } else if i == 62 {
        "timeout"@
    } else if i == 63 {
        "Shared"@
    } else if i == 64 {
        "Foreign"@
    } else if i == 65 {
        "alloc"@
    } else if i == 66 {
        "alloc_zeroed"@
    } else if i == 67 {
        "alloc_flex"@
    } else if i == 68 {
        "free"@
    } else if i == 69 {
        "realloc"@
    } else if i == 70 {
        "CString"@
    } else if i == 71 {
        "CStr"@
    } else if i == 72 {
        "from_str"@
    } else if i == 73 {
        "Thread"@
    } else if i == 74 {
        "spawn"@
    } else if i == 75 {
        "Task"@
    } else if i == 76 {
        "join"@
    } else if i == 77 {
        "detach"@
    } else if i == 78 {
        "abort"@
    } else if i == 79 {
        "send"@
    } else if i == 80 {
        "recv"@
    } else if i == 81 {
        "try_recv"@
    } else if i == 82 {
        "lock"@
    } else if i == 83 {
        "try_lock"@
    } else if i == 84 {
        "size"@
    } else if i == 85 {
        "is_empty"@
    } else if i == 86 {
        "clear"@
    } else if i == 87 {
        "contains"@
    } else if i == 88 {
        "get"@
    } else if i == 89 {
        "remove"@
    } else if i == 90 {
        "set"@
    } else if i == 91 {
        "keys"@
    } else if i == 92 {
        "values"@
    } else if i == 93 {
        "entries"@
    } else if i == 94 {
        "push"@
    } else if i == 95 {
        "pop"@
    } else if i == 96 {
        "insert"@
    } else if i == 97 {
        "truncate"@
    } else if i == 98 {
        "iter"@
    } else if i == 99 {
        "index_of"@
    } else if i == 100 {
        "map"@
    } else if i == 101 {
        "filter"@
    } else if i == 102 {
        "each"@
    } else if i == 103 {
        "fold"@
    } else if i == 104 {
        "byte_size"@
    } else if i == 105 {
        "starts_with"@
    } else if i == 106 {
        "ends_with"@
    } else if i == 107 {
        "substring"@
    } else if i == 108 {
        "to_upper"@
    } else if i == 109 {
        "to_lower"@
    } else if i == 110 {
        "trim"@
    } else if i == 111 {
        "repeat"@
    } else if i == 112 {
        "replace"@
    } else if i == 113 {
        "split"@
    } else if i == 114 {
        "chars"@
    } else if i == 115 {
        "bytes"@
    } else if i == 116 {
        "MIN"@
    } else if i == 117 {
        "MAX"@
    } else if i == 118 {
        "INFINITY"@
    } else if i == 119 {
        "NEG_INFINITY"@
    } else if i == 120 {
        "NAN"@
    } else if i == 121 {
        "is_nan"@
    } else if i == 122 {
        "is_infinite"@
    } else if i == 123 {
        "is_finite"@
    } else if i == 124 {
        "print"@
    } else if i == 125 {
        "println"@
    } else if i == 126 {
        "panic"@
    } else if i == 127 {
        "panic_with"@
    } else if i == 128 {
        "exit"@
    } else if i == 129 {
        "List"@
    } else if i == 130 {
        "Map"@
    } else if i == 131 {
        "Entry"@
    } else if i == 132 {
        "Future"@
    } else if i == 133 {
        "Ready"@
    } else if i == 134 {
        "Item"@
    } else if i == 135 {
        "Done"@
    } else if i == 136 {
        "Sender"@
    } else if i == 137 {
        "Receiver"@
    } else if i == 138 {
        "JoinHandle"@
    } else if i == 139 {
        "Joined"@
    } else if i == 140 {
        "Panicked"@
    } else if i == 141 {
        "LockBusy"@
    } else if i == 142 {
        "FromResidual"@
    } else if i == 143 {
        "Try"@
    } else if i == 144 {
        "Hash"@
    } else if i == 145 {
        "TimedOut"@
    } else if i == 146 {
        "ListIter"@
    } else if i == 147 {
        "MapKeys"@
    } else if i == 148 {
        "MapValues"@
    } else if i == 149 {
        "MapEntries"@
    } else if i == 150 {
        "StrChars"@
    } else if i == 151 {
        "StrBytes"@
    } else if i == 152 {
        "Cancelled"@
    } else if i == 153 {
        "block_on"@
    } else if i == 154 {
        "wrapping_add"@
    } else if i == 155 {
        "wrapping_sub"@
    } else if i == 156 {
        "wrapping_mul"@
    } else if i == 157 {
        "wrapping_div"@
    } else if i == 158 {
        "wrapping_rem"@
    } else if i == 159 {
        "wrapping_neg"@
    } else if i == 160 {
        "wrapping_shl"@
    } else if i == 161 {
        "wrapping_shr"@
    } else if i == 162 {
        "saturating_add"@
    } else if i == 163 {
        "saturating_sub"@
    } else if i == 164 {
        "saturating_mul"@
    } else if i == 165 {
        "saturating_div"@
    } else if i == 166 {
        "saturating_rem"@
    } else if i == 167 {
        "saturating_neg"@
    } else if i == 168 {
        "saturating_shl"@
    } else if i == 169 {
        "saturating_shr"@
    } else if i == 170 {
        "checked_add"@
    } else if i == 171 {
        "checked_sub"@
    } else if i == 172 {
        "checked_mul"@
    } else if i == 173 {
        "checked_div"@
    } else if i == 174 {
        "checked_rem"@
    } else if i == 175 {
        "checked_neg"@
    } else if i == 176 {
        "checked_shl"@
    } else if i == 177 {
        "checked_shr"@
    } else if i == 178 {
        "overflowing_add"@
    } else if i == 179 {
        "overflowing_sub"@
    } else if i == 180 {
        "overflowing_mul"@
    } else if i == 181 {
        "overflowing_div"@
    } else if i == 182 {
        "overflowing_rem"@
    } else if i == 183 {
        "overflowing_neg"@
    } else if i == 184 {
        "overflowing_shl"@
    } else if i == 185 {
        "overflowing_shr"@
    } else if i == 186 {
        " }"@
    } else if i == 187 {
        ", "@
    } else if i == 188 {
        "("@
    } else if i == 189 {
        ")"@
    } else {
        ""@
    }
}

pub fn word_text(i: u32) -> (r: &'static str)
    ensures
        r@ == word(i),
{
    if i == 0 {
        "self"
    } else if i == 1 {
        "Self"
    } else if i == 2 {
        "it"
    } else if i == 3 {
        "other"
    } else if i == 4 {
        "eq"
    } else if i == 5 {
        "lt"
    } else if i == 6 {
        "le"
    } else if i == 7 {
        "gt"
    } else if i == 8 {
        "ge"
    } else if i == 9 {
        "to_str"
    } else if i == 10 {
        "clone"
    } else if i == 11 {
        "cancel"
    } else if i == 12 {
        "poll"
    } else if i == 13 {
        "next"
    } else if i == 14 {
        "next_async"
    } else if i == 15 {
        "branch"
    } else if i == 16 {
        "from_residual"
    } else if i == 17 {
        "hash"
    } else if i == 18 {
        "add"
    } else if i == 19 {
        "sub"
    } else if i == 20 {
        "mul"
    } else if i == 21 {
        "div"
    } else if i == 22 {
        "mod"
    } else if i == 23 {
        "bitand"
    } else if i == 24 {
        "bitor"
    } else if i == 25 {
        "bitxor"
    } else if i == 26 {
        "shl"
    } else if i == 27 {
        "shr"
    } else if i == 28 {
        "i8"
    } else if i == 29 {
        "i16"
    } else if i == 30 {
        "i32"
    } else if i == 31 {
        "i64"
    } else if i == 32 {
        "u8"
    } else if i == 33 {
        "u16"
    } else if i == 34 {
        "u32"
    } else if i == 35 {
        "u64"
    } else if i == 36 {
        "isize"
    } else if i == 37 {
        "usize"
    } else if i == 38 {
        "f32"
    } else if i == 39 {
        "f64"
    } else if i == 40 {
        "bool"
    } else if i == 41 {
        "char"
    } else if i == 42 {
        "str"
    } else if i == 43 {
        "null"
    } else if i == 44 {
        "dynamic"
    } else if i == 45 {
        "Derive"
    } else if i == 46 {
        "derive"
    } else if i == 47 {
        "Eq"
    } else if i == 48 {
        "Ord"
    } else if i == 49 {
        "ToStr"
    } else if i == 50 {
        "Clone"
    } else if i == 51 {
        "Transparent"
    } else if i == 52 {
        "Packed"
    } else if i == 53 {
        "Align"
    } else if i == 54 {
        "Union"
    } else if i == 55 {
        "Link"
    } else if i == 56 {
        "lib"
    } else if i == 57 {
        "Variadic"
    } else if i == 58 {
        "new"
    } else if i == 59 {
        "channel"
    } else if i == 60 {
        "yield_now"
    } else if i == 61 {
        "sleep"
    } else if i == 62 {
        "timeout"
    } else if i == 63 {
        "Shared"
    } else if i == 64 {
        "Foreign"
    } else if i == 65 {
        "alloc"
    } else if i == 66 {
        "alloc_zeroed"
    } else if i == 67 {
        "alloc_flex"
    } else if i == 68 {
        "free"
    } else if i == 69 {
        "realloc"
    } else if i == 70 {
        "CString"
    } else if i == 71 {
        "CStr"
    } else if i == 72 {
        "from_str"
    } else if i == 73 {
        "Thread"
    } else if i == 74 {
        "spawn"
    } else if i == 75 {
        "Task"
    } else if i == 76 {
        "join"
    } else if i == 77 {
        "detach"
    } else if i == 78 {
        "abort"
    } else if i == 79 {
        "send"
    } else if i == 80 {
        "recv"
    } else if i == 81 {
        "try_recv"
    } else if i == 82 {
        "lock"
    } else if i == 83 {
        "try_lock"
    } else if i == 84 {
        "size"
    } else if i == 85 {
        "is_empty"
    } else if i == 86 {
        "clear"
    } else if i == 87 {
        "contains"
    } else if i == 88 {
        "get"
    } else if i == 89 {
        "remove"
    } else if i == 90 {
        "set"
    } else if i == 91 {
        "keys"
    } else if i == 92 {
        "values"
    } else if i == 93 {
        "entries"
    } else if i == 94 {
        "push"
    } else if i == 95 {
        "pop"
    } else if i == 96 {
        "insert"
    } else if i == 97 {
        "truncate"
    } else if i == 98 {
        "iter"
    } else if i == 99 {
        "index_of"
    } else if i == 100 {
        "map"
    } else if i == 101 {
        "filter"
    } else if i == 102 {
        "each"
    } else if i == 103 {
        "fold"
    } else if i == 104 {
        "byte_size"
    } else if i == 105 {
        "starts_with"
    } else if i == 106 {
        "ends_with"
    } else if i == 107 {
        "substring"
    } else if i == 108 {
        "to_upper"
    } else if i == 109 {
        "to_lower"
    } else if i == 110 {
        "trim"
    } else if i == 111 {
        "repeat"
    } else if i == 112 {
        "replace"
    } else if i == 113 {
        "split"
    } else if i == 114 {
        "chars"
    } else if i == 115 {
        "bytes"
    } else if i == 116 {
        "MIN"
    } else if i == 117 {
        "MAX"
    } else if i == 118 {
        "INFINITY"
    } else if i == 119 {
        "NEG_INFINITY"
    } else if i == 120 {
        "NAN"
    } else if i == 121 {
        "is_nan"
    } else if i == 122 {
        "is_infinite"
    } else if i == 123 {
        "is_finite"
    } else if i == 124 {
        "print"
    } else if i == 125 {
        "println"
    } else if i == 126 {
        "panic"
    } else if i == 127 {
        "panic_with"
    } else if i == 128 {
        "exit"
    } else if i == 129 {
        "List"
    } else if i == 130 {
        "Map"
    } else if i == 131 {
        "Entry"
    } else if i == 132 {
        "Future"
    } else if i == 133 {
        "Ready"
    } else if i == 134 {
        "Item"
    } else if i == 135 {
        "Done"
    } else if i == 136 {
        "Sender"
    } else if i == 137 {
        "Receiver"
    } else if i == 138 {
        "JoinHandle"
    } else if i == 139 {
        "Joined"
    } else if i == 140 {
        "Panicked"
    } else if i == 141 {
        "LockBusy"
    } else if i == 142 {
        "FromResidual"
    } else if i == 143 {
        "Try"
    } else if i == 144 {
        "Hash"
    } else if i == 145 {
        "TimedOut"
    } else if i == 146 {
        "ListIter"
    } else if i == 147 {
        "MapKeys"
    } else if i == 148 {
        "MapValues"
    } else if i == 149 {
        "MapEntries"
    } else if i == 150 {
        "StrChars"
    } else if i == 151 {
        "StrBytes"
    } else if i == 152 {
        "Cancelled"
    } else if i == 153 {
        "block_on"
    } else if i == 154 {
        "wrapping_add"
    } else if i == 155 {
        "wrapping_sub"
    } else if i == 156 {
        "wrapping_mul"
    } else if i == 157 {
        "wrapping_div"
    } else if i == 158 {
        "wrapping_rem"
    } else if i == 159 {
        "wrapping_neg"
    } else if i == 160 {
        "wrapping_shl"
    } else if i == 161 {
        "wrapping_shr"
    } else if i == 162 {
        "saturating_add"
    } else if i == 163 {
        "saturating_sub"
    } else if i == 164 {
        "saturating_mul"
    } else if i == 165 {
        "saturating_div"
    } else if i == 166 {
        "saturating_rem"
    } else if i == 167 {
        "saturating_neg"
    } else if i == 168 {
        "saturating_shl"
    } else if i == 169 {
        "saturating_shr"
    } else if i == 170 {
        "checked_add"
    } else if i == 171 {
        "checked_sub"
    } else if i == 172 {
        "checked_mul"
    } else if i == 173 {
        "checked_div"
    } else if i == 174 {
        "checked_rem"
    } else if i == 175 {
        "checked_neg"
    } else if i == 176 {
        "checked_shl"
    } else if i == 177 {
        "checked_shr"
    } else if i == 178 {
        "overflowing_add"
    } else if i == 179 {
        "overflowing_sub"
    } else if i == 180 {
        "overflowing_mul"
    } else if i == 181 {
        "overflowing_div"
    } else if i == 182 {
        "overflowing_rem"
    } else if i == 183 {
        "overflowing_neg"
    } else if i == 184 {
        "overflowing_shl"
    } else if i == 185 {
        "overflowing_shr"
    } else if i == 186 {
        " }"
    } else if i == 187 {
        ", "
    } else if i == 188 {
        "("
    } else if i == 189 {
        ")"
    } else {
        ""
    }
}

} // verus!
