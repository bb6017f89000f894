//! The result-set data model: column descriptors, row values, and the table
//! mapping internal column type codes to MySQL wire types and implied flags.

use vstd::prelude::*;

verus! {

/// Internal column type code.
pub type Type = i32;

/// Flag bits implied by a column type on the wire.
#[derive(Clone, Copy, Debug, PartialEq, Eq, Structural)]
pub enum MysqlFlag {
    MysqlUnsigned,
    MysqlBinary,
    MysqlEnum,
    MysqlSet,
}

impl MysqlFlag {
    /// The numeric value of this flag bit.
    pub open spec fn spec_value(self) -> u32 {
        match self {
            MysqlFlag::MysqlUnsigned => 32,
            MysqlFlag::MysqlBinary => 128,
            MysqlFlag::MysqlEnum => 256,
            MysqlFlag::MysqlSet => 2048,
        }
    }

    pub fn value(self) -> (r: u32)
        ensures
            r == self.spec_value(),
    {
        match self {
            MysqlFlag::MysqlUnsigned => 32,
            MysqlFlag::MysqlBinary => 128,
            MysqlFlag::MysqlEnum => 256,
            MysqlFlag::MysqlSet => 2048,
        }
    }
}

/// One cell of a result row: the column type code and the raw payload.
/// A NULL cell has type code 0 and an empty payload.
#[derive(Clone, Debug, Default)]
pub struct Value {
    pub typ: Type,
    pub val: Vec<u8>,
}

impl Value {
    /// Whether this cell is the SQL NULL.
    pub open spec fn spec_is_null(self) -> bool {
        self.typ == 0
    }

    pub fn is_null(&self) -> (r: bool)
        ensures
            r == self.spec_is_null(),
    {
        self.typ == 0
    }
}

/// A column descriptor of a result set.
#[derive(Clone, Debug, Default)]
pub struct Field {
    pub name: Vec<u8>,
    pub typ: Type,
    pub table: Vec<u8>,
    pub org_table: Vec<u8>,
    pub database: Vec<u8>,
    pub org_name: Vec<u8>,
    pub column_len: u32,
    pub charset: u32,
    pub decimals: u32,
    pub flags: u32,
}

/// One segment of a streamed result: either column descriptors or rows, or
/// an affected-rows summary when fields is empty.
#[derive(Clone, Debug, Default)]
pub struct SqlResult {
    pub fields: Vec<Field>,
    pub affected_rows: u64,
    pub insert_id: u64,
    pub rows: Vec<Vec<Value>>,
}

/// The wire type and implied flags of an internal column type code, or None
/// for a code outside the table.
pub open spec fn spec_type_to_mysql(t: Type) -> Option<(i64, i64)> {
    match t {
        257 => Some((1i64, 0i64)),
        770 => Some((1i64, 32i64)),
        259 => Some((2i64, 0i64)),
        772 => Some((2i64, 32i64)),
        263 => Some((3i64, 0i64)),
        776 => Some((3i64, 32i64)),
        1035 => Some((4i64, 0i64)),
        1036 => Some((5i64, 0i64)),
        0 => Some((6i64, 128i64)),
        2061 => Some((7i64, 0i64)),
        265 => Some((8i64, 0i64)),
        778 => Some((8i64, 32i64)),
        261 => Some((9i64, 0i64)),
        774 => Some((9i64, 32i64)),
        2062 => Some((10i64, 128i64)),
        2063 => Some((11i64, 128i64)),
        2064 => Some((12i64, 128i64)),
        785 => Some((13i64, 32i64)),
        2073 => Some((16i64, 32i64)),
        2078 => Some((245i64, 0i64)),
        18 => Some((246i64, 0i64)),
        6163 => Some((252i64, 0i64)),
        10260 => Some((252i64, 128i64)),
        6165 => Some((253i64, 0i64)),
        10262 => Some((253i64, 128i64)),
        6167 => Some((254i64, 0i64)),
        10264 => Some((254i64, 128i64)),
        2074 => Some((254i64, 256i64)),
        2075 => Some((254i64, 2048i64)),
        2077 => Some((255i64, 0i64)),
        _ => None,
    }
}

/// Maps an internal column type code to its MySQL wire type and the flags
/// that type implies.
pub fn type_to_mysql(typ: Type) -> (r: (i64, i64))
    requires
        spec_type_to_mysql(typ) is Some,
    ensures
        Some(r) == spec_type_to_mysql(typ),
{
    match typ {
        257 => (1i64, 0i64),
        770 => (1i64, 32i64),
        259 => (2i64, 0i64),
        772 => (2i64, 32i64),
        263 => (3i64, 0i64),
        776 => (3i64, 32i64),
        1035 => (4i64, 0i64),
        1036 => (5i64, 0i64),
        0 => (6i64, 128i64),
        2061 => (7i64, 0i64),
        265 => (8i64, 0i64),
        778 => (8i64, 32i64),
        261 => (9i64, 0i64),
        774 => (9i64, 32i64),
        2062 => (10i64, 128i64),
        2063 => (11i64, 128i64),
        2064 => (12i64, 128i64),
        785 => (13i64, 32i64),
        2073 => (16i64, 32i64),
        2078 => (245i64, 0i64),
        18 => (246i64, 0i64),
        6163 => (252i64, 0i64),
        10260 => (252i64, 128i64),
        6165 => (253i64, 0i64),
        10262 => (253i64, 128i64),
        6167 => (254i64, 0i64),
        10264 => (254i64, 128i64),
        2074 => (254i64, 256i64),
        2075 => (254i64, 2048i64),
        2077 => (255i64, 0i64),
        _ => (0i64, 0i64),
    }
}


/// Whether an internal column type code stands in the type table.
pub fn type_known(t: Type) -> (r: bool)
    ensures
        r == (spec_type_to_mysql(t) is Some),
{
    match t {
        257 | 770 | 259 | 772 | 263 | 776 | 1035 | 1036 | 0 | 2061 | 265 | 778 | 261 | 774 | 2062 | 2063 | 2064 | 785 | 2073 | 2078 | 18 | 6163 | 10260 | 6165 | 10262 | 6167 | 10264 | 2074 | 2075 | 2077 => true,
        _ => false,
    }
}

} // verus!
