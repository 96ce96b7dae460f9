//! Sets of values that a property may take: a range or an enumeration, over one of eight
//! integer types.
use vstd::prelude::*;

verus! {

/// Integer type of the allowed values.
#[derive(Debug, Clone, Copy, PartialEq, Eq, Structural)]
pub enum DataType {
    I8,
    U8,
    I16,
    U16,
    I32,
    U32,
    I64,
    U64,
}

/// The data type that a native type code stands for.
pub open spec fn datatype_of_code(code: u32) -> Option<DataType> {
    if code == 0 {
        Some(DataType::I8)
    } else if code == 1 {
        Some(DataType::U8)
    } else if code == 2 {
        Some(DataType::I16)
    } else if code == 3 {
        Some(DataType::U16)
    } else if code == 4 {
        Some(DataType::I32)
    } else if code == 5 {
        Some(DataType::U32)
    } else if code == 6 {
        Some(DataType::I64)
    } else if code == 7 {
        Some(DataType::U64)
    } else {
        None
    }
}

impl DataType {
    /// Decodes the native type code.
    pub fn from_u32(code: u32) -> (r: Option<DataType>)
        ensures
            r == datatype_of_code(code),
    {
        match code {
            0 => Some(DataType::I8),
            1 => Some(DataType::U8),
            2 => Some(DataType::I16),
            3 => Some(DataType::U16),
            4 => Some(DataType::I32),
            5 => Some(DataType::U32),
            6 => Some(DataType::I64),
            7 => Some(DataType::U64),
            _ => None,
        }
    }
}

/// Allowed values of one integer type: the bounds and step of a range, and the list of an
/// enumeration, as the device reported them.
#[derive(Debug, Clone)]
pub struct Values<T: Copy> {
    max: T,
    min: T,
    step: T,
    vals: Vec<T>,
}

impl<T: Copy> Values<T> {
    pub closed spec fn max_spec(&self) -> T {
        self.max
    }

    pub closed spec fn min_spec(&self) -> T {
        self.min
    }

    pub closed spec fn step_spec(&self) -> T {
        self.step
    }

    pub closed spec fn vals_spec(&self) -> Seq<T> {
        self.vals@
    }

    /// Values as the device reported them.
    pub fn new(max: T, min: T, step: T, vals: Vec<T>) -> (r: Values<T>)
        ensures
            r.max_spec() == max,
            r.min_spec() == min,
            r.step_spec() == step,
            r.vals_spec() == vals@,
    {
        Values { max, min, step, vals }
    }

    /// Upper bound of the range.
    pub fn max(&self) -> (r: T)
        ensures
            r == self.max_spec(),
    {
        self.max
    }

    /// Lower bound of the range.
    pub fn min(&self) -> (r: T)
        ensures
            r == self.min_spec(),
    {
        self.min
    }

    /// Step of the range.
    pub fn step(&self) -> (r: T)
        ensures
            r == self.step_spec(),
    {
        self.step
    }

    /// Values of the enumeration, in the order the device gave them.
    pub fn vals(&self) -> (r: &[T])
        ensures
            r@ == self.vals_spec(),
    {
        self.vals.as_slice()
    }

    /// The same bounds, with no enumeration list.
    fn without_list(self) -> (r: Values<T>)
        ensures
            r.max_spec() == self.max_spec(),
            r.min_spec() == self.min_spec(),
            r.step_spec() == self.step_spec(),
            r.vals_spec() == Seq::<T>::empty(),
    {
        Values { max: self.max, min: self.min, step: self.step, vals: Vec::new() }
    }
}

/// The payload of a constraint set: values of exactly one integer type.
#[derive(Debug, Clone)]
pub enum TypedValues {
    I8(Values<i8>),
    U8(Values<u8>),
    I16(Values<i16>),
    U16(Values<u16>),
    I32(Values<i32>),
    U32(Values<u32>),
    I64(Values<i64>),
    U64(Values<u64>),
}

/// Allowed values of a property: a range (`min`, `max`, `step`) or an enumeration, over
/// one integer type. Only the accessor of that type returns values.
#[derive(Debug, Clone)]
pub struct AllowedValues {
    values: TypedValues,
    is_range: bool,
}

/// The constraint descriptor as the native layer fills it: a type code, a range flag, and
/// one slot per integer type, of which the type code selects one.
#[derive(Debug, Clone)]
pub struct RawAllowedValues {
    pub datatype: u32,
    pub is_range: u16,
    pub i8_values: Values<i8>,
    pub u8_values: Values<u8>,
    pub i16_values: Values<i16>,
    pub u16_values: Values<u16>,
    pub i32_values: Values<i32>,
    pub u32_values: Values<u32>,
    pub i64_values: Values<i64>,
    pub u64_values: Values<u64>,
}

/// The payload `v` was taken from the slot `s`: the same bounds, and the same list unless
/// the set is a range, which keeps no list.
pub open spec fn taken_from<T: Copy>(v: Values<T>, s: Values<T>, range: bool) -> bool {
    &&& v.max_spec() == s.max_spec()
    &&& v.min_spec() == s.min_spec()
    &&& v.step_spec() == s.step_spec()
    &&& v.vals_spec() == (if range { Seq::<T>::empty() } else { s.vals_spec() })
}

impl AllowedValues {
    pub closed spec fn is_range_spec(&self) -> bool {
        self.is_range
    }

    pub closed spec fn payload(&self) -> TypedValues {
        self.values
    }

    pub open spec fn datatype_spec(&self) -> DataType {
        match self.payload() {
            TypedValues::I8(_) => DataType::I8,
            TypedValues::U8(_) => DataType::U8,
            TypedValues::I16(_) => DataType::I16,
            TypedValues::U16(_) => DataType::U16,
            TypedValues::I32(_) => DataType::I32,
            TypedValues::U32(_) => DataType::U32,
            TypedValues::I64(_) => DataType::I64,
            TypedValues::U64(_) => DataType::U64,
        }
    }

    /// Well formed: a range keeps no enumeration list.
    pub open spec fn wf(&self) -> bool {
        self.is_range_spec() ==> match self.payload() {
            TypedValues::I8(v) => v.vals_spec().len() == 0,
            TypedValues::U8(v) => v.vals_spec().len() == 0,
            TypedValues::I16(v) => v.vals_spec().len() == 0,
            TypedValues::U16(v) => v.vals_spec().len() == 0,
            TypedValues::I32(v) => v.vals_spec().len() == 0,
            TypedValues::U32(v) => v.vals_spec().len() == 0,
            TypedValues::I64(v) => v.vals_spec().len() == 0,
            TypedValues::U64(v) => v.vals_spec().len() == 0,
        }
    }

    /// `self` is the decoding of `raw`.
    pub open spec fn decodes(&self, raw: RawAllowedValues) -> bool {
        let range = raw.is_range != 0;
        &&& self.is_range_spec() == range
        &&& datatype_of_code(raw.datatype) == Some(self.datatype_spec())
        &&& match self.payload() {
            TypedValues::I8(v) => taken_from(v, raw.i8_values, range),
            TypedValues::U8(v) => taken_from(v, raw.u8_values, range),
            TypedValues::I16(v) => taken_from(v, raw.i16_values, range),
            TypedValues::U16(v) => taken_from(v, raw.u16_values, range),
            TypedValues::I32(v) => taken_from(v, raw.i32_values, range),
            TypedValues::U32(v) => taken_from(v, raw.u32_values, range),
            TypedValues::I64(v) => taken_from(v, raw.i64_values, range),
            TypedValues::U64(v) => taken_from(v, raw.u64_values, range),
        }
    }

    /// Decodes a native constraint descriptor: reads the type code, then takes the one
    /// slot that it selects. A range keeps its bounds as reported and drops the list; an
    /// enumeration keeps its list in the reported order. `None` for an unknown type code.
    pub fn from_raw(raw: RawAllowedValues) -> (r: Option<AllowedValues>)
        ensures
            datatype_of_code(raw.datatype) is None <==> r is None,
            match r {
                Some(a) => a.decodes(raw) && a.wf(),
                None => true,
            },
    {
        let is_range = raw.is_range != 0;
        let datatype = match DataType::from_u32(raw.datatype) {
            Some(d) => d,
            None => {
                return None;
            },
        };
        let values = match datatype {
            DataType::I8 => TypedValues::I8(
                if is_range { raw.i8_values.without_list() } else { raw.i8_values },
            ),
            DataType::U8 => TypedValues::U8(
                if is_range { raw.u8_values.without_list() } else { raw.u8_values },
            ),
            DataType::I16 => TypedValues::I16(
                if is_range { raw.i16_values.without_list() } else { raw.i16_values },
            ),
            DataType::U16 => TypedValues::U16(
                if is_range { raw.u16_values.without_list() } else { raw.u16_values },
            ),
            DataType::I32 => TypedValues::I32(
                if is_range { raw.i32_values.without_list() } else { raw.i32_values },
            ),
            DataType::U32 => TypedValues::U32(
                if is_range { raw.u32_values.without_list() } else { raw.u32_values },
            ),
            DataType::I64 => TypedValues::I64(
                if is_range { raw.i64_values.without_list() } else { raw.i64_values },
            ),
            DataType::U64 => TypedValues::U64(
                if is_range { raw.u64_values.without_list() } else { raw.u64_values },
            ),
        };
        Some(AllowedValues { values, is_range })
    }

    /// Whether the allowed values are a range (else an enumeration).
    pub fn is_range(&self) -> (r: bool)
        ensures
            r == self.is_range_spec(),
    {
        self.is_range
    }

    /// The integer type of the values.
    pub fn datatype(&self) -> (r: DataType)
        ensures
            r == self.datatype_spec(),
    {
        match &self.values {
            TypedValues::I8(_) => DataType::I8,
            TypedValues::U8(_) => DataType::U8,
            TypedValues::I16(_) => DataType::I16,
            TypedValues::U16(_) => DataType::U16,
            TypedValues::I32(_) => DataType::I32,
            TypedValues::U32(_) => DataType::U32,
            TypedValues::I64(_) => DataType::I64,
            TypedValues::U64(_) => DataType::U64,
        }
    }

    /// The `u8` values; `None` unless the type is `U8`.
    pub fn u8_values(&self) -> (r: Option<&Values<u8>>)
        ensures
            match self.payload() {
                TypedValues::U8(v) => r == Some(&v),
                _ => r is None,
            },
    {
        match &self.values {
            TypedValues::U8(v) => Some(v),
            _ => None,
        }
    }

    /// The `i8` values; `None` unless the type is `I8`.
    pub fn i8_values(&self) -> (r: Option<&Values<i8>>)
        ensures
            match self.payload() {
                TypedValues::I8(v) => r == Some(&v),
                _ => r is None,
            },
    {
        match &self.values {
            TypedValues::I8(v) => Some(v),
            _ => None,
        }
    }

    /// The `u16` values; `None` unless the type is `U16`.
    pub fn u16_values(&self) -> (r: Option<&Values<u16>>)
        ensures
            match self.payload() {
                TypedValues::U16(v) => r == Some(&v),
                _ => r is None,
            },
    {
        match &self.values {
            TypedValues::U16(v) => Some(v),
            _ => None,
        }
    }

    /// The `i16` values; `None` unless the type is `I16`.
    pub fn i16_values(&self) -> (r: Option<&Values<i16>>)
        ensures
            match self.payload() {
                TypedValues::I16(v) => r == Some(&v),
                _ => r is None,
            },
    {
        match &self.values {
            TypedValues::I16(v) => Some(v),
            _ => None,
        }
    }

    /// The `u32` values; `None` unless the type is `U32`.
    pub fn u32_values(&self) -> (r: Option<&Values<u32>>)
        ensures
            match self.payload() {
                TypedValues::U32(v) => r == Some(&v),
                _ => r is None,
            },
    {
        match &self.values {
            TypedValues::U32(v) => Some(v),
            _ => None,
        }
    }

    /// The `i32` values; `None` unless the type is `I32`.
    pub fn i32_values(&self) -> (r: Option<&Values<i32>>)
        ensures
            match self.payload() {
                TypedValues::I32(v) => r == Some(&v),
                _ => r is None,
            },
    {
        match &self.values {
            TypedValues::I32(v) => Some(v),
            _ => None,
        }
    }

    /// The `u64` values; `None` unless the type is `U64`.
    pub fn u64_values(&self) -> (r: Option<&Values<u64>>)
        ensures
            match self.payload() {
                TypedValues::U64(v) => r == Some(&v),
                _ => r is None,
            },
    {
        match &self.values {
            TypedValues::U64(v) => Some(v),
            _ => None,
        }
    }

    /// The `i64` values; `None` unless the type is `I64`.
    pub fn i64_values(&self) -> (r: Option<&Values<i64>>)
        ensures
            match self.payload() {
                TypedValues::I64(v) => r == Some(&v),
                _ => r is None,
            },
    {
        match &self.values {
            TypedValues::I64(v) => Some(v),
            _ => None,
        }
    }
}

impl Default for AllowedValues {
    /// An empty enumeration of `i8` values.
    fn default() -> (r: AllowedValues)
        ensures
            r.datatype_spec() == DataType::I8,
            !r.is_range_spec(),
            r.wf(),
            match r.payload() {
                TypedValues::I8(v) => v.vals_spec().len() == 0 && v.max_spec() == 0
                    && v.min_spec() == 0 && v.step_spec() == 0,
                _ => false,
            },
    {
        AllowedValues {
            values: TypedValues::I8(Values { max: 0, min: 0, step: 0, vals: Vec::new() }),
            is_range: false,
        }
    }
}

/// Which of the eight typed slots holds data, by data type.
pub open spec fn slot_count(a: AllowedValues) -> int {
    (if a.payload() is I8 { 1int } else { 0 }) + (if a.payload() is U8 { 1int } else { 0 }) + (
    if a.payload() is I16 { 1int } else { 0 }) + (if a.payload() is U16 { 1int } else { 0 }) + (
    if a.payload() is I32 { 1int } else { 0 }) + (if a.payload() is U32 { 1int } else { 0 }) + (
    if a.payload() is I64 { 1int } else { 0 }) + (if a.payload() is U64 { 1int } else { 0 })
}

/// Of the eight typed accessors exactly one returns values, the one of the set's data
/// type; and a range carries its bounds with no enumeration list.
pub proof fn lemma_exactly_one_slot(a: AllowedValues)
    requires
        a.wf(),
    ensures
        slot_count(a) == 1,
        a.payload() is I8 <==> a.datatype_spec() == DataType::I8,
        a.payload() is U8 <==> a.datatype_spec() == DataType::U8,
        a.payload() is I16 <==> a.datatype_spec() == DataType::I16,
        a.payload() is U16 <==> a.datatype_spec() == DataType::U16,
        a.payload() is I32 <==> a.datatype_spec() == DataType::I32,
        a.payload() is U32 <==> a.datatype_spec() == DataType::U32,
        a.payload() is I64 <==> a.datatype_spec() == DataType::I64,
        a.payload() is U64 <==> a.datatype_spec() == DataType::U64,
        a.is_range_spec() ==> match a.payload() {
            TypedValues::I8(v) => v.vals_spec().len() == 0,
            TypedValues::U8(v) => v.vals_spec().len() == 0,
            TypedValues::I16(v) => v.vals_spec().len() == 0,
            TypedValues::U16(v) => v.vals_spec().len() == 0,
            TypedValues::I32(v) => v.vals_spec().len() == 0,
            TypedValues::U32(v) => v.vals_spec().len() == 0,
            TypedValues::I64(v) => v.vals_spec().len() == 0,
            TypedValues::U64(v) => v.vals_spec().len() == 0,
        },
{
}

} // verus!
