//! Logical column types, column descriptors, and their mathematical models.

use vstd::prelude::*;

verus! {

/// Granularity of a temporal value.
#[derive(Clone, Copy, Debug, PartialEq, Eq, Structural)]
pub enum TimeUnit {
    Milliseconds,
    Microseconds,
    Nanoseconds,
}

/// The logical type of a column.
#[derive(Debug, PartialEq, Eq)]
pub enum DataType {
    Boolean,
    UInt8,
    UInt16,
    UInt32,
    UInt64,
    Int8,
    Int16,
    Int32,
    Int64,
    Float32,
    Float64,
    Utf8,
    Categorical,
    Date,
    Time,
    /// A point in time, with its unit and an optional time zone name.
    Datetime(TimeUnit, Option<String>),
    Duration(TimeUnit),
    /// A homogeneous list of the element type.
    List(Box<DataType>),
    /// An ordered sequence of named sub-fields.
    Struct(Vec<Field>),
    /// Placeholder for a type about which nothing is known.
    Unknown,
}

/// A column descriptor: a name and a logical type.
#[derive(Debug, PartialEq, Eq)]
pub struct Field {
    pub name: String,
    pub dtype: DataType,
}

/// Mathematical model of a [`DataType`].
pub enum DType {
    Boolean,
    UInt8,
    UInt16,
    UInt32,
    UInt64,
    Int8,
    Int16,
    Int32,
    Int64,
    Float32,
    Float64,
    Utf8,
    Categorical,
    Date,
    Time,
    Datetime(TimeUnit, Option<Seq<char>>),
    Duration(TimeUnit),
    List(Box<DType>),
    Struct(Seq<Column>),
    Unknown,
}

/// Mathematical model of a [`Field`].
pub struct Column {
    pub name: Seq<char>,
    pub dtype: DType,
}

/// The model of an optional time zone name.
pub open spec fn zone_model(tz: Option<String>) -> Option<Seq<char>> {
    match tz {
        Some(z) => Some(z@),
        None => None,
    }
}

/// The model of a logical type.
pub open spec fn dtype_model(d: DataType) -> DType
    decreases d,
{
    match d {
        DataType::Boolean => DType::Boolean,
        DataType::UInt8 => DType::UInt8,
        DataType::UInt16 => DType::UInt16,
        DataType::UInt32 => DType::UInt32,
        DataType::UInt64 => DType::UInt64,
        DataType::Int8 => DType::Int8,
        DataType::Int16 => DType::Int16,
        DataType::Int32 => DType::Int32,
        DataType::Int64 => DType::Int64,
        DataType::Float32 => DType::Float32,
        DataType::Float64 => DType::Float64,
        DataType::Utf8 => DType::Utf8,
        DataType::Categorical => DType::Categorical,
        DataType::Date => DType::Date,
        DataType::Time => DType::Time,
        DataType::Datetime(tu, tz) => DType::Datetime(tu, zone_model(tz)),
        DataType::Duration(tu) => DType::Duration(tu),
        DataType::List(inner) => DType::List(Box::new(dtype_model(*inner))),
        DataType::Struct(fields) => DType::Struct(
            Seq::new(
                fields@.len(),
                |i: int|
                    if 0 <= i < fields@.len() {
                        field_model(fields@[i])
                    } else {
                        arbitrary()
                    },
            ),
        ),
        DataType::Unknown => DType::Unknown,
    }
}

/// The model of a column descriptor.
pub open spec fn field_model(f: Field) -> Column
    decreases f,
{
    Column { name: f.name@, dtype: dtype_model(f.dtype) }
}

impl View for DataType {
    type V = DType;

    open spec fn view(&self) -> DType {
        dtype_model(*self)
    }
}

impl View for Field {
    type V = Column;

    open spec fn view(&self) -> Column {
        field_model(*self)
    }
}

impl Clone for DataType {
    fn clone(&self) -> (r: DataType)
        ensures
            r@ == self@,
        decreases self,
    {
        match self {
            DataType::Boolean => DataType::Boolean,
            DataType::UInt8 => DataType::UInt8,
            DataType::UInt16 => DataType::UInt16,
            DataType::UInt32 => DataType::UInt32,
            DataType::UInt64 => DataType::UInt64,
            DataType::Int8 => DataType::Int8,
            DataType::Int16 => DataType::Int16,
            DataType::Int32 => DataType::Int32,
            DataType::Int64 => DataType::Int64,
            DataType::Float32 => DataType::Float32,
            DataType::Float64 => DataType::Float64,
            DataType::Utf8 => DataType::Utf8,
            DataType::Categorical => DataType::Categorical,
            DataType::Date => DataType::Date,
            DataType::Time => DataType::Time,
            DataType::Datetime(tu, tz) => {
                let zone = match tz {
                    Some(z) => Some(z.clone()),
                    None => None,
                };
                DataType::Datetime(*tu, zone)
            },
            DataType::Duration(tu) => DataType::Duration(*tu),
            DataType::List(inner) => {
                let elem = (**inner).clone();
                DataType::List(Box::new(elem))
            },
            DataType::Struct(fields) => {
                let mut out: Vec<Field> = Vec::new();
                let mut i: usize = 0;
                while i < fields.len()
                    invariant
                        i <= fields.len(),
                        out.len() == i,
                        self == DataType::Struct(*fields),
                        forall|k: int| 0 <= k < i ==> out@[k]@ == fields@[k]@,
                    decreases fields.len() - i,
                {
                    proof {
                        vstd::std_specs::vec::axiom_vec_index_decreases(*fields, i as int);
                        assert(decreases_to!(*self => self->Struct_0));
                    }
                    let f = fields[i].clone();
                    out.push(f);
                    i += 1;
                }
                let r = DataType::Struct(out);
                assert(r@ =~= self@) by {
                    assert(r@->Struct_0 =~= self@->Struct_0);
                }
                r
            },
            DataType::Unknown => DataType::Unknown,
        }
    }
}

impl Clone for Field {
    fn clone(&self) -> (r: Field)
        ensures
            r@ == self@,
        decreases self,
    {
        Field { name: self.name.clone(), dtype: self.dtype.clone() }
    }
}

impl DType {
    /// Integers of either signedness and floating point numbers.
    pub open spec fn is_numeric(self) -> bool {
        self.is_float() || self.is_unsigned() || self.is_signed()
    }

    pub open spec fn is_float(self) -> bool {
        self is Float32 || self is Float64
    }

    pub open spec fn is_unsigned(self) -> bool {
        self is UInt8 || self is UInt16 || self is UInt32 || self is UInt64
    }

    pub open spec fn is_signed(self) -> bool {
        self is Int8 || self is Int16 || self is Int32 || self is Int64
    }

    /// The element type of a list; `Unknown` for anything that is no list.
    pub open spec fn element(self) -> DType {
        match self {
            DType::List(inner) => *inner,
            _ => DType::Unknown,
        }
    }

    /// A list's element type, and a type that is no list taken as it is.
    pub open spec fn unwrapped(self) -> DType {
        match self {
            DType::List(inner) => *inner,
            other => other,
        }
    }
}

impl DataType {
    pub fn is_numeric(&self) -> (r: bool)
        ensures
            r == self@.is_numeric(),
    {
        self.is_float() || self.is_unsigned() || self.is_signed()
    }

    pub fn is_float(&self) -> (r: bool)
        ensures
            r == self@.is_float(),
    {
        match self {
            DataType::Float32 | DataType::Float64 => true,
            _ => false,
        }
    }

    pub fn is_unsigned(&self) -> (r: bool)
        ensures
            r == self@.is_unsigned(),
    {
        match self {
            DataType::UInt8 | DataType::UInt16 | DataType::UInt32 | DataType::UInt64 => true,
            _ => false,
        }
    }

    pub fn is_signed(&self) -> (r: bool)
        ensures
            r == self@.is_signed(),
    {
        match self {
            DataType::Int8 | DataType::Int16 | DataType::Int32 | DataType::Int64 => true,
            _ => false,
        }
    }

    /// The element type of a list, by reference; `None` for anything that is
    /// no list.
    pub fn inner_dtype(&self) -> (r: Option<&DataType>)
        ensures
            match r {
                Some(inner) => *self == DataType::List(Box::new(*inner)),
                None => !(self is List),
            },
    {
        match self {
            DataType::List(inner) => Some(&**inner),
            _ => None,
        }
    }
}

impl Field {
    /// A descriptor with a copy of the given name.
    pub fn new(name: &str, dtype: DataType) -> (r: Field)
        ensures
            r.name@ == name@,
            r.dtype == dtype,
    {
        Field { name: name.to_owned(), dtype }
    }

    /// Replaces the type and keeps the name.
    pub fn coerce(&mut self, dtype: DataType)
        ensures
            final(self).name == old(self).name,
            final(self).dtype == dtype,
    {
        self.dtype = dtype;
    }
}

} // verus!
