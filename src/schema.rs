//! Table schemas: the ordered fields of a table, by name and type.
use vstd::prelude::*;

verus! {

/// The type of a field's values.
#[derive(Clone, Copy, Debug, PartialEq, Eq, Structural)]
pub enum DataType {
    Null,
    Boolean,
    Int64,
    UInt64,
    String,
}

/// One field of a schema.
#[derive(Debug, PartialEq, Eq)]
pub struct DataField {
    pub name: String,
    pub data_type: DataType,
}

impl DataField {
    pub fn new(name: &str, data_type: DataType) -> (r: DataField)
        ensures
            r.name@ == name@,
            r.data_type == data_type,
    {
        DataField { name: String::from_str(name), data_type }
    }
}

impl Clone for DataField {
    fn clone(&self) -> (r: DataField)
        ensures
            r == *self,
    {
        DataField { name: self.name.clone(), data_type: self.data_type }
    }
}

/// An ordered list of fields.
#[derive(Debug, PartialEq, Eq)]
pub struct DataSchema {
    pub fields: Vec<DataField>,
}

impl DataSchema {
    /// The schema with no fields.
    pub fn empty() -> (r: DataSchema)
        ensures
            r.fields@.len() == 0,
    {
        DataSchema { fields: Vec::new() }
    }

    pub fn new(fields: Vec<DataField>) -> (r: DataSchema)
        ensures
            r.fields@ == fields@,
    {
        DataSchema { fields }
    }
}

impl Clone for DataSchema {
    fn clone(&self) -> (r: DataSchema)
        ensures
            r.fields@ == self.fields@,
    {
        let mut fields: Vec<DataField> = Vec::new();
        let mut i: usize = 0;
        while i < self.fields.len()
            invariant
                0 <= i <= self.fields.len(),
                fields@ == self.fields@.subrange(0, i as int),
            decreases self.fields.len() - i,
        {
            fields.push(self.fields[i].clone());
            i = i + 1;
            assert(fields@ =~= self.fields@.subrange(0, i as int));
        }
        assert(fields@ =~= self.fields@);
        DataSchema { fields }
    }
}

} // verus!
