//! Plans of the statements on named file formats, and the schemas of their
//! results.
use std::sync::Arc;
use vstd::prelude::*;
use crate::schema::{DataField, DataSchema, DataType};

verus! {

/// Drop a named file format.
#[derive(Clone, Debug, PartialEq, Eq)]
pub struct DropFileFormatPlan {
    pub if_exists: bool,
    pub name: String,
}

impl DropFileFormatPlan {
    /// Dropping returns no rows: the schema has no fields.
    pub fn schema(&self) -> (r: Arc<DataSchema>)
        ensures
            r.fields@.len() == 0,
    {
        Arc::new(DataSchema::empty())
    }
}

/// List the named file formats.
#[derive(Clone, Debug, PartialEq, Eq)]
pub struct ShowFileFormatsPlan {}

impl ShowFileFormatsPlan {
    /// One row per format: its name and its options, both strings.
    pub fn schema(&self) -> (r: Arc<DataSchema>)
        ensures
            r.fields@.len() == 2,
            r.fields@[0].name@ == "name"@,
            r.fields@[0].data_type == DataType::String,
            r.fields@[1].name@ == "format_options"@,
            r.fields@[1].data_type == DataType::String,
    {
        Arc::new(
            DataSchema::new(
                vec![
                    DataField::new("name", DataType::String),
                    DataField::new("format_options", DataType::String),
                ],
            ),
        )
    }
}

} // verus!
