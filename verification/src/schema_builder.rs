//! Utility for creating schema definitions.
use vstd::prelude::*;

verus! {

/// Accumulates a schema definition string field by field.
pub struct SchemaBuilder {
    pub schema: String,
}

impl SchemaBuilder {
    /// A builder holding the empty schema.
    pub fn new() -> (res: Self)
        ensures
            res.schema@ == Seq::<char>::empty(),
    {
        SchemaBuilder { schema: String::new() }
    }

    /// Appends `field` to the schema built so far.
    pub fn with_field(self, field: &str) -> (res: Self)
        ensures
            res.schema@ == self.schema@ + field@,
    {
        let mut schema = self.schema;
        schema.append(field);
        SchemaBuilder { schema }
    }

    /// The schema built so far.
    pub fn build(self) -> (res: String)
        ensures
            res@ == self.schema@,
    {
        self.schema
    }
}

} // verus!
