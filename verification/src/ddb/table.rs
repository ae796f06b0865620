//! What a table is made with, and the states that the store reports of one.
use vstd::prelude::*;

verus! {

/// The kind of a key attribute.
#[derive(Debug, Clone, Copy, PartialEq, Eq, Structural)]
pub enum ScalarType {
    /// A string.
    S,
    /// A number.
    N,
    /// Binary data.
    B,
}

/// The state that the store reports of a table.
#[derive(Debug, Clone, Copy, PartialEq, Eq, Structural)]
pub enum TableStatus {
    Creating,
    Updating,
    Deleting,
    Active,
    InaccessibleEncryptionCredentials,
    Archiving,
    Archived,
    /// A state that this library has no name for.
    Unknown,
}

/// What a table is made with: its name, its partition key (the hash key of its
/// key schema), its sort key (the range key), and its provisioned throughput.
#[derive(Debug, PartialEq, Eq)]
pub struct TableDescriptor {
    pub table_name: String,
    pub partition_key: String,
    pub partition_key_type: ScalarType,
    pub sort_key: String,
    pub sort_key_type: ScalarType,
    pub read_capacity: i64,
    pub write_capacity: i64,
}

/// What a [`TableDescriptor`] is, as a mathematical value.
pub struct TableDescriptorView {
    pub table_name: Seq<char>,
    pub partition_key: Seq<char>,
    pub partition_key_type: ScalarType,
    pub sort_key: Seq<char>,
    pub sort_key_type: ScalarType,
    pub read_capacity: int,
    pub write_capacity: int,
}

impl TableDescriptorView {
    /// Whether a table can be made with this: the two keys have different
    /// names, and both capacities are positive.
    pub open spec fn valid(self) -> bool {
        &&& self.partition_key != self.sort_key
        &&& self.read_capacity > 0
        &&& self.write_capacity > 0
    }
}

impl View for TableDescriptor {
    type V = TableDescriptorView;

    open spec fn view(&self) -> TableDescriptorView {
        TableDescriptorView {
            table_name: self.table_name@,
            partition_key: self.partition_key@,
            partition_key_type: self.partition_key_type,
            sort_key: self.sort_key@,
            sort_key_type: self.sort_key_type,
            read_capacity: self.read_capacity as int,
            write_capacity: self.write_capacity as int,
        }
    }
}

impl TableDescriptor {
    /// Whether a table can be made with this descriptor.
    pub fn is_valid(&self) -> (valid: bool)
        ensures
            valid == self@.valid(),
    {
        !(self.partition_key == self.sort_key) && self.read_capacity > 0 && self.write_capacity > 0
    }

    /// A copy of this descriptor.
    pub fn duplicate(&self) -> (copy: TableDescriptor)
        ensures
            copy@ == self@,
    {
        TableDescriptor {
            table_name: self.table_name.clone(),
            partition_key: self.partition_key.clone(),
            partition_key_type: self.partition_key_type,
            sort_key: self.sort_key.clone(),
            sort_key_type: self.sort_key_type,
            read_capacity: self.read_capacity,
            write_capacity: self.write_capacity,
        }
    }
}

} // verus!
