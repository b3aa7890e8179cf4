//! A package with one item of each kind.
use vstd::prelude::*;
use vstd::string::*;
use crate::text::cat;

verus! {

/// A simple struct.
#[derive(Debug)]
pub struct TestStruct {
    pub field1: String,
    pub field2: i32,
}

impl TestStruct {
    /// A struct from its two fields.
    pub fn new(field1: String, field2: i32) -> (r: TestStruct)
        ensures
            r.field1 == field1,
            r.field2 == field2,
    {
        TestStruct { field1, field2 }
    }

    /// A copy of the struct.
    pub fn clone(&self) -> (r: TestStruct)
        ensures
            r.field1 == self.field1,
            r.field2 == self.field2,
    {
        TestStruct { field1: self.field1.clone(), field2: self.field2 }
    }
}

/// A trait.
pub trait TestTrait {
    fn trait_method(&self) -> String;
}

impl TestTrait for TestStruct {
    fn trait_method(&self) -> String {
        cat("TestStruct: ", self.field1.as_str())
    }
}

/// An enum.
#[derive(Debug, Clone)]
pub enum TestEnum {
    Variant1,
    Variant2(String),
    Variant3 { field: i32 },
}

/// A type alias.
pub type TestAlias = Vec<TestStruct>;

/// A constant.
pub const TEST_CONST: i32 = 42;

} // verus!
