//! Operation outputs that carry vector-index metadata parsed from the
//! response beside the generated SDK output.
use vstd::prelude::*;

use aws_sdk_dynamodb::operation::create_table::CreateTableOutput;
use aws_sdk_dynamodb::operation::describe_table::DescribeTableOutput;

use crate::vector::VectorIndex;

verus! {

#[verifier::external_type_specification]
#[verifier::external_body]
pub struct ExDescribeTableOutput(DescribeTableOutput);

#[verifier::external_type_specification]
#[verifier::external_body]
pub struct ExCreateTableOutput(CreateTableOutput);

/// The SDK's derived `Clone` of [DescribeTableOutput]; nothing is claimed of
/// the copy it returns.
pub assume_specification[ <DescribeTableOutput as Clone>::clone ](
    output: &DescribeTableOutput,
) -> DescribeTableOutput;

/// The SDK's derived `Clone` of [CreateTableOutput]; nothing is claimed of
/// the copy it returns.
pub assume_specification[ <CreateTableOutput as Clone>::clone ](
    output: &CreateTableOutput,
) -> CreateTableOutput;

/// Wraps a generated [DescribeTableOutput], adding parsed
/// `Table.VectorIndexes` metadata.
#[derive(Debug, Clone)]
pub struct DescribeTableWithVectorIndexes {
    output: DescribeTableOutput,
    pub vector_indexes: Vec<VectorIndex>,
}

impl DescribeTableWithVectorIndexes {
    /// The generated output this value wraps.
    pub closed spec fn output(&self) -> DescribeTableOutput {
        self.output
    }

    /// The vector indexes this value carries.
    pub closed spec fn indexes(&self) -> Vec<VectorIndex> {
        self.vector_indexes
    }

    pub fn new(output: DescribeTableOutput, vector_indexes: Vec<VectorIndex>) -> (r: Self)
        ensures
            r.output() == output,
            r.indexes() == vector_indexes,
    {
        DescribeTableWithVectorIndexes { output, vector_indexes }
    }

    /// Consumes this value, returning the generated [DescribeTableOutput].
    /// Rust does not perform this conversion implicitly.
    pub fn into_inner(self) -> (r: DescribeTableOutput)
        ensures
            r == self.output(),
    {
        self.output
    }

    /// Borrows the generated [DescribeTableOutput].
    pub fn as_inner(&self) -> (r: &DescribeTableOutput)
        ensures
            *r == self.output(),
    {
        &self.output
    }
}

impl From<DescribeTableWithVectorIndexes> for DescribeTableOutput {
    fn from(value: DescribeTableWithVectorIndexes) -> (r: Self)
        ensures
            r == value.output(),
    {
        value.output
    }
}

impl vstd::std_specs::convert::FromSpecImpl<DescribeTableWithVectorIndexes> for DescribeTableOutput {
    open spec fn obeys_from_spec() -> bool {
        true
    }

    open spec fn from_spec(value: DescribeTableWithVectorIndexes) -> Self {
        value.output()
    }
}

/// Wraps a generated [CreateTableOutput], adding parsed
/// `TableDescription.VectorIndexes` metadata.
#[derive(Debug, Clone)]
pub struct CreateTableWithVectorIndexes {
    output: CreateTableOutput,
    pub vector_indexes: Vec<VectorIndex>,
}

impl CreateTableWithVectorIndexes {
    /// The generated output this value wraps.
    pub closed spec fn output(&self) -> CreateTableOutput {
        self.output
    }

    /// The vector indexes this value carries.
    pub closed spec fn indexes(&self) -> Vec<VectorIndex> {
        self.vector_indexes
    }

    pub fn new(output: CreateTableOutput, vector_indexes: Vec<VectorIndex>) -> (r: Self)
        ensures
            r.output() == output,
            r.indexes() == vector_indexes,
    {
        CreateTableWithVectorIndexes { output, vector_indexes }
    }

    /// Consumes this value, returning the generated [CreateTableOutput].
    /// Rust does not perform this conversion implicitly.
    pub fn into_inner(self) -> (r: CreateTableOutput)
        ensures
            r == self.output(),
    {
        self.output
    }

    /// Borrows the generated [CreateTableOutput].
    pub fn as_inner(&self) -> (r: &CreateTableOutput)
        ensures
            *r == self.output(),
    {
        &self.output
    }
}

impl From<CreateTableWithVectorIndexes> for CreateTableOutput {
    fn from(value: CreateTableWithVectorIndexes) -> (r: Self)
        ensures
            r == value.output(),
    {
        value.output
    }
}

impl vstd::std_specs::convert::FromSpecImpl<CreateTableWithVectorIndexes> for CreateTableOutput {
    open spec fn obeys_from_spec() -> bool {
        true
    }

    open spec fn from_spec(value: CreateTableWithVectorIndexes) -> Self {
        value.output()
    }
}

} // verus!
