//! Prepared statements and the columns they return.

use vstd::prelude::*;
use crate::types::{Type, TypeView};

verus! {

/// A prepared statement: its name, the types of its parameters with the
/// codec type that binds each, and its columns.
#[derive(Debug)]
pub struct Statement {
    name: String,
    params: Vec<Type>,
    param_codec_types: Vec<Option<Type>>,
    columns: Vec<Column>,
}

/// Information about a column of a query.
#[derive(Debug)]
pub struct Column {
    name: String,
    table_oid: Option<u32>,
    column_id: Option<i16>,
    type_modifier: i32,
    type_: Type,
    codec_type: Option<Type>,
}

impl Statement {
    /// There is one codec entry per parameter.
    #[verifier::type_invariant]
    closed spec fn aligned(self) -> bool {
        self.params@.len() == self.param_codec_types@.len()
    }

    /// The statement's name; the unnamed statement has the empty name.
    pub closed spec fn spec_name(&self) -> Seq<char> {
        self.name@
    }

    /// The parameter types.
    pub closed spec fn spec_params(&self) -> Seq<Type> {
        self.params@
    }

    /// The codec type of each parameter, if it has one.
    pub closed spec fn spec_param_codec_types(&self) -> Seq<Option<Type>> {
        self.param_codec_types@
    }

    /// The columns.
    pub closed spec fn spec_columns(&self) -> Seq<Column> {
        self.columns@
    }

    /// Creates a named statement; there must be one codec entry per parameter.
    pub fn new(name: String, params: Vec<Type>, param_codec_types: Vec<Option<Type>>, columns: Vec<Column>) -> (r: Statement)
        requires
            params@.len() == param_codec_types@.len(),
        ensures
            r.spec_name() == name@,
            r.spec_params() == params@,
            r.spec_param_codec_types() == param_codec_types@,
            r.spec_columns() == columns@,
    {
        Statement { name, params, param_codec_types, columns }
    }

    /// Creates the unnamed statement, whose parameters have no codec types.
    pub fn unnamed(params: Vec<Type>, columns: Vec<Column>) -> (r: Statement)
        ensures
            r.spec_name() == Seq::<char>::empty(),
            r.spec_params() == params@,
            r.spec_param_codec_types().len() == params@.len(),
            forall|i: int| 0 <= i < params@.len() ==> #[trigger] r.spec_param_codec_types()[i] is None,
            r.spec_columns() == columns@,
    {
        let n = params.len();
        let mut param_codec_types: Vec<Option<Type>> = Vec::new();
        let mut i: usize = 0;
        while i < n
            invariant
                i <= n,
                param_codec_types@.len() == i,
                forall|j: int| 0 <= j < i ==> #[trigger] param_codec_types@[j] is None,
            decreases n - i,
        {
            param_codec_types.push(None);
            i = i + 1;
        }
        Statement { name: String::new(), params, param_codec_types, columns }
    }

    /// Returns the statement's name.
    pub fn name(&self) -> (r: &str)
        ensures
            r@ == self.spec_name(),
    {
        self.name.as_str()
    }

    /// Returns the expected types of the statement's parameters.
    pub fn params(&self) -> (r: &[Type])
        ensures
            r@ == self.spec_params(),
            r@.len() == self.spec_param_codec_types().len(),
    {
        proof {
            use_type_invariant(self);
        }
        self.params.as_slice()
    }

    /// Returns the codec type of each parameter, if it has one.
    pub fn param_codec_types(&self) -> (r: &[Option<Type>])
        ensures
            r@ == self.spec_param_codec_types(),
            r@.len() == self.spec_params().len(),
    {
        proof {
            use_type_invariant(self);
        }
        self.param_codec_types.as_slice()
    }

    /// Returns information about the columns returned when the statement is
    /// queried.
    pub fn columns(&self) -> (r: &[Column])
        ensures
            r@ == self.spec_columns(),
    {
        self.columns.as_slice()
    }
}

impl Column {
    /// Creates the description of a column.
    pub fn new(
        name: String,
        table_oid: Option<u32>,
        column_id: Option<i16>,
        type_modifier: i32,
        type_: Type,
        codec_type: Option<Type>,
    ) -> (r: Column)
        ensures
            r.spec_name() == name@,
            r.spec_table_oid() == table_oid,
            r.spec_column_id() == column_id,
            r.spec_type_modifier() == type_modifier,
            r.spec_type() == type_@,
            r.spec_codec_type() == codec_type,
    {
        Column { name, table_oid, column_id, type_modifier, type_, codec_type }
    }

    /// The name of the column.
    pub closed spec fn spec_name(&self) -> Seq<char> {
        self.name@
    }

    /// The OID of the underlying table.
    pub closed spec fn spec_table_oid(&self) -> Option<u32> {
        self.table_oid
    }

    /// The column ID within the underlying table.
    pub closed spec fn spec_column_id(&self) -> Option<i16> {
        self.column_id
    }

    /// The type modifier.
    pub closed spec fn spec_type_modifier(&self) -> i32 {
        self.type_modifier
    }

    /// The type of the column.
    pub closed spec fn spec_type(&self) -> TypeView {
        self.type_@
    }

    /// The codec type that reads the column, if it has one.
    pub closed spec fn spec_codec_type(&self) -> Option<Type> {
        self.codec_type
    }

    /// Returns the name of the column.
    pub fn name(&self) -> (r: &str)
        ensures
            r@ == self.spec_name(),
    {
        self.name.as_str()
    }

    /// Returns the OID of the underlying database table.
    pub fn table_oid(&self) -> (r: Option<u32>)
        ensures
            r == self.spec_table_oid(),
    {
        self.table_oid
    }

    /// Return the column ID within the underlying database table.
    pub fn column_id(&self) -> (r: Option<i16>)
        ensures
            r == self.spec_column_id(),
    {
        self.column_id
    }

    /// Return the type modifier.
    pub fn type_modifier(&self) -> (r: i32)
        ensures
            r == self.spec_type_modifier(),
    {
        self.type_modifier
    }

    /// Returns the type of the column.
    pub fn type_(&self) -> (r: &Type)
        ensures
            r@ == self.spec_type(),
    {
        &self.type_
    }

    /// Returns the codec type that reads the column, if it has one.
    pub fn codec_type(&self) -> (r: Option<&Type>)
        ensures
            match self.spec_codec_type() {
                Some(t) => r matches Some(c) && *c == t,
                None => r is None,
            },
    {
        self.codec_type.as_ref()
    }
}

} // verus!
