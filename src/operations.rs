use vstd::prelude::*;

use crate::status::{Code, Status};

verus! {

/// Metric a collection's vectors are compared by.
#[derive(Clone, Copy, Debug, PartialEq, Eq, Structural)]
pub enum Distance {
    Cosine,
    Euclid,
    Dot,
    Manhattan,
}

/// Vector storage settings of a new collection; `size` is never zero.
#[derive(Clone, Copy, Debug, PartialEq, Eq, Structural)]
pub struct VectorsConfig {
    pub size: u64,
    pub distance: Distance,
}

/// Changes to a collection's parameters; a factor that is present is never zero.
#[derive(Clone, Copy, Debug, PartialEq, Eq, Structural)]
pub struct ParamsDiff {
    pub replication_factor: Option<u32>,
    pub write_consistency_factor: Option<u32>,
}

/// One change to the alias table.
#[derive(Clone, Debug, PartialEq, Eq)]
pub enum AliasOperation {
    CreateAlias { collection_name: String, alias_name: String },
    DeleteAlias { alias_name: String },
    RenameAlias { old_alias_name: String, new_alias_name: String },
}

impl AliasOperation {
    /// A copy equal to `self`.
    pub fn duplicate(&self) -> (r: AliasOperation)
        ensures
            r == *self,
    {
        match self {
            AliasOperation::CreateAlias { collection_name, alias_name } => AliasOperation::CreateAlias {
                collection_name: collection_name.clone(),
                alias_name: alias_name.clone(),
            },
            AliasOperation::DeleteAlias { alias_name } => AliasOperation::DeleteAlias {
                alias_name: alias_name.clone(),
            },
            AliasOperation::RenameAlias { old_alias_name, new_alias_name } => AliasOperation::RenameAlias {
                old_alias_name: old_alias_name.clone(),
                new_alias_name: new_alias_name.clone(),
            },
        }
    }
}

/// The unit of work the coordinator applies.
#[derive(Clone, Debug, PartialEq, Eq)]
pub enum CollectionMetaOperation {
    CreateCollection { collection_name: String, config: VectorsConfig },
    UpdateCollection { collection_name: String, params: Option<ParamsDiff> },
    DeleteCollection { collection_name: String },
    ChangeAliases { actions: Vec<AliasOperation> },
}

/// Mathematical value of a `CollectionMetaOperation`.
pub enum OperationModel {
    CreateCollection { collection_name: String, config: VectorsConfig },
    UpdateCollection { collection_name: String, params: Option<ParamsDiff> },
    DeleteCollection { collection_name: String },
    ChangeAliases { actions: Seq<AliasOperation> },
}

impl View for CollectionMetaOperation {
    type V = OperationModel;

    open spec fn view(&self) -> OperationModel {
        match self {
            CollectionMetaOperation::CreateCollection { collection_name, config } =>
                OperationModel::CreateCollection { collection_name: *collection_name, config: *config },
            CollectionMetaOperation::UpdateCollection { collection_name, params } =>
                OperationModel::UpdateCollection { collection_name: *collection_name, params: *params },
            CollectionMetaOperation::DeleteCollection { collection_name } =>
                OperationModel::DeleteCollection { collection_name: *collection_name },
            CollectionMetaOperation::ChangeAliases { actions } =>
                OperationModel::ChangeAliases { actions: actions@ },
        }
    }
}

/// Why a request has no internal operation.
#[derive(Clone, Copy, Debug, PartialEq, Eq, Structural)]
pub enum ConversionError {
    MissingVectorsConfig,
    ZeroVectorSize,
    UnknownDistance { code: i32 },
    ZeroReplicationFactor,
    ZeroWriteConsistencyFactor,
    MalformedAliasOperation,
}

impl ConversionError {
    pub open spec fn spec_message(self) -> Seq<char> {
        match self {
            ConversionError::MissingVectorsConfig => "vectors config is required"@,
            ConversionError::ZeroVectorSize => "vector size must be greater than zero"@,
            ConversionError::UnknownDistance { .. } => "unknown distance"@,
            ConversionError::ZeroReplicationFactor => "replication factor must be greater than zero"@,
            ConversionError::ZeroWriteConsistencyFactor =>
                "write consistency factor must be greater than zero"@,
            ConversionError::MalformedAliasOperation => "malformed alias operation"@,
        }
    }

    /// A conversion failure is always reported as an invalid argument.
    pub fn to_status(self) -> (r: Status)
        ensures
            r.code == Code::InvalidArgument,
            r.message@ == self.spec_message(),
    {
        let message = match self {
            ConversionError::MissingVectorsConfig => "vectors config is required".to_owned(),
            ConversionError::ZeroVectorSize => "vector size must be greater than zero".to_owned(),
            ConversionError::UnknownDistance { .. } => "unknown distance".to_owned(),
            ConversionError::ZeroReplicationFactor =>
                "replication factor must be greater than zero".to_owned(),
            ConversionError::ZeroWriteConsistencyFactor =>
                "write consistency factor must be greater than zero".to_owned(),
            ConversionError::MalformedAliasOperation => "malformed alias operation".to_owned(),
        };
        Status { code: Code::InvalidArgument, message }
    }
}

} // verus!
