use std::time::Duration;
use vstd::prelude::*;

use crate::operations::{
    AliasOperation, CollectionMetaOperation, ConversionError, Distance, OperationModel, ParamsDiff,
    VectorsConfig,
};
use crate::timeout::{timeout_from_secs, WithTimeout};

verus! {

/// Vector settings as a request states them; `distance` is a wire code.
#[derive(Clone, Copy, Debug, PartialEq, Eq, Structural)]
pub struct VectorParams {
    pub size: u64,
    pub distance: i32,
}

/// Request to create a collection.
#[derive(Clone, Debug)]
pub struct CreateCollection {
    pub collection_name: String,
    pub vectors_config: Option<VectorParams>,
    pub timeout: Option<u64>,
}

/// Parameter changes as a request states them.
#[derive(Clone, Copy, Debug, PartialEq, Eq, Structural)]
pub struct CollectionParamsDiff {
    pub replication_factor: Option<u32>,
    pub write_consistency_factor: Option<u32>,
}

/// Request to change a collection's parameters.
#[derive(Clone, Debug)]
pub struct UpdateCollection {
    pub collection_name: String,
    pub params: Option<CollectionParamsDiff>,
    pub timeout: Option<u64>,
}

/// Request to delete a collection.
#[derive(Clone, Debug)]
pub struct DeleteCollection {
    pub collection_name: String,
    pub timeout: Option<u64>,
}

/// One entry of an alias change request; a well-formed entry holds an action.
#[derive(Clone, Debug)]
pub struct AliasOperations {
    pub action: Option<AliasOperation>,
}

/// Request to apply a list of alias changes together.
#[derive(Clone, Debug)]
pub struct ChangeAliases {
    pub actions: Vec<AliasOperations>,
    pub timeout: Option<u64>,
}

/// Request for one collection's description.
#[derive(Clone, Debug)]
pub struct GetCollectionInfoRequest {
    pub collection_name: String,
}

/// Request for the names of all collections.
#[derive(Clone, Copy, Debug)]
pub struct ListCollectionsRequest {}

/// Request for every alias.
#[derive(Clone, Copy, Debug)]
pub struct ListAliasesRequest {}

/// Request for the aliases of one collection.
#[derive(Clone, Debug)]
pub struct ListCollectionAliasesRequest {
    pub collection_name: String,
}

/// A mutating request that converts into exactly one internal operation, or fails.
pub trait IntoMetaOperation: Sized {
    /// The operation the request stands for, or why it has none.
    spec fn spec_operation(self) -> Result<OperationModel, ConversionError>;

    fn into_operation(self) -> (r: Result<CollectionMetaOperation, ConversionError>)
        ensures
            converted(r, self.spec_operation()),
    ;
}

/// `r` is the executable form of the conversion result `m`.
pub open spec fn converted(
    r: Result<CollectionMetaOperation, ConversionError>,
    m: Result<OperationModel, ConversionError>,
) -> bool {
    match (r, m) {
        (Ok(op), Ok(model)) => op@ == model,
        (Err(e), Err(f)) => e == f,
        _ => false,
    }
}

/// The metric a wire code names: 1 cosine, 2 euclid, 3 dot, 4 manhattan.
pub open spec fn distance_of(code: i32) -> Option<Distance> {
    if code == 1 {
        Some(Distance::Cosine)
    } else if code == 2 {
        Some(Distance::Euclid)
    } else if code == 3 {
        Some(Distance::Dot)
    } else if code == 4 {
        Some(Distance::Manhattan)
    } else {
        None
    }
}

/// Reads a distance wire code.
pub fn distance_from_code(code: i32) -> (r: Option<Distance>)
    ensures
        r == distance_of(code),
{
    if code == 1 {
        Some(Distance::Cosine)
    } else if code == 2 {
        Some(Distance::Euclid)
    } else if code == 3 {
        Some(Distance::Dot)
    } else if code == 4 {
        Some(Distance::Manhattan)
    } else {
        None
    }
}

/// The internal vector settings of `p`, or why it has none.
pub open spec fn vectors_config_of(p: VectorParams) -> Result<VectorsConfig, ConversionError> {
    if p.size == 0 {
        Err(ConversionError::ZeroVectorSize)
    } else {
        match distance_of(p.distance) {
            Some(d) => Ok(VectorsConfig { size: p.size, distance: d }),
            None => Err(ConversionError::UnknownDistance { code: p.distance }),
        }
    }
}

/// The internal parameter changes of `p`, or why it has none.
pub open spec fn params_diff_of(p: CollectionParamsDiff) -> Result<ParamsDiff, ConversionError> {
    if p.replication_factor == Some(0u32) {
        Err(ConversionError::ZeroReplicationFactor)
    } else if p.write_consistency_factor == Some(0u32) {
        Err(ConversionError::ZeroWriteConsistencyFactor)
    } else {
        Ok(
            ParamsDiff {
                replication_factor: p.replication_factor,
                write_consistency_factor: p.write_consistency_factor,
            },
        )
    }
}

/// The alias changes a list of entries stands for: every action in order, or a
/// failure where some entry holds none.
pub open spec fn alias_actions_of(actions: Seq<AliasOperations>) -> Result<
    Seq<AliasOperation>,
    ConversionError,
> {
    if forall|i: int| 0 <= i < actions.len() ==> (#[trigger] actions[i]).action is Some {
        Ok(actions.map_values(|a: AliasOperations| a.action->Some_0))
    } else {
        Err(ConversionError::MalformedAliasOperation)
    }
}

impl VectorParams {
    pub fn to_vectors_config(&self) -> (r: Result<VectorsConfig, ConversionError>)
        ensures
            r == vectors_config_of(*self),
    {
        if self.size == 0 {
            return Err(ConversionError::ZeroVectorSize);
        }
        match distance_from_code(self.distance) {
            Some(d) => Ok(VectorsConfig { size: self.size, distance: d }),
            None => Err(ConversionError::UnknownDistance { code: self.distance }),
        }
    }
}

impl CollectionParamsDiff {
    pub fn to_params_diff(&self) -> (r: Result<ParamsDiff, ConversionError>)
        ensures
            r == params_diff_of(*self),
    {
        if self.replication_factor == Some(0u32) {
            return Err(ConversionError::ZeroReplicationFactor);
        }
        if self.write_consistency_factor == Some(0u32) {
            return Err(ConversionError::ZeroWriteConsistencyFactor);
        }
        Ok(
            ParamsDiff {
                replication_factor: self.replication_factor,
                write_consistency_factor: self.write_consistency_factor,
            },
        )
    }
}

impl WithTimeout for CreateCollection {
    open spec fn timeout_secs(&self) -> Option<u64> {
        self.timeout
    }

    fn wait_timeout(&self) -> (r: Option<Duration>) {
        timeout_from_secs(self.timeout)
    }
}

impl WithTimeout for UpdateCollection {
    open spec fn timeout_secs(&self) -> Option<u64> {
        self.timeout
    }

    fn wait_timeout(&self) -> (r: Option<Duration>) {
        timeout_from_secs(self.timeout)
    }
}

impl WithTimeout for DeleteCollection {
    open spec fn timeout_secs(&self) -> Option<u64> {
        self.timeout
    }

    fn wait_timeout(&self) -> (r: Option<Duration>) {
        timeout_from_secs(self.timeout)
    }
}

impl WithTimeout for ChangeAliases {
    open spec fn timeout_secs(&self) -> Option<u64> {
        self.timeout
    }

    fn wait_timeout(&self) -> (r: Option<Duration>) {
        timeout_from_secs(self.timeout)
    }
}

impl IntoMetaOperation for CreateCollection {
    open spec fn spec_operation(self) -> Result<OperationModel, ConversionError> {
        match self.vectors_config {
            None => Err(ConversionError::MissingVectorsConfig),
            Some(p) => match vectors_config_of(p) {
                Ok(config) => Ok(
                    OperationModel::CreateCollection { collection_name: self.collection_name, config },
                ),
                Err(e) => Err(e),
            },
        }
    }

    fn into_operation(self) -> (r: Result<CollectionMetaOperation, ConversionError>) {
        let p = match self.vectors_config {
            None => return Err(ConversionError::MissingVectorsConfig),
            Some(p) => p,
        };
        match p.to_vectors_config() {
            Ok(config) => Ok(
                CollectionMetaOperation::CreateCollection { collection_name: self.collection_name, config },
            ),
            Err(e) => Err(e),
        }
    }
}

impl IntoMetaOperation for UpdateCollection {
    open spec fn spec_operation(self) -> Result<OperationModel, ConversionError> {
        match self.params {
            None => Ok(
                OperationModel::UpdateCollection { collection_name: self.collection_name, params: None },
            ),
            Some(p) => match params_diff_of(p) {
                Ok(d) => Ok(
                    OperationModel::UpdateCollection {
                        collection_name: self.collection_name,
                        params: Some(d),
                    },
                ),
                Err(e) => Err(e),
            },
        }
    }

    fn into_operation(self) -> (r: Result<CollectionMetaOperation, ConversionError>) {
        let params = match self.params {
            None => None,
            Some(p) => match p.to_params_diff() {
                Ok(d) => Some(d),
                Err(e) => return Err(e),
            },
        };
        Ok(CollectionMetaOperation::UpdateCollection { collection_name: self.collection_name, params })
    }
}

impl IntoMetaOperation for DeleteCollection {
    open spec fn spec_operation(self) -> Result<OperationModel, ConversionError> {
        Ok(OperationModel::DeleteCollection { collection_name: self.collection_name })
    }

    fn into_operation(self) -> (r: Result<CollectionMetaOperation, ConversionError>) {
        Ok(CollectionMetaOperation::DeleteCollection { collection_name: self.collection_name })
    }
}

impl IntoMetaOperation for ChangeAliases {
    open spec fn spec_operation(self) -> Result<OperationModel, ConversionError> {
        match alias_actions_of(self.actions@) {
            Ok(actions) => Ok(OperationModel::ChangeAliases { actions }),
            Err(e) => Err(e),
        }
    }

    fn into_operation(self) -> (r: Result<CollectionMetaOperation, ConversionError>) {
        let mut out: Vec<AliasOperation> = Vec::new();
        let mut i: usize = 0;
        while i < self.actions.len()
            invariant
                i <= self.actions@.len(),
                out@.len() == i,
                forall|j: int|
                    0 <= j < i ==> (#[trigger] self.actions@[j]).action is Some && out@[j]
                        == self.actions@[j].action->Some_0,
            decreases self.actions@.len() - i,
        {
            match &self.actions[i].action {
                None => {
                    proof {
                        assert(!(self.actions@[i as int].action is Some));
                    }
                    return Err(ConversionError::MalformedAliasOperation);
                },
                Some(a) => {
                    out.push(a.duplicate());
                },
            }
            i += 1;
        }
        assert(out@ =~= self.actions@.map_values(|a: AliasOperations| a.action->Some_0));
        Ok(CollectionMetaOperation::ChangeAliases { actions: out })
    }
}

} // verus!
