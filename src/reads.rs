use std::time::Duration;
use vstd::prelude::*;

use crate::status::{error_to_status, status_of, Status, StorageError};

verus! {

/// An alias and the collection it points to.
#[derive(Clone, Debug, PartialEq, Eq)]
pub struct AliasDescription {
    pub alias_name: String,
    pub collection_name: String,
}

/// A list of aliases, with the time the coordinator took.
#[derive(Debug)]
pub struct ListAliasesResponse {
    pub aliases: Vec<AliasDescription>,
    pub time: Duration,
}

/// One collection, by name.
#[derive(Clone, Debug, PartialEq, Eq)]
pub struct CollectionDescription {
    pub name: String,
}

/// The collections there are, with the time the coordinator took.
#[derive(Debug)]
pub struct ListCollectionsResponse {
    pub collections: Vec<CollectionDescription>,
    pub time: Duration,
}

/// One collection's description, with the time the coordinator took.
#[derive(Debug)]
pub struct GetCollectionInfoResponse<T> {
    pub result: T,
    pub time: Duration,
}

/// `out` describes the coordinator's `(alias, collection)` pairs one for one, in order.
pub open spec fn describes_aliases(out: Seq<AliasDescription>, pairs: Seq<(String, String)>) -> bool {
    &&& out.len() == pairs.len()
    &&& forall|i: int|
        0 <= i < out.len() ==> (#[trigger] out[i]).alias_name == pairs[i].0
            && out[i].collection_name == pairs[i].1
}

/// `out` pairs each alias name, in order, with the collection `collection`.
pub open spec fn scoped_aliases(
    out: Seq<AliasDescription>,
    names: Seq<String>,
    collection: String,
) -> bool {
    &&& out.len() == names.len()
    &&& forall|i: int|
        0 <= i < out.len() ==> (#[trigger] out[i]).alias_name == names[i]
            && out[i].collection_name == collection
}

/// `out` names the collections of `names`, one for one, in order.
pub open spec fn describes_collections(out: Seq<CollectionDescription>, names: Seq<String>) -> bool {
    &&& out.len() == names.len()
    &&& forall|i: int| 0 <= i < out.len() ==> (#[trigger] out[i]).name == names[i]
}

/// Describes every alias the coordinator listed as `(alias, collection)` pairs.
pub fn alias_descriptions(pairs: &Vec<(String, String)>) -> (r: Vec<AliasDescription>)
    ensures
        describes_aliases(r@, pairs@),
{
    let mut out: Vec<AliasDescription> = Vec::new();
    let mut i: usize = 0;
    while i < pairs.len()
        invariant
            i <= pairs@.len(),
            describes_aliases(out@, pairs@.subrange(0, i as int)),
        decreases pairs@.len() - i,
    {
        let (alias, collection) = &pairs[i];
        out.push(AliasDescription { alias_name: alias.clone(), collection_name: collection.clone() });
        i += 1;
    }
    assert(pairs@.subrange(0, pairs@.len() as int) =~= pairs@);
    out
}

/// Describes each alias name as pointing to `collection_name`, the collection the
/// caller asked about, whatever the coordinator holds for it.
pub fn collection_alias_descriptions(collection_name: &String, names: &Vec<String>) -> (r: Vec<
    AliasDescription,
>)
    ensures
        scoped_aliases(r@, names@, *collection_name),
{
    let mut out: Vec<AliasDescription> = Vec::new();
    let mut i: usize = 0;
    while i < names.len()
        invariant
            i <= names@.len(),
            scoped_aliases(out@, names@.subrange(0, i as int), *collection_name),
        decreases names@.len() - i,
    {
        out.push(
            AliasDescription { alias_name: names[i].clone(), collection_name: collection_name.clone() },
        );
        i += 1;
    }
    assert(names@.subrange(0, names@.len() as int) =~= names@);
    out
}

/// Describes each collection name.
pub fn collection_descriptions(names: &Vec<String>) -> (r: Vec<CollectionDescription>)
    ensures
        describes_collections(r@, names@),
{
    let mut out: Vec<CollectionDescription> = Vec::new();
    let mut i: usize = 0;
    while i < names.len()
        invariant
            i <= names@.len(),
            describes_collections(out@, names@.subrange(0, i as int)),
        decreases names@.len() - i,
    {
        out.push(CollectionDescription { name: names[i].clone() });
        i += 1;
    }
    assert(names@.subrange(0, names@.len() as int) =~= names@);
    out
}

/// Shapes the coordinator's listing of every alias, or classifies its failure.
pub fn aliases_response(
    elapsed: Duration,
    outcome: Result<Vec<(String, String)>, StorageError>,
) -> (r: Result<ListAliasesResponse, Status>)
    ensures
        match outcome {
            Ok(pairs) => r is Ok && describes_aliases(r->Ok_0.aliases@, pairs@) && r->Ok_0.time
                == elapsed,
            Err(e) => r == Err::<ListAliasesResponse, Status>(status_of(e)),
        },
{
    match outcome {
        Ok(pairs) => Ok(ListAliasesResponse { aliases: alias_descriptions(&pairs), time: elapsed }),
        Err(e) => Err(error_to_status(e)),
    }
}

/// Shapes the coordinator's listing of one collection's aliases, each paired with
/// the requested `collection_name`, or classifies its failure.
pub fn collection_aliases_response(
    collection_name: &String,
    elapsed: Duration,
    outcome: Result<Vec<String>, StorageError>,
) -> (r: Result<ListAliasesResponse, Status>)
    ensures
        match outcome {
            Ok(names) => r is Ok && scoped_aliases(r->Ok_0.aliases@, names@, *collection_name)
                && r->Ok_0.time == elapsed,
            Err(e) => r == Err::<ListAliasesResponse, Status>(status_of(e)),
        },
{
    match outcome {
        Ok(names) => Ok(
            ListAliasesResponse {
                aliases: collection_alias_descriptions(collection_name, &names),
                time: elapsed,
            },
        ),
        Err(e) => Err(error_to_status(e)),
    }
}

/// Shapes the coordinator's listing of collection names, or classifies its failure.
pub fn collections_response(
    elapsed: Duration,
    outcome: Result<Vec<String>, StorageError>,
) -> (r: Result<ListCollectionsResponse, Status>)
    ensures
        match outcome {
            Ok(names) => r is Ok && describes_collections(r->Ok_0.collections@, names@)
                && r->Ok_0.time == elapsed,
            Err(e) => r == Err::<ListCollectionsResponse, Status>(status_of(e)),
        },
{
    match outcome {
        Ok(names) => Ok(
            ListCollectionsResponse { collections: collection_descriptions(&names), time: elapsed },
        ),
        Err(e) => Err(error_to_status(e)),
    }
}

/// Wraps a collection's description with the time the coordinator took, or
/// classifies its failure.
pub fn collection_info_response<T>(elapsed: Duration, outcome: Result<T, StorageError>) -> (r: Result<
    GetCollectionInfoResponse<T>,
    Status,
>)
    ensures
        match outcome {
            Ok(info) => r == Ok::<GetCollectionInfoResponse<T>, Status>(
                GetCollectionInfoResponse { result: info, time: elapsed },
            ),
            Err(e) => r == Err::<GetCollectionInfoResponse<T>, Status>(status_of(e)),
        },
{
    match outcome {
        Ok(info) => Ok(GetCollectionInfoResponse { result: info, time: elapsed }),
        Err(e) => Err(error_to_status(e)),
    }
}

} // verus!
