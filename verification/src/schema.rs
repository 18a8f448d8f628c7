use vstd::prelude::*;
use crate::abi::{types_decodable, MAX_FIXED_BYTES};
use crate::signature::{event_signature, ParamType};

verus! {

/// The parameters of an event, in their declared order: name, type, and
/// whether the parameter is indexed.
pub type EthEventParams = Vec<(String, ParamType, bool)>;

/// The parameters of an event as mathematical values.
pub type Schema = Seq<(Seq<char>, ParamType, bool)>;

/// The schema that a parameter list stands for.
pub open spec fn schema_of(params: Seq<(String, ParamType, bool)>) -> Schema {
    Seq::new(params.len(), |i: int| (params[i].0@, params[i].1, params[i].2))
}

/// The types of all parameters, in schema order.
pub open spec fn param_types(schema: Schema) -> Seq<ParamType> {
    Seq::new(schema.len(), |i: int| schema[i].1)
}

/// How many of the first `n` parameters are indexed (`indexed` true) or not
/// indexed (`indexed` false).
pub open spec fn rank(schema: Schema, n: int, indexed: bool) -> nat
    decreases n,
{
    if n <= 0 {
        0
    } else {
        rank(schema, n - 1, indexed) + if schema[n - 1].2 == indexed {
            1nat
        } else {
            0nat
        }
    }
}

/// How many parameters of the schema are indexed, or are not.
pub open spec fn count(schema: Schema, indexed: bool) -> nat {
    rank(schema, schema.len() as int, indexed)
}

/// Of `items`, one for each parameter, those among the first `n` whose
/// parameter is indexed, or is not; their order is kept.
pub open spec fn selected<T>(schema: Schema, items: Seq<T>, indexed: bool, n: int) -> Seq<T>
    decreases n,
{
    if n <= 0 {
        Seq::empty()
    } else if schema[n - 1].2 == indexed {
        selected(schema, items, indexed, n - 1).push(items[n - 1])
    } else {
        selected(schema, items, indexed, n - 1)
    }
}

/// The type under which an indexed parameter is read from its topic: a text
/// is stored there as a 32-byte hash, every other type as itself.
pub open spec fn topic_kind(kind: ParamType) -> ParamType {
    match kind {
        ParamType::String => ParamType::FixedBytes(MAX_FIXED_BYTES),
        _ => kind,
    }
}

/// The types under which the topics after the first are read, in order.
pub open spec fn topic_types(schema: Schema) -> Seq<ParamType> {
    selected(
        schema,
        Seq::new(schema.len(), |i: int| topic_kind(schema[i].1)),
        true,
        schema.len() as int,
    )
}

/// The types of the parameters that are packed into the data, in order.
pub open spec fn data_types(schema: Schema) -> Seq<ParamType> {
    selected(schema, param_types(schema), false, schema.len() as int)
}

/// `selected` over `n` parameters has `rank(n)` items, and the item of
/// parameter `i` stands at `rank(i)`.
pub proof fn lemma_selected<T>(schema: Schema, items: Seq<T>, indexed: bool, n: int)
    requires
        0 <= n <= schema.len(),
    ensures
        selected(schema, items, indexed, n).len() == rank(schema, n, indexed),
        forall|i: int|
            0 <= i < n && schema[i].2 == indexed ==> rank(schema, i, indexed) < rank(
                schema,
                n,
                indexed,
            ) && selected(schema, items, indexed, n)[#[trigger] rank(schema, i, indexed) as int]
                == items[i],
    decreases n,
{
    if n > 0 {
        lemma_selected(schema, items, indexed, n - 1);
        let before = selected(schema, items, indexed, n - 1);
        assert forall|i: int| 0 <= i < n && schema[i].2 == indexed implies rank(schema, i, indexed)
            < rank(schema, n, indexed) && selected(schema, items, indexed, n)[#[trigger] rank(
            schema,
            i,
            indexed,
        ) as int] == items[i] by {
        }
    }
}

/// The rank never decreases along the schema.
pub proof fn lemma_rank_monotonic(schema: Schema, i: int, n: int, indexed: bool)
    requires
        0 <= i <= n,
    ensures
        rank(schema, i, indexed) <= rank(schema, n, indexed),
    decreases n - i,
{
    if i < n {
        lemma_rank_monotonic(schema, i, n - 1, indexed);
    }
}

/// Every parameter is counted once: as indexed or as not indexed.
pub proof fn lemma_rank_partition(schema: Schema, n: int)
    requires
        0 <= n,
    ensures
        rank(schema, n, true) + rank(schema, n, false) == n,
    decreases n,
{
    if n > 0 {
        lemma_rank_partition(schema, n - 1);
    }
}

/// The number of indexed parameters.
pub fn count_indexed(params: &EthEventParams) -> (n: usize)
    ensures
        n == count(schema_of(params@), true),
{
    let ghost schema = schema_of(params@);
    let mut n: usize = 0;
    let mut i: usize = 0;
    while i < params.len()
        invariant
            i <= params.len(),
            schema == schema_of(params@),
            n == rank(schema, i as int, true),
            n <= i,
        decreases params.len() - i,
    {
        if params[i].2 {
            n += 1;
        }
        i += 1;
    }
    n
}

/// The types under which topics and data are read: those of the indexed
/// parameters, a text replaced by its 32-byte hash, and those of the others.
pub fn split_types(params: &EthEventParams) -> (types: (Vec<ParamType>, Vec<ParamType>))
    ensures
        types.0@ == topic_types(schema_of(params@)),
        types.1@ == data_types(schema_of(params@)),
{
    let ghost schema = schema_of(params@);
    let ghost kinds = Seq::new(schema.len(), |i: int| topic_kind(schema[i].1));
    let mut topics: Vec<ParamType> = Vec::new();
    let mut data: Vec<ParamType> = Vec::new();
    let mut i: usize = 0;
    while i < params.len()
        invariant
            i <= params.len(),
            schema == schema_of(params@),
            kinds == Seq::new(schema.len(), |i: int| topic_kind(schema[i].1)),
            topics@ == selected(schema, kinds, true, i as int),
            data@ == selected(schema, param_types(schema), false, i as int),
        decreases params.len() - i,
    {
        let kind = params[i].1;
        if params[i].2 {
            let read_as = match kind {
                ParamType::String => ParamType::FixedBytes(MAX_FIXED_BYTES),
                _ => kind,
            };
            topics.push(read_as);
        } else {
            data.push(kind);
        }
        i += 1;
    }
    (topics, data)
}

/// Whether every fixed-size byte type among `types` is at most one word wide.
pub fn decodable(types: &Vec<ParamType>) -> (ok: bool)
    ensures
        ok == types_decodable(types@),
{
    let mut i: usize = 0;
    while i < types.len()
        invariant
            i <= types.len(),
            forall|j: int|
                0 <= j < i ==> (#[trigger] types@[j] matches ParamType::FixedBytes(size) ==> size
                    <= MAX_FIXED_BYTES),
        decreases types.len() - i,
    {
        match types[i] {
            ParamType::FixedBytes(size) => {
                if size > MAX_FIXED_BYTES {
                    return false;
                }
            },
            _ => {},
        }
        i += 1;
    }
    true
}

/// The types of all parameters, in schema order.
pub fn all_types(params: &EthEventParams) -> (types: Vec<ParamType>)
    ensures
        types@ == param_types(schema_of(params@)),
{
    let mut types: Vec<ParamType> = Vec::new();
    let mut i: usize = 0;
    while i < params.len()
        invariant
            i <= params.len(),
            types@.len() == i,
            forall|j: int| 0 <= j < i ==> types@[j] == params@[j].1,
        decreases params.len() - i,
    {
        types.push(params[i].1);
        i += 1;
    }
    types
}

/// The signature hash of an event depends on its name and on the types of
/// its parameters in order, and on nothing else: two schemas with the same
/// types give the same hash, whatever the parameters are called and whichever
/// of them are indexed.
pub proof fn lemma_signature_ignores_names_and_flags(name: Seq<char>, first: Schema, second: Schema)
    requires
        first.len() == second.len(),
        forall|i: int| 0 <= i < first.len() ==> first[i].1 == second[i].1,
    ensures
        event_signature(name, param_types(first)) == event_signature(name, param_types(second)),
{
    assert(param_types(first) =~= param_types(second));
}

} // verus!
