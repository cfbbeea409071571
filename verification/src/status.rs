//! Support for the indexing status API: what it reports about a subgraph,
//! and the GraphQL values it answers with.

use vstd::prelude::*;

use crate::value::{
    hex, i32_to_decimal, lemma_view_list, lemma_view_object, push_hex, signed_decimal, u64_to_decimal,
    view_fields, view_value, view_values, decimal, Value, ValueView,
};

verus! {

/// Which subgraphs a status request asks about.
pub enum Filter {
    SubgraphName(String),
    SubgraphVersion(String, bool),
    Deployments(Vec<String>),
}

/// A block of the chain: its hash and its number.
#[derive(Debug, Clone, Copy, PartialEq, Eq)]
pub struct EthereumBlockPointer {
    pub hash: [u8; 32],
    pub number: i32,
}

impl EthereumBlockPointer {
    /// The pointer to block `number` with `hash`. Block numbers beyond
    /// `i32::MAX` do not fit and are left out.
    pub fn from_hash_number(hash: [u8; 32], number: u64) -> (ptr: EthereumBlockPointer)
        requires
            number <= i32::MAX,
        ensures
            ptr.hash == hash,
            ptr.number == number,
    {
        EthereumBlockPointer { hash, number: number as i32 }
    }

    /// The hash in base 16, lower case, without a prefix.
    pub fn hash_hex(&self) -> (s: String)
        ensures
            s@ == hex(self.hash@),
    {
        let mut s = String::new();
        push_hex(&mut s, &self.hash);
        proof {
            assert(s@ =~= hex(self.hash@));
        }
        s
    }
}

/// The identifier of a subgraph deployment.
#[derive(Debug)]
pub struct SubgraphDeploymentId(pub String);

impl SubgraphDeploymentId {
    /// The identifier as text.
    pub fn to_string(&self) -> (s: String)
        ensures
            s@ == self.0@,
    {
        self.0.clone()
    }
}

/// How a subgraph is doing.
#[derive(Debug, Clone, Copy, PartialEq, Eq, Structural)]
pub enum SubgraphHealth {
    /// Syncing without errors
    Healthy,
    /// Syncing, but with non-fatal errors
    Unhealthy,
    /// Stopped by a fatal error
    Failed,
}

/// The GraphQL enum value of a health.
pub open spec fn health_value(h: SubgraphHealth) -> ValueView {
    match h {
        SubgraphHealth::Healthy => ValueView::Enum("healthy"@),
        SubgraphHealth::Unhealthy => ValueView::Enum("unhealthy"@),
        SubgraphHealth::Failed => ValueView::Enum("failed"@),
    }
}

impl SubgraphHealth {
    /// The GraphQL enum value of the health.
    pub fn to_value(&self) -> (v: Value)
        ensures
            view_value(v) == health_value(*self),
    {
        match self {
            SubgraphHealth::Healthy => Value::Enum(String::from_str("healthy")),
            SubgraphHealth::Unhealthy => Value::Enum(String::from_str("unhealthy")),
            SubgraphHealth::Failed => Value::Enum(String::from_str("failed")),
        }
    }
}

/// An error that a subgraph ran into.
#[derive(Debug)]
pub struct SubgraphError {
    pub subgraph_id: SubgraphDeploymentId,
    pub message: String,
    pub block_ptr: Option<EthereumBlockPointer>,
    pub handler: Option<String>,
    pub deterministic: bool,
}

/// An optional text as a value: the text, or null.
pub open spec fn opt_string_value(s: Option<String>) -> ValueView {
    match s {
        Some(s) => ValueView::String(s@),
        None => ValueView::Null,
    }
}

/// The value of a subgraph error: its deployment, message and handler,
/// the block it happened in (number, and hash with a `0x` prefix; both
/// null without a block), and whether it is deterministic.
pub open spec fn error_value(e: SubgraphError) -> ValueView {
    ValueView::Object(
        seq![
            ("__typename"@, ValueView::String("SubgraphError"@)),
            ("subgraphId"@, ValueView::String(e.subgraph_id.0@)),
            ("message"@, ValueView::String(e.message@)),
            ("handler"@, opt_string_value(e.handler)),
            (
                "block"@,
                ValueView::Object(
                    seq![
                        ("__typename"@, ValueView::String("Block"@)),
                        (
                            "number"@,
                            match e.block_ptr {
                                Some(ptr) => ValueView::Int(ptr.number as int),
                                None => ValueView::Null,
                            },
                        ),
                        (
                            "hash"@,
                            match e.block_ptr {
                                Some(ptr) => ValueView::String(seq!['0', 'x'] + hex(ptr.hash@)),
                                None => ValueView::Null,
                            },
                        ),
                    ],
                ),
            ),
            ("deterministic"@, ValueView::Boolean(e.deterministic)),
        ],
    )
}

/// A block as the status API reports it.
#[derive(Debug)]
pub struct EthereumBlock(EthereumBlockPointer);

/// The value of a block: its hash in base 16 and its number in decimal,
/// both as text.
pub open spec fn block_value(ptr: EthereumBlockPointer) -> ValueView {
    ValueView::Object(
        seq![
            ("__typename"@, ValueView::String("EthereumBlock"@)),
            ("hash"@, ValueView::String(hex(ptr.hash@))),
            ("number"@, ValueView::String(signed_decimal(ptr.number as int))),
        ],
    )
}

/// An optional block as a value: the block, or null.
pub open spec fn opt_block_value(b: Option<EthereumBlock>) -> ValueView {
    match b {
        Some(b) => block_value(b.ptr()),
        None => ValueView::Null,
    }
}

impl EthereumBlock {
    /// The pointer that the block holds.
    pub closed spec fn ptr(self) -> EthereumBlockPointer {
        self.0
    }

    /// The block `number` with `hash`. Block numbers beyond `i32::MAX` do
    /// not fit and are left out.
    pub fn new(hash: [u8; 32], number: u64) -> (b: EthereumBlock)
        requires
            number <= i32::MAX,
        ensures
            b.ptr().hash == hash,
            b.ptr().number == number,
    {
        EthereumBlock(EthereumBlockPointer::from_hash_number(hash, number))
    }

    /// The block that `ptr` points to.
    pub fn from_ptr(ptr: EthereumBlockPointer) -> (b: EthereumBlock)
        ensures
            b.ptr() == ptr,
    {
        EthereumBlock(ptr)
    }

    /// The pointer to the block.
    pub fn to_ptr(self) -> (ptr: EthereumBlockPointer)
        ensures
            ptr == self.ptr(),
    {
        self.0
    }

    /// The block number.
    pub fn number(&self) -> (n: i32)
        ensures
            n == self.ptr().number,
    {
        self.0.number
    }

    /// The value of the block.
    pub fn into_value(self) -> (v: Value)
        ensures
            view_value(v) == block_value(self.ptr()),
    {
        self.to_value()
    }

    /// The value of the block, leaving the block in place.
    pub fn to_value(&self) -> (v: Value)
        ensures
            view_value(v) == block_value(self.ptr()),
    {
        let mut fields: Vec<(String, Value)> = Vec::new();
        fields.push(
            (String::from_str("__typename"), Value::String(String::from_str("EthereumBlock"))),
        );
        fields.push((String::from_str("hash"), Value::String(self.0.hash_hex())));
        fields.push((String::from_str("number"), Value::String(i32_to_decimal(self.0.number))));
        let v = Value::Object(fields);
        proof {
            lemma_view_object(fields);
            assert(view_fields(fields@) =~= seq![
                ("__typename"@, ValueView::String("EthereumBlock"@)),
                ("hash"@, ValueView::String(hex(self.0.hash@))),
                ("number"@, ValueView::String(signed_decimal(self.0.number as int))),
            ]);
        }
        v
    }
}

impl From<EthereumBlockPointer> for EthereumBlock {
    fn from(ptr: EthereumBlockPointer) -> (b: Self)
        ensures
            b.ptr() == ptr,
    {
        EthereumBlock(ptr)
    }
}

impl vstd::std_specs::convert::FromSpecImpl<EthereumBlockPointer> for EthereumBlock {
    open spec fn obeys_from_spec() -> bool {
        true
    }

    closed spec fn from_spec(ptr: EthereumBlockPointer) -> Self {
        EthereumBlock(ptr)
    }
}

/// An optional block as a value.
fn opt_block_to_value(b: &Option<EthereumBlock>) -> (v: Value)
    ensures
        view_value(v) == opt_block_value(*b),
{
    match b {
        Some(b) => b.to_value(),
        None => Value::Null,
    }
}

/// An optional text as a value.
fn opt_string_to_value(s: &Option<String>) -> (v: Value)
    ensures
        view_value(v) == opt_string_value(*s),
{
    match s {
        Some(s) => Value::String(s.clone()),
        None => Value::Null,
    }
}

/// Indexing status information related to the chain. Right now, we only
/// support Ethereum, but once we support more chains, we'll have to turn
/// this into an enum
#[derive(Debug)]
pub struct ChainInfo {
    pub network: String,
    pub chain_head_block: Option<EthereumBlock>,
    pub earliest_block: Option<EthereumBlock>,
    pub latest_block: Option<EthereumBlock>,
}

/// The value of the chain information: the network and the chain head,
/// earliest and latest blocks (null where unknown).
pub open spec fn chain_value(c: ChainInfo) -> ValueView {
    ValueView::Object(
        seq![
            ("__typename"@, ValueView::String("EthereumIndexingStatus"@)),
            ("network"@, ValueView::String(c.network@)),
            ("chainHeadBlock"@, opt_block_value(c.chain_head_block)),
            ("earliestBlock"@, opt_block_value(c.earliest_block)),
            ("latestBlock"@, opt_block_value(c.latest_block)),
        ],
    )
}

impl ChainInfo {
    /// The value of the chain information.
    pub fn into_value(self) -> (v: Value)
        ensures
            view_value(v) == chain_value(self),
    {
        self.to_value()
    }

    /// The value of the chain information, leaving it in place.
    pub fn to_value(&self) -> (v: Value)
        ensures
            view_value(v) == chain_value(*self),
    {
        let mut fields: Vec<(String, Value)> = Vec::new();
        fields.push(
            (
                String::from_str("__typename"),
                Value::String(String::from_str("EthereumIndexingStatus")),
            ),
        );
        fields.push((String::from_str("network"), Value::String(self.network.clone())));
        fields.push(
            (String::from_str("chainHeadBlock"), opt_block_to_value(&self.chain_head_block)),
        );
        fields.push((String::from_str("earliestBlock"), opt_block_to_value(&self.earliest_block)));
        fields.push((String::from_str("latestBlock"), opt_block_to_value(&self.latest_block)));
        let v = Value::Object(fields);
        proof {
            lemma_view_object(fields);
            assert(view_fields(fields@) =~= seq![
                ("__typename"@, ValueView::String("EthereumIndexingStatus"@)),
                ("network"@, ValueView::String(self.network@)),
                ("chainHeadBlock"@, opt_block_value(self.chain_head_block)),
                ("earliestBlock"@, opt_block_value(self.earliest_block)),
                ("latestBlock"@, opt_block_value(self.latest_block)),
            ]);
        }
        v
    }
}

impl SubgraphError {
    /// The value of the error.
    pub fn to_value(&self) -> (v: Value)
        ensures
            view_value(v) == error_value(*self),
    {
        let number = match &self.block_ptr {
            Some(ptr) => Value::Int(ptr.number as i64),
            None => Value::Null,
        };
        let hash = match &self.block_ptr {
            Some(ptr) => {
                proof {
                    reveal_strlit("0x");
                }
                let mut s = String::from_str("0x");
                assert(s@ =~= seq!['0', 'x']);
                push_hex(&mut s, &ptr.hash);
                Value::String(s)
            },
            None => Value::Null,
        };
        assert(view_value(hash) == match self.block_ptr {
            Some(ptr) => ValueView::String(seq!['0', 'x'] + hex(ptr.hash@)),
            None => ValueView::Null,
        });
        let mut block: Vec<(String, Value)> = Vec::new();
        block.push((String::from_str("__typename"), Value::String(String::from_str("Block"))));
        block.push((String::from_str("number"), number));
        block.push((String::from_str("hash"), hash));
        let ghost block_fields = block@;
        let block_value = Value::Object(block);
        proof {
            lemma_view_object(block);
        }
        let mut fields: Vec<(String, Value)> = Vec::new();
        fields.push(
            (String::from_str("__typename"), Value::String(String::from_str("SubgraphError"))),
        );
        fields.push((String::from_str("subgraphId"), Value::String(self.subgraph_id.to_string())));
        fields.push((String::from_str("message"), Value::String(self.message.clone())));
        fields.push((String::from_str("handler"), opt_string_to_value(&self.handler)));
        fields.push((String::from_str("block"), block_value));
        fields.push((String::from_str("deterministic"), Value::Boolean(self.deterministic)));
        let v = Value::Object(fields);
        proof {
            lemma_view_object(fields);
            let expected = error_value(*self);
            let block_expected = ValueView::Object(
                seq![
                    ("__typename"@, ValueView::String("Block"@)),
                    (
                        "number"@,
                        match self.block_ptr {
                            Some(ptr) => ValueView::Int(ptr.number as int),
                            None => ValueView::Null,
                        },
                    ),
                    (
                        "hash"@,
                        match self.block_ptr {
                            Some(ptr) => ValueView::String(seq!['0', 'x'] + hex(ptr.hash@)),
                            None => ValueView::Null,
                        },
                    ),
                ],
            );
            assert(view_fields(block_fields) =~= seq![
                ("__typename"@, ValueView::String("Block"@)),
                (
                    "number"@,
                    match self.block_ptr {
                        Some(ptr) => ValueView::Int(ptr.number as int),
                        None => ValueView::Null,
                    },
                ),
                (
                    "hash"@,
                    match self.block_ptr {
                        Some(ptr) => ValueView::String(seq!['0', 'x'] + hex(ptr.hash@)),
                        None => ValueView::Null,
                    },
                ),
            ]);
            assert(view_value(block_value) == block_expected);
            assert(view_fields(fields@) =~= seq![
                ("__typename"@, ValueView::String("SubgraphError"@)),
                ("subgraphId"@, ValueView::String(self.subgraph_id.0@)),
                ("message"@, ValueView::String(self.message@)),
                ("handler"@, opt_string_value(self.handler)),
                ("block"@, block_expected),
                ("deterministic"@, ValueView::Boolean(self.deterministic)),
            ]);
        }
        v
    }
}

/// The indexing status of a subgraph.
#[derive(Debug)]
pub struct Info {
    pub subgraph: String,
    pub synced: bool,
    pub health: SubgraphHealth,
    pub fatal_error: Option<SubgraphError>,
    pub non_fatal_errors: Vec<SubgraphError>,
    pub chains: Vec<ChainInfo>,
    pub entity_count: u64,
    pub node: Option<String>,
}

/// The value of the indexing status: the subgraph, whether it is synced,
/// its health, its fatal error (null without one) and its non-fatal
/// errors, its chains, its entity count in decimal text, and its node
/// (null without one).
pub open spec fn info_value(i: Info) -> ValueView {
    ValueView::Object(
        seq![
            ("__typename"@, ValueView::String("SubgraphIndexingStatus"@)),
            ("subgraph"@, ValueView::String(i.subgraph@)),
            ("synced"@, ValueView::Boolean(i.synced)),
            ("health"@, health_value(i.health)),
            (
                "fatalError"@,
                match i.fatal_error {
                    Some(e) => error_value(e),
                    None => ValueView::Null,
                },
            ),
            (
                "nonFatalErrors"@,
                ValueView::List(i.non_fatal_errors@.map_values(|e: SubgraphError| error_value(e))),
            ),
            ("chains"@, ValueView::List(i.chains@.map_values(|c: ChainInfo| chain_value(c)))),
            ("entityCount"@, ValueView::String(decimal(i.entity_count as nat))),
            ("node"@, opt_string_value(i.node)),
        ],
    )
}

impl Info {
    /// The value of the indexing status.
    pub fn into_value(self) -> (v: Value)
        ensures
            view_value(v) == info_value(self),
    {
        let mut errors: Vec<Value> = Vec::new();
        let mut i: usize = 0;
        while i < self.non_fatal_errors.len()
            invariant
                i <= self.non_fatal_errors.len(),
                errors@.len() == i,
                forall|j: int| 0 <= j < i ==> view_value(#[trigger] errors@[j]) == error_value(
                    self.non_fatal_errors@[j],
                ),
            decreases self.non_fatal_errors.len() - i,
        {
            errors.push(self.non_fatal_errors[i].to_value());
            i = i + 1;
        }
        let mut chains: Vec<Value> = Vec::new();
        let mut k: usize = 0;
        while k < self.chains.len()
            invariant
                k <= self.chains.len(),
                chains@.len() == k,
                forall|j: int| 0 <= j < k ==> view_value(#[trigger] chains@[j]) == chain_value(
                    self.chains@[j],
                ),
            decreases self.chains.len() - k,
        {
            chains.push(self.chains[k].to_value());
            k = k + 1;
        }
        let fatal_error = match &self.fatal_error {
            Some(e) => e.to_value(),
            None => Value::Null,
        };
        let ghost error_items = errors@;
        let ghost chain_items = chains@;
        let mut fields: Vec<(String, Value)> = Vec::new();
        fields.push(
            (
                String::from_str("__typename"),
                Value::String(String::from_str("SubgraphIndexingStatus")),
            ),
        );
        fields.push((String::from_str("subgraph"), Value::String(self.subgraph.clone())));
        fields.push((String::from_str("synced"), Value::Boolean(self.synced)));
        fields.push((String::from_str("health"), self.health.to_value()));
        fields.push((String::from_str("fatalError"), fatal_error));
        fields.push((String::from_str("nonFatalErrors"), Value::List(errors)));
        fields.push((String::from_str("chains"), Value::List(chains)));
        fields.push((String::from_str("entityCount"), Value::String(u64_to_decimal(self.entity_count))));
        fields.push((String::from_str("node"), opt_string_to_value(&self.node)));
        let v = Value::Object(fields);
        proof {
            lemma_view_object(fields);
            lemma_view_list(errors);
            lemma_view_list(chains);
            assert(view_values(error_items) =~= self.non_fatal_errors@.map_values(
                |e: SubgraphError| error_value(e),
            ));
            assert(view_values(chain_items) =~= self.chains@.map_values(|c: ChainInfo| chain_value(c)));
            assert(view_fields(fields@) =~= seq![
                ("__typename"@, ValueView::String("SubgraphIndexingStatus"@)),
                ("subgraph"@, ValueView::String(self.subgraph@)),
                ("synced"@, ValueView::Boolean(self.synced)),
                ("health"@, health_value(self.health)),
                (
                    "fatalError"@,
                    match self.fatal_error {
                        Some(e) => error_value(e),
                        None => ValueView::Null,
                    },
                ),
                (
                    "nonFatalErrors"@,
                    ValueView::List(self.non_fatal_errors@.map_values(|e: SubgraphError| error_value(e))),
                ),
                ("chains"@, ValueView::List(self.chains@.map_values(|c: ChainInfo| chain_value(c)))),
                ("entityCount"@, ValueView::String(decimal(self.entity_count as nat))),
                ("node"@, opt_string_value(self.node)),
            ]);
        }
        v
    }
}

} // verus!
