//! Query parameter records: one variant per parameter shape, each encoded as
//! its fields in declaration order, every field always present.
use vstd::prelude::*;

use crate::text::{decimal, decimal_text};
use crate::topics::TopicFilter;

verus! {

/// The key/value pairs of a query as texts.
pub open spec fn pairs_view(v: Seq<(String, String)>) -> Seq<(Seq<char>, Seq<char>)> {
    v.map_values(|p: (String, String)| (p.0@, p.1@))
}

/// The keys of a sequence of fields, in order.
pub open spec fn keys_of(fields: Seq<(Seq<char>, Seq<char>)>) -> Seq<Seq<char>> {
    fields.map_values(|f: (Seq<char>, Seq<char>)| f.0)
}

/// How a flag is written in a query.
pub open spec fn bool_text(b: bool) -> Seq<char> {
    if b {
        "true"@
    } else {
        "false"@
    }
}

/// Appends one field with a text value.
pub fn push_text(out: &mut Vec<(String, String)>, key: &str, value: &str)
    ensures
        pairs_view(final(out)@) == pairs_view(old(out)@).push((key@, value@)),
{
    let ghost before = out@;
    out.push((String::from_str(key), String::from_str(value)));
    assert(pairs_view(out@) =~= pairs_view(before).push((key@, value@)));
}

/// Appends one field with an integer value, written in decimal.
pub fn push_int(out: &mut Vec<(String, String)>, key: &str, value: i64)
    ensures
        pairs_view(final(out)@) == pairs_view(old(out)@).push((key@, decimal(value as int))),
{
    let ghost before = out@;
    out.push((String::from_str(key), decimal_text(value)));
    assert(pairs_view(out@) =~= pairs_view(before).push((key@, decimal(value as int))));
}

/// Appends one field with a flag value, written `true` or `false`.
pub fn push_bool(out: &mut Vec<(String, String)>, key: &str, value: bool)
    ensures
        pairs_view(final(out)@) == pairs_view(old(out)@).push((key@, bool_text(value))),
{
    let text = if value {
        "true"
    } else {
        "false"
    };
    push_text(out, key, text);
}

/// The fields of the record: an address and a block tag.
pub open spec fn address_tag_fields(address: Seq<char>, tag: Seq<char>) -> Seq<(Seq<char>, Seq<char>)> {
    seq![("address"@, address), ("tag"@, tag)]
}

/// The fields of the record: an address, a block range, a page and a sort order.
pub open spec fn tx_list_paginated_fields(address: Seq<char>, startblock: int, endblock: int, page: int, offset: int, sort: Seq<char>) -> Seq<(Seq<char>, Seq<char>)> {
    seq![("address"@, address), ("startblock"@, decimal(startblock)), ("endblock"@, decimal(endblock)), ("page"@, decimal(page)), ("offset"@, decimal(offset)), ("sort"@, sort)]
}

/// The fields of the record: a transaction hash.
pub open spec fn tx_hash_fields(txhash: Seq<char>) -> Seq<(Seq<char>, Seq<char>)> {
    seq![("txhash"@, txhash)]
}

/// The fields of the record: a block range, a page and a sort order.
pub open spec fn block_range_paginated_fields(startblock: int, endblock: int, page: int, offset: int, sort: Seq<char>) -> Seq<(Seq<char>, Seq<char>)> {
    seq![("startblock"@, decimal(startblock)), ("endblock"@, decimal(endblock)), ("page"@, decimal(page)), ("offset"@, decimal(offset)), ("sort"@, sort)]
}

/// The fields of the record: an address, a token contract, a page, a block range and a sort order.
pub open spec fn token_events_paginated_fields(address: Seq<char>, contractaddress: Seq<char>, page: int, offset: int, startblock: int, endblock: int, sort: Seq<char>) -> Seq<(Seq<char>, Seq<char>)> {
    seq![("address"@, address), ("contractaddress"@, contractaddress), ("page"@, decimal(page)), ("offset"@, decimal(offset)), ("startblock"@, decimal(startblock)), ("endblock"@, decimal(endblock)), ("sort"@, sort)]
}

/// The fields of the record: an address, a block type (`blocks` or `uncles`), a page and a sort order.
pub open spec fn address_blocktype_paginated_fields(address: Seq<char>, blocktype: Seq<char>, page: int, offset: int, sort: Seq<char>) -> Seq<(Seq<char>, Seq<char>)> {
    seq![("address"@, address), ("blocktype"@, blocktype), ("page"@, decimal(page)), ("offset"@, decimal(offset)), ("sort"@, sort)]
}

/// The fields of the record: an address, a contract, a page, a block range and a sort order.
pub open spec fn contract_by_address_block_range_paginated_fields(address: Seq<char>, contractaddress: Seq<char>, page: int, offset: int, startblock: int, endblock: int, sort: Seq<char>) -> Seq<(Seq<char>, Seq<char>)> {
    seq![("address"@, address), ("contractaddress"@, contractaddress), ("page"@, decimal(page)), ("offset"@, decimal(offset)), ("startblock"@, decimal(startblock)), ("endblock"@, decimal(endblock)), ("sort"@, sort)]
}

/// The fields of the record: an address and a block number.
pub open spec fn address_block_number_fields(address: Seq<char>, blockno: int) -> Seq<(Seq<char>, Seq<char>)> {
    seq![("address"@, address), ("blockno"@, decimal(blockno))]
}

/// The fields of the record: an address.
pub open spec fn address_fields(address: Seq<char>) -> Seq<(Seq<char>, Seq<char>)> {
    seq![("address"@, address)]
}

/// The fields of the record: a contract address.
pub open spec fn contract_address_fields(contractaddress: Seq<char>) -> Seq<(Seq<char>, Seq<char>)> {
    seq![("contractaddress"@, contractaddress)]
}

/// The fields of the record: a block number.
pub open spec fn block_number_fields(blockno: int) -> Seq<(Seq<char>, Seq<char>)> {
    seq![("blockno"@, decimal(blockno))]
}

/// The fields of the record: a Unix timestamp in seconds and which side to pick (`before` or `after`).
pub open spec fn block_timestamp_fields(timestamp: int, closest: Seq<char>) -> Seq<(Seq<char>, Seq<char>)> {
    seq![("timestamp"@, decimal(timestamp)), ("closest"@, closest)]
}

/// The fields of the record: a date range (`yyyy-MM-dd`) and a sort order.
pub open spec fn date_range_fields(startdate: Seq<char>, enddate: Seq<char>, sort: Seq<char>) -> Seq<(Seq<char>, Seq<char>)> {
    seq![("startdate"@, startdate), ("enddate"@, enddate), ("sort"@, sort)]
}

/// The fields of the record: an address, a block range and a page.
pub open spec fn event_log_address_paginated_fields(address: Seq<char>, fromblock: int, toblock: int, page: int, offset: int) -> Seq<(Seq<char>, Seq<char>)> {
    seq![("address"@, address), ("fromblock"@, decimal(fromblock)), ("toblock"@, decimal(toblock)), ("page"@, decimal(page)), ("offset"@, decimal(offset))]
}

/// The fields of the record: a hexadecimal block tag and a flag.
pub open spec fn block_number_bool_fields(tag: Seq<char>, boolean: bool) -> Seq<(Seq<char>, Seq<char>)> {
    seq![("tag"@, tag), ("boolean"@, bool_text(boolean))]
}

/// The fields of the record: a hexadecimal block tag and a hexadecimal index within the block.
pub open spec fn block_number_index_fields(tag: Seq<char>, index: Seq<char>) -> Seq<(Seq<char>, Seq<char>)> {
    seq![("tag"@, tag), ("index"@, index)]
}

/// The fields of the record: a hexadecimal block tag.
pub open spec fn block_number_hex_fields(tag: Seq<char>) -> Seq<(Seq<char>, Seq<char>)> {
    seq![("tag"@, tag)]
}

/// The fields of the record: a raw signed transaction in hexadecimal.
pub open spec fn raw_tx_fields(hex: Seq<char>) -> Seq<(Seq<char>, Seq<char>)> {
    seq![("hex"@, hex)]
}

/// The fields of the record: a call: target, hexadecimal call data and block tag.
pub open spec fn call_fields(to: Seq<char>, data: Seq<char>, tag: Seq<char>) -> Seq<(Seq<char>, Seq<char>)> {
    seq![("to"@, to), ("data"@, data), ("tag"@, tag)]
}

/// The fields of the record: an address, a hexadecimal storage position and a block tag.
pub open spec fn storage_position_fields(address: Seq<char>, position: Seq<char>, tag: Seq<char>) -> Seq<(Seq<char>, Seq<char>)> {
    seq![("address"@, address), ("position"@, position), ("tag"@, tag)]
}

/// The fields of the record: call data, target, and hexadecimal value, gas and gas price.
pub open spec fn estimate_gas_fields(data: Seq<char>, to: Seq<char>, value: Seq<char>, gas: Seq<char>, gas_price: Seq<char>) -> Seq<(Seq<char>, Seq<char>)> {
    seq![("data"@, data), ("to"@, to), ("value"@, value), ("gas"@, gas), ("gasPrice"@, gas_price)]
}

/// The fields of the record: a comma-separated list of contract addresses.
pub open spec fn contract_addresses_fields(contractaddresses: Seq<char>) -> Seq<(Seq<char>, Seq<char>)> {
    seq![("contractaddresses"@, contractaddresses)]
}

/// The fields of the record: an address and a token contract.
pub open spec fn contract_by_address_fields(address: Seq<char>, contractaddress: Seq<char>) -> Seq<(Seq<char>, Seq<char>)> {
    seq![("address"@, address), ("contractaddress"@, contractaddress)]
}

/// The fields of the record: an address, a token contract and a page.
pub open spec fn contract_by_address_paginated_fields(address: Seq<char>, contractaddress: Seq<char>, page: int, offset: int) -> Seq<(Seq<char>, Seq<char>)> {
    seq![("address"@, address), ("contractaddress"@, contractaddress), ("page"@, decimal(page)), ("offset"@, decimal(offset))]
}

/// The fields of the record: a token contract and a block number.
pub open spec fn contract_by_block_number_fields(contractaddress: Seq<char>, blockno: int) -> Seq<(Seq<char>, Seq<char>)> {
    seq![("contractaddress"@, contractaddress), ("blockno"@, decimal(blockno))]
}

/// The fields of the record: an address, a token contract and a block number.
pub open spec fn contract_by_address_block_number_fields(address: Seq<char>, contractaddress: Seq<char>, blockno: int) -> Seq<(Seq<char>, Seq<char>)> {
    seq![("address"@, address), ("contractaddress"@, contractaddress), ("blockno"@, decimal(blockno))]
}

/// The fields of the record: a token contract and a page.
pub open spec fn contract_address_paginated_fields(contractaddress: Seq<char>, page: int, offset: int) -> Seq<(Seq<char>, Seq<char>)> {
    seq![("contractaddress"@, contractaddress), ("page"@, decimal(page)), ("offset"@, decimal(offset))]
}

/// The fields of the record: an address and a page.
pub open spec fn address_paginated_fields(address: Seq<char>, page: int, offset: int) -> Seq<(Seq<char>, Seq<char>)> {
    seq![("address"@, address), ("page"@, decimal(page)), ("offset"@, decimal(offset))]
}

/// The fields of the record: a hexadecimal gas price.
pub open spec fn gas_price_fields(gasprice: Seq<char>) -> Seq<(Seq<char>, Seq<char>)> {
    seq![("gasprice"@, gasprice)]
}

/// The fields of the record: a date range, a client type, a sync mode and a sort order.
pub open spec fn blockchain_size_fields(startdate: Seq<char>, enddate: Seq<char>, clienttype: Seq<char>, syncmode: Seq<char>, sort: Seq<char>) -> Seq<(Seq<char>, Seq<char>)> {
    seq![("startdate"@, startdate), ("enddate"@, enddate), ("clienttype"@, clienttype), ("syncmode"@, syncmode), ("sort"@, sort)]
}

/// The parameter record of an endpoint.
pub enum Params {
    /// An address and a block tag.
    AddressTag { address: String, tag: String },
    /// An address, a block range, a page and a sort order.
    TxListPaginated { address: String, startblock: i64, endblock: i64, page: i64, offset: i64, sort: String },
    /// A transaction hash.
    TxHash { txhash: String },
    /// A block range, a page and a sort order.
    BlockRangePaginated { startblock: i64, endblock: i64, page: i64, offset: i64, sort: String },
    /// An address, a token contract, a page, a block range and a sort order.
    TokenEventsPaginated { address: String, contractaddress: String, page: i64, offset: i64, startblock: i64, endblock: i64, sort: String },
    /// An address, a block type (`blocks` or `uncles`), a page and a sort order.
    AddressBlocktypePaginated { address: String, blocktype: String, page: i64, offset: i64, sort: String },
    /// An address, a contract, a page, a block range and a sort order.
    ContractByAddressBlockRangePaginated { address: String, contractaddress: String, page: i64, offset: i64, startblock: i64, endblock: i64, sort: String },
    /// An address and a block number.
    AddressBlockNumber { address: String, blockno: i64 },
    /// An address.
    Address { address: String },
    /// A contract address.
    ContractAddress { contractaddress: String },
    /// A block number.
    BlockNumber { blockno: i64 },
    /// A Unix timestamp in seconds and which side to pick (`before` or `after`).
    BlockTimestamp { timestamp: i64, closest: String },
    /// A date range (`yyyy-MM-dd`) and a sort order.
    DateRange { startdate: String, enddate: String, sort: String },
    /// An address, a block range and a page.
    EventLogAddressPaginated { address: String, fromblock: i64, toblock: i64, page: i64, offset: i64 },
    /// A hexadecimal block tag and a flag.
    BlockNumberBool { tag: String, boolean: bool },
    /// A hexadecimal block tag and a hexadecimal index within the block.
    BlockNumberIndex { tag: String, index: String },
    /// A hexadecimal block tag.
    BlockNumberHex { tag: String },
    /// A raw signed transaction in hexadecimal.
    RawTx { hex: String },
    /// A call: target, hexadecimal call data and block tag.
    Call { to: String, data: String, tag: String },
    /// An address, a hexadecimal storage position and a block tag.
    StoragePosition { address: String, position: String, tag: String },
    /// Call data, target, and hexadecimal value, gas and gas price.
    EstimateGas { data: String, to: String, value: String, gas: String, gas_price: String },
    /// A comma-separated list of contract addresses.
    ContractAddresses { contractaddresses: String },
    /// An address and a token contract.
    ContractByAddress { address: String, contractaddress: String },
    /// An address, a token contract and a page.
    ContractByAddressPaginated { address: String, contractaddress: String, page: i64, offset: i64 },
    /// A token contract and a block number.
    ContractByBlockNumber { contractaddress: String, blockno: i64 },
    /// An address, a token contract and a block number.
    ContractByAddressBlockNumber { address: String, contractaddress: String, blockno: i64 },
    /// A token contract and a page.
    ContractAddressPaginated { contractaddress: String, page: i64, offset: i64 },
    /// An address and a page.
    AddressPaginated { address: String, page: i64, offset: i64 },
    /// A hexadecimal gas price.
    GasPrice { gasprice: String },
    /// A date range, a client type, a sync mode and a sort order.
    BlockchainSize { startdate: String, enddate: String, clienttype: String, syncmode: String, sort: String },
    /// Event logs filtered by a chain of topics.
    Topics(TopicFilter),
    /// No parameters at all.
    Empty,
}

impl Params {
    /// The fields that the record is encoded as, in order.
    pub open spec fn fields(&self) -> Seq<(Seq<char>, Seq<char>)> {
        match self {
            Params::AddressTag { address, tag } => address_tag_fields(address@, tag@),
            Params::TxListPaginated { address, startblock, endblock, page, offset, sort } => tx_list_paginated_fields(address@, *startblock as int, *endblock as int, *page as int, *offset as int, sort@),
            Params::TxHash { txhash } => tx_hash_fields(txhash@),
            Params::BlockRangePaginated { startblock, endblock, page, offset, sort } => block_range_paginated_fields(*startblock as int, *endblock as int, *page as int, *offset as int, sort@),
            Params::TokenEventsPaginated { address, contractaddress, page, offset, startblock, endblock, sort } => token_events_paginated_fields(address@, contractaddress@, *page as int, *offset as int, *startblock as int, *endblock as int, sort@),
            Params::AddressBlocktypePaginated { address, blocktype, page, offset, sort } => address_blocktype_paginated_fields(address@, blocktype@, *page as int, *offset as int, sort@),
            Params::ContractByAddressBlockRangePaginated { address, contractaddress, page, offset, startblock, endblock, sort } => contract_by_address_block_range_paginated_fields(address@, contractaddress@, *page as int, *offset as int, *startblock as int, *endblock as int, sort@),
            Params::AddressBlockNumber { address, blockno } => address_block_number_fields(address@, *blockno as int),
            Params::Address { address } => address_fields(address@),
            Params::ContractAddress { contractaddress } => contract_address_fields(contractaddress@),
            Params::BlockNumber { blockno } => block_number_fields(*blockno as int),
            Params::BlockTimestamp { timestamp, closest } => block_timestamp_fields(*timestamp as int, closest@),
            Params::DateRange { startdate, enddate, sort } => date_range_fields(startdate@, enddate@, sort@),
            Params::EventLogAddressPaginated { address, fromblock, toblock, page, offset } => event_log_address_paginated_fields(address@, *fromblock as int, *toblock as int, *page as int, *offset as int),
            Params::BlockNumberBool { tag, boolean } => block_number_bool_fields(tag@, *boolean),
            Params::BlockNumberIndex { tag, index } => block_number_index_fields(tag@, index@),
            Params::BlockNumberHex { tag } => block_number_hex_fields(tag@),
            Params::RawTx { hex } => raw_tx_fields(hex@),
            Params::Call { to, data, tag } => call_fields(to@, data@, tag@),
            Params::StoragePosition { address, position, tag } => storage_position_fields(address@, position@, tag@),
            Params::EstimateGas { data, to, value, gas, gas_price } => estimate_gas_fields(data@, to@, value@, gas@, gas_price@),
            Params::ContractAddresses { contractaddresses } => contract_addresses_fields(contractaddresses@),
            Params::ContractByAddress { address, contractaddress } => contract_by_address_fields(address@, contractaddress@),
            Params::ContractByAddressPaginated { address, contractaddress, page, offset } => contract_by_address_paginated_fields(address@, contractaddress@, *page as int, *offset as int),
            Params::ContractByBlockNumber { contractaddress, blockno } => contract_by_block_number_fields(contractaddress@, *blockno as int),
            Params::ContractByAddressBlockNumber { address, contractaddress, blockno } => contract_by_address_block_number_fields(address@, contractaddress@, *blockno as int),
            Params::ContractAddressPaginated { contractaddress, page, offset } => contract_address_paginated_fields(contractaddress@, *page as int, *offset as int),
            Params::AddressPaginated { address, page, offset } => address_paginated_fields(address@, *page as int, *offset as int),
            Params::GasPrice { gasprice } => gas_price_fields(gasprice@),
            Params::BlockchainSize { startdate, enddate, clienttype, syncmode, sort } => blockchain_size_fields(startdate@, enddate@, clienttype@, syncmode@, sort@),
            Params::Topics(q) => q.fields(),
            Params::Empty => Seq::empty(),
        }
    }

    /// The keys that the record's shape declares, in declaration order.
    pub open spec fn declared_keys(&self) -> Seq<Seq<char>> {
        match self {
            Params::AddressTag { .. } => seq!["address"@, "tag"@],
            Params::TxListPaginated { .. } => seq!["address"@, "startblock"@, "endblock"@, "page"@, "offset"@, "sort"@],
            Params::TxHash { .. } => seq!["txhash"@],
            Params::BlockRangePaginated { .. } => seq!["startblock"@, "endblock"@, "page"@, "offset"@, "sort"@],
            Params::TokenEventsPaginated { .. } => seq!["address"@, "contractaddress"@, "page"@, "offset"@, "startblock"@, "endblock"@, "sort"@],
            Params::AddressBlocktypePaginated { .. } => seq!["address"@, "blocktype"@, "page"@, "offset"@, "sort"@],
            Params::ContractByAddressBlockRangePaginated { .. } => seq!["address"@, "contractaddress"@, "page"@, "offset"@, "startblock"@, "endblock"@, "sort"@],
            Params::AddressBlockNumber { .. } => seq!["address"@, "blockno"@],
            Params::Address { .. } => seq!["address"@],
            Params::ContractAddress { .. } => seq!["contractaddress"@],
            Params::BlockNumber { .. } => seq!["blockno"@],
            Params::BlockTimestamp { .. } => seq!["timestamp"@, "closest"@],
            Params::DateRange { .. } => seq!["startdate"@, "enddate"@, "sort"@],
            Params::EventLogAddressPaginated { .. } => seq!["address"@, "fromblock"@, "toblock"@, "page"@, "offset"@],
            Params::BlockNumberBool { .. } => seq!["tag"@, "boolean"@],
            Params::BlockNumberIndex { .. } => seq!["tag"@, "index"@],
            Params::BlockNumberHex { .. } => seq!["tag"@],
            Params::RawTx { .. } => seq!["hex"@],
            Params::Call { .. } => seq!["to"@, "data"@, "tag"@],
            Params::StoragePosition { .. } => seq!["address"@, "position"@, "tag"@],
            Params::EstimateGas { .. } => seq!["data"@, "to"@, "value"@, "gas"@, "gasPrice"@],
            Params::ContractAddresses { .. } => seq!["contractaddresses"@],
            Params::ContractByAddress { .. } => seq!["address"@, "contractaddress"@],
            Params::ContractByAddressPaginated { .. } => seq!["address"@, "contractaddress"@, "page"@, "offset"@],
            Params::ContractByBlockNumber { .. } => seq!["contractaddress"@, "blockno"@],
            Params::ContractByAddressBlockNumber { .. } => seq!["address"@, "contractaddress"@, "blockno"@],
            Params::ContractAddressPaginated { .. } => seq!["contractaddress"@, "page"@, "offset"@],
            Params::AddressPaginated { .. } => seq!["address"@, "page"@, "offset"@],
            Params::GasPrice { .. } => seq!["gasprice"@],
            Params::BlockchainSize { .. } => seq!["startdate"@, "enddate"@, "clienttype"@, "syncmode"@, "sort"@],
            Params::Topics(q) => keys_of(q.fields()),
            Params::Empty => Seq::empty(),
        }
    }


    /// Whether the record can be encoded: only a topic chain has a condition.
    pub open spec fn well_formed(&self) -> bool {
        match self {
            Params::Topics(q) => q.well_formed(),
            _ => true,
        }
    }

    /// Whether the record has the same fields whatever its values are.
    pub open spec fn is_flat(&self) -> bool {
        !(self is Topics)
    }

    /// Appends the fields of the record to `out`.
    pub fn encode_into(&self, out: &mut Vec<(String, String)>)
        requires
            self.well_formed(),
        ensures
            pairs_view(final(out)@) == pairs_view(old(out)@) + self.fields(),
    {
        let ghost before = out@;
        match self {
            Params::AddressTag { address, tag } => {
                push_text(out, "address", address.as_str());
                push_text(out, "tag", tag.as_str());
            },
            Params::TxListPaginated { address, startblock, endblock, page, offset, sort } => {
                push_text(out, "address", address.as_str());
                push_int(out, "startblock", *startblock);
                push_int(out, "endblock", *endblock);
                push_int(out, "page", *page);
                push_int(out, "offset", *offset);
                push_text(out, "sort", sort.as_str());
            },
            Params::TxHash { txhash } => {
                push_text(out, "txhash", txhash.as_str());
            },
            Params::BlockRangePaginated { startblock, endblock, page, offset, sort } => {
                push_int(out, "startblock", *startblock);
                push_int(out, "endblock", *endblock);
                push_int(out, "page", *page);
                push_int(out, "offset", *offset);
                push_text(out, "sort", sort.as_str());
            },
            Params::TokenEventsPaginated { address, contractaddress, page, offset, startblock, endblock, sort } => {
                push_text(out, "address", address.as_str());
                push_text(out, "contractaddress", contractaddress.as_str());
                push_int(out, "page", *page);
                push_int(out, "offset", *offset);
                push_int(out, "startblock", *startblock);
                push_int(out, "endblock", *endblock);
                push_text(out, "sort", sort.as_str());
            },
            Params::AddressBlocktypePaginated { address, blocktype, page, offset, sort } => {
                push_text(out, "address", address.as_str());
                push_text(out, "blocktype", blocktype.as_str());
                push_int(out, "page", *page);
                push_int(out, "offset", *offset);
                push_text(out, "sort", sort.as_str());
            },
            Params::ContractByAddressBlockRangePaginated { address, contractaddress, page, offset, startblock, endblock, sort } => {
                push_text(out, "address", address.as_str());
                push_text(out, "contractaddress", contractaddress.as_str());
                push_int(out, "page", *page);
                push_int(out, "offset", *offset);
                push_int(out, "startblock", *startblock);
                push_int(out, "endblock", *endblock);
                push_text(out, "sort", sort.as_str());
            },
            Params::AddressBlockNumber { address, blockno } => {
                push_text(out, "address", address.as_str());
                push_int(out, "blockno", *blockno);
            },
            Params::Address { address } => {
                push_text(out, "address", address.as_str());
            },
            Params::ContractAddress { contractaddress } => {
                push_text(out, "contractaddress", contractaddress.as_str());
            },
            Params::BlockNumber { blockno } => {
                push_int(out, "blockno", *blockno);
            },
            Params::BlockTimestamp { timestamp, closest } => {
                push_int(out, "timestamp", *timestamp);
                push_text(out, "closest", closest.as_str());
            },
            Params::DateRange { startdate, enddate, sort } => {
                push_text(out, "startdate", startdate.as_str());
                push_text(out, "enddate", enddate.as_str());
                push_text(out, "sort", sort.as_str());
            },
            Params::EventLogAddressPaginated { address, fromblock, toblock, page, offset } => {
                push_text(out, "address", address.as_str());
                push_int(out, "fromblock", *fromblock);
                push_int(out, "toblock", *toblock);
                push_int(out, "page", *page);
                push_int(out, "offset", *offset);
            },
            Params::BlockNumberBool { tag, boolean } => {
                push_text(out, "tag", tag.as_str());
                push_bool(out, "boolean", *boolean);
            },
            Params::BlockNumberIndex { tag, index } => {
                push_text(out, "tag", tag.as_str());
                push_text(out, "index", index.as_str());
            },
            Params::BlockNumberHex { tag } => {
                push_text(out, "tag", tag.as_str());
            },
            Params::RawTx { hex } => {
                push_text(out, "hex", hex.as_str());
            },
            Params::Call { to, data, tag } => {
                push_text(out, "to", to.as_str());
                push_text(out, "data", data.as_str());
                push_text(out, "tag", tag.as_str());
            },
            Params::StoragePosition { address, position, tag } => {
                push_text(out, "address", address.as_str());
                push_text(out, "position", position.as_str());
                push_text(out, "tag", tag.as_str());
            },
            Params::EstimateGas { data, to, value, gas, gas_price } => {
                push_text(out, "data", data.as_str());
                push_text(out, "to", to.as_str());
                push_text(out, "value", value.as_str());
                push_text(out, "gas", gas.as_str());
                push_text(out, "gasPrice", gas_price.as_str());
            },
            Params::ContractAddresses { contractaddresses } => {
                push_text(out, "contractaddresses", contractaddresses.as_str());
            },
            Params::ContractByAddress { address, contractaddress } => {
                push_text(out, "address", address.as_str());
                push_text(out, "contractaddress", contractaddress.as_str());
            },
            Params::ContractByAddressPaginated { address, contractaddress, page, offset } => {
                push_text(out, "address", address.as_str());
                push_text(out, "contractaddress", contractaddress.as_str());
                push_int(out, "page", *page);
                push_int(out, "offset", *offset);
            },
            Params::ContractByBlockNumber { contractaddress, blockno } => {
                push_text(out, "contractaddress", contractaddress.as_str());
                push_int(out, "blockno", *blockno);
            },
            Params::ContractByAddressBlockNumber { address, contractaddress, blockno } => {
                push_text(out, "address", address.as_str());
                push_text(out, "contractaddress", contractaddress.as_str());
                push_int(out, "blockno", *blockno);
            },
            Params::ContractAddressPaginated { contractaddress, page, offset } => {
                push_text(out, "contractaddress", contractaddress.as_str());
                push_int(out, "page", *page);
                push_int(out, "offset", *offset);
            },
            Params::AddressPaginated { address, page, offset } => {
                push_text(out, "address", address.as_str());
                push_int(out, "page", *page);
                push_int(out, "offset", *offset);
            },
            Params::GasPrice { gasprice } => {
                push_text(out, "gasprice", gasprice.as_str());
            },
            Params::BlockchainSize { startdate, enddate, clienttype, syncmode, sort } => {
                push_text(out, "startdate", startdate.as_str());
                push_text(out, "enddate", enddate.as_str());
                push_text(out, "clienttype", clienttype.as_str());
                push_text(out, "syncmode", syncmode.as_str());
                push_text(out, "sort", sort.as_str());
            },
            Params::Topics(q) => {
                q.encode_into(out);
            },
            Params::Empty => {},
        }
        assert(pairs_view(out@) =~= pairs_view(before) + self.fields());
    }

    /// The fields of the record as key/value pairs.
    pub fn encode(&self) -> (r: Vec<(String, String)>)
        requires
            self.well_formed(),
        ensures
            pairs_view(r@) == self.fields(),
    {
        let mut out: Vec<(String, String)> = Vec::new();
        self.encode_into(&mut out);
        assert(pairs_view(Seq::empty()) + self.fields() =~= self.fields());
        out
    }
}

/// Every flat record is encoded to one field per declared key, in
/// declaration order, whatever its values are.
pub proof fn lemma_flat_encoding(p: Params)
    requires
        p.is_flat(),
    ensures
        keys_of(p.fields()) == p.declared_keys(),
        p.fields().len() == p.declared_keys().len(),
{
    match p {
        Params::AddressTag { .. } => {
            assert(keys_of(p.fields()) =~= p.declared_keys());
        },
        Params::TxListPaginated { .. } => {
            assert(keys_of(p.fields()) =~= p.declared_keys());
        },
        Params::TxHash { .. } => {
            assert(keys_of(p.fields()) =~= p.declared_keys());
        },
        Params::BlockRangePaginated { .. } => {
            assert(keys_of(p.fields()) =~= p.declared_keys());
        },
        Params::TokenEventsPaginated { .. } => {
            assert(keys_of(p.fields()) =~= p.declared_keys());
        },
        Params::AddressBlocktypePaginated { .. } => {
            assert(keys_of(p.fields()) =~= p.declared_keys());
        },
        Params::ContractByAddressBlockRangePaginated { .. } => {
            assert(keys_of(p.fields()) =~= p.declared_keys());
        },
        Params::AddressBlockNumber { .. } => {
            assert(keys_of(p.fields()) =~= p.declared_keys());
        },
        Params::Address { .. } => {
            assert(keys_of(p.fields()) =~= p.declared_keys());
        },
        Params::ContractAddress { .. } => {
            assert(keys_of(p.fields()) =~= p.declared_keys());
        },
        Params::BlockNumber { .. } => {
            assert(keys_of(p.fields()) =~= p.declared_keys());
        },
        Params::BlockTimestamp { .. } => {
            assert(keys_of(p.fields()) =~= p.declared_keys());
        },
        Params::DateRange { .. } => {
            assert(keys_of(p.fields()) =~= p.declared_keys());
        },
        Params::EventLogAddressPaginated { .. } => {
            assert(keys_of(p.fields()) =~= p.declared_keys());
        },
        Params::BlockNumberBool { .. } => {
            assert(keys_of(p.fields()) =~= p.declared_keys());
        },
        Params::BlockNumberIndex { .. } => {
            assert(keys_of(p.fields()) =~= p.declared_keys());
        },
        Params::BlockNumberHex { .. } => {
            assert(keys_of(p.fields()) =~= p.declared_keys());
        },
        Params::RawTx { .. } => {
            assert(keys_of(p.fields()) =~= p.declared_keys());
        },
        Params::Call { .. } => {
            assert(keys_of(p.fields()) =~= p.declared_keys());
        },
        Params::StoragePosition { .. } => {
            assert(keys_of(p.fields()) =~= p.declared_keys());
        },
        Params::EstimateGas { .. } => {
            assert(keys_of(p.fields()) =~= p.declared_keys());
        },
        Params::ContractAddresses { .. } => {
            assert(keys_of(p.fields()) =~= p.declared_keys());
        },
        Params::ContractByAddress { .. } => {
            assert(keys_of(p.fields()) =~= p.declared_keys());
        },
        Params::ContractByAddressPaginated { .. } => {
            assert(keys_of(p.fields()) =~= p.declared_keys());
        },
        Params::ContractByBlockNumber { .. } => {
            assert(keys_of(p.fields()) =~= p.declared_keys());
        },
        Params::ContractByAddressBlockNumber { .. } => {
            assert(keys_of(p.fields()) =~= p.declared_keys());
        },
        Params::ContractAddressPaginated { .. } => {
            assert(keys_of(p.fields()) =~= p.declared_keys());
        },
        Params::AddressPaginated { .. } => {
            assert(keys_of(p.fields()) =~= p.declared_keys());
        },
        Params::GasPrice { .. } => {
            assert(keys_of(p.fields()) =~= p.declared_keys());
        },
        Params::BlockchainSize { .. } => {
            assert(keys_of(p.fields()) =~= p.declared_keys());
        },
        _ => {},
    }
}

/// Encoding is deterministic: two encodings of one record hold the same
/// fields.
pub proof fn lemma_encoding_deterministic(
    p: Params,
    first: Seq<(String, String)>,
    second: Seq<(String, String)>,
)
    requires
        pairs_view(first) == p.fields(),
        pairs_view(second) == p.fields(),
    ensures
        pairs_view(first) == pairs_view(second),
{
}

} // verus!
