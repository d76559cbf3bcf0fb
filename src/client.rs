//! The client: it holds the API key, puts the base fields (`module`,
//! `action`, `apikey`) in front of each endpoint's own fields, and builds the
//! query of every endpoint.
use vstd::prelude::*;

use crate::params::{
    address_block_number_fields, address_blocktype_paginated_fields, address_fields, address_paginated_fields, address_tag_fields, block_number_bool_fields, block_number_fields, block_number_hex_fields, block_number_index_fields, block_range_paginated_fields, block_timestamp_fields, blockchain_size_fields, call_fields, contract_address_fields, contract_address_paginated_fields, contract_addresses_fields, contract_by_address_block_number_fields, contract_by_address_block_range_paginated_fields, contract_by_address_fields, contract_by_address_paginated_fields, contract_by_block_number_fields, date_range_fields, estimate_gas_fields, event_log_address_paginated_fields, gas_price_fields, raw_tx_fields, storage_position_fields, token_events_paginated_fields, tx_hash_fields, tx_list_paginated_fields, pairs_view, push_text, Params,
};
use crate::text::{comma_joined, decimal, hex_tag, hex_tag_text, join_with_commas, views_of};
use crate::topics::{linked_topic, TopicFilter};

verus! {

/// The fields that every query starts with.
pub open spec fn base_fields(module: Seq<char>, action: Seq<char>, apikey: Seq<char>) -> Seq<
    (Seq<char>, Seq<char>),
> {
    seq![("module"@, module), ("action"@, action), ("apikey"@, apikey)]
}

/// Whether `k` is the key of one of the base fields.
pub open spec fn is_base_key(k: Seq<char>) -> bool {
    k == "module"@ || k == "action"@ || k == "apikey"@
}

/// A client of the API, bound to one API key for its whole life.
pub struct Client {
    api_key: String,
}

impl Client {
    /// The API key that every query carries.
    pub closed spec fn api_key(&self) -> Seq<char> {
        self.api_key@
    }

    /// A client that sends `api_key` with every query.
    pub fn new(api_key: &str) -> (r: Client)
        ensures
            r.api_key() == api_key@,
    {
        Client { api_key: String::from_str(api_key) }
    }

    /// The full query of an operation: the base fields, then the record's
    /// fields.
    pub fn query(&self, module: &str, action: &str, params: &Params) -> (r: Vec<(String, String)>)
        requires
            params.well_formed(),
        ensures
            pairs_view(r@) == base_fields(module@, action@, self.api_key()) + params.fields(),
    {
        let mut out: Vec<(String, String)> = Vec::new();
        push_text(&mut out, "module", module);
        push_text(&mut out, "action", action);
        push_text(&mut out, "apikey", self.api_key.as_str());
        assert(pairs_view(out@) =~= base_fields(module@, action@, self.api_key()));
        params.encode_into(&mut out);
        out
    }

    /// The query of `logs`/`getLogs` filtered by a chain of topics.
    pub fn logs_by_topics(&self, filter: TopicFilter) -> (r: Vec<(String, String)>)
        requires
            filter.well_formed(),
        ensures
            pairs_view(r@) == base_fields("logs"@, "getLogs"@, self.api_key()) + filter.fields(),
    {
        let params = Params::Topics(filter);
        self.query("logs", "getLogs", &params)
    }

    /// The query of `account`/`balance`.
    pub fn get_balance(&self, address: &str) -> (r: Vec<(String, String)>)
        ensures
            pairs_view(r@) == base_fields("account"@, "balance"@, self.api_key()) + address_tag_fields(
                address@,
                "latest"@,
            ),
    {
        let params = Params::AddressTag {
            address: String::from_str(address),
            tag: String::from_str("latest"),
        };
        self.query("account", "balance", &params)
    }

    /// The query of `account`/`balancemulti`.
    pub fn get_balance_multi(&self, addresses: &Vec<&str>) -> (r: Vec<(String, String)>)
        ensures
            pairs_view(r@) == base_fields("account"@, "balancemulti"@, self.api_key()) + address_tag_fields(
                comma_joined(views_of(addresses@)),
                "latest"@,
            ),
    {
        let params = Params::AddressTag {
            address: join_with_commas(addresses),
            tag: String::from_str("latest"),
        };
        self.query("account", "balancemulti", &params)
    }

    /// The query of `account`/`txlist`.
    pub fn get_tx_list(&self, address: &str, start_block: i64, end_block: i64, page: i64, offset: i64, sort: &str) -> (r: Vec<(String, String)>)
        ensures
            pairs_view(r@) == base_fields("account"@, "txlist"@, self.api_key()) + tx_list_paginated_fields(
                address@,
                start_block as int,
                end_block as int,
                page as int,
                offset as int,
                sort@,
            ),
    {
        let params = Params::TxListPaginated {
            address: String::from_str(address),
            startblock: start_block,
            endblock: end_block,
            page,
            offset,
            sort: String::from_str(sort),
        };
        self.query("account", "txlist", &params)
    }

    /// The query of `account`/`txlistinternal`.
    pub fn get_tx_list_internal(&self, address: &str, start_block: i64, end_block: i64, page: i64, offset: i64, sort: &str) -> (r: Vec<(String, String)>)
        ensures
            pairs_view(r@) == base_fields("account"@, "txlistinternal"@, self.api_key()) + tx_list_paginated_fields(
                address@,
                start_block as int,
                end_block as int,
                page as int,
                offset as int,
                sort@,
            ),
    {
        let params = Params::TxListPaginated {
            address: String::from_str(address),
            startblock: start_block,
            endblock: end_block,
            page,
            offset,
            sort: String::from_str(sort),
        };
        self.query("account", "txlistinternal", &params)
    }

    /// The query of `account`/`txlistinternal`.
    pub fn get_tx_list_internal_by_hash(&self, tx_hash: &str) -> (r: Vec<(String, String)>)
        ensures
            pairs_view(r@) == base_fields("account"@, "txlistinternal"@, self.api_key()) + tx_hash_fields(
                tx_hash@,
            ),
    {
        let params = Params::TxHash {
            txhash: String::from_str(tx_hash),
        };
        self.query("account", "txlistinternal", &params)
    }

    /// The query of `account`/`txlistinternal`.
    pub fn get_tx_list_internal_by_blockrange(&self, start_block: i64, end_block: i64, page: i64, offset: i64, sort: &str) -> (r: Vec<(String, String)>)
        ensures
            pairs_view(r@) == base_fields("account"@, "txlistinternal"@, self.api_key()) + block_range_paginated_fields(
                start_block as int,
                end_block as int,
                page as int,
                offset as int,
                sort@,
            ),
    {
        let params = Params::BlockRangePaginated {
            startblock: start_block,
            endblock: end_block,
            page,
            offset,
            sort: String::from_str(sort),
        };
        self.query("account", "txlistinternal", &params)
    }

    /// The query of `account`/`tokentx`.
    pub fn get_erc20_transfer_events(&self, address: &str, contract_address: &str, start_block: i64, end_block: i64, page: i64, offset: i64, sort: &str) -> (r: Vec<(String, String)>)
        ensures
            pairs_view(r@) == base_fields("account"@, "tokentx"@, self.api_key()) + token_events_paginated_fields(
                address@,
                contract_address@,
                page as int,
                offset as int,
                start_block as int,
                end_block as int,
                sort@,
            ),
    {
        let params = Params::TokenEventsPaginated {
            address: String::from_str(address),
            contractaddress: String::from_str(contract_address),
            page,
            offset,
            startblock: start_block,
            endblock: end_block,
            sort: String::from_str(sort),
        };
        self.query("account", "tokentx", &params)
    }

    /// The query of `account`/`tokennfttx`.
    pub fn get_erc721_transfer_events(&self, address: &str, contract_address: &str, start_block: i64, end_block: i64, page: i64, offset: i64, sort: &str) -> (r: Vec<(String, String)>)
        ensures
            pairs_view(r@) == base_fields("account"@, "tokennfttx"@, self.api_key()) + token_events_paginated_fields(
                address@,
                contract_address@,
                page as int,
                offset as int,
                start_block as int,
                end_block as int,
                sort@,
            ),
    {
        let params = Params::TokenEventsPaginated {
            address: String::from_str(address),
            contractaddress: String::from_str(contract_address),
            page,
            offset,
            startblock: start_block,
            endblock: end_block,
            sort: String::from_str(sort),
        };
        self.query("account", "tokennfttx", &params)
    }

    /// The query of `account`/`tokennfttx`.
    pub fn get_erc1155_transfer_events(&self, address: &str, contract_address: &str, start_block: i64, end_block: i64, page: i64, offset: i64, sort: &str) -> (r: Vec<(String, String)>)
        ensures
            pairs_view(r@) == base_fields("account"@, "tokennfttx"@, self.api_key()) + token_events_paginated_fields(
                address@,
                contract_address@,
                page as int,
                offset as int,
                start_block as int,
                end_block as int,
                sort@,
            ),
    {
        let params = Params::TokenEventsPaginated {
            address: String::from_str(address),
            contractaddress: String::from_str(contract_address),
            page,
            offset,
            startblock: start_block,
            endblock: end_block,
            sort: String::from_str(sort),
        };
        self.query("account", "tokennfttx", &params)
    }

    /// The query of `account`/`getminedblocks`.
    pub fn get_mined_blocks(&self, address: &str, blocktype: &str, page: i64, offset: i64, sort: &str) -> (r: Vec<(String, String)>)
        ensures
            pairs_view(r@) == base_fields("account"@, "getminedblocks"@, self.api_key()) + address_blocktype_paginated_fields(
                address@,
                blocktype@,
                page as int,
                offset as int,
                sort@,
            ),
    {
        let params = Params::AddressBlocktypePaginated {
            address: String::from_str(address),
            blocktype: String::from_str(blocktype),
            page,
            offset,
            sort: String::from_str(sort),
        };
        self.query("account", "getminedblocks", &params)
    }

    /// The query of `account`/`txlistbeacon`.
    pub fn get_tx_list_beacon_withdrawal(&self, address: &str, contract_address: &str, start_block: i64, end_block: i64, page: i64, offset: i64, sort: &str) -> (r: Vec<(String, String)>)
        ensures
            pairs_view(r@) == base_fields("account"@, "txlistbeacon"@, self.api_key()) + contract_by_address_block_range_paginated_fields(
                address@,
                contract_address@,
                page as int,
                offset as int,
                start_block as int,
                end_block as int,
                sort@,
            ),
    {
        let params = Params::ContractByAddressBlockRangePaginated {
            address: String::from_str(address),
            contractaddress: String::from_str(contract_address),
            page,
            offset,
            startblock: start_block,
            endblock: end_block,
            sort: String::from_str(sort),
        };
        self.query("account", "txlistbeacon", &params)
    }

    /// The query of `account`/`balancehistory`.
    pub fn get_balance_history(&self, address: &str, blockno: i64) -> (r: Vec<(String, String)>)
        ensures
            pairs_view(r@) == base_fields("account"@, "balancehistory"@, self.api_key()) + address_block_number_fields(
                address@,
                blockno as int,
            ),
    {
        let params = Params::AddressBlockNumber {
            address: String::from_str(address),
            blockno,
        };
        self.query("account", "balancehistory", &params)
    }

    /// The query of `contract`/`getabi`.
    pub fn contract_abi(&self, address: &str) -> (r: Vec<(String, String)>)
        ensures
            pairs_view(r@) == base_fields("contract"@, "getabi"@, self.api_key()) + address_fields(
                address@,
            ),
    {
        let params = Params::Address {
            address: String::from_str(address),
        };
        self.query("contract", "getabi", &params)
    }

    /// The query of `contract`/`getsourcecode`.
    pub fn contract_source_code(&self, address: &str) -> (r: Vec<(String, String)>)
        ensures
            pairs_view(r@) == base_fields("contract"@, "getsourcecode"@, self.api_key()) + address_fields(
                address@,
            ),
    {
        let params = Params::Address {
            address: String::from_str(address),
        };
        self.query("contract", "getsourcecode", &params)
    }

    /// The query of `contract`/`getsourcecode`.
    pub fn contract_creation(&self, contract_addresses: &Vec<&str>) -> (r: Vec<(String, String)>)
        ensures
            pairs_view(r@) == base_fields("contract"@, "getsourcecode"@, self.api_key()) + contract_addresses_fields(
                comma_joined(views_of(contract_addresses@)),
            ),
    {
        let params = Params::ContractAddresses {
            contractaddresses: join_with_commas(contract_addresses),
        };
        self.query("contract", "getsourcecode", &params)
    }

    /// The query of `transaction`/`getstatus`.
    pub fn transaction_status(&self, tx_hash: &str) -> (r: Vec<(String, String)>)
        ensures
            pairs_view(r@) == base_fields("transaction"@, "getstatus"@, self.api_key()) + tx_hash_fields(
                tx_hash@,
            ),
    {
        let params = Params::TxHash {
            txhash: String::from_str(tx_hash),
        };
        self.query("transaction", "getstatus", &params)
    }

    /// The query of `transaction`/`gettxreceiptstatus`.
    pub fn transaction_receipt_status(&self, tx_hash: &str) -> (r: Vec<(String, String)>)
        ensures
            pairs_view(r@) == base_fields("transaction"@, "gettxreceiptstatus"@, self.api_key()) + tx_hash_fields(
                tx_hash@,
            ),
    {
        let params = Params::TxHash {
            txhash: String::from_str(tx_hash),
        };
        self.query("transaction", "gettxreceiptstatus", &params)
    }

    /// The query of `block`/`getblockreward`.
    pub fn block_reward(&self, blockno: i64) -> (r: Vec<(String, String)>)
        ensures
            pairs_view(r@) == base_fields("block"@, "getblockreward"@, self.api_key()) + block_number_fields(
                blockno as int,
            ),
    {
        let params = Params::BlockNumber {
            blockno,
        };
        self.query("block", "getblockreward", &params)
    }

    /// The query of `block`/`getblockcountdown`.
    pub fn block_countdown(&self, blockno: i64) -> (r: Vec<(String, String)>)
        ensures
            pairs_view(r@) == base_fields("block"@, "getblockcountdown"@, self.api_key()) + block_number_fields(
                blockno as int,
            ),
    {
        let params = Params::BlockNumber {
            blockno,
        };
        self.query("block", "getblockcountdown", &params)
    }

    /// The query of `block`/`getblocknobytime`.
    pub fn block_number_by_timestamp(&self, timestamp: i64, closest: &str) -> (r: Vec<(String, String)>)
        ensures
            pairs_view(r@) == base_fields("block"@, "getblocknobytime"@, self.api_key()) + block_timestamp_fields(
                timestamp as int,
                closest@,
            ),
    {
        let params = Params::BlockTimestamp {
            timestamp,
            closest: String::from_str(closest),
        };
        self.query("block", "getblocknobytime", &params)
    }

    /// The query of `block`/`getdailyavgblocksize`.
    pub fn daily_average_blocksize(&self, start_date: &str, end_date: &str, sort: &str) -> (r: Vec<(String, String)>)
        ensures
            pairs_view(r@) == base_fields("block"@, "getdailyavgblocksize"@, self.api_key()) + date_range_fields(
                start_date@,
                end_date@,
                sort@,
            ),
    {
        let params = Params::DateRange {
            startdate: String::from_str(start_date),
            enddate: String::from_str(end_date),
            sort: String::from_str(sort),
        };
        self.query("block", "getdailyavgblocksize", &params)
    }

    /// The query of `block`/`getdailyblockcount`.
    pub fn daily_block_count(&self, start_date: &str, end_date: &str, sort: &str) -> (r: Vec<(String, String)>)
        ensures
            pairs_view(r@) == base_fields("block"@, "getdailyblockcount"@, self.api_key()) + date_range_fields(
                start_date@,
                end_date@,
                sort@,
            ),
    {
        let params = Params::DateRange {
            startdate: String::from_str(start_date),
            enddate: String::from_str(end_date),
            sort: String::from_str(sort),
        };
        self.query("block", "getdailyblockcount", &params)
    }

    /// The query of `block`/`getdailyblockrewards`.
    pub fn daily_block_rewards(&self, start_date: &str, end_date: &str, sort: &str) -> (r: Vec<(String, String)>)
        ensures
            pairs_view(r@) == base_fields("block"@, "getdailyblockrewards"@, self.api_key()) + date_range_fields(
                start_date@,
                end_date@,
                sort@,
            ),
    {
        let params = Params::DateRange {
            startdate: String::from_str(start_date),
            enddate: String::from_str(end_date),
            sort: String::from_str(sort),
        };
        self.query("block", "getdailyblockrewards", &params)
    }

    /// The query of `block`/`getdailyblocktime`.
    pub fn daily_block_time(&self, start_date: &str, end_date: &str, sort: &str) -> (r: Vec<(String, String)>)
        ensures
            pairs_view(r@) == base_fields("block"@, "getdailyblocktime"@, self.api_key()) + date_range_fields(
                start_date@,
                end_date@,
                sort@,
            ),
    {
        let params = Params::DateRange {
            startdate: String::from_str(start_date),
            enddate: String::from_str(end_date),
            sort: String::from_str(sort),
        };
        self.query("block", "getdailyblocktime", &params)
    }

    /// The query of `block`/`getdailyuncleblockcount`.
    pub fn daily_uncle_block_count(&self, start_date: &str, end_date: &str, sort: &str) -> (r: Vec<(String, String)>)
        ensures
            pairs_view(r@) == base_fields("block"@, "getdailyuncleblockcount"@, self.api_key()) + date_range_fields(
                start_date@,
                end_date@,
                sort@,
            ),
    {
        let params = Params::DateRange {
            startdate: String::from_str(start_date),
            enddate: String::from_str(end_date),
            sort: String::from_str(sort),
        };
        self.query("block", "getdailyuncleblockcount", &params)
    }

    /// The query of `logs`/`getLogs`.
    pub fn logs_by_address(&self, address: &str, from_block: i64, to_block: i64, page: i64, offset: i64) -> (r: Vec<(String, String)>)
        ensures
            pairs_view(r@) == base_fields("logs"@, "getLogs"@, self.api_key()) + event_log_address_paginated_fields(
                address@,
                from_block as int,
                to_block as int,
                page as int,
                offset as int,
            ),
    {
        let params = Params::EventLogAddressPaginated {
            address: String::from_str(address),
            fromblock: from_block,
            toblock: to_block,
            page,
            offset,
        };
        self.query("logs", "getLogs", &params)
    }

    /// The query of `proxy`/`eth_blockNumber`.
    pub fn eth_get_block_number(&self) -> (r: Vec<(String, String)>)
        ensures
            pairs_view(r@) == base_fields("proxy"@, "eth_blockNumber"@, self.api_key()),
    {
        let r = self.query("proxy", "eth_blockNumber", &Params::Empty);
        assert(pairs_view(r@) =~= base_fields("proxy"@, "eth_blockNumber"@, self.api_key()));
        r
    }

    /// The query of `proxy`/`eth_getBlockByNumber`.
    pub fn eth_get_block_by_number(&self, blockno: i64, show_full_tx: bool) -> (r: Vec<(String, String)>)
        ensures
            pairs_view(r@) == base_fields("proxy"@, "eth_getBlockByNumber"@, self.api_key()) + block_number_bool_fields(
                hex_tag(blockno as int),
                show_full_tx,
            ),
    {
        let params = Params::BlockNumberBool {
            tag: hex_tag_text(blockno),
            boolean: show_full_tx,
        };
        self.query("proxy", "eth_getBlockByNumber", &params)
    }

    /// The query of `proxy`/`eth_getUncleByBlockNumberAndIndex`.
    pub fn eth_get_uncle_by_block_number_and_index(&self, blockno: i64, index: i64) -> (r: Vec<(String, String)>)
        ensures
            pairs_view(r@) == base_fields("proxy"@, "eth_getUncleByBlockNumberAndIndex"@, self.api_key()) + block_number_index_fields(
                hex_tag(blockno as int),
                hex_tag(index as int),
            ),
    {
        let params = Params::BlockNumberIndex {
            tag: hex_tag_text(blockno),
            index: hex_tag_text(index),
        };
        self.query("proxy", "eth_getUncleByBlockNumberAndIndex", &params)
    }

    /// The query of `proxy`/`eth_getTransactionByHash`.
    pub fn eth_get_transaction_by_hash(&self, tx_hash: &str) -> (r: Vec<(String, String)>)
        ensures
            pairs_view(r@) == base_fields("proxy"@, "eth_getTransactionByHash"@, self.api_key()) + tx_hash_fields(
                tx_hash@,
            ),
    {
        let params = Params::TxHash {
            txhash: String::from_str(tx_hash),
        };
        self.query("proxy", "eth_getTransactionByHash", &params)
    }

    /// The query of `proxy`/`eth_getTransactionByBlockNumberAndIndex`.
    pub fn eth_get_transaction_by_block_number_and_index(&self, blockno: i64, index: i64) -> (r: Vec<(String, String)>)
        ensures
            pairs_view(r@) == base_fields("proxy"@, "eth_getTransactionByBlockNumberAndIndex"@, self.api_key()) + block_number_index_fields(
                hex_tag(blockno as int),
                hex_tag(index as int),
            ),
    {
        let params = Params::BlockNumberIndex {
            tag: hex_tag_text(blockno),
            index: hex_tag_text(index),
        };
        self.query("proxy", "eth_getTransactionByBlockNumberAndIndex", &params)
    }

    /// The query of `proxy`/`eth_getTransactionCount`.
    pub fn eth_get_transaction_count(&self, address: &str, tag: &str) -> (r: Vec<(String, String)>)
        ensures
            pairs_view(r@) == base_fields("proxy"@, "eth_getTransactionCount"@, self.api_key()) + address_tag_fields(
                address@,
                tag@,
            ),
    {
        let params = Params::AddressTag {
            address: String::from_str(address),
            tag: String::from_str(tag),
        };
        self.query("proxy", "eth_getTransactionCount", &params)
    }

    /// The query of `proxy`/`eth_sendRawTransaction`.
    pub fn eth_send_raw_transaction(&self, hex: &str) -> (r: Vec<(String, String)>)
        ensures
            pairs_view(r@) == base_fields("proxy"@, "eth_sendRawTransaction"@, self.api_key()) + raw_tx_fields(
                hex@,
            ),
    {
        let params = Params::RawTx {
            hex: String::from_str(hex),
        };
        self.query("proxy", "eth_sendRawTransaction", &params)
    }

    /// The query of `proxy`/`eth_getTransactionReceipt`.
    pub fn eth_get_transaction_receipt(&self, tx_hash: &str) -> (r: Vec<(String, String)>)
        ensures
            pairs_view(r@) == base_fields("proxy"@, "eth_getTransactionReceipt"@, self.api_key()) + tx_hash_fields(
                tx_hash@,
            ),
    {
        let params = Params::TxHash {
            txhash: String::from_str(tx_hash),
        };
        self.query("proxy", "eth_getTransactionReceipt", &params)
    }

    /// The query of `proxy`/`eth_call`.
    pub fn eth_call(&self, to: &str, data: &str, tag: &str) -> (r: Vec<(String, String)>)
        ensures
            pairs_view(r@) == base_fields("proxy"@, "eth_call"@, self.api_key()) + call_fields(
                to@,
                data@,
                tag@,
            ),
    {
        let params = Params::Call {
            to: String::from_str(to),
            data: String::from_str(data),
            tag: String::from_str(tag),
        };
        self.query("proxy", "eth_call", &params)
    }

    /// The query of `proxy`/`eth_getCode`.
    pub fn eth_get_code(&self, address: &str, tag: &str) -> (r: Vec<(String, String)>)
        ensures
            pairs_view(r@) == base_fields("proxy"@, "eth_getCode"@, self.api_key()) + address_tag_fields(
                address@,
                tag@,
            ),
    {
        let params = Params::AddressTag {
            address: String::from_str(address),
            tag: String::from_str(tag),
        };
        self.query("proxy", "eth_getCode", &params)
    }

    /// The query of `proxy`/`eth_getStorageAt`.
    pub fn eth_get_storage_at(&self, address: &str, position: &str, tag: &str) -> (r: Vec<(String, String)>)
        ensures
            pairs_view(r@) == base_fields("proxy"@, "eth_getStorageAt"@, self.api_key()) + storage_position_fields(
                address@,
                position@,
                tag@,
            ),
    {
        let params = Params::StoragePosition {
            address: String::from_str(address),
            position: String::from_str(position),
            tag: String::from_str(tag),
        };
        self.query("proxy", "eth_getStorageAt", &params)
    }

    /// The query of `proxy`/`eth_gasPrice`.
    pub fn eth_gas_price(&self) -> (r: Vec<(String, String)>)
        ensures
            pairs_view(r@) == base_fields("proxy"@, "eth_gasPrice"@, self.api_key()),
    {
        let r = self.query("proxy", "eth_gasPrice", &Params::Empty);
        assert(pairs_view(r@) =~= base_fields("proxy"@, "eth_gasPrice"@, self.api_key()));
        r
    }

    /// The query of `proxy`/`eth_estimateGas`.
    pub fn eth_estimate_gas(&self, to: &str, data: &str, value: i64, gas: i64, gas_price: i64) -> (r: Vec<(String, String)>)
        ensures
            pairs_view(r@) == base_fields("proxy"@, "eth_estimateGas"@, self.api_key()) + estimate_gas_fields(
                data@,
                to@,
                hex_tag(value as int),
                hex_tag(gas as int),
                hex_tag(gas_price as int),
            ),
    {
        let params = Params::EstimateGas {
            data: String::from_str(data),
            to: String::from_str(to),
            value: hex_tag_text(value),
            gas: hex_tag_text(gas),
            gas_price: hex_tag_text(gas_price),
        };
        self.query("proxy", "eth_estimateGas", &params)
    }

    /// The query of `tokens`/`tokenSupply`.
    pub fn token_total_supply(&self, contract_address: &str) -> (r: Vec<(String, String)>)
        ensures
            pairs_view(r@) == base_fields("tokens"@, "tokenSupply"@, self.api_key()) + contract_address_fields(
                contract_address@,
            ),
    {
        let params = Params::ContractAddress {
            contractaddress: String::from_str(contract_address),
        };
        self.query("tokens", "tokenSupply", &params)
    }

    /// The query of `tokens`/`tokenBalance`.
    pub fn token_balance(&self, contract_address: &str, address: &str, tag: &str) -> (r: Vec<(String, String)>)
        ensures
            pairs_view(r@) == base_fields("tokens"@, "tokenBalance"@, self.api_key()) + contract_by_address_fields(
                address@,
                contract_address@,
            ),
    {
        let params = Params::ContractByAddress {
            address: String::from_str(address),
            contractaddress: String::from_str(contract_address),
        };
        self.query("tokens", "tokenBalance", &params)
    }

    /// The query of `tokens`/`tokenSupplyHistory`.
    pub fn token_supply_history(&self, contract_address: &str, blockno: i64, offset: i64, page: i64, sort: &str) -> (r: Vec<(String, String)>)
        ensures
            pairs_view(r@) == base_fields("tokens"@, "tokenSupplyHistory"@, self.api_key()) + contract_by_block_number_fields(
                contract_address@,
                blockno as int,
            ),
    {
        let params = Params::ContractByBlockNumber {
            contractaddress: String::from_str(contract_address),
            blockno,
        };
        self.query("tokens", "tokenSupplyHistory", &params)
    }

    /// The query of `tokens`/`tokenBalanceHistory`.
    pub fn token_balance_history(&self, contract_address: &str, address: &str, blockno: i64, offset: i64, page: i64, sort: &str) -> (r: Vec<(String, String)>)
        ensures
            pairs_view(r@) == base_fields("tokens"@, "tokenBalanceHistory"@, self.api_key()) + contract_by_address_block_number_fields(
                address@,
                contract_address@,
                blockno as int,
            ),
    {
        let params = Params::ContractByAddressBlockNumber {
            address: String::from_str(address),
            contractaddress: String::from_str(contract_address),
            blockno,
        };
        self.query("tokens", "tokenBalanceHistory", &params)
    }

    /// The query of `tokens`/`tokennholderlist`.
    pub fn token_holder_list(&self, contract_address: &str, page: i64, offset: i64, sort: &str) -> (r: Vec<(String, String)>)
        ensures
            pairs_view(r@) == base_fields("tokens"@, "tokennholderlist"@, self.api_key()) + contract_address_paginated_fields(
                contract_address@,
                page as int,
                offset as int,
            ),
    {
        let params = Params::ContractAddressPaginated {
            contractaddress: String::from_str(contract_address),
            page,
            offset,
        };
        self.query("tokens", "tokennholderlist", &params)
    }

    /// The query of `tokens`/`tokenInfo`.
    pub fn token_info(&self, contract_address: &str) -> (r: Vec<(String, String)>)
        ensures
            pairs_view(r@) == base_fields("tokens"@, "tokenInfo"@, self.api_key()) + contract_address_fields(
                contract_address@,
            ),
    {
        let params = Params::ContractAddress {
            contractaddress: String::from_str(contract_address),
        };
        self.query("tokens", "tokenInfo", &params)
    }

    /// The query of `tokens`/`tokenBalance`.
    pub fn erc20_token_balance(&self, address: &str, page: i64, offset: i64) -> (r: Vec<(String, String)>)
        ensures
            pairs_view(r@) == base_fields("tokens"@, "tokenBalance"@, self.api_key()) + address_paginated_fields(
                address@,
                page as int,
                offset as int,
            ),
    {
        let params = Params::AddressPaginated {
            address: String::from_str(address),
            page,
            offset,
        };
        self.query("tokens", "tokenBalance", &params)
    }

    /// The query of `tokens`/`tokennfttx`.
    pub fn erc721_token_inventory(&self, address: &str, page: i64, offset: i64) -> (r: Vec<(String, String)>)
        ensures
            pairs_view(r@) == base_fields("tokens"@, "tokennfttx"@, self.api_key()) + address_paginated_fields(
                address@,
                page as int,
                offset as int,
            ),
    {
        let params = Params::AddressPaginated {
            address: String::from_str(address),
            page,
            offset,
        };
        self.query("tokens", "tokennfttx", &params)
    }

    /// The query of `tokens`/`tokennfttx`.
    pub fn erc721_token_inventory_by_contract(&self, contract_address: &str, address: &str, page: i64, offset: i64) -> (r: Vec<(String, String)>)
        ensures
            pairs_view(r@) == base_fields("tokens"@, "tokennfttx"@, self.api_key()) + contract_by_address_paginated_fields(
                address@,
                contract_address@,
                page as int,
                offset as int,
            ),
    {
        let params = Params::ContractByAddressPaginated {
            address: String::from_str(address),
            contractaddress: String::from_str(contract_address),
            page,
            offset,
        };
        self.query("tokens", "tokennfttx", &params)
    }

    /// The query of `gastracker`/`gasestimate`.
    pub fn estimate_confirmation_time(&self, gas_price: i64) -> (r: Vec<(String, String)>)
        ensures
            pairs_view(r@) == base_fields("gastracker"@, "gasestimate"@, self.api_key()) + gas_price_fields(
                hex_tag(gas_price as int),
            ),
    {
        let params = Params::GasPrice {
            gasprice: hex_tag_text(gas_price),
        };
        self.query("gastracker", "gasestimate", &params)
    }

    /// The query of `gastracker`/`gasoracle`.
    pub fn gas_oracle(&self) -> (r: Vec<(String, String)>)
        ensures
            pairs_view(r@) == base_fields("gastracker"@, "gasoracle"@, self.api_key()),
    {
        let r = self.query("gastracker", "gasoracle", &Params::Empty);
        assert(pairs_view(r@) =~= base_fields("gastracker"@, "gasoracle"@, self.api_key()));
        r
    }

    /// The query of `stats`/`dailyavggaslimit`.
    pub fn daily_average_gas_limit(&self, start_date: &str, end_date: &str, sort: &str) -> (r: Vec<(String, String)>)
        ensures
            pairs_view(r@) == base_fields("stats"@, "dailyavggaslimit"@, self.api_key()) + date_range_fields(
                start_date@,
                end_date@,
                sort@,
            ),
    {
        let params = Params::DateRange {
            startdate: String::from_str(start_date),
            enddate: String::from_str(end_date),
            sort: String::from_str(sort),
        };
        self.query("stats", "dailyavggaslimit", &params)
    }

    /// The query of `stats`/`dailygasused`.
    pub fn daily_total_gas_used(&self, start_date: &str, end_date: &str, sort: &str) -> (r: Vec<(String, String)>)
        ensures
            pairs_view(r@) == base_fields("stats"@, "dailygasused"@, self.api_key()) + date_range_fields(
                start_date@,
                end_date@,
                sort@,
            ),
    {
        let params = Params::DateRange {
            startdate: String::from_str(start_date),
            enddate: String::from_str(end_date),
            sort: String::from_str(sort),
        };
        self.query("stats", "dailygasused", &params)
    }

    /// The query of `stats`/`dailyavggasprice`.
    pub fn daily_average_gas_price(&self, start_date: &str, end_date: &str, sort: &str) -> (r: Vec<(String, String)>)
        ensures
            pairs_view(r@) == base_fields("stats"@, "dailyavggasprice"@, self.api_key()) + date_range_fields(
                start_date@,
                end_date@,
                sort@,
            ),
    {
        let params = Params::DateRange {
            startdate: String::from_str(start_date),
            enddate: String::from_str(end_date),
            sort: String::from_str(sort),
        };
        self.query("stats", "dailyavggasprice", &params)
    }

    /// The query of `stats`/`ethsupply`.
    pub fn total_eth_supply(&self) -> (r: Vec<(String, String)>)
        ensures
            pairs_view(r@) == base_fields("stats"@, "ethsupply"@, self.api_key()),
    {
        let r = self.query("stats", "ethsupply", &Params::Empty);
        assert(pairs_view(r@) =~= base_fields("stats"@, "ethsupply"@, self.api_key()));
        r
    }

    /// The query of `stats`/`ethsupply2`.
    pub fn total_eth2_supply(&self) -> (r: Vec<(String, String)>)
        ensures
            pairs_view(r@) == base_fields("stats"@, "ethsupply2"@, self.api_key()),
    {
        let r = self.query("stats", "ethsupply2", &Params::Empty);
        assert(pairs_view(r@) =~= base_fields("stats"@, "ethsupply2"@, self.api_key()));
        r
    }

    /// The query of `stats`/`ethprice`.
    pub fn eth_price(&self) -> (r: Vec<(String, String)>)
        ensures
            pairs_view(r@) == base_fields("stats"@, "ethprice"@, self.api_key()),
    {
        let r = self.query("stats", "ethprice", &Params::Empty);
        assert(pairs_view(r@) =~= base_fields("stats"@, "ethprice"@, self.api_key()));
        r
    }

    /// The query of `stats`/`chainsize`.
    pub fn chain_size(&self, start_date: &str, end_date: &str, client_type: &str, sync_mode: &str, sort: &str) -> (r: Vec<(String, String)>)
        ensures
            pairs_view(r@) == base_fields("stats"@, "chainsize"@, self.api_key()) + blockchain_size_fields(
                start_date@,
                end_date@,
                client_type@,
                sync_mode@,
                sort@,
            ),
    {
        let params = Params::BlockchainSize {
            startdate: String::from_str(start_date),
            enddate: String::from_str(end_date),
            clienttype: String::from_str(client_type),
            syncmode: String::from_str(sync_mode),
            sort: String::from_str(sort),
        };
        self.query("stats", "chainsize", &params)
    }

    /// The query of `stats`/`nodecount`.
    pub fn total_node_count(&self) -> (r: Vec<(String, String)>)
        ensures
            pairs_view(r@) == base_fields("stats"@, "nodecount"@, self.api_key()),
    {
        let r = self.query("stats", "nodecount", &Params::Empty);
        assert(pairs_view(r@) =~= base_fields("stats"@, "nodecount"@, self.api_key()));
        r
    }

    /// The query of `stats`/`dailytxnsfee`.
    pub fn daily_total_transaction_fee(&self, start_date: &str, end_date: &str, sort: &str) -> (r: Vec<(String, String)>)
        ensures
            pairs_view(r@) == base_fields("stats"@, "dailytxnsfee"@, self.api_key()) + date_range_fields(
                start_date@,
                end_date@,
                sort@,
            ),
    {
        let params = Params::DateRange {
            startdate: String::from_str(start_date),
            enddate: String::from_str(end_date),
            sort: String::from_str(sort),
        };
        self.query("stats", "dailytxnsfee", &params)
    }

    /// The query of `stats`/`newaddress`.
    pub fn daily_new_address_count(&self, start_date: &str, end_date: &str, sort: &str) -> (r: Vec<(String, String)>)
        ensures
            pairs_view(r@) == base_fields("stats"@, "newaddress"@, self.api_key()) + date_range_fields(
                start_date@,
                end_date@,
                sort@,
            ),
    {
        let params = Params::DateRange {
            startdate: String::from_str(start_date),
            enddate: String::from_str(end_date),
            sort: String::from_str(sort),
        };
        self.query("stats", "newaddress", &params)
    }

    /// The query of `stats`/`ethusd`.
    pub fn daily_network_utilization(&self, start_date: &str, end_date: &str, sort: &str) -> (r: Vec<(String, String)>)
        ensures
            pairs_view(r@) == base_fields("stats"@, "ethusd"@, self.api_key()) + date_range_fields(
                start_date@,
                end_date@,
                sort@,
            ),
    {
        let params = Params::DateRange {
            startdate: String::from_str(start_date),
            enddate: String::from_str(end_date),
            sort: String::from_str(sort),
        };
        self.query("stats", "ethusd", &params)
    }

    /// The query of `stats`/`dailyhashrate`.
    pub fn daily_average_hash_rate(&self, start_date: &str, end_date: &str, sort: &str) -> (r: Vec<(String, String)>)
        ensures
            pairs_view(r@) == base_fields("stats"@, "dailyhashrate"@, self.api_key()) + date_range_fields(
                start_date@,
                end_date@,
                sort@,
            ),
    {
        let params = Params::DateRange {
            startdate: String::from_str(start_date),
            enddate: String::from_str(end_date),
            sort: String::from_str(sort),
        };
        self.query("stats", "dailyhashrate", &params)
    }

    /// The query of `stats`/`dailytxns`.
    pub fn dailt_transaction_count(&self, start_date: &str, end_date: &str, sort: &str) -> (r: Vec<(String, String)>)
        ensures
            pairs_view(r@) == base_fields("stats"@, "dailytxns"@, self.api_key()) + date_range_fields(
                start_date@,
                end_date@,
                sort@,
            ),
    {
        let params = Params::DateRange {
            startdate: String::from_str(start_date),
            enddate: String::from_str(end_date),
            sort: String::from_str(sort),
        };
        self.query("stats", "dailytxns", &params)
    }

    /// The query of `stats`/`dailyavgdifficulty`.
    pub fn daily_average_difficulty(&self, start_date: &str, end_date: &str, sort: &str) -> (r: Vec<(String, String)>)
        ensures
            pairs_view(r@) == base_fields("stats"@, "dailyavgdifficulty"@, self.api_key()) + date_range_fields(
                start_date@,
                end_date@,
                sort@,
            ),
    {
        let params = Params::DateRange {
            startdate: String::from_str(start_date),
            enddate: String::from_str(end_date),
            sort: String::from_str(sort),
        };
        self.query("stats", "dailyavgdifficulty", &params)
    }

    /// The query of `stats`/`ethdailymarketcap`.
    pub fn daily_market_cap_history(&self, start_date: &str, end_date: &str, sort: &str) -> (r: Vec<(String, String)>)
        ensures
            pairs_view(r@) == base_fields("stats"@, "ethdailymarketcap"@, self.api_key()) + date_range_fields(
                start_date@,
                end_date@,
                sort@,
            ),
    {
        let params = Params::DateRange {
            startdate: String::from_str(start_date),
            enddate: String::from_str(end_date),
            sort: String::from_str(sort),
        };
        self.query("stats", "ethdailymarketcap", &params)
    }

    /// The query of `stats`/`ethdailyprice`.
    pub fn daily_eth_price_history(&self, start_date: &str, end_date: &str, sort: &str) -> (r: Vec<(String, String)>)
        ensures
            pairs_view(r@) == base_fields("stats"@, "ethdailyprice"@, self.api_key()) + date_range_fields(
                start_date@,
                end_date@,
                sort@,
            ),
    {
        let params = Params::DateRange {
            startdate: String::from_str(start_date),
            enddate: String::from_str(end_date),
            sort: String::from_str(sort),
        };
        self.query("stats", "ethdailyprice", &params)
    }
}

/// A key of six characters is a base key only if it starts with `m` or `a`.
proof fn lemma_not_base_key(k: Seq<char>)
    requires
        k.len() != 6 || (k[0] != 'm' && k[0] != 'a'),
    ensures
        !is_base_key(k),
{
    reveal_strlit("module");
    reveal_strlit("action");
    reveal_strlit("apikey");
    if k.len() == 6 {
        assert(k[0] != "module"@[0] && k[0] != "action"@[0] && k[0] != "apikey"@[0]);
    }
}

proof fn lemma_fields_avoid_base(f: Seq<(Seq<char>, Seq<char>)>, g: Seq<(Seq<char>, Seq<char>)>)
    requires
        forall|i: int| 0 <= i < f.len() ==> !is_base_key(#[trigger] f[i].0),
        forall|i: int| 0 <= i < g.len() ==> !is_base_key(#[trigger] g[i].0),
    ensures
        forall|i: int| 0 <= i < (f + g).len() ==> !is_base_key(#[trigger] (f + g)[i].0),
{
    assert forall|i: int| 0 <= i < (f + g).len() implies !is_base_key(#[trigger] (f + g)[i].0) by {
        if i < f.len() {
            assert((f + g)[i] == f[i]);
        } else {
            assert((f + g)[i] == g[i - f.len()]);
        }
    }
}

/// No key of any endpoint's record is the key of a base field, so the base
/// fields and the endpoint's fields of a query never collide.
pub proof fn lemma_no_key_collision(p: Params)
    requires
        p.well_formed(),
    ensures
        forall|i: int| 0 <= i < p.fields().len() ==> !is_base_key(#[trigger] p.fields()[i].0),
{
    reveal_strlit("address");
    lemma_not_base_key("address"@);
    reveal_strlit("tag");
    lemma_not_base_key("tag"@);
    reveal_strlit("startblock");
    lemma_not_base_key("startblock"@);
    reveal_strlit("endblock");
    lemma_not_base_key("endblock"@);
    reveal_strlit("page");
    lemma_not_base_key("page"@);
    reveal_strlit("offset");
    lemma_not_base_key("offset"@);
    reveal_strlit("sort");
    lemma_not_base_key("sort"@);
    reveal_strlit("txhash");
    lemma_not_base_key("txhash"@);
    reveal_strlit("contractaddress");
    lemma_not_base_key("contractaddress"@);
    reveal_strlit("blocktype");
    lemma_not_base_key("blocktype"@);
    reveal_strlit("blockno");
    lemma_not_base_key("blockno"@);
    reveal_strlit("timestamp");
    lemma_not_base_key("timestamp"@);
    reveal_strlit("closest");
    lemma_not_base_key("closest"@);
    reveal_strlit("startdate");
    lemma_not_base_key("startdate"@);
    reveal_strlit("enddate");
    lemma_not_base_key("enddate"@);
    reveal_strlit("fromblock");
    lemma_not_base_key("fromblock"@);
    reveal_strlit("toblock");
    lemma_not_base_key("toblock"@);
    reveal_strlit("boolean");
    lemma_not_base_key("boolean"@);
    reveal_strlit("index");
    lemma_not_base_key("index"@);
    reveal_strlit("hex");
    lemma_not_base_key("hex"@);
    reveal_strlit("to");
    lemma_not_base_key("to"@);
    reveal_strlit("data");
    lemma_not_base_key("data"@);
    reveal_strlit("position");
    lemma_not_base_key("position"@);
    reveal_strlit("value");
    lemma_not_base_key("value"@);
    reveal_strlit("gas");
    lemma_not_base_key("gas"@);
    reveal_strlit("gasPrice");
    lemma_not_base_key("gasPrice"@);
    reveal_strlit("contractaddresses");
    lemma_not_base_key("contractaddresses"@);
    reveal_strlit("gasprice");
    lemma_not_base_key("gasprice"@);
    reveal_strlit("clienttype");
    lemma_not_base_key("clienttype"@);
    reveal_strlit("syncmode");
    lemma_not_base_key("syncmode"@);
    reveal_strlit("topic0");
    lemma_not_base_key("topic0"@);
    reveal_strlit("topic1");
    lemma_not_base_key("topic1"@);
    reveal_strlit("topic2");
    lemma_not_base_key("topic2"@);
    reveal_strlit("topic3");
    lemma_not_base_key("topic3"@);
    reveal_strlit("topic0_1_opr");
    lemma_not_base_key("topic0_1_opr"@);
    reveal_strlit("topic1_2_opr");
    lemma_not_base_key("topic1_2_opr"@);
    reveal_strlit("topic2_3_opr");
    lemma_not_base_key("topic2_3_opr"@);
    let f = p.fields();
    match p {
        Params::AddressTag { .. } => {
            assert forall|i: int| 0 <= i < f.len() implies !is_base_key(#[trigger] f[i].0) by {
                if i == 0 {
                    assert(f[i].0 == "address"@);
                } else if i == 1 {
                    assert(f[i].0 == "tag"@);
                }
            }
        },
        Params::TxListPaginated { .. } => {
            assert forall|i: int| 0 <= i < f.len() implies !is_base_key(#[trigger] f[i].0) by {
                if i == 0 {
                    assert(f[i].0 == "address"@);
                } else if i == 1 {
                    assert(f[i].0 == "startblock"@);
                } else if i == 2 {
                    assert(f[i].0 == "endblock"@);
                } else if i == 3 {
                    assert(f[i].0 == "page"@);
                } else if i == 4 {
                    assert(f[i].0 == "offset"@);
                } else if i == 5 {
                    assert(f[i].0 == "sort"@);
                }
            }
        },
        Params::TxHash { .. } => {
            assert forall|i: int| 0 <= i < f.len() implies !is_base_key(#[trigger] f[i].0) by {
                if i == 0 {
                    assert(f[i].0 == "txhash"@);
                }
            }
        },
        Params::BlockRangePaginated { .. } => {
            assert forall|i: int| 0 <= i < f.len() implies !is_base_key(#[trigger] f[i].0) by {
                if i == 0 {
                    assert(f[i].0 == "startblock"@);
                } else if i == 1 {
                    assert(f[i].0 == "endblock"@);
                } else if i == 2 {
                    assert(f[i].0 == "page"@);
                } else if i == 3 {
                    assert(f[i].0 == "offset"@);
                } else if i == 4 {
                    assert(f[i].0 == "sort"@);
                }
            }
        },
        Params::TokenEventsPaginated { .. } => {
            assert forall|i: int| 0 <= i < f.len() implies !is_base_key(#[trigger] f[i].0) by {
                if i == 0 {
                    assert(f[i].0 == "address"@);
                } else if i == 1 {
                    assert(f[i].0 == "contractaddress"@);
                } else if i == 2 {
                    assert(f[i].0 == "page"@);
                } else if i == 3 {
                    assert(f[i].0 == "offset"@);
                } else if i == 4 {
                    assert(f[i].0 == "startblock"@);
                } else if i == 5 {
                    assert(f[i].0 == "endblock"@);
                } else if i == 6 {
                    assert(f[i].0 == "sort"@);
                }
            }
        },
        Params::AddressBlocktypePaginated { .. } => {
            assert forall|i: int| 0 <= i < f.len() implies !is_base_key(#[trigger] f[i].0) by {
                if i == 0 {
                    assert(f[i].0 == "address"@);
                } else if i == 1 {
                    assert(f[i].0 == "blocktype"@);
                } else if i == 2 {
                    assert(f[i].0 == "page"@);
                } else if i == 3 {
                    assert(f[i].0 == "offset"@);
                } else if i == 4 {
                    assert(f[i].0 == "sort"@);
                }
            }
        },
        Params::ContractByAddressBlockRangePaginated { .. } => {
            assert forall|i: int| 0 <= i < f.len() implies !is_base_key(#[trigger] f[i].0) by {
                if i == 0 {
                    assert(f[i].0 == "address"@);
                } else if i == 1 {
                    assert(f[i].0 == "contractaddress"@);
                } else if i == 2 {
                    assert(f[i].0 == "page"@);
                } else if i == 3 {
                    assert(f[i].0 == "offset"@);
                } else if i == 4 {
                    assert(f[i].0 == "startblock"@);
                } else if i == 5 {
                    assert(f[i].0 == "endblock"@);
                } else if i == 6 {
                    assert(f[i].0 == "sort"@);
                }
            }
        },
        Params::AddressBlockNumber { .. } => {
            assert forall|i: int| 0 <= i < f.len() implies !is_base_key(#[trigger] f[i].0) by {
                if i == 0 {
                    assert(f[i].0 == "address"@);
                } else if i == 1 {
                    assert(f[i].0 == "blockno"@);
                }
            }
        },
        Params::Address { .. } => {
            assert forall|i: int| 0 <= i < f.len() implies !is_base_key(#[trigger] f[i].0) by {
                if i == 0 {
                    assert(f[i].0 == "address"@);
                }
            }
        },
        Params::ContractAddress { .. } => {
            assert forall|i: int| 0 <= i < f.len() implies !is_base_key(#[trigger] f[i].0) by {
                if i == 0 {
                    assert(f[i].0 == "contractaddress"@);
                }
            }
        },
        Params::BlockNumber { .. } => {
            assert forall|i: int| 0 <= i < f.len() implies !is_base_key(#[trigger] f[i].0) by {
                if i == 0 {
                    assert(f[i].0 == "blockno"@);
                }
            }
        },
        Params::BlockTimestamp { .. } => {
            assert forall|i: int| 0 <= i < f.len() implies !is_base_key(#[trigger] f[i].0) by {
                if i == 0 {
                    assert(f[i].0 == "timestamp"@);
                } else if i == 1 {
                    assert(f[i].0 == "closest"@);
                }
            }
        },
        Params::DateRange { .. } => {
            assert forall|i: int| 0 <= i < f.len() implies !is_base_key(#[trigger] f[i].0) by {
                if i == 0 {
                    assert(f[i].0 == "startdate"@);
                } else if i == 1 {
                    assert(f[i].0 == "enddate"@);
                } else if i == 2 {
                    assert(f[i].0 == "sort"@);
                }
            }
        },
        Params::EventLogAddressPaginated { .. } => {
            assert forall|i: int| 0 <= i < f.len() implies !is_base_key(#[trigger] f[i].0) by {
                if i == 0 {
                    assert(f[i].0 == "address"@);
                } else if i == 1 {
                    assert(f[i].0 == "fromblock"@);
                } else if i == 2 {
                    assert(f[i].0 == "toblock"@);
                } else if i == 3 {
                    assert(f[i].0 == "page"@);
                } else if i == 4 {
                    assert(f[i].0 == "offset"@);
                }
            }
        },
        Params::BlockNumberBool { .. } => {
            assert forall|i: int| 0 <= i < f.len() implies !is_base_key(#[trigger] f[i].0) by {
                if i == 0 {
                    assert(f[i].0 == "tag"@);
                } else if i == 1 {
                    assert(f[i].0 == "boolean"@);
                }
            }
        },
        Params::BlockNumberIndex { .. } => {
            assert forall|i: int| 0 <= i < f.len() implies !is_base_key(#[trigger] f[i].0) by {
                if i == 0 {
                    assert(f[i].0 == "tag"@);
                } else if i == 1 {
                    assert(f[i].0 == "index"@);
                }
            }
        },
        Params::BlockNumberHex { .. } => {
            assert forall|i: int| 0 <= i < f.len() implies !is_base_key(#[trigger] f[i].0) by {
                if i == 0 {
                    assert(f[i].0 == "tag"@);
                }
            }
        },
        Params::RawTx { .. } => {
            assert forall|i: int| 0 <= i < f.len() implies !is_base_key(#[trigger] f[i].0) by {
                if i == 0 {
                    assert(f[i].0 == "hex"@);
                }
            }
        },
        Params::Call { .. } => {
            assert forall|i: int| 0 <= i < f.len() implies !is_base_key(#[trigger] f[i].0) by {
                if i == 0 {
                    assert(f[i].0 == "to"@);
                } else if i == 1 {
                    assert(f[i].0 == "data"@);
                } else if i == 2 {
                    assert(f[i].0 == "tag"@);
                }
            }
        },
        Params::StoragePosition { .. } => {
            assert forall|i: int| 0 <= i < f.len() implies !is_base_key(#[trigger] f[i].0) by {
                if i == 0 {
                    assert(f[i].0 == "address"@);
                } else if i == 1 {
                    assert(f[i].0 == "position"@);
                } else if i == 2 {
                    assert(f[i].0 == "tag"@);
                }
            }
        },
        Params::EstimateGas { .. } => {
            assert forall|i: int| 0 <= i < f.len() implies !is_base_key(#[trigger] f[i].0) by {
                if i == 0 {
                    assert(f[i].0 == "data"@);
                } else if i == 1 {
                    assert(f[i].0 == "to"@);
                } else if i == 2 {
                    assert(f[i].0 == "value"@);
                } else if i == 3 {
                    assert(f[i].0 == "gas"@);
                } else if i == 4 {
                    assert(f[i].0 == "gasPrice"@);
                }
            }
        },
        Params::ContractAddresses { .. } => {
            assert forall|i: int| 0 <= i < f.len() implies !is_base_key(#[trigger] f[i].0) by {
                if i == 0 {
                    assert(f[i].0 == "contractaddresses"@);
                }
            }
        },
        Params::ContractByAddress { .. } => {
            assert forall|i: int| 0 <= i < f.len() implies !is_base_key(#[trigger] f[i].0) by {
                if i == 0 {
                    assert(f[i].0 == "address"@);
                } else if i == 1 {
                    assert(f[i].0 == "contractaddress"@);
                }
            }
        },
        Params::ContractByAddressPaginated { .. } => {
            assert forall|i: int| 0 <= i < f.len() implies !is_base_key(#[trigger] f[i].0) by {
                if i == 0 {
                    assert(f[i].0 == "address"@);
                } else if i == 1 {
                    assert(f[i].0 == "contractaddress"@);
                } else if i == 2 {
                    assert(f[i].0 == "page"@);
                } else if i == 3 {
                    assert(f[i].0 == "offset"@);
                }
            }
        },
        Params::ContractByBlockNumber { .. } => {
            assert forall|i: int| 0 <= i < f.len() implies !is_base_key(#[trigger] f[i].0) by {
                if i == 0 {
                    assert(f[i].0 == "contractaddress"@);
                } else if i == 1 {
                    assert(f[i].0 == "blockno"@);
                }
            }
        },
        Params::ContractByAddressBlockNumber { .. } => {
            assert forall|i: int| 0 <= i < f.len() implies !is_base_key(#[trigger] f[i].0) by {
                if i == 0 {
                    assert(f[i].0 == "address"@);
                } else if i == 1 {
                    assert(f[i].0 == "contractaddress"@);
                } else if i == 2 {
                    assert(f[i].0 == "blockno"@);
                }
            }
        },
        Params::ContractAddressPaginated { .. } => {
            assert forall|i: int| 0 <= i < f.len() implies !is_base_key(#[trigger] f[i].0) by {
                if i == 0 {
                    assert(f[i].0 == "contractaddress"@);
                } else if i == 1 {
                    assert(f[i].0 == "page"@);
                } else if i == 2 {
                    assert(f[i].0 == "offset"@);
                }
            }
        },
        Params::AddressPaginated { .. } => {
            assert forall|i: int| 0 <= i < f.len() implies !is_base_key(#[trigger] f[i].0) by {
                if i == 0 {
                    assert(f[i].0 == "address"@);
                } else if i == 1 {
                    assert(f[i].0 == "page"@);
                } else if i == 2 {
                    assert(f[i].0 == "offset"@);
                }
            }
        },
        Params::GasPrice { .. } => {
            assert forall|i: int| 0 <= i < f.len() implies !is_base_key(#[trigger] f[i].0) by {
                if i == 0 {
                    assert(f[i].0 == "gasprice"@);
                }
            }
        },
        Params::BlockchainSize { .. } => {
            assert forall|i: int| 0 <= i < f.len() implies !is_base_key(#[trigger] f[i].0) by {
                if i == 0 {
                    assert(f[i].0 == "startdate"@);
                } else if i == 1 {
                    assert(f[i].0 == "enddate"@);
                } else if i == 2 {
                    assert(f[i].0 == "clienttype"@);
                } else if i == 3 {
                    assert(f[i].0 == "syncmode"@);
                } else if i == 4 {
                    assert(f[i].0 == "sort"@);
                }
            }
        },
        Params::Topics(q) => {
            let head = seq![
                ("fromblock"@, decimal(q.fromblock as int)),
                ("toblock"@, decimal(q.toblock as int)),
                ("topic0"@, q.topic0@),
            ];
            let tail = seq![("page"@, decimal(q.page as int)), ("offset"@, decimal(q.offset as int))];
            let l1 = linked_topic("topic1"@, q.topic1@, "topic0_1_opr"@, q.topic0_1_opr@);
            let l2 = linked_topic("topic2"@, q.topic2@, "topic1_2_opr"@, q.topic1_2_opr@);
            let l3 = linked_topic("topic3"@, q.topic3@, "topic2_3_opr"@, q.topic2_3_opr@);
            assert forall|i: int| 0 <= i < head.len() implies !is_base_key(#[trigger] head[i].0) by {
                if i == 0 {
                } else if i == 1 {
                } else {
                }
            }
            assert forall|i: int| 0 <= i < tail.len() implies !is_base_key(#[trigger] tail[i].0) by {
                if i == 0 {
                } else {
                }
            }
            assert forall|i: int| 0 <= i < l1.len() implies !is_base_key(#[trigger] l1[i].0) by {
                if i == 0 {
                } else {
                }
            }
            assert forall|i: int| 0 <= i < l2.len() implies !is_base_key(#[trigger] l2[i].0) by {
                if i == 0 {
                } else {
                }
            }
            assert forall|i: int| 0 <= i < l3.len() implies !is_base_key(#[trigger] l3[i].0) by {
                if i == 0 {
                } else {
                }
            }
            lemma_fields_avoid_base(head, l1);
            lemma_fields_avoid_base(head + l1, l2);
            lemma_fields_avoid_base(head + l1 + l2, l3);
            lemma_fields_avoid_base(head + l1 + l2 + l3, tail);
            assert(f == head + l1 + l2 + l3 + tail);
        },
        Params::Empty => {},
    }
}


/// Building the query of one call twice gives the same fields both times:
/// the client holds no state that a call changes, and nothing is cached.
pub proof fn lemma_repeated_query(
    c: Client,
    module: Seq<char>,
    action: Seq<char>,
    p: Params,
    first: Seq<(String, String)>,
    second: Seq<(String, String)>,
)
    requires
        pairs_view(first) == base_fields(module, action, c.api_key()) + p.fields(),
        pairs_view(second) == base_fields(module, action, c.api_key()) + p.fields(),
    ensures
        pairs_view(first) == pairs_view(second),
{
}

} // verus!
