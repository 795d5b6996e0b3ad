//! The bridge's configuration: the C2 endpoint and its authorization
//! header, the server credentials, the discovery request message, and
//! the worker counts.  Loading it from disk is the entry point's
//! business; the values live here as plain data.

use vstd::prelude::*;
use vstd::slice::slice_to_vec;
use vstd::utf8::encode_utf8;
use crate::auth::{basic_auth_header_value, basic_prefix, base64_standard, credential_bytes};

verus! {

pub struct HeaderConfig {
    pub key: String,
    pub username: String,
    pub password: String,
}

pub struct DateRange {
    pub id: i32,
    pub duration: i32,
    pub selection: i32,
    pub from_date: i64,
    pub to_date: i64,
}

pub struct TagType {
    pub id: i32,
}

pub struct Filter {
    pub date_range: DateRange,
    pub id: i32,
    pub tag_type: TagType,
    pub last_modified: i64,
    pub asset_name: String,
    pub starting_row: i32,
    pub max_record_count: i32,
    pub order_by_property: String,
    pub descending: bool,
    pub filter_deleted: bool,
}

pub struct Message {
    pub msg_type: String,
    pub filter: Filter,
}

pub struct OpcConfig {
    pub url: String,
    pub username: String,
    pub password: String,
}

pub struct Configuration {
    pub base: String,
    pub header: HeaderConfig,
    pub message: Message,
    pub opc: OpcConfig,
    pub num_producers: usize,
    pub num_consumers: usize,
}

impl Configuration {
    pub fn get_base(&self) -> (r: String)
        ensures
            r@ == self.base@,
    {
        self.base.clone()
    }

    pub fn get_message(&self) -> (r: &Message)
        ensures
            r == &self.message,
    {
        &self.message
    }

    pub fn get_header_key(&self) -> (r: String)
        ensures
            r@ == self.header.key@,
    {
        self.header.key.clone()
    }

    /// The authorization header value: `Basic ` followed by the
    /// base64 encoding of the UTF-8 bytes of `username:password`.
    pub fn get_header_value(&self) -> (r: Vec<u8>)
        ensures
            r@ == basic_prefix() + base64_standard(credential_bytes(
                encode_utf8(self.header.username@),
                encode_utf8(self.header.password@),
            )),
    {
        let username = slice_to_vec(self.header.username.as_str().as_bytes());
        let password = slice_to_vec(self.header.password.as_str().as_bytes());
        basic_auth_header_value(&username, &password)
    }

    pub fn get_opc_url(&self) -> (r: &str)
        ensures
            r@ == self.opc.url@,
    {
        self.opc.url.as_str()
    }

    pub fn get_opc_username(&self) -> (r: String)
        ensures
            r@ == self.opc.username@,
    {
        self.opc.username.clone()
    }

    pub fn get_opc_password(&self) -> (r: String)
        ensures
            r@ == self.opc.password@,
    {
        self.opc.password.clone()
    }

    pub fn get_num_producers(&self) -> (r: usize)
        ensures
            r == self.num_producers,
    {
        self.num_producers
    }

    pub fn get_num_consumers(&self) -> (r: usize)
        ensures
            r == self.num_consumers,
    {
        self.num_consumers
    }
}

} // verus!
