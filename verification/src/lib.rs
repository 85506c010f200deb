//! A single-process ledger engine: it accepts pending value transfers,
//! seals them into immutable, hash-linked blocks through a proof-of-work
//! search, and serves the sealed chain to callers. The HTTP transport around
//! it lives outside this crate and talks to it through plain values.

pub mod config;
pub mod miner;
pub mod model;
pub mod text;

use vstd::prelude::*;

use crate::model::transaction::TransactionMutexError;

verus! {

/// The envelope returned to callers for page and submission outcomes: a
/// title, the status code the transport should answer with, the page name
/// and a readable description.
#[derive(Debug)]
pub struct ResponseData {
    pub title: String,
    pub statuscode: u16,
    pub page: String,
    pub description: String,
}

/// The home page descriptor.
pub fn home_page_data() -> (r: ResponseData)
    ensures
        r.title@ == "Actix Blockchain API"@,
        r.statuscode == 200,
        r.page@ == "Home"@,
        r.description@ == "Blockchain Exercise to simulate the workflow of a crypto-currency"@,
{
    ResponseData {
        title: "Actix Blockchain API".to_owned(),
        statuscode: 200,
        page: "Home".to_owned(),
        description: "Blockchain Exercise to simulate the workflow of a crypto-currency".to_owned(),
    }
}

/// The success envelope answered when a transaction has been queued for the
/// next block.
pub fn transaction_created_data() -> (r: ResponseData)
    ensures
        r.title@ == "Actix Blockchain API - Success"@,
        r.statuscode == 201,
        r.page@ == "Add Transaction"@,
        r.description@ == "Transactions: Transaction is queued for next block"@,
{
    ResponseData {
        title: "Actix Blockchain API - Success".to_owned(),
        statuscode: 201,
        page: "Add Transaction".to_owned(),
        description: "Transactions: Transaction is queued for next block".to_owned(),
    }
}

/// The failure envelope answered when the pool refuses a transaction.
pub fn transaction_failed_data(e: &TransactionMutexError) -> (r: ResponseData)
    ensures
        r.title@ == "Actix Blockchain API - Error"@,
        r.statuscode == 500,
        r.page@ == "Add Transaction"@,
        r.description@ == "Transactions: Transaction could not be added! Message: "@
            + e.spec_report(),
{
    let mut description = "Transactions: Transaction could not be added! Message: ".to_owned();
    description.append(e.report());
    ResponseData {
        title: "Actix Blockchain API - Error".to_owned(),
        statuscode: 500,
        page: "Add Transaction".to_owned(),
        description,
    }
}

} // verus!
