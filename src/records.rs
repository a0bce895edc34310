use vstd::prelude::*;

verus! {

/// A customer record as the REST API returns it.
#[derive(Clone, Debug, PartialEq, Eq)]
pub struct Customer {
    pub id: String,
    pub entityid: String,
    pub companyname: Option<String>,
    pub email: Option<String>,
    pub phone: Option<String>,
    pub datecreated: Option<String>,
}

/// A reference to a related entity, such as the vendor of a payment.
#[derive(Clone, Debug, PartialEq, Eq)]
pub struct EntityReference {
    pub id: String,
    pub name: Option<String>,
}

/// A transaction row (a check, a vendor payment or a sales order).
///
/// `amount` keeps the decimal notation of the amount as received; the
/// client never computes with it.
#[derive(Clone, Debug, PartialEq, Eq)]
pub struct Transaction {
    pub id: String,
    pub trandate: Option<String>,
    pub createddate: Option<String>,
    pub transaction_type: Option<String>,
    pub memo: Option<String>,
    pub amount: Option<String>,
    pub currency: Option<String>,
    pub entity: Option<EntityReference>,
}

/// The envelope `{"records": [...]}` of a customer list.
#[derive(Clone, Debug, PartialEq, Eq)]
pub struct CustomerResponse {
    pub records: Vec<Customer>,
}

/// The envelope `{"records": [...]}` of a transaction list.
#[derive(Clone, Debug, PartialEq, Eq)]
pub struct TransactionResponse {
    pub records: Vec<Transaction>,
}

impl CustomerResponse {
    /// The records of the envelope, in order.
    pub fn into_records(self) -> (r: Vec<Customer>)
        ensures
            r@ == self.records@,
    {
        self.records
    }
}

impl TransactionResponse {
    /// The records of the envelope, in order.
    pub fn into_records(self) -> (r: Vec<Transaction>)
        ensures
            r@ == self.records@,
    {
        self.records
    }
}

} // verus!
