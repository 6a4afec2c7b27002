use vstd::prelude::*;

verus! {

/// An account or contract address of the ledger, held by its textual (strkey) form.
///
/// Two addresses are the same exactly when their keys are the same text.
#[derive(Debug)]
pub struct AccountId {
    pub key: String,
}

impl View for AccountId {
    type V = Seq<char>;

    open spec fn view(&self) -> Seq<char> {
        self.key@
    }
}

impl AccountId {
    /// Builds an address from its key.
    pub fn new(key: &str) -> (r: AccountId)
        ensures
            r@ == key@,
    {
        AccountId { key: key.to_owned() }
    }

    /// Whether both values name the same address.
    pub fn same_as(&self, other: &AccountId) -> (r: bool)
        ensures
            r == (self@ == other@),
    {
        self.key == other.key
    }
}

impl Clone for AccountId {
    fn clone(&self) -> (r: AccountId)
        ensures
            r@ == self@,
    {
        AccountId { key: self.key.clone() }
    }
}

impl PartialEq for AccountId {
    fn eq(&self, other: &AccountId) -> (r: bool) {
        self.key == other.key
    }
}

impl Eq for AccountId {
}

impl vstd::std_specs::cmp::PartialEqSpecImpl for AccountId {
    open spec fn obeys_eq_spec() -> bool {
        true
    }

    open spec fn eq_spec(&self, other: &AccountId) -> bool {
        self@ == other@
    }
}

/// The view of an optional address: the key text, where there is an address.
pub open spec fn opt_account_view(a: Option<AccountId>) -> Option<Seq<char>> {
    match a {
        Some(x) => Some(x@),
        None => None,
    }
}

/// Copies an optional address.
pub fn clone_opt_account(a: &Option<AccountId>) -> (r: Option<AccountId>)
    ensures
        opt_account_view(r) == opt_account_view(*a),
{
    match a {
        Some(x) => Some(x.clone()),
        None => None,
    }
}

/// Whether an optional address is present and names `who`.
pub fn is_account(a: &Option<AccountId>, who: &AccountId) -> (r: bool)
    ensures
        r == (opt_account_view(*a) == Some(who@)),
{
    match a {
        Some(x) => x.same_as(who),
        None => false,
    }
}

} // verus!
