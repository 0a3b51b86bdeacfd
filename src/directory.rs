use vstd::prelude::*;

use crate::error::AcmeError;
use crate::text::text_eq;

verus! {

/// The endpoints of a certificate authority, read once per session.
#[derive(Debug)]
pub struct Directory {
    pub new_nonce: Option<String>,
    pub new_account: String,
    pub new_order: String,
    pub terms_of_service: Option<String>,
    pub external_account_required: bool,
}

/// The optional `meta` block of a directory document.
#[derive(Debug)]
pub struct DirectoryMeta {
    pub terms_of_service: Option<String>,
    pub external_account_required: bool,
}

/// The name and value of each member of a list of entries.
pub open spec fn entries_view(v: Seq<(String, String)>) -> Seq<(Seq<char>, Seq<char>)> {
    v.map_values(|p: (String, String)| (p.0@, p.1@))
}

/// The value of the first entry named `key`.
pub open spec fn lookup(entries: Seq<(Seq<char>, Seq<char>)>, key: Seq<char>) -> Option<Seq<char>>
    decreases entries.len(),
{
    if entries.len() == 0 {
        None
    } else if entries[0].0 == key {
        Some(entries[0].1)
    } else {
        lookup(entries.drop_first(), key)
    }
}

/// The text of an optional string.
pub open spec fn opt_view(s: Option<String>) -> Option<Seq<char>> {
    match s {
        Some(t) => Some(t@),
        None => None,
    }
}

/// The value of the first entry named `key`.
pub fn find_entry(entries: &Vec<(String, String)>, key: &str) -> (r: Option<String>)
    ensures
        opt_view(r) == lookup(entries_view(entries@), key@),
{
    let mut i: usize = 0;
    assert(entries_view(entries@).subrange(0, entries.len() as int) =~= entries_view(entries@));
    while i < entries.len()
        invariant
            i <= entries.len(),
            lookup(entries_view(entries@), key@) == lookup(
                entries_view(entries@).subrange(i as int, entries.len() as int),
                key@,
            ),
        decreases entries.len() - i,
    {
        let ghost rest = entries_view(entries@).subrange(i as int, entries.len() as int);
        if text_eq(entries[i].0.as_str(), key) {
            return Some(entries[i].1.clone());
        }
        assert(rest.drop_first() =~= entries_view(entries@).subrange(i + 1, entries.len() as int));
        i = i + 1;
    }
    None
}

impl Directory {
    /// Reads the endpoint map from the members of a directory document (name
    /// and URL) and its `meta` block. Fails with a protocol error where
    /// `newAccount` or `newOrder` is missing.
    pub fn from_entries(entries: &Vec<(String, String)>, meta: DirectoryMeta) -> (r: Result<Directory, AcmeError>)
        ensures
            r is Err <==> (lookup(entries_view(entries@), "newAccount"@) is None || lookup(
                entries_view(entries@),
                "newOrder"@,
            ) is None),
            r matches Err(e) ==> e is Protocol,
            r matches Ok(d) ==> {
                &&& lookup(entries_view(entries@), "newAccount"@) == Some(d.new_account@)
                &&& lookup(entries_view(entries@), "newOrder"@) == Some(d.new_order@)
                &&& lookup(entries_view(entries@), "newNonce"@) == opt_view(d.new_nonce)
                &&& d.terms_of_service == meta.terms_of_service
                &&& d.external_account_required == meta.external_account_required
            },
    {
        let new_account = find_entry(entries, "newAccount");
        let new_order = find_entry(entries, "newOrder");
        let new_nonce = find_entry(entries, "newNonce");
        match (new_account, new_order) {
            (Some(new_account), Some(new_order)) => Ok(Directory {
                new_nonce,
                new_account,
                new_order,
                terms_of_service: meta.terms_of_service,
                external_account_required: meta.external_account_required,
            }),
            (None, _) => Err(AcmeError::Protocol(String::from_str("the directory has no newAccount endpoint"))),
            (_, None) => Err(AcmeError::Protocol(String::from_str("the directory has no newOrder endpoint"))),
        }
    }
}

} // verus!
