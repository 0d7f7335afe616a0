//! Saved accounts and the active one.

use vstd::prelude::*;

verus! {

/// A server account the user signed in to.
#[derive(Debug, Default)]
pub struct AccountConfig {
    pub id: String,
    pub provider: String,
    pub url: String,
    pub username: String,
}

impl AccountConfig {
    /// A field by field copy.
    pub fn duplicate(&self) -> (r: Self)
        ensures
            r == *self,
    {
        AccountConfig {
            id: self.id.clone(),
            provider: self.provider.clone(),
            url: self.url.clone(),
            username: self.username.clone(),
        }
    }
}

/// The settings kept between runs.
#[derive(Debug, Default)]
pub struct AppSettings {
    pub active_account_id: Option<String>,
    pub accounts: Vec<AccountConfig>,
}

} // verus!

verus! {

/// The accounts with another id than `id`, in order.
pub open spec fn other_accounts(accounts: Seq<AccountConfig>, id: Seq<char>) -> Seq<AccountConfig> {
    accounts.filter(|a: AccountConfig| a.id@ != id)
}

impl AppSettings {
    /// Makes `account` the active one, adding it unless an account with its
    /// id is already saved.
    pub fn remember_account(&mut self, account: AccountConfig)
        ensures
            final(self).active_account_id matches Some(i) && i@ == account.id@,
            if exists|i: int| 0 <= i < old(self).accounts@.len() && (#[trigger] old(self).accounts@[i]).id@
                == account.id@ {
                final(self).accounts@ == old(self).accounts@
            } else {
                final(self).accounts@ == old(self).accounts@.push(account)
            },
    {
        self.active_account_id = Some(account.id.clone());
        let mut i: usize = 0;
        let mut found = false;
        while i < self.accounts.len() && !found
            invariant
                i <= self.accounts.len(),
                self.accounts@ == old(self).accounts@,
                !found ==> forall|j: int| 0 <= j < i ==> (#[trigger] self.accounts@[j]).id@ != account.id@,
                found ==> exists|j: int| 0 <= j < self.accounts@.len() && (#[trigger] self.accounts@[j]).id@
                    == account.id@,
            decreases self.accounts.len() - i + (if found { 0int } else { 1int }),
        {
            if self.accounts[i].id == account.id {
                found = true;
            } else {
                i = i + 1;
            }
        }
        if !found {
            self.accounts.push(account);
        }
    }

    /// Forgets every account with id `id`; it stops being the active one.
    pub fn forget_account(&mut self, id: &str)
        ensures
            final(self).accounts@ == other_accounts(old(self).accounts@, id@),
            final(self).active_account_id == match old(self).active_account_id {
                Some(a) => if a@ == id@ { None } else { Some(a) },
                None => None,
            },
    {
        let mut kept: Vec<AccountConfig> = Vec::new();
        let mut i: usize = 0;
        while i < self.accounts.len()
            invariant
                i <= self.accounts.len(),
                self.accounts@ == old(self).accounts@,
                kept@ == other_accounts(self.accounts@.take(i as int), id@),
            decreases self.accounts.len() - i,
        {
            proof {
                reveal(Seq::filter);
                assert(self.accounts@.take(i as int + 1).drop_last() =~= self.accounts@.take(i as int));
            }
            if !crate::text::str_eq(self.accounts[i].id.as_str(), id) {
                kept.push(self.accounts[i].duplicate());
            }
            i = i + 1;
        }
        proof {
            assert(self.accounts@.take(self.accounts@.len() as int) =~= self.accounts@);
        }
        self.accounts = kept;
        let clear = match &self.active_account_id {
            Some(a) => crate::text::str_eq(a.as_str(), id),
            None => false,
        };
        if clear {
            self.active_account_id = None;
        }
    }
}

/// The highlighted entry once the account list holds `len` accounts: it
/// stays unless it is past the last account, then the last one (or the
/// first entry when none is left).
pub fn clamp_selection(selected: usize, len: usize) -> (r: usize)
    ensures
        r == if selected >= len {
            if len > 0 { (len - 1) as usize } else { 0usize }
        } else {
            selected
        },
{
    if selected >= len {
        if len > 0 { len - 1 } else { 0 }
    } else {
        selected
    }
}

/// Once an account is forgotten, no saved account has its id.
pub proof fn law_forgotten_account_is_gone(accounts: Seq<AccountConfig>, id: Seq<char>)
    ensures
        forall|k: int|
            0 <= k < other_accounts(accounts, id).len() ==> (#[trigger] other_accounts(accounts, id)[k]).id@ != id,
{
    accounts.filter_lemma(|a: AccountConfig| a.id@ != id);
}

} // verus!
