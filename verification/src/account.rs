//! The account model: an externally supplied byte region identified by a
//! 32-byte address and annotated with writability and signer flags. The core
//! never allocates accounts; it validates and mutates the ones handed to it
//! in a fixed positional order per operation.

use vstd::prelude::*;

verus! {

/// The number of bytes in an account address.
pub const ADDRESS_LEN: usize = 32;

/// One account as an operation sees it: its address, its permission flags,
/// and the full contents of its storage region.
#[derive(Clone)]
pub struct AccountView {
    /// The 32-byte address naming this account.
    pub key: Vec<u8>,
    /// Whether the caller marked this account writable.
    pub is_writable: bool,
    /// Whether the controlling party signed the current operation.
    pub is_signer: bool,
    /// The account's storage: header (if any) followed by the payload region.
    pub data: Vec<u8>,
}

impl AccountView {
    /// An account is well formed when its address has the fixed length.
    pub open spec fn wf(self) -> bool {
        self.key@.len() == ADDRESS_LEN
    }
}

/// All accounts in a list are well formed.
pub open spec fn wf_accounts(accounts: Seq<AccountView>) -> bool {
    forall|i: int| 0 <= i < accounts.len() ==> (#[trigger] accounts[i]).wf()
}

/// Only the first account's contents changed, to `new_data`; its address and
/// flags, and every other account, are untouched. Every successful write
/// leaves the account list in this relation to its prior state.
pub open spec fn only_buffer_data_changed(
    pre: Seq<AccountView>,
    post: Seq<AccountView>,
    new_data: Seq<u8>,
) -> bool {
    &&& post.len() == pre.len()
    &&& (forall|i: int| 1 <= i < post.len() ==> post[i] == pre[i])
    &&& post[0].key == pre[0].key
    &&& post[0].is_writable == pre[0].is_writable
    &&& post[0].is_signer == pre[0].is_signer
    &&& post[0].data@ == new_data
}

/// Byte-for-byte equality of two byte vectors.
pub fn bytes_eq(a: &Vec<u8>, b: &Vec<u8>) -> (r: bool)
    ensures
        r == (a@ == b@),
{
    if a.len() != b.len() {
        proof {
            assert(a@ != b@);
        }
        return false;
    }
    let mut i: usize = 0;
    while i < a.len()
        invariant
            i <= a@.len(),
            a@.len() == b@.len(),
            forall|k: int| 0 <= k < i ==> a@[k] == b@[k],
        decreases a@.len() - i,
    {
        if a[i] != b[i] {
            return false;
        }
        i += 1;
    }
    proof {
        assert(a@ =~= b@);
    }
    true
}

/// An owned copy of a byte vector.
pub fn clone_bytes(a: &Vec<u8>) -> (r: Vec<u8>)
    ensures
        r@ == a@,
{
    let mut r: Vec<u8> = Vec::new();
    let mut i: usize = 0;
    while i < a.len()
        invariant
            i <= a@.len(),
            r@ == a@.subrange(0, i as int),
        decreases a@.len() - i,
    {
        r.push(a[i]);
        proof {
            assert(r@ =~= a@.subrange(0, i + 1));
        }
        i += 1;
    }
    proof {
        assert(a@.subrange(0, a@.len() as int) =~= a@);
    }
    r
}

} // verus!
