use vstd::prelude::*;

use crate::address::Address;
use crate::address_map::AddressMap;

verus! {

/// The largest uptime, in basis points (100.00%), that the oracle vouches for.
pub const MAX_UPTIME_BPS: u64 = 10000;

/// Why the oracle refused a change.
#[derive(Clone, Copy, Debug, PartialEq, Eq)]
pub enum OracleError {
    /// The caller is not the oracle's administrator.
    Unauthorized,
}

/// The state of an initialized uptime oracle: its administrator and the
/// signers whose reports it vouches for.
pub struct MockOracle {
    admin: Address,
    signers: AddressMap<bool>,
}

impl MockOracle {
    /// The oracle's administrator.
    pub closed spec fn admin_key(&self) -> Seq<u8> {
        self.admin@
    }

    /// The signers table: each authorized signer is bound to `true`.
    pub closed spec fn signers_map(&self) -> Map<Seq<u8>, bool> {
        self.signers@
    }

    /// Whether the oracle vouches for reports about `node`.
    pub open spec fn is_authorized(&self, node: Seq<u8>) -> bool {
        self.signers_map().contains_key(node) && self.signers_map()[node]
    }

    /// Whether the oracle accepts a report of `uptime` about `node`.
    pub open spec fn accepts(&self, node: Seq<u8>, uptime: u64) -> bool {
        self.is_authorized(node) && uptime <= MAX_UPTIME_BPS
    }

    /// A fresh oracle administered by `admin`, with no authorized signers.
    pub fn initialize(admin: Address) -> (o: Self)
        ensures
            o.admin_key() == admin@,
            o.signers_map() == Map::<Seq<u8>, bool>::empty(),
    {
        MockOracle { admin, signers: AddressMap::new() }
    }

    /// The oracle as its stored entries describe it: `admin` and the table
    /// of signers.
    pub fn from_parts(admin: Address, signers: AddressMap<bool>) -> (o: Self)
        ensures
            o.admin_key() == admin@,
            o.signers_map() == signers@,
    {
        MockOracle { admin, signers }
    }

    /// Authorizes `signer`, provided `admin` is the oracle's administrator.
    pub fn authorize_signer(&mut self, admin: &Address, signer: Address) -> (r: Result<
        (),
        OracleError,
    >)
        ensures
            r is Err <==> admin@ != old(self).admin_key(),
            r is Err ==> r == Err::<(), OracleError>(OracleError::Unauthorized) && *final(self)
                == *old(self),
            r is Ok ==> final(self).admin_key() == old(self).admin_key() && final(self).signers_map()
                == old(self).signers_map().insert(signer@, true),
    {
        if !admin.same_as(&self.admin) {
            return Err(OracleError::Unauthorized);
        }
        self.signers.set(signer, true);
        Ok(())
    }

    /// Whether the oracle vouches for a report of `uptime` about `node`: the
    /// node must be an authorized signer and the uptime at most 100%.
    /// The timestamp and signature of the report are not examined.
    pub fn verify(&self, node: &Address, uptime: u64, timestamp: u64, signature: &[u8; 64]) -> (r:
        bool)
        ensures
            r == self.accepts(node@, uptime),
    {
        let authorized = match self.signers.get(node) {
            Some(flag) => flag,
            None => false,
        };
        authorized && uptime <= MAX_UPTIME_BPS
    }
}

/// Once the administrator authorizes a signer, the oracle accepts its reports
/// of at most 100% uptime, and every signer authorized before stays so.
pub proof fn lemma_authorized_signer_is_accepted(
    before: MockOracle,
    after: MockOracle,
    signer: Seq<u8>,
    uptime: u64,
)
    requires
        after.signers_map() == before.signers_map().insert(signer, true),
        uptime <= MAX_UPTIME_BPS,
    ensures
        after.accepts(signer, uptime),
        forall|other: Seq<u8>| before.is_authorized(other) ==> after.is_authorized(other),
{
}

/// The oracle accepts no uptime above 100%, and no report about a node that
/// is not an authorized signer; a fresh oracle accepts no report at all.
pub proof fn lemma_oracle_rejects(o: MockOracle, node: Seq<u8>, uptime: u64)
    ensures
        uptime > MAX_UPTIME_BPS ==> !o.accepts(node, uptime),
        !o.is_authorized(node) ==> !o.accepts(node, uptime),
        o.signers_map() == Map::<Seq<u8>, bool>::empty() ==> !o.accepts(node, uptime),
{
}

} // verus!
