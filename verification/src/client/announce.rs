//! Announcements of which peer an account can be reached at, and the checks on them.
use vstd::prelude::*;
use crate::crypto::{
    announcement_hash, build_header_hash, hash, hash_of, name_fits, signature_holds, verify,
};
use crate::types::{AccountId, CryptoHash, PeerId, ReasonForBan, Signature};

verus! {

/// A peer that an announcement went through. The first one is the account's own peer.
#[derive(Clone, Copy, Debug, PartialEq, Eq)]
pub struct AnnounceAccountRoute {
    pub peer_id: PeerId,
    pub hash: CryptoHash,
    pub signature: Signature,
}

/// An announcement that an account can be reached at a peer during an epoch.
#[derive(Debug, PartialEq, Eq)]
pub struct AnnounceAccount {
    pub account_id: AccountId,
    pub epoch: CryptoHash,
    pub route: Vec<AnnounceAccountRoute>,
}

/// The hash of an announcement's header, as its account, its first peer and its epoch give it.
pub open spec fn header_hash_of(announce: AnnounceAccount) -> Seq<u8> {
    announcement_hash(
        announce.account_id@,
        announce.route@[0].peer_id.0.0@,
        announce.epoch.0@,
    )
}

/// The hash that the header of an announcement names is the right one.
pub open spec fn header_agrees(announce: AnnounceAccount) -> bool {
    header_hash_of(announce) == announce.route@[0].hash.0@
}

/// What is wrong with a peer that an announcement went through: its hash has to be that of the hash
/// before it and the peer's key, and it has to be signed with that key.
pub open spec fn hop_fault(previous_hash: CryptoHash, hop: AnnounceAccountRoute) -> Option<
    ReasonForBan,
> {
    if hash_of(previous_hash.0@ + hop.peer_id.0.0@) != hop.hash.0@ {
        Some(ReasonForBan::InvalidHash)
    } else if !signature_holds(hop.signature.0@, hop.hash.0@, hop.peer_id.0.0@) {
        Some(ReasonForBan::InvalidSignature)
    } else {
        None
    }
}

/// The first fault among the peers that an announcement went through, up to a given one.
pub open spec fn first_hop_fault(announce: AnnounceAccount, n: int) -> Option<ReasonForBan>
    decreases n,
{
    if n <= 1 {
        None
    } else {
        match first_hop_fault(announce, n - 1) {
            Some(fault) => Some(fault),
            None => hop_fault(announce.route@[n - 2].hash, announce.route@[n - 1]),
        }
    }
}

/// What is wrong with an announcement, given whether its header is signed by the account.
pub open spec fn announce_fault(
    announce: AnnounceAccount,
    header_signature_is_valid: bool,
) -> Option<ReasonForBan> {
    if !header_agrees(announce) {
        Some(ReasonForBan::InvalidHash)
    } else if !header_signature_is_valid {
        Some(ReasonForBan::InvalidSignature)
    } else {
        first_hop_fault(announce, announce.route@.len() as int)
    }
}

proof fn lemma_hop_fault_of_prefix(announce: AnnounceAccount, n: int, m: int)
    requires
        n <= m,
        first_hop_fault(announce, n) is Some,
    ensures
        first_hop_fault(announce, m) == first_hop_fault(announce, n),
    decreases m - n,
{
    if n < m {
        lemma_hop_fault_of_prefix(announce, n + 1, m);
    }
}

/// The hash of the hash before a peer and the peer's key.
fn hop_hash(previous_hash: &CryptoHash, peer_id: &PeerId) -> (r: CryptoHash)
    ensures
        r.0@ == hash_of(previous_hash.0@ + peer_id.0.0@),
{
    let mut bytes: Vec<u8> = Vec::new();
    let mut i: usize = 0;
    while i < 32
        invariant
            i <= 32,
            bytes@ == previous_hash.0@.take(i as int),
        decreases 32 - i,
    {
        bytes.push(previous_hash.0[i]);
        i += 1;
        assert(previous_hash.0@.take(i as int) =~= previous_hash.0@.take(i - 1).push(
            previous_hash.0@[i - 1],
        ));
    }
    assert(previous_hash.0@.take(i as int) =~= previous_hash.0@);
    let mut j: usize = 0;
    assert(previous_hash.0@ + peer_id.0.0@.take(0) =~= previous_hash.0@);
    while j < 32
        invariant
            j <= 32,
            bytes@ == previous_hash.0@ + peer_id.0.0@.take(j as int),
        decreases 32 - j,
    {
        bytes.push(peer_id.0.0[j]);
        j += 1;
        assert(peer_id.0.0@.take(j as int) =~= peer_id.0.0@.take(j - 1).push(
            peer_id.0.0@[j - 1],
        ));
    }
    assert(peer_id.0.0@.take(j as int) =~= peer_id.0.0@);
    hash(&bytes)
}

/// Two hashes of the same bytes are the same hash.
pub proof fn lemma_same_bytes(a: CryptoHash, b: CryptoHash)
    ensures
        (a.0@ == b.0@) == (a == b),
{
    if a.0@ == b.0@ {
        assert(a.0 =~= b.0);
    }
}

/// Is this the signature of this hash by this account, as a validator of this epoch?
#[derive(Debug, PartialEq, Eq)]
pub struct SignatureQuestion {
    pub epoch_hash: CryptoHash,
    pub account_id: AccountId,
    pub hash: CryptoHash,
    pub signature: Signature,
}

impl AnnounceAccount {
    /// What to ask in order to know whether the account itself has signed the announcement.
    pub fn signature_question(&self) -> (r: SignatureQuestion)
        requires
            self.route@.len() > 0,
        ensures
            r == (SignatureQuestion {
                epoch_hash: self.epoch,
                account_id: self.account_id,
                hash: self.route@[0].hash,
                signature: self.route@[0].signature,
            }),
    {
        SignatureQuestion {
            epoch_hash: self.epoch,
            account_id: self.account_id.clone(),
            hash: self.route[0].hash,
            signature: self.route[0].signature,
        }
    }

    /// The announcement that an account's own peer makes.
    pub fn new(
        account_id: AccountId,
        epoch: CryptoHash,
        peer_id: PeerId,
        hash: CryptoHash,
        signature: Signature,
    ) -> (r: AnnounceAccount)
        ensures
            r.account_id == account_id,
            r.epoch == epoch,
            r.route@ == seq![AnnounceAccountRoute { peer_id, hash, signature }],
    {
        let mut route: Vec<AnnounceAccountRoute> = Vec::new();
        route.push(AnnounceAccountRoute { peer_id, hash, signature });
        assert(route@ =~= seq![AnnounceAccountRoute { peer_id, hash, signature }]);
        AnnounceAccount { account_id, epoch, route }
    }

    /// The hash that the account has to have signed, or the reason to ban the sender where the
    /// header names another hash.
    pub fn header_hash(&self) -> (r: Result<CryptoHash, ReasonForBan>)
        requires
            self.route@.len() > 0,
            name_fits(self.account_id@),
        ensures
            r == (if header_agrees(*self) {
                Ok(self.route@[0].hash)
            } else {
                Err(ReasonForBan::InvalidHash)
            }),
    {
        let header = self.route[0];
        let header_hash = build_header_hash(&self.account_id, &header.peer_id, &self.epoch);
        proof {
            lemma_same_bytes(header_hash, header.hash);
        }
        if header_hash != header.hash {
            Err(ReasonForBan::InvalidHash)
        } else {
            Ok(header_hash)
        }
    }
}

/// Checks an announcement: its header's hash, the account's signature of it, and each peer that
/// it went through, whose hash has to cover that of the peer before it. Whether the account's
/// signature holds is for the validators of the epoch to say, and is the answer to
/// [`AnnounceAccount::signature_question`].
pub fn check_signature_account_announce(
    announce_account: &AnnounceAccount,
    header_signature_is_valid: bool,
) -> (r: Result<(), ReasonForBan>)
    requires
        announce_account.route@.len() > 0,
        name_fits(announce_account.account_id@),
    ensures
        r == (match announce_fault(*announce_account, header_signature_is_valid) {
            None => Ok(()),
            Some(reason) => Err(reason),
        }),
{
    let header_hash = match announce_account.header_hash() {
        Ok(header_hash) => header_hash,
        Err(reason) => {
            return Err(reason);
        },
    };
    if !header_signature_is_valid {
        return Err(ReasonForBan::InvalidSignature);
    }
    let ghost n = announce_account.route@.len() as int;
    let mut previous_hash = header_hash;
    // The first element is the header.
    let mut i: usize = 1;
    while i < announce_account.route.len()
        invariant
            1 <= i <= n,
            n == announce_account.route@.len(),
            previous_hash == announce_account.route@[i - 1].hash,
            header_agrees(*announce_account),
            header_signature_is_valid,
            first_hop_fault(*announce_account, i as int) is None,
        decreases n - i,
    {
        let hop = announce_account.route[i];
        let current_hash = hop_hash(&previous_hash, &hop.peer_id);
        i += 1;
        proof {
            lemma_same_bytes(current_hash, hop.hash);
            if first_hop_fault(*announce_account, i as int) is Some {
                lemma_hop_fault_of_prefix(*announce_account, i as int, n);
            }
        }
        if current_hash != hop.hash {
            return Err(ReasonForBan::InvalidHash);
        }
        if !verify(&hop.hash, &hop.signature, &hop.peer_id.0) {
            return Err(ReasonForBan::InvalidSignature);
        }
        previous_hash = hop.hash;
    }
    Ok(())
}

/// What a node announces of itself passes the check of others, as long as the account's signature
/// holds.
pub proof fn law_own_announcement_is_accepted(
    announce: AnnounceAccount,
    peer_id: PeerId,
    hash: CryptoHash,
    signature: Signature,
)
    requires
        announce.route@ == seq![AnnounceAccountRoute { peer_id, hash, signature }],
        announcement_hash(announce.account_id@, peer_id.0.0@, announce.epoch.0@) == hash.0@,
    ensures
        announce_fault(announce, true) is None,
        announce_fault(announce, false) == Some(ReasonForBan::InvalidSignature),
{
}

/// A peer that an announcement went through is in order: its hash covers that of the peer before
/// it, and it has signed that hash.
pub open spec fn hop_is_sound(announce: AnnounceAccount, i: int) -> bool {
    let hop = announce.route@[i];
    &&& hop.hash.0@ == hash_of(announce.route@[i - 1].hash.0@ + hop.peer_id.0.0@)
    &&& signature_holds(hop.signature.0@, hop.hash.0@, hop.peer_id.0.0@)
}

/// An announcement is accepted exactly if its header names the right hash and is signed by the
/// account, and every peer that it went through is in order.
pub proof fn law_announcement_is_a_chain(announce: AnnounceAccount, header_signature_is_valid: bool)
    ensures
        announce_fault(announce, header_signature_is_valid) is None <==> {
            &&& header_agrees(announce)
            &&& header_signature_is_valid
            &&& forall|i: int|
                1 <= i < announce.route@.len() ==> #[trigger] hop_is_sound(announce, i)
        },
{
    lemma_sound_hops(announce, announce.route@.len() as int);
}

proof fn lemma_sound_hops(announce: AnnounceAccount, n: int)
    ensures
        first_hop_fault(announce, n) is None <==> (forall|i: int|
            1 <= i < n ==> #[trigger] hop_is_sound(announce, i)),
    decreases n,
{
    if n > 1 {
        lemma_sound_hops(announce, n - 1);
        assert(hop_is_sound(announce, n - 1) <==> hop_fault(
            announce.route@[n - 2].hash,
            announce.route@[n - 1],
        ) is None);
    }
}

/// An announcement is accepted exactly if its header names the hash of its account, its first peer
/// and its epoch, the account has signed that hash, and each further peer names the hash of the
/// hash before it and its own key, and has signed that with this key.
pub proof fn law_every_peer_covers_the_one_before(
    announce: AnnounceAccount,
    header_signature_is_valid: bool,
)
    ensures
        announce_fault(announce, header_signature_is_valid) is None <==> {
            let route = announce.route@;
            &&& announcement_hash(
                announce.account_id@,
                route[0].peer_id.0.0@,
                announce.epoch.0@,
            ) == route[0].hash.0@
            &&& header_signature_is_valid
            &&& forall|i: int|
                1 <= i < route.len() ==> {
                    let hop = #[trigger] route[i];
                    &&& hop.hash.0@ == hash_of(route[i - 1].hash.0@ + hop.peer_id.0.0@)
                    &&& signature_holds(hop.signature.0@, hop.hash.0@, hop.peer_id.0.0@)
                }
        },
{
    let route = announce.route@;
    lemma_sound_hops(announce, route.len() as int);
    if forall|i: int| 1 <= i < route.len() ==> #[trigger] hop_is_sound(announce, i) {
        assert forall|i: int| 1 <= i < route.len() implies ({
            let hop = #[trigger] route[i];
            &&& hop.hash.0@ == hash_of(route[i - 1].hash.0@ + hop.peer_id.0.0@)
            &&& signature_holds(hop.signature.0@, hop.hash.0@, hop.peer_id.0.0@)
        }) by {
            assert(hop_is_sound(announce, i));
        }
    }
    if forall|i: int|
        1 <= i < route.len() ==> {
            let hop = #[trigger] route[i];
            &&& hop.hash.0@ == hash_of(route[i - 1].hash.0@ + hop.peer_id.0.0@)
            &&& signature_holds(hop.signature.0@, hop.hash.0@, hop.peer_id.0.0@)
        } {
        assert forall|i: int| 1 <= i < route.len() implies #[trigger] hop_is_sound(
            announce,
            i,
        ) by {
            let hop = route[i];
        }
    }
}

/// The first thing that is wrong with an announcement is the reason for which its sender is banned:
/// a header with another hash, then a header that the account has not signed, then the first peer
/// on the way that is not in order, whose hash counts before its signature.
pub proof fn law_first_wrong_peer_is_the_reason(
    announce: AnnounceAccount,
    header_signature_is_valid: bool,
    at: int,
)
    ensures
        ({
            let route = announce.route@;
            let fault = announce_fault(announce, header_signature_is_valid);
            let header_is_right = announcement_hash(
                announce.account_id@,
                route[0].peer_id.0.0@,
                announce.epoch.0@,
            ) == route[0].hash.0@;
            let hash_is_right = route[at].hash.0@ == hash_of(
                route[at - 1].hash.0@ + route[at].peer_id.0.0@,
            );
            let signature_is_right = signature_holds(
                route[at].signature.0@,
                route[at].hash.0@,
                route[at].peer_id.0.0@,
            );
            &&& !header_is_right ==> fault == Some(ReasonForBan::InvalidHash)
            &&& header_is_right && !header_signature_is_valid ==> fault == Some(
                ReasonForBan::InvalidSignature,
            )
            &&& header_is_right && header_signature_is_valid && 1 <= at < route.len() && (
            forall|i: int|
                1 <= i < at ==> {
                    let hop = #[trigger] route[i];
                    &&& hop.hash.0@ == hash_of(route[i - 1].hash.0@ + hop.peer_id.0.0@)
                    &&& signature_holds(hop.signature.0@, hop.hash.0@, hop.peer_id.0.0@)
                }) ==> {
                &&& !hash_is_right ==> fault == Some(ReasonForBan::InvalidHash)
                &&& hash_is_right && !signature_is_right ==> fault == Some(
                    ReasonForBan::InvalidSignature,
                )
            }
        }),
{
    let route = announce.route@;
    if 1 <= at < route.len() && (forall|i: int|
        1 <= i < at ==> {
            let hop = #[trigger] route[i];
            &&& hop.hash.0@ == hash_of(route[i - 1].hash.0@ + hop.peer_id.0.0@)
            &&& signature_holds(hop.signature.0@, hop.hash.0@, hop.peer_id.0.0@)
        }) {
        assert forall|i: int| 1 <= i < at implies #[trigger] hop_is_sound(announce, i) by {
            let hop = route[i];
        }
        lemma_sound_hops(announce, at);
        if first_hop_fault(announce, at + 1) is Some {
            lemma_hop_fault_of_prefix(announce, at + 1, route.len() as int);
        }
    }
}

} // verus!
